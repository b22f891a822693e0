//! Properties that span several handlers or steps, proved from their contracts.

use vstd::prelude::*;
use vstd::utf8::encode_utf8;
use crate::flow::{
    Answer, AuthState, Call, Identity, LoginReply, LoginState, Next, Rejection, SignUpState,
    auth_transition, login_password_transition, login_transition, sign_up_transition,
};
use crate::model::User;
use crate::password::{bcrypt_verify, is_bcrypt_hash_at};
use crate::session::{session_entries, session_user_spec, user_key};
use crate::validation::{
    SignInUserRequest, SignUpUserRequest, Validate, is_ascii_lower, is_ascii_upper, is_numeric, password_ok,
};
use crate::error::AppError;

verus! {

/// A sign-up form is accepted exactly when its display id and user name are
/// not empty and its password passes the password rule.
pub proof fn lemma_sign_up_rules(request: SignUpUserRequest)
    ensures
        request.validation_errors().len() == 0 <==> {
            &&& request.display_id@.len() >= 1
            &&& request.username@.len() >= 1
            &&& password_ok(request.password@)
        },
{
}

/// A sign-up creates a user only after the database said that no user has the
/// requested display id, and the user it creates has that display id.
pub proof fn lemma_sign_up_creates_only_free_ids(
    state: SignUpState,
    answer: Answer,
    r: (SignUpState, Next<(), AppError>),
    user: User,
)
    requires
        sign_up_transition(state, answer, r),
        r.1 == Next::<(), AppError>::Call(Call::CreateUser(user)),
    ensures
        state matches SignUpState::AwaitingLookup { request, .. } && user.display_id
            == request.display_id,
        answer matches Answer::UserLookup(Ok(None)),
{
}

/// The password hash that a sign-up stores lets a later login with the same
/// password through: the login goes on to store a session that names the
/// user's id, and the stored hash is a bcrypt hash at the sign-up's cost.
pub proof fn lemma_signed_up_password_passes_login(
    state: SignUpState,
    answer: Answer,
    r: (SignUpState, Next<(), AppError>),
    display_id: String,
    hashed_pass: String,
    user: User,
    login: (LoginState, Next<LoginReply, AppError>),
)
    requires
        sign_up_transition(state, answer, r),
        r.1 == Next::<(), AppError>::Call(Call::SavePassword { display_id, hashed_pass }),
        state matches SignUpState::AwaitingCreate { password, .. } && login_password_transition(
            password@,
            hashed_pass@,
            user,
            login,
        ),
    ensures
        state matches SignUpState::AwaitingCreate { cost, .. } && is_bcrypt_hash_at(
            hashed_pass@,
            cost,
        ),
        login.0 is AwaitingStore,
        login.1 matches Next::Call(Call::StoreSession(s)) && session_user_spec(s) == Some(
            user.id@,
        ),
{
}

/// A session that a login stores for a user, once loaded back with the same
/// entries, lets a request through the authentication layer as that user.
pub proof fn lemma_login_session_authenticates(
    password: Seq<char>,
    hash: Seq<char>,
    user: User,
    login: (LoginState, Next<LoginReply, AppError>),
    stored: async_session::Session,
    loaded: async_session::Session,
    session_id: String,
    auth: (AuthState, Next<Identity, Rejection>),
)
    requires
        login_password_transition(password, hash, user, login),
        login.1 == Next::<LoginReply, AppError>::Call(Call::StoreSession(stored)),
        session_entries(loaded) == session_entries(stored),
        auth_transition(
            AuthState::AwaitingSession { session_id },
            Answer::LoadedSession(Ok(Some(loaded))),
            auth,
        ),
    ensures
        auth.1 matches Next::Reply(Ok(id)) && id.display_id.display_id@ == user.id@
            && id.session_id.session_id == session_id,
{
    assert(session_user_spec(loaded) == session_user_spec(stored));
}

/// The UTF-8 encoding of two texts one after the other is the encoding of the
/// first followed by that of the second.
pub proof fn lemma_encode_utf8_concat(a: Seq<char>, b: Seq<char>)
    ensures
        encode_utf8(a + b) == encode_utf8(a) + encode_utf8(b),
    decreases a.len(),
{
    if a.len() == 0 {
        assert(a + b =~= b);
    } else {
        lemma_encode_utf8_concat(a.drop_first(), b);
        assert((a + b).drop_first() =~= a.drop_first() + b);
        assert((a + b)[0] == a[0]);
        assert(encode_utf8(a + b) =~= encode_utf8(a) + encode_utf8(b));
    }
}

/// A good password stays good with any text written before or after it.
pub proof fn lemma_password_rule_monotone(p: Seq<char>, s: Seq<char>)
    requires
        password_ok(p),
    ensures
        password_ok(p + s),
        password_ok(s + p),
{
    lemma_encode_utf8_concat(p, s);
    lemma_encode_utf8_concat(s, p);
    let iu = choose|i: int| 0 <= i < p.len() && is_ascii_upper(#[trigger] p[i]);
    let il = choose|i: int| 0 <= i < p.len() && is_ascii_lower(#[trigger] p[i]);
    let inum = choose|i: int| 0 <= i < p.len() && is_numeric(#[trigger] p[i]);
    assert((p + s)[iu] == p[iu]);
    assert((p + s)[il] == p[il]);
    assert((p + s)[inum] == p[inum]);
    assert((s + p)[s.len() + iu] == p[iu]);
    assert((s + p)[s.len() + il] == p[il]);
    assert((s + p)[s.len() + inum] == p[inum]);
}

/// The stage a sign-up has reached; every step moves to a later one.
pub open spec fn sign_up_stage(s: SignUpState) -> int {
    match s {
        SignUpState::AwaitingLookup { .. } => 0,
        SignUpState::AwaitingCreate { .. } => 1,
        SignUpState::AwaitingSave => 2,
        SignUpState::Finished => 3,
    }
}

/// A sign-up state that concerns display id `d`.
pub open spec fn sign_up_state_for(s: SignUpState, d: Seq<char>) -> bool {
    match s {
        SignUpState::AwaitingLookup { request, .. } => request.display_id@ == d,
        SignUpState::AwaitingCreate { display_id, .. } => display_id@ == d,
        _ => true,
    }
}

/// A call that a sign-up for display id `d` may make: a lookup of `d`, storing
/// a user with display id `d`, or storing the password hash of `d`. No
/// session, city or other user is touched.
pub open spec fn sign_up_call_for(c: Call, d: Seq<char>) -> bool {
    match c {
        Call::GetUserByDisplayId(x) => x@ == d,
        Call::CreateUser(u) => u.display_id@ == d,
        Call::SavePassword { display_id, .. } => display_id@ == d,
        _ => false,
    }
}

/// What a sign-up may write: every call of a sign-up for display id `d`
/// concerns `d` only; each step moves to a later stage, so the user is stored
/// at most once (leaving the lookup stage) and the password at most once
/// (leaving the create stage).
pub proof fn lemma_sign_up_writes(
    state: SignUpState,
    answer: Answer,
    r: (SignUpState, Next<(), AppError>),
    d: Seq<char>,
)
    requires
        sign_up_transition(state, answer, r),
        sign_up_state_for(state, d),
    ensures
        sign_up_state_for(r.0, d),
        sign_up_stage(r.0) > sign_up_stage(state),
        r.1 matches Next::Call(c) ==> sign_up_call_for(c, d),
        r.1 matches Next::Call(Call::CreateUser(_)) ==> state is AwaitingLookup,
        r.1 matches Next::Call(Call::SavePassword { .. }) ==> state is AwaitingCreate,
{
}

/// The stage a login has reached; every step moves to a later one.
pub open spec fn login_stage(s: LoginState) -> int {
    match s {
        LoginState::AwaitingUser { .. } => 0,
        LoginState::AwaitingHash { .. } => 1,
        LoginState::AwaitingStore => 2,
        LoginState::Finished => 3,
    }
}

/// A login state that concerns display id `d`.
pub open spec fn login_state_for(s: LoginState, d: Seq<char>) -> bool {
    match s {
        LoginState::AwaitingUser { request } => request.display_id@ == d,
        _ => true,
    }
}

/// A call that a login for display id `d` may make: reading the user or the
/// password hash of `d`, or storing one session. It writes no user, password
/// or city.
pub open spec fn login_call_for(c: Call, d: Seq<char>) -> bool {
    match c {
        Call::GetUserByDisplayId(x) => x@ == d,
        Call::GetHashedPassword(x) => x@ == d,
        Call::StoreSession(_) => true,
        _ => false,
    }
}

/// Access control and write set of a login: its only write is one session,
/// asked for only right after a user was found and bcrypt accepted the
/// password for the stored hash, and that session names the found user's id;
/// a successful reply comes only after that store.
pub proof fn lemma_login_writes(
    state: LoginState,
    answer: Answer,
    r: (LoginState, Next<LoginReply, AppError>),
    d: Seq<char>,
)
    requires
        login_transition(state, answer, r),
        login_state_for(state, d),
    ensures
        login_state_for(r.0, d),
        login_stage(r.0) > login_stage(state),
        r.1 matches Next::Call(c) ==> login_call_for(c, d),
        r.0 matches LoginState::AwaitingHash { user, .. } ==> (state is AwaitingUser
            && answer == Answer::UserLookup(Ok(Some(user)))),
        r.1 matches Next::Call(Call::StoreSession(s)) ==> {
            &&& state matches LoginState::AwaitingHash { password, user }
            &&& answer matches Answer::HashedPassword(Ok(h))
            &&& bcrypt_verify(password@, h@) == Some(true)
            &&& session_user_spec(s) == Some(user.id@)
        },
        r.1 matches Next::Reply(Ok(_)) ==> state is AwaitingStore,
{
}

/// A run of a login handler for `request`: the states it passes through, the
/// answers it was given, and what it did after each step (`nexts[0]` is what
/// the start did). Each step meets the login's transition rule.
pub open spec fn is_login_run(
    request: SignInUserRequest,
    states: Seq<LoginState>,
    answers: Seq<Answer>,
    nexts: Seq<Next<LoginReply, AppError>>,
) -> bool {
    &&& states.len() == answers.len() + 1
    &&& nexts.len() == answers.len() + 1
    &&& states[0] == (LoginState::AwaitingUser { request })
    &&& nexts[0] == Next::<LoginReply, AppError>::Call(Call::GetUserByDisplayId(request.display_id))
    &&& forall|k: int|
        #![trigger answers[k]]
        0 <= k < answers.len() ==> login_transition(
            states[k],
            answers[k],
            (states[k + 1], nexts[k + 1]),
        )
}

/// A login run that ends in a successful reply found a user for the requested
/// display id, read a stored hash that bcrypt accepts for the requested
/// password, and asked to store one session, naming that user's id and
/// nothing else, before replying.
pub proof fn lemma_login_run_success(
    request: SignInUserRequest,
    states: Seq<LoginState>,
    answers: Seq<Answer>,
    nexts: Seq<Next<LoginReply, AppError>>,
)
    requires
        is_login_run(request, states, answers, nexts),
        nexts.last() matches Next::Reply(Ok(_)),
    ensures
        answers.len() == 3,
        answers[0] matches Answer::UserLookup(Ok(Some(_))),
        answers[1] matches Answer::HashedPassword(Ok(h)) && bcrypt_verify(request.password@, h@)
            == Some(true),
        nexts[1] == Next::<LoginReply, AppError>::Call(
            Call::GetHashedPassword(request.display_id),
        ),
        nexts[2] matches Next::Call(Call::StoreSession(s)) && answers[0] matches Answer::UserLookup(
            Ok(Some(u)),
        ) && session_user_spec(s) == Some(u.id@) && session_entries(s).dom() == set![user_key()],
{
    let n = answers.len() as int;
    assert(n >= 1);
    assert(login_transition(states[0], answers[0], (states[1], nexts[1])));
    assert(states[1] is AwaitingHash) by {
        if states[1] is Finished {
            if n >= 2 {
                assert(login_transition(states[1], answers[1], (states[2], nexts[2])));
            }
        }
    }
    assert(n >= 2);
    assert(login_transition(states[1], answers[1], (states[2], nexts[2])));
    assert(states[2] is AwaitingStore) by {
        if states[2] is Finished {
            if n >= 3 {
                assert(login_transition(states[2], answers[2], (states[3], nexts[3])));
            }
        }
    }
    assert(n >= 3);
    assert(login_transition(states[2], answers[2], (states[3], nexts[3])));
    if n >= 4 {
        assert(login_transition(states[3], answers[3], (states[4], nexts[4])));
    }
}

} // verus!
