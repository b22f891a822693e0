//! The decisions of the HTTP handlers. Each handler is a small state machine:
//! it starts from the request, asks the database or the session store for one
//! thing at a time (`Call`), and from each answer (`Answer`) decides the next
//! call or the reply. The caller performs the calls and hands the answers back.

use vstd::prelude::*;
use crate::error::{AppError, BAD_REQUEST, INTERNAL_SERVER_ERROR, NOT_FOUND, UNAUTHORIZED};
use crate::model::{City, DisplayId, SessionId, User, is_uuid_v4_text, new_user};
use crate::password::{bcrypt_verify, hash_password, is_bcrypt_hash_at, verify_password};
use crate::session::{
    header_value_accepts, header_value_ok, new_login_session, session_cookie,
    session_cookie_spec, session_entries, session_user, session_user_spec, user_key,
};
use crate::validation::{SignInUserRequest, SignUpUserRequest};

verus! {

/// A failure reported by the database or the session store.
#[derive(Debug)]
pub struct DbError;

/// One request to the database or the session store.
pub enum Call {
    /// The user with this display id, if any.
    GetUserByDisplayId(String),
    /// The user with this id, if any.
    GetUserById(String),
    /// Store a new user.
    CreateUser(User),
    /// Store the password hash of a display id.
    SavePassword { display_id: String, hashed_pass: String },
    /// The stored password hash of a display id; no stored hash is a failure.
    GetHashedPassword(String),
    /// Store a session; the answer is its cookie value, if the store made one.
    StoreSession(async_session::Session),
    /// The session that a cookie value names, if any.
    LoadSession(String),
    /// Remove a session from the store.
    DestroySession(async_session::Session),
    /// The city with this name, if any.
    GetCityByName(String),
    /// Store a city and read it back by its name.
    CreateCity(City),
}

/// The answer to a `Call`.
pub enum Answer {
    /// To `GetUserByDisplayId` and `GetUserById`.
    UserLookup(Result<Option<User>, DbError>),
    /// To `CreateUser`, `SavePassword` and `DestroySession`.
    Written(Result<(), DbError>),
    /// To `GetHashedPassword`.
    HashedPassword(Result<String, DbError>),
    /// To `StoreSession`.
    StoredSession(Result<Option<String>, DbError>),
    /// To `LoadSession`.
    LoadedSession(Result<Option<async_session::Session>, DbError>),
    /// To `GetCityByName`.
    CityLookup(Result<Option<City>, DbError>),
    /// To `CreateCity`.
    CreatedCity(Result<City, DbError>),
}

/// The answer is of the kind that answers the call.
pub open spec fn answer_fits(c: Call, a: Answer) -> bool {
    match c {
        Call::GetUserByDisplayId(_) | Call::GetUserById(_) => a is UserLookup,
        Call::CreateUser(_) | Call::SavePassword { .. } | Call::DestroySession(_) => a is Written,
        Call::GetHashedPassword(_) => a is HashedPassword,
        Call::StoreSession(_) => a is StoredSession,
        Call::LoadSession(_) => a is LoadedSession,
        Call::GetCityByName(_) => a is CityLookup,
        Call::CreateCity(_) => a is CreatedCity,
    }
}

/// What a handler does next: a call, or its reply.
pub enum Next<T, E> {
    Call(Call),
    Reply(Result<T, E>),
}

/// The handler replies with this error status and message.
pub open spec fn is_error_reply<T>(n: Next<T, AppError>, status: u16, message: Seq<char>) -> bool {
    n matches Next::Reply(Err(e)) && e.status == status && e.response@ == message
}

fn fail<T>(status: u16, message: &str) -> (r: Next<T, AppError>)
    ensures
        is_error_reply(r, status, message@),
{
    Next::Reply(Err(AppError::new(status, message)))
}

// ---------------------------------------------------------------------------
// Sign-up

/// Where a sign-up stands.
pub enum SignUpState {
    /// Asked whether the display id is taken.
    AwaitingLookup { request: SignUpUserRequest, cost: u32 },
    /// Asked to store the new user.
    AwaitingCreate { display_id: String, password: String, cost: u32 },
    /// Asked to store the password hash.
    AwaitingSave,
    /// Replied.
    Finished,
}

/// The answer fits the call that this state waits for.
pub open spec fn sign_up_expects(state: SignUpState, answer: Answer) -> bool {
    match state {
        SignUpState::AwaitingLookup { .. } => answer is UserLookup,
        SignUpState::AwaitingCreate { .. } => answer is Written,
        SignUpState::AwaitingSave => answer is Written,
        SignUpState::Finished => false,
    }
}

/// What a sign-up does with an answer. A taken display id is refused; a free
/// one makes a user with a fresh id and the requested display id and name;
/// once stored, the password is hashed and the hash stored; each failure is
/// answered with its own message.
pub open spec fn sign_up_transition(
    state: SignUpState,
    answer: Answer,
    r: (SignUpState, Next<(), AppError>),
) -> bool {
    match state {
        SignUpState::AwaitingLookup { request, cost } => match answer {
            Answer::UserLookup(Err(_)) => r.0 is Finished && is_error_reply(
                r.1,
                INTERNAL_SERVER_ERROR,
                "Failed to get user"@,
            ),
            Answer::UserLookup(Ok(Some(_))) => r.0 is Finished && is_error_reply(
                r.1,
                BAD_REQUEST,
                "Display ID is already used"@,
            ),
            Answer::UserLookup(Ok(None)) => {
                &&& r.0 == (SignUpState::AwaitingCreate {
                    display_id: request.display_id,
                    password: request.password,
                    cost,
                })
                &&& r.1 matches Next::Call(Call::CreateUser(u))
                &&& u.display_id == request.display_id
                &&& u.username == request.username
                &&& is_uuid_v4_text(u.id@)
            },
            _ => false,
        },
        SignUpState::AwaitingCreate { display_id, password, cost } => match answer {
            Answer::Written(Err(_)) => r.0 is Finished && is_error_reply(
                r.1,
                INTERNAL_SERVER_ERROR,
                "Failed to create user"@,
            ),
            Answer::Written(Ok(())) => {
                ||| r.0 is Finished && is_error_reply(
                    r.1,
                    INTERNAL_SERVER_ERROR,
                    "Failed to save password"@,
                )
                ||| {
                    &&& 4 <= cost <= 31
                    &&& r.0 is AwaitingSave
                    &&& r.1 matches Next::Call(Call::SavePassword { display_id: d, hashed_pass: h })
                    &&& d == display_id
                    &&& bcrypt_verify(password@, h@) == Some(true)
                    &&& is_bcrypt_hash_at(h@, cost)
                }
            },
            _ => false,
        },
        SignUpState::AwaitingSave => match answer {
            Answer::Written(Err(_)) => r.0 is Finished && is_error_reply(
                r.1,
                INTERNAL_SERVER_ERROR,
                "Failed to save password"@,
            ),
            Answer::Written(Ok(())) => r.0 is Finished && r.1 == Next::<(), AppError>::Reply(Ok(())),
            _ => false,
        },
        SignUpState::Finished => false,
    }
}

/// Starts a sign-up of a validated request; `cost` is the bcrypt cost for the
/// password hash. The first step asks whether the display id is taken.
pub fn sign_up_start(request: SignUpUserRequest, cost: u32) -> (r: (SignUpState, Next<(), AppError>))
    ensures
        r.0 == (SignUpState::AwaitingLookup { request, cost }),
        r.1 == Next::<(), AppError>::Call(Call::GetUserByDisplayId(request.display_id)),
        forall|a: Answer| answer_fits(r.1->Call_0, a) ==> #[trigger] sign_up_expects(r.0, a),
{
    let display_id = request.display_id.clone();
    (SignUpState::AwaitingLookup { request, cost }, Next::Call(Call::GetUserByDisplayId(display_id)))
}

/// Takes a sign-up one step on from the answer to its last call.
pub fn sign_up_step(state: SignUpState, answer: Answer) -> (r: (SignUpState, Next<(), AppError>))
    requires
        sign_up_expects(state, answer),
    ensures
        sign_up_transition(state, answer, r),
        r.1 is Call ==> forall|a: Answer|
            answer_fits(r.1->Call_0, a) ==> #[trigger] sign_up_expects(r.0, a),
{
    match state {
        SignUpState::AwaitingLookup { request, cost } => match answer {
            Answer::UserLookup(Err(_)) => (
                SignUpState::Finished,
                fail(INTERNAL_SERVER_ERROR, "Failed to get user"),
            ),
            Answer::UserLookup(Ok(Some(_))) => (
                SignUpState::Finished,
                fail(BAD_REQUEST, "Display ID is already used"),
            ),
            Answer::UserLookup(Ok(None)) => {
                let SignUpUserRequest { display_id, username, password } = request;
                let user = new_user(display_id.clone(), username);
                (
                    SignUpState::AwaitingCreate { display_id, password, cost },
                    Next::Call(Call::CreateUser(user)),
                )
            },
            _ => (SignUpState::Finished, fail(INTERNAL_SERVER_ERROR, "Failed to get user")),
        },
        SignUpState::AwaitingCreate { display_id, password, cost } => match answer {
            Answer::Written(Err(_)) => (
                SignUpState::Finished,
                fail(INTERNAL_SERVER_ERROR, "Failed to create user"),
            ),
            Answer::Written(Ok(())) => match hash_password(password.as_str(), cost) {
                Ok(hashed_pass) => (
                    SignUpState::AwaitingSave,
                    Next::Call(Call::SavePassword { display_id, hashed_pass }),
                ),
                Err(_) => (
                    SignUpState::Finished,
                    fail(INTERNAL_SERVER_ERROR, "Failed to save password"),
                ),
            },
            _ => (SignUpState::Finished, fail(INTERNAL_SERVER_ERROR, "Failed to create user")),
        },
        SignUpState::AwaitingSave => match answer {
            Answer::Written(Err(_)) => (
                SignUpState::Finished,
                fail(INTERNAL_SERVER_ERROR, "Failed to save password"),
            ),
            _ => (SignUpState::Finished, Next::Reply(Ok(()))),
        },
        SignUpState::Finished => (SignUpState::Finished, Next::Reply(Ok(()))),
    }
}

// ---------------------------------------------------------------------------
// Login

/// Where a login stands.
pub enum LoginState {
    /// Asked for the user with the requested display id.
    AwaitingUser { request: SignInUserRequest },
    /// Asked for the stored password hash of that display id.
    AwaitingHash { password: String, user: User },
    /// Asked to store the new session.
    AwaitingStore,
    /// Replied.
    Finished,
}

/// A successful login: the `Set-Cookie` header text and where to redirect.
pub struct LoginReply {
    pub set_cookie: String,
    pub location: String,
}

/// The answer fits the call that this state waits for.
pub open spec fn login_expects(state: LoginState, answer: Answer) -> bool {
    match state {
        LoginState::AwaitingUser { .. } => answer is UserLookup,
        LoginState::AwaitingHash { .. } => answer is HashedPassword,
        LoginState::AwaitingStore => answer is StoredSession,
        LoginState::Finished => false,
    }
}

/// What a login does with the stored hash of the user's password: a hash that
/// cannot be read is an internal error, a wrong password is refused, and a
/// right one makes a session that names the user's id and asks to store it.
pub open spec fn login_password_transition(
    password: Seq<char>,
    hash: Seq<char>,
    user: User,
    r: (LoginState, Next<LoginReply, AppError>),
) -> bool {
    match bcrypt_verify(password, hash) {
        None => r.0 is Finished && is_error_reply(
            r.1,
            INTERNAL_SERVER_ERROR,
            "Failed to verify password"@,
        ),
        Some(false) => r.0 is Finished && is_error_reply(
            r.1,
            UNAUTHORIZED,
            "Password is incorrect"@,
        ),
        Some(true) => {
            &&& r.0 is AwaitingStore
            &&& r.1 matches Next::Call(Call::StoreSession(s))
            &&& session_user_spec(s) == Some(user.id@)
            &&& session_entries(s).dom() == set![user_key()]
        },
    }
}

/// What a login does with an answer.
pub open spec fn login_transition(
    state: LoginState,
    answer: Answer,
    r: (LoginState, Next<LoginReply, AppError>),
) -> bool {
    match state {
        LoginState::AwaitingUser { request } => match answer {
            Answer::UserLookup(Err(_)) => r.0 is Finished && is_error_reply(
                r.1,
                INTERNAL_SERVER_ERROR,
                "Failed to get user"@,
            ),
            Answer::UserLookup(Ok(None)) => r.0 is Finished && is_error_reply(
                r.1,
                UNAUTHORIZED,
                "User does not exist"@,
            ),
            Answer::UserLookup(Ok(Some(user))) => {
                &&& r.0 == (LoginState::AwaitingHash { password: request.password, user })
                &&& r.1 == Next::<LoginReply, AppError>::Call(
                    Call::GetHashedPassword(request.display_id),
                )
            },
            _ => false,
        },
        LoginState::AwaitingHash { password, user } => match answer {
            Answer::HashedPassword(Err(_)) => r.0 is Finished && is_error_reply(
                r.1,
                INTERNAL_SERVER_ERROR,
                "Failed to verify password"@,
            ),
            Answer::HashedPassword(Ok(hash)) => login_password_transition(
                password@,
                hash@,
                user,
                r,
            ),
            _ => false,
        },
        LoginState::AwaitingStore => match answer {
            Answer::StoredSession(Ok(Some(value))) => {
                &&& r.0 is Finished
                &&& if header_value_ok(session_cookie_spec(value@)) {
                    r.1 matches Next::Reply(Ok(reply)) && reply.set_cookie@ == session_cookie_spec(
                        value@,
                    ) && reply.location@ == "/me"@
                } else {
                    is_error_reply(r.1, INTERNAL_SERVER_ERROR, "Failed to create cookie"@)
                }
            },
            Answer::StoredSession(_) => r.0 is Finished && is_error_reply(
                r.1,
                INTERNAL_SERVER_ERROR,
                "Failed to create session"@,
            ),
            _ => false,
        },
        LoginState::Finished => false,
    }
}

/// Starts a login with a validated request: the first step asks for the user
/// with the requested display id.
pub fn login_start(request: SignInUserRequest) -> (r: (LoginState, Next<LoginReply, AppError>))
    ensures
        r.0 == (LoginState::AwaitingUser { request }),
        r.1 == Next::<LoginReply, AppError>::Call(Call::GetUserByDisplayId(request.display_id)),
        forall|a: Answer| answer_fits(r.1->Call_0, a) ==> #[trigger] login_expects(r.0, a),
{
    let display_id = request.display_id.clone();
    (LoginState::AwaitingUser { request }, Next::Call(Call::GetUserByDisplayId(display_id)))
}

fn login_reply(value: String) -> (r: Next<LoginReply, AppError>)
    ensures
        if header_value_ok(session_cookie_spec(value@)) {
            r matches Next::Reply(Ok(reply)) && reply.set_cookie@ == session_cookie_spec(value@)
                && reply.location@ == "/me"@
        } else {
            is_error_reply(r, INTERNAL_SERVER_ERROR, "Failed to create cookie"@)
        },
{
    let cookie = session_cookie(value.as_str());
    if header_value_accepts(cookie.as_str()) {
        Next::Reply(Ok(LoginReply { set_cookie: cookie, location: "/me".to_owned() }))
    } else {
        fail(INTERNAL_SERVER_ERROR, "Failed to create cookie")
    }
}

/// Takes a login one step on from the answer to its last call.
pub fn login_step(state: LoginState, answer: Answer) -> (r: (LoginState, Next<LoginReply, AppError>))
    requires
        login_expects(state, answer),
    ensures
        login_transition(state, answer, r),
        r.1 is Call ==> forall|a: Answer|
            answer_fits(r.1->Call_0, a) ==> #[trigger] login_expects(r.0, a),
{
    match state {
        LoginState::AwaitingUser { request } => match answer {
            Answer::UserLookup(Err(_)) => (
                LoginState::Finished,
                fail(INTERNAL_SERVER_ERROR, "Failed to get user"),
            ),
            Answer::UserLookup(Ok(None)) => (
                LoginState::Finished,
                fail(UNAUTHORIZED, "User does not exist"),
            ),
            Answer::UserLookup(Ok(Some(user))) => {
                let SignInUserRequest { display_id, password } = request;
                (
                    LoginState::AwaitingHash { password, user },
                    Next::Call(Call::GetHashedPassword(display_id)),
                )
            },
            _ => (LoginState::Finished, fail(INTERNAL_SERVER_ERROR, "Failed to get user")),
        },
        LoginState::AwaitingHash { password, user } => match answer {
            Answer::HashedPassword(Ok(hash)) => match verify_password(
                password.as_str(),
                hash.as_str(),
            ) {
                Err(_) => (
                    LoginState::Finished,
                    fail(INTERNAL_SERVER_ERROR, "Failed to verify password"),
                ),
                Ok(false) => (
                    LoginState::Finished,
                    fail(UNAUTHORIZED, "Password is incorrect"),
                ),
                Ok(true) => match new_login_session(user.id) {
                    Ok(session) => (LoginState::AwaitingStore, Next::Call(Call::StoreSession(session))),
                    Err(_) => (
                        LoginState::Finished,
                        fail(INTERNAL_SERVER_ERROR, "Failed to create session"),
                    ),
                },
            },
            _ => (LoginState::Finished, fail(INTERNAL_SERVER_ERROR, "Failed to verify password")),
        },
        LoginState::AwaitingStore => match answer {
            Answer::StoredSession(Ok(Some(value))) => (LoginState::Finished, login_reply(value)),
            _ => (LoginState::Finished, fail(INTERNAL_SERVER_ERROR, "Failed to create session")),
        },
        LoginState::Finished => (LoginState::Finished, fail(INTERNAL_SERVER_ERROR, "Failed to create session")),
    }
}

// ---------------------------------------------------------------------------
// Logout

/// Where a logout stands.
pub enum LogoutState {
    /// Asked for the session of the request's cookie.
    AwaitingLoad,
    /// Asked to remove that session.
    AwaitingDestroy,
    /// Replied.
    Finished,
}

/// The answer fits the call that this state waits for.
pub open spec fn logout_expects(state: LogoutState, answer: Answer) -> bool {
    match state {
        LogoutState::AwaitingLoad => answer is LoadedSession,
        LogoutState::AwaitingDestroy => answer is Written,
        LogoutState::Finished => false,
    }
}

/// What a logout does with an answer: a found session is removed and the
/// browser sent to `/`; a missing session or any failure is an internal error.
pub open spec fn logout_transition(
    state: LogoutState,
    answer: Answer,
    r: (LogoutState, Next<String, AppError>),
) -> bool {
    match state {
        LogoutState::AwaitingLoad => match answer {
            Answer::LoadedSession(Ok(Some(s))) => r.0 is AwaitingDestroy && r.1
                == Next::<String, AppError>::Call(Call::DestroySession(s)),
            Answer::LoadedSession(_) => r.0 is Finished && is_error_reply(
                r.1,
                INTERNAL_SERVER_ERROR,
                "Failed to delete session"@,
            ),
            _ => false,
        },
        LogoutState::AwaitingDestroy => match answer {
            Answer::Written(Ok(())) => r.0 is Finished && (r.1 matches Next::Reply(Ok(location))
                && location@ == "/"@),
            Answer::Written(Err(_)) => r.0 is Finished && is_error_reply(
                r.1,
                INTERNAL_SERVER_ERROR,
                "Failed to delete session"@,
            ),
            _ => false,
        },
        LogoutState::Finished => false,
    }
}

/// Starts a logout of the request's session: the first step loads it.
pub fn logout_start(session_id: SessionId) -> (r: (LogoutState, Next<String, AppError>))
    ensures
        r.0 is AwaitingLoad,
        r.1 == Next::<String, AppError>::Call(Call::LoadSession(session_id.session_id)),
        forall|a: Answer| answer_fits(r.1->Call_0, a) ==> #[trigger] logout_expects(r.0, a),
{
    (LogoutState::AwaitingLoad, Next::Call(Call::LoadSession(session_id.session_id)))
}

/// Takes a logout one step on; a successful reply is the redirect target.
pub fn logout_step(state: LogoutState, answer: Answer) -> (r: (LogoutState, Next<String, AppError>))
    requires
        logout_expects(state, answer),
    ensures
        logout_transition(state, answer, r),
        r.1 is Call ==> forall|a: Answer|
            answer_fits(r.1->Call_0, a) ==> #[trigger] logout_expects(r.0, a),
{
    match state {
        LogoutState::AwaitingLoad => match answer {
            Answer::LoadedSession(Ok(Some(s))) => (
                LogoutState::AwaitingDestroy,
                Next::Call(Call::DestroySession(s)),
            ),
            _ => (LogoutState::Finished, fail(INTERNAL_SERVER_ERROR, "Failed to delete session")),
        },
        _ => match answer {
            Answer::Written(Ok(())) => (LogoutState::Finished, Next::Reply(Ok("/".to_owned()))),
            _ => (LogoutState::Finished, fail(INTERNAL_SERVER_ERROR, "Failed to delete session")),
        },
    }
}

// ---------------------------------------------------------------------------
// Handlers that make one lookup: the current user, a city, a new city

/// Where a handler with one call stands.
pub enum LookupState {
    /// Asked its one call.
    Awaiting,
    /// Replied.
    Finished,
}

/// What the current-user handler does with the answer.
pub open spec fn me_transition(answer: Answer, r: (LookupState, Next<User, AppError>)) -> bool {
    &&& r.0 is Finished
    &&& match answer {
        Answer::UserLookup(Err(_)) => is_error_reply(r.1, INTERNAL_SERVER_ERROR, "Failed to get user"@),
        Answer::UserLookup(Ok(None)) => is_error_reply(r.1, UNAUTHORIZED, "User does not exist"@),
        Answer::UserLookup(Ok(Some(u))) => r.1 == Next::<User, AppError>::Reply(Ok(u)),
        _ => false,
    }
}

/// Starts the current-user handler: the session names the user by id, and
/// the first step asks for that user.
pub fn me_start(user: DisplayId) -> (r: (LookupState, Next<User, AppError>))
    ensures
        r.0 is Awaiting,
        r.1 == Next::<User, AppError>::Call(Call::GetUserById(user.display_id)),
        forall|a: Answer| #[trigger] answer_fits(r.1->Call_0, a) ==> a is UserLookup,
{
    (LookupState::Awaiting, Next::Call(Call::GetUserById(user.display_id)))
}

/// Answers the current-user handler from the lookup.
pub fn me_step(answer: Answer) -> (r: (LookupState, Next<User, AppError>))
    requires
        answer is UserLookup,
    ensures
        me_transition(answer, r),
{
    let next = match answer {
        Answer::UserLookup(Ok(Some(u))) => Next::Reply(Ok(u)),
        Answer::UserLookup(Ok(None)) => fail(UNAUTHORIZED, "User does not exist"),
        _ => fail(INTERNAL_SERVER_ERROR, "Failed to get user"),
    };
    (LookupState::Finished, next)
}

/// What the city handler does with the answer.
pub open spec fn get_city_transition(answer: Answer, r: (LookupState, Next<City, AppError>)) -> bool {
    &&& r.0 is Finished
    &&& match answer {
        Answer::CityLookup(Err(_)) => is_error_reply(r.1, INTERNAL_SERVER_ERROR, "Failed to get city"@),
        Answer::CityLookup(Ok(None)) => is_error_reply(r.1, NOT_FOUND, "city does not exist"@),
        Answer::CityLookup(Ok(Some(c))) => r.1 == Next::<City, AppError>::Reply(Ok(c)),
        _ => false,
    }
}

/// Starts the city handler: the first step asks for the city with the name
/// from the path.
pub fn get_city_start(city_name: String) -> (r: (LookupState, Next<City, AppError>))
    ensures
        r.0 is Awaiting,
        r.1 == Next::<City, AppError>::Call(Call::GetCityByName(city_name)),
        forall|a: Answer| #[trigger] answer_fits(r.1->Call_0, a) ==> a is CityLookup,
{
    (LookupState::Awaiting, Next::Call(Call::GetCityByName(city_name)))
}

/// Answers the city handler from the lookup: the city, or `404` when there is
/// none.
pub fn get_city_step(answer: Answer) -> (r: (LookupState, Next<City, AppError>))
    requires
        answer is CityLookup,
    ensures
        get_city_transition(answer, r),
{
    let next = match answer {
        Answer::CityLookup(Ok(Some(c))) => Next::Reply(Ok(c)),
        Answer::CityLookup(Ok(None)) => fail(NOT_FOUND, "city does not exist"),
        _ => fail(INTERNAL_SERVER_ERROR, "Failed to get city"),
    };
    (LookupState::Finished, next)
}

/// What the new-city handler does with the answer.
pub open spec fn post_city_transition(answer: Answer, r: (LookupState, Next<City, AppError>)) -> bool {
    &&& r.0 is Finished
    &&& match answer {
        Answer::CreatedCity(Err(_)) => is_error_reply(
            r.1,
            INTERNAL_SERVER_ERROR,
            "Failed to create city"@,
        ),
        Answer::CreatedCity(Ok(c)) => r.1 == Next::<City, AppError>::Reply(Ok(c)),
        _ => false,
    }
}

/// Starts the new-city handler: the first step stores the city.
pub fn post_city_start(city: City) -> (r: (LookupState, Next<City, AppError>))
    ensures
        r.0 is Awaiting,
        r.1 == Next::<City, AppError>::Call(Call::CreateCity(city)),
        forall|a: Answer| #[trigger] answer_fits(r.1->Call_0, a) ==> a is CreatedCity,
{
    (LookupState::Awaiting, Next::Call(Call::CreateCity(city)))
}

/// Answers the new-city handler with the stored city as read back.
pub fn post_city_step(answer: Answer) -> (r: (LookupState, Next<City, AppError>))
    requires
        answer is CreatedCity,
    ensures
        post_city_transition(answer, r),
{
    let next = match answer {
        Answer::CreatedCity(Ok(c)) => Next::Reply(Ok(c)),
        _ => fail(INTERNAL_SERVER_ERROR, "Failed to create city"),
    };
    (LookupState::Finished, next)
}

// ---------------------------------------------------------------------------
// Authentication of private routes

/// A refusal by the authentication layer: a status and a plain-text message.
pub struct Rejection {
    pub status: u16,
    pub message: String,
}

/// Who a request is: its session cookie value and the user its session names.
pub struct Identity {
    pub session_id: SessionId,
    pub display_id: DisplayId,
}

/// Where the authentication of a request stands.
pub enum AuthState {
    /// Asked for the session of this cookie value.
    AwaitingSession { session_id: String },
    /// Decided.
    Finished,
}

/// The authentication layer refuses with this status and message.
pub open spec fn is_rejection(n: Next<Identity, Rejection>, status: u16, message: Seq<char>) -> bool {
    n matches Next::Reply(Err(e)) && e.status == status && e.message@ == message
}

fn reject(status: u16, message: &str) -> (r: Next<Identity, Rejection>)
    ensures
        is_rejection(r, status, message@),
{
    Next::Reply(Err(Rejection { status, message: message.to_owned() }))
}

/// What the authentication layer does with the session answer: a request
/// passes exactly when its session exists and names a user.
pub open spec fn auth_transition(
    state: AuthState,
    answer: Answer,
    r: (AuthState, Next<Identity, Rejection>),
) -> bool {
    match state {
        AuthState::AwaitingSession { session_id } => {
            &&& r.0 is Finished
            &&& match answer {
                Answer::LoadedSession(Err(_)) => is_rejection(
                    r.1,
                    INTERNAL_SERVER_ERROR,
                    "Failed to get display ID"@,
                ),
                Answer::LoadedSession(Ok(None)) => is_rejection(r.1, UNAUTHORIZED, "please login"@),
                Answer::LoadedSession(Ok(Some(s))) => match session_user_spec(s) {
                    Some(user) => (r.1 matches Next::Reply(Ok(id)) && id.session_id.session_id
                        == session_id && id.display_id.display_id@ == user),
                    None => is_rejection(r.1, UNAUTHORIZED, "please login"@),
                },
                _ => false,
            }
        },
        AuthState::Finished => false,
    }
}

/// Starts the authentication of a request from its `session_id` cookie: a
/// request without one is refused at once; otherwise its session is loaded.
pub fn auth_start(cookie: Option<String>) -> (r: (AuthState, Next<Identity, Rejection>))
    ensures
        match cookie {
            None => r.0 is Finished && is_rejection(
                r.1,
                UNAUTHORIZED,
                "something wrong in getting session"@,
            ),
            Some(id) => r.0 == (AuthState::AwaitingSession { session_id: id }) && r.1
                == Next::<Identity, Rejection>::Call(Call::LoadSession(id)),
        },
        r.1 is Call ==> (r.0 is AwaitingSession && forall|a: Answer|
            #[trigger] answer_fits(r.1->Call_0, a) ==> a is LoadedSession),
{
    match cookie {
        None => (AuthState::Finished, reject(UNAUTHORIZED, "something wrong in getting session")),
        Some(id) => {
            let load = id.clone();
            (AuthState::AwaitingSession { session_id: id }, Next::Call(Call::LoadSession(load)))
        },
    }
}

/// Decides the authentication of a request from its loaded session.
pub fn auth_step(state: AuthState, answer: Answer) -> (r: (AuthState, Next<Identity, Rejection>))
    requires
        state is AwaitingSession,
        answer is LoadedSession,
    ensures
        auth_transition(state, answer, r),
{
    let session_id = match state {
        AuthState::AwaitingSession { session_id } => session_id,
        AuthState::Finished => String::new(),
    };
    let next = match answer {
        Answer::LoadedSession(Ok(Some(s))) => match session_user(&s) {
            Some(user) => Next::Reply(
                Ok(
                    Identity {
                        session_id: SessionId { session_id },
                        display_id: DisplayId { display_id: user },
                    },
                ),
            ),
            None => reject(UNAUTHORIZED, "please login"),
        },
        Answer::LoadedSession(Ok(None)) => reject(UNAUTHORIZED, "please login"),
        _ => reject(INTERNAL_SERVER_ERROR, "Failed to get display ID"),
    };
    (AuthState::Finished, next)
}

} // verus!
