use naro_back::flow::{
    auth_start, auth_step, get_city_start, get_city_step, login_start, login_step, logout_start,
    logout_step, me_start, me_step, post_city_start, post_city_step, sign_up_start, sign_up_step,
    Answer, AuthState, Call, DbError, LoginState, LogoutState, Next, SignUpState,
};
use naro_back::model::{City, DisplayId, SessionId, User};
use naro_back::password::hash_password;
use naro_back::session::{new_login_session, session_user};
use naro_back::validation::{SignInUserRequest, SignUpUserRequest};
use naro_back::error::AppError;

fn s(x: &str) -> String {
    x.to_string()
}

fn user() -> User {
    User { id: s("id-1"), display_id: s("alice"), username: s("Alice") }
}

fn city() -> City {
    City { id: 7, name: s("Tokyo"), country_code: s("JPN"), district: s("Tokyo-to"), population: 100 }
}

fn err_of<T>(n: Next<T, AppError>) -> (u16, String) {
    match n {
        Next::Reply(Err(e)) => (e.status, e.response),
        _ => panic!("expected an error reply"),
    }
}

fn sign_up_request() -> SignUpUserRequest {
    SignUpUserRequest { display_id: s("alice"), username: s("Alice"), password: s("Passw0rd") }
}

#[test]
fn sign_up_happy_path() {
    let (state, next) = sign_up_start(sign_up_request(), 4);
    assert!(matches!(&next, Next::Call(Call::GetUserByDisplayId(d)) if d == "alice"));
    let (state, next) = sign_up_step(state, Answer::UserLookup(Ok(None)));
    let created = match next {
        Next::Call(Call::CreateUser(u)) => u,
        _ => panic!("expected CreateUser"),
    };
    assert_eq!(created.display_id, "alice");
    assert_eq!(created.username, "Alice");
    assert_eq!(created.id.len(), 36);
    assert!(matches!(state, SignUpState::AwaitingCreate { .. }));
    let (state, next) = sign_up_step(state, Answer::Written(Ok(())));
    let hashed = match next {
        Next::Call(Call::SavePassword { display_id, hashed_pass }) => {
            assert_eq!(display_id, "alice");
            hashed_pass
        }
        _ => panic!("expected SavePassword"),
    };
    assert!(bcrypt::verify("Passw0rd", &hashed).unwrap());
    let (state, next) = sign_up_step(state, Answer::Written(Ok(())));
    assert!(matches!(state, SignUpState::Finished));
    assert!(matches!(next, Next::Reply(Ok(()))));
}

#[test]
fn sign_up_taken_display_id() {
    let (state, _) = sign_up_start(sign_up_request(), 4);
    let (state, next) = sign_up_step(state, Answer::UserLookup(Ok(Some(user()))));
    assert!(matches!(state, SignUpState::Finished));
    assert_eq!(err_of(next), (400, s("Display ID is already used")));
}

#[test]
fn sign_up_failures() {
    let (state, _) = sign_up_start(sign_up_request(), 4);
    let (_, next) = sign_up_step(state, Answer::UserLookup(Err(DbError)));
    assert_eq!(err_of(next), (500, s("Failed to get user")));

    let (state, _) = sign_up_start(sign_up_request(), 4);
    let (state, _) = sign_up_step(state, Answer::UserLookup(Ok(None)));
    let (_, next) = sign_up_step(state, Answer::Written(Err(DbError)));
    assert_eq!(err_of(next), (500, s("Failed to create user")));

    let (state, _) = sign_up_start(sign_up_request(), 2);
    let (state, _) = sign_up_step(state, Answer::UserLookup(Ok(None)));
    let (_, next) = sign_up_step(state, Answer::Written(Ok(())));
    assert_eq!(err_of(next), (500, s("Failed to save password")));

    let (state, _) = sign_up_start(sign_up_request(), 4);
    let (state, _) = sign_up_step(state, Answer::UserLookup(Ok(None)));
    let (state, _) = sign_up_step(state, Answer::Written(Ok(())));
    let (_, next) = sign_up_step(state, Answer::Written(Err(DbError)));
    assert_eq!(err_of(next), (500, s("Failed to save password")));
}

fn login_request(password: &str) -> SignInUserRequest {
    SignInUserRequest { display_id: s("alice"), password: s(password) }
}

fn login_until_hash(password: &str) -> LoginState {
    let (state, next) = login_start(login_request(password));
    assert!(matches!(&next, Next::Call(Call::GetUserByDisplayId(d)) if d == "alice"));
    let (state, next) = login_step(state, Answer::UserLookup(Ok(Some(user()))));
    assert!(matches!(&next, Next::Call(Call::GetHashedPassword(d)) if d == "alice"));
    state
}

#[test]
fn login_happy_path() {
    let hash = hash_password("Passw0rd", 4).ok().unwrap();
    let state = login_until_hash("Passw0rd");
    let (state, next) = login_step(state, Answer::HashedPassword(Ok(hash)));
    let session = match next {
        Next::Call(Call::StoreSession(s)) => s,
        _ => panic!("expected StoreSession"),
    };
    assert_eq!(session_user(&session), Some(s("id-1")));
    let (state, next) = login_step(state, Answer::StoredSession(Ok(Some(s("cookie123")))));
    assert!(matches!(state, LoginState::Finished));
    match next {
        Next::Reply(Ok(reply)) => {
            assert_eq!(reply.set_cookie, "session_id=cookie123; HttpOnly; SameSite=Strict");
            assert_eq!(reply.location, "/me");
        }
        _ => panic!("expected a login reply"),
    }
}

#[test]
fn login_refusals() {
    let (state, _) = login_start(login_request("Passw0rd"));
    let (_, next) = login_step(state, Answer::UserLookup(Ok(None)));
    assert_eq!(err_of(next), (401, s("User does not exist")));

    let (state, _) = login_start(login_request("Passw0rd"));
    let (_, next) = login_step(state, Answer::UserLookup(Err(DbError)));
    assert_eq!(err_of(next), (500, s("Failed to get user")));

    let hash = hash_password("Passw0rd", 4).ok().unwrap();
    let state = login_until_hash("wrong");
    let (_, next) = login_step(state, Answer::HashedPassword(Ok(hash)));
    assert_eq!(err_of(next), (401, s("Password is incorrect")));

    let state = login_until_hash("Passw0rd");
    let (_, next) = login_step(state, Answer::HashedPassword(Ok(s("garbage"))));
    assert_eq!(err_of(next), (500, s("Failed to verify password")));

    let state = login_until_hash("Passw0rd");
    let (_, next) = login_step(state, Answer::HashedPassword(Err(DbError)));
    assert_eq!(err_of(next), (500, s("Failed to verify password")));
}

#[test]
fn login_store_failures() {
    let hash = hash_password("Passw0rd", 4).ok().unwrap();
    for answer in [Answer::StoredSession(Ok(None)), Answer::StoredSession(Err(DbError))] {
        let state = login_until_hash("Passw0rd");
        let (state, _) = login_step(state, Answer::HashedPassword(Ok(hash.clone())));
        let (_, next) = login_step(state, answer);
        assert_eq!(err_of(next), (500, s("Failed to create session")));
    }
    let state = login_until_hash("Passw0rd");
    let (state, _) = login_step(state, Answer::HashedPassword(Ok(hash)));
    let (_, next) = login_step(state, Answer::StoredSession(Ok(Some(s("bad\nvalue")))));
    assert_eq!(err_of(next), (500, s("Failed to create cookie")));
}

#[test]
fn signed_up_password_logs_in() {
    let (state, _) = sign_up_start(sign_up_request(), 4);
    let (state, _) = sign_up_step(state, Answer::UserLookup(Ok(None)));
    let (_, next) = sign_up_step(state, Answer::Written(Ok(())));
    let hashed = match next {
        Next::Call(Call::SavePassword { hashed_pass, .. }) => hashed_pass,
        _ => panic!("expected SavePassword"),
    };
    let state = login_until_hash("Passw0rd");
    let (_, next) = login_step(state, Answer::HashedPassword(Ok(hashed)));
    assert!(matches!(next, Next::Call(Call::StoreSession(_))));
}

#[test]
fn logout_paths() {
    let (state, next) = logout_start(SessionId { session_id: s("sid") });
    assert!(matches!(&next, Next::Call(Call::LoadSession(d)) if d == "sid"));
    let session = async_session::Session::new();
    let (state, next) = logout_step(state, Answer::LoadedSession(Ok(Some(session))));
    assert!(matches!(state, LogoutState::AwaitingDestroy));
    assert!(matches!(next, Next::Call(Call::DestroySession(_))));
    let (_, next) = logout_step(state, Answer::Written(Ok(())));
    assert!(matches!(next, Next::Reply(Ok(ref l)) if l == "/"));

    let (state, _) = logout_start(SessionId { session_id: s("sid") });
    let (_, next) = logout_step(state, Answer::LoadedSession(Ok(None)));
    assert_eq!(err_of(next), (500, s("Failed to delete session")));

    let (state, _) = logout_start(SessionId { session_id: s("sid") });
    let (_, next) = logout_step(state, Answer::LoadedSession(Err(DbError)));
    assert_eq!(err_of(next), (500, s("Failed to delete session")));

    let (state, _) = logout_start(SessionId { session_id: s("sid") });
    let (state, _) = logout_step(state, Answer::LoadedSession(Ok(Some(async_session::Session::new()))));
    let (_, next) = logout_step(state, Answer::Written(Err(DbError)));
    assert_eq!(err_of(next), (500, s("Failed to delete session")));
}

#[test]
fn me_paths() {
    let (_, next) = me_start(DisplayId { display_id: s("id-1") });
    assert!(matches!(&next, Next::Call(Call::GetUserById(d)) if d == "id-1"));
    let (_, next) = me_step(Answer::UserLookup(Ok(Some(user()))));
    assert!(matches!(next, Next::Reply(Ok(ref u)) if *u == user()));
    let (_, next) = me_step(Answer::UserLookup(Ok(None)));
    assert_eq!(err_of(next), (401, s("User does not exist")));
    let (_, next) = me_step(Answer::UserLookup(Err(DbError)));
    assert_eq!(err_of(next), (500, s("Failed to get user")));
}

#[test]
fn city_paths() {
    let (_, next) = get_city_start(s("Tokyo"));
    assert!(matches!(&next, Next::Call(Call::GetCityByName(d)) if d == "Tokyo"));
    let (_, next) = get_city_step(Answer::CityLookup(Ok(Some(city()))));
    assert!(matches!(next, Next::Reply(Ok(ref c)) if c.id == 7 && c.name == "Tokyo"));
    let (_, next) = get_city_step(Answer::CityLookup(Ok(None)));
    assert_eq!(err_of(next), (404, s("city does not exist")));
    let (_, next) = get_city_step(Answer::CityLookup(Err(DbError)));
    assert_eq!(err_of(next), (500, s("Failed to get city")));

    let (_, next) = post_city_start(city());
    assert!(matches!(&next, Next::Call(Call::CreateCity(c)) if c.population == 100));
    let (_, next) = post_city_step(Answer::CreatedCity(Ok(city())));
    assert!(matches!(next, Next::Reply(Ok(ref c)) if c.country_code == "JPN"));
    let (_, next) = post_city_step(Answer::CreatedCity(Err(DbError)));
    assert_eq!(err_of(next), (500, s("Failed to create city")));
}

fn rejection(n: Next<naro_back::flow::Identity, naro_back::flow::Rejection>) -> (u16, String) {
    match n {
        Next::Reply(Err(r)) => (r.status, r.message),
        _ => panic!("expected a rejection"),
    }
}

#[test]
fn auth_without_cookie() {
    let (state, next) = auth_start(None);
    assert!(matches!(state, AuthState::Finished));
    assert_eq!(rejection(next), (401, s("something wrong in getting session")));
}

#[test]
fn auth_paths() {
    let (state, next) = auth_start(Some(s("sid")));
    assert!(matches!(&next, Next::Call(Call::LoadSession(d)) if d == "sid"));
    let session = new_login_session(s("id-1")).ok().unwrap();
    let (_, next) = auth_step(state, Answer::LoadedSession(Ok(Some(session))));
    match next {
        Next::Reply(Ok(id)) => {
            assert_eq!(id.session_id.session_id, "sid");
            assert_eq!(id.display_id.display_id, "id-1");
        }
        _ => panic!("expected an identity"),
    }

    let (state, _) = auth_start(Some(s("sid")));
    let (_, next) = auth_step(state, Answer::LoadedSession(Ok(None)));
    assert_eq!(rejection(next), (401, s("please login")));

    let (state, _) = auth_start(Some(s("sid")));
    let (_, next) = auth_step(state, Answer::LoadedSession(Ok(Some(async_session::Session::new()))));
    assert_eq!(rejection(next), (401, s("please login")));

    let (state, _) = auth_start(Some(s("sid")));
    let (_, next) = auth_step(state, Answer::LoadedSession(Err(DbError)));
    assert_eq!(rejection(next), (500, s("Failed to get display ID")));
}

#[test]
fn login_session_authenticates() {
    let hash = hash_password("Passw0rd", 4).ok().unwrap();
    let state = login_until_hash("Passw0rd");
    let (_, next) = login_step(state, Answer::HashedPassword(Ok(hash)));
    let stored = match next {
        Next::Call(Call::StoreSession(s)) => s,
        _ => panic!("expected StoreSession"),
    };
    let (state, _) = auth_start(Some(s("cookie")));
    let (_, next) = auth_step(state, Answer::LoadedSession(Ok(Some(stored))));
    match next {
        Next::Reply(Ok(id)) => {
            assert_eq!(id.display_id.display_id, "id-1");
            assert_eq!(id.session_id.session_id, "cookie");
        }
        _ => panic!("expected an identity"),
    }
}

#[test]
fn login_run_success_shape() {
    let hash = hash_password("Passw0rd", 4).ok().unwrap();
    let (state, next) = login_start(login_request("Passw0rd"));
    assert!(matches!(next, Next::Call(Call::GetUserByDisplayId(_))));
    let (state, next) = login_step(state, Answer::UserLookup(Ok(Some(user()))));
    assert!(matches!(next, Next::Call(Call::GetHashedPassword(_))));
    let (state, next) = login_step(state, Answer::HashedPassword(Ok(hash)));
    let session = match next {
        Next::Call(Call::StoreSession(s)) => s,
        _ => panic!("expected StoreSession"),
    };
    assert_eq!(session.len(), 1);
    assert_eq!(session_user(&session), Some(s("id-1")));
    let (_, next) = login_step(state, Answer::StoredSession(Ok(Some(s("v")))));
    assert!(matches!(next, Next::Reply(Ok(_))));
}
