//! Login sessions, by `async_session`: the session made at login, the user it
//! names, and the cookie that carries it.

use vstd::prelude::*;
use vstd::utf8::encode_utf8;
use crate::json::{json_decode_str, json_encode_str};

verus! {

/// A session of `async_session`: a random id and a map of JSON-encoded values.
#[verifier::external_type_specification]
#[verifier::external_body]
pub struct ExSession(async_session::Session);

/// A failure of `serde_json`.
#[verifier::external_type_specification]
#[verifier::external_body]
pub struct ExJsonError(serde_json::Error);

/// The entries of a session: each key with the JSON text stored under it.
pub uninterp spec fn session_entries(s: async_session::Session) -> Map<Seq<char>, Seq<char>>;

/// Calls `async_session::Session::new`: a session with a random id and no
/// entries.
#[verifier::external_body]
fn session_new() -> (r: async_session::Session)
    ensures
        session_entries(r).dom() == Set::<Seq<char>>::empty(),
{
    async_session::Session::new()
}

/// Calls `async_session::Session::insert`, which stores
/// `serde_json::to_string(&value)` under `key`. For a `String` that
/// serialisation cannot fail (`serde_json` writes the escaped text into a
/// `Vec<u8>`, whose writes never fail), so the call succeeds. The stored text
/// reads back as `value` through `serde_json::from_str`. The contract speaks
/// only of this handle: clones of a session share its entries, and no clone is
/// made here.
#[verifier::external_body]
fn session_insert(s: &mut async_session::Session, key: &str, value: String) -> (r: Result<
    (),
    serde_json::Error,
>)
    ensures
        r is Ok,
        session_entries(*final(s)) == session_entries(*old(s)).insert(
            key@,
            json_encode_str(value@),
        ),
        json_decode_str(session_entries(*final(s))[key@]) == Some(value@),
{
    s.insert(key, value)
}

/// Calls `async_session::Session::get::<String>`: the entry under `key` read
/// with `serde_json::from_str`, or `None` when there is no entry or it is not
/// a JSON string.
#[verifier::external_body]
fn session_get(s: &async_session::Session, key: &str) -> (r: Option<String>)
    ensures
        match r {
            Some(v) => session_entries(*s).contains_key(key@) && json_decode_str(
                session_entries(*s)[key@],
            ) == Some(v@),
            None => !session_entries(*s).contains_key(key@) || json_decode_str(
                session_entries(*s)[key@],
            ) is None,
        },
{
    s.get::<String>(key)
}

/// The key under which a session names its user.
pub open spec fn user_key() -> Seq<char> {
    "user"@
}

/// The user that a session names, if any.
pub open spec fn session_user_spec(s: async_session::Session) -> Option<Seq<char>> {
    if session_entries(s).contains_key(user_key()) {
        json_decode_str(session_entries(s)[user_key()])
    } else {
        None
    }
}

/// A session could not be made.
#[derive(Debug)]
pub struct SessionError;

/// A new session that names the given user; making it always succeeds.
pub fn new_login_session(user: String) -> (r: Result<async_session::Session, SessionError>)
    ensures
        r is Ok,
        r matches Ok(s) ==> session_user_spec(s) == Some(user@),
        r matches Ok(s) ==> session_entries(s).dom() == set![user_key()],
{
    let mut s = session_new();
    let ghost u = user@;
    match session_insert(&mut s, "user", user) {
        Ok(()) => {
            assert(session_entries(s).dom() =~= set![user_key()]);
            Ok(s)
        },
        Err(_) => Err(SessionError),
    }
}

/// The user that a session names: the `user` entry read as a JSON string.
pub fn session_user(s: &async_session::Session) -> (r: Option<String>)
    ensures
        match r {
            Some(v) => session_user_spec(*s) == Some(v@),
            None => session_user_spec(*s) is None,
        },
{
    session_get(s, "user")
}

/// The `Set-Cookie` text that hands a session cookie value to the browser.
pub open spec fn session_cookie_spec(value: Seq<char>) -> Seq<char> {
    "session_id="@ + value + "; HttpOnly; SameSite=Strict"@
}

/// Writes the `Set-Cookie` text for a session cookie value.
pub fn session_cookie(value: &str) -> (r: String)
    ensures
        r@ == session_cookie_spec(value@),
        r@ == "session_id="@ + value@ + "; HttpOnly; SameSite=Strict"@,
{
    let mut out = "session_id=".to_owned();
    out.append(value);
    out.append("; HttpOnly; SameSite=Strict");
    out
}

/// A byte that an HTTP header value may hold: a tab, or any byte from the space
/// up other than DEL.
pub open spec fn header_byte_ok(b: u8) -> bool {
    (b >= 32 && b != 127) || b == 9
}

/// A text that can be sent as an HTTP header value.
pub open spec fn header_value_ok(s: Seq<char>) -> bool {
    forall|i: int| 0 <= i < encode_utf8(s).len() ==> header_byte_ok(#[trigger] encode_utf8(s)[i])
}

/// Calls `http::HeaderValue::from_str`, which refuses a text exactly when one of
/// its UTF-8 bytes is neither a tab nor at least a space and other than DEL.
#[verifier::external_body]
pub(crate) fn header_value_accepts(s: &str) -> (r: bool)
    ensures
        r == header_value_ok(s@),
{
    axum::http::HeaderValue::from_str(s).is_ok()
}

/// The `Set-Cookie` text carries the whole cookie value: it is `session_id=`,
/// then every character of the value in order, then the attributes
/// `; HttpOnly; SameSite=Strict`, so the browser sends back exactly the value
/// the store handed out.
pub proof fn lemma_set_cookie_carries_value(value: Seq<char>)
    ensures
        session_cookie_spec(value).len() == value.len() + 38,
        session_cookie_spec(value).subrange(0, 11) == "session_id="@,
        session_cookie_spec(value).subrange(11, 11 + value.len() as int) == value,
        session_cookie_spec(value).subrange(11 + value.len() as int, value.len() as int + 38)
            == "; HttpOnly; SameSite=Strict"@,
{
    reveal_strlit("session_id=");
    reveal_strlit("; HttpOnly; SameSite=Strict");
    let s = session_cookie_spec(value);
    assert(s.subrange(0, 11) =~= "session_id="@);
    assert(s.subrange(11, 11 + value.len() as int) =~= value);
    assert(s.subrange(11 + value.len() as int, value.len() as int + 38) =~= "; HttpOnly; SameSite=Strict"@);
}

} // verus!
