//! The records the service stores and passes around: users, cities and the
//! identity of a logged-in request, and the making of a new user.

use vstd::prelude::*;

verus! {

/// A registered user.
#[derive(Debug, Clone, PartialEq, Eq)]
pub struct User {
    pub id: String,
    pub display_id: String,
    pub username: String,
}

/// A city of the `world` database.
#[derive(Debug, Clone)]
pub struct City {
    pub id: i32,
    pub name: String,
    pub country_code: String,
    pub district: String,
    pub population: i32,
}

/// The session cookie value of a logged-in request.
#[derive(Debug, Clone, PartialEq, Eq)]
pub struct SessionId {
    pub session_id: String,
}

/// The user value that the session of a logged-in request holds.
#[derive(Debug, Clone, PartialEq, Eq)]
pub struct DisplayId {
    pub display_id: String,
}

/// A lower-case hexadecimal digit.
pub open spec fn is_lower_hex(c: char) -> bool {
    ('0' <= c && c <= '9') || ('a' <= c && c <= 'f')
}

/// A position of a hyphen in the hyphenated form of a UUID.
pub open spec fn is_uuid_hyphen_position(i: int) -> bool {
    i == 8 || i == 13 || i == 18 || i == 23
}

/// The hyphenated lower-case text of a random (version 4, RFC variant) UUID,
/// such as `67e55044-10b1-426f-9247-bb680e5fe0c8`.
pub open spec fn is_uuid_v4_text(s: Seq<char>) -> bool {
    &&& s.len() == 36
    &&& forall|i: int|
        0 <= i < 36 ==> if is_uuid_hyphen_position(i) {
            s[i] == '-'
        } else {
            is_lower_hex(#[trigger] s[i])
        }
    &&& s[14] == '4'
    &&& (s[19] == '8' || s[19] == '9' || s[19] == 'a' || s[19] == 'b')
}

/// Calls `uuid::Uuid::new_v4` and turns the value into a `String`. The value is
/// random; the contract claims only its shape, which `uuid`'s source shows:
/// the version nibble set to 4, the variant bits to `10`, written in the
/// lower-case hyphenated form.
#[verifier::external_body]
fn new_uuid_v4_text() -> (r: String)
    ensures
        is_uuid_v4_text(r@),
{
    uuid::Uuid::new_v4().into()
}

/// A new user with a fresh random id and the given display id and name.
pub fn new_user(display_id: String, username: String) -> (r: User)
    ensures
        r.display_id == display_id,
        r.username == username,
        is_uuid_v4_text(r.id@),
{
    User { id: new_uuid_v4_text(), display_id, username }
}

} // verus!
