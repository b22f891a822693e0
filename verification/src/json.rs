//! JSON text for plain strings, by `serde_json`.

use vstd::prelude::*;

verus! {

/// The text that `serde_json::to_string` produces for a string: the string in
/// double quotes, with JSON escapes.
pub uninterp spec fn json_encode_str(s: Seq<char>) -> Seq<char>;

/// What `serde_json::from_str::<String>` returns for a text: the decoded string,
/// or `None` when the text is not one JSON string.
pub uninterp spec fn json_decode_str(text: Seq<char>) -> Option<Seq<char>>;

/// Calls `serde_json::to_string` on a `&str`. The contract claims that the
/// result is the JSON text of `s`, and that `serde_json::from_str::<String>`
/// reads that text back as `s` (serialising a `str` cannot fail: the writer is
/// a `Vec<u8>` and a string needs no map keys).
#[verifier::external_body]
pub fn json_string(s: &str) -> (r: String)
    ensures
        r@ == json_encode_str(s@),
        json_decode_str(r@) == Some(s@),
{
    serde_json::to_string(s).unwrap_or_default()
}

} // verus!
