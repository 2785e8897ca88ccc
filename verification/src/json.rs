//! JSON text for the response body.

use vstd::prelude::*;

verus! {

/// `serde_json`'s error type, carried through unread.
#[verifier::external_type_specification]
#[verifier::external_body]
pub struct ExJsonError(serde_json::Error);

/// The JSON string literal that `serde_json::to_string` writes for `text`,
/// quotes included.
pub uninterp spec fn json_string_literal(text: Seq<char>) -> Seq<char>;

/// A character that JSON lets stand for itself inside a string literal:
/// not a control character, not `"`, not `\`.
pub open spec fn is_plain_char(c: char) -> bool {
    c as u32 >= 0x20 && c != '"' && c != '\\'
}

/// Text made of characters that need no escape.
pub open spec fn is_plain_text(text: Seq<char>) -> bool {
    forall|i: int| 0 <= i < text.len() ==> is_plain_char(#[trigger] text[i])
}

/// `text` between two double quotes.
pub open spec fn quoted(text: Seq<char>) -> Seq<char> {
    seq!['"'] + text + seq!['"']
}

/// Calls `serde_json::to_string` on a string slice.
///
/// Trusted: the call cannot fail for a string, since writing a string into a
/// byte vector has no error path; the result is a function of the text alone;
/// and text without control characters, `"` or `\` comes back unchanged
/// between two double quotes, since the serializer escapes those bytes and no
/// others.
#[verifier::external_body]
fn to_json_string(text: &str) -> (out: Result<String, serde_json::Error>)
    ensures
        out is Ok,
        out->Ok_0@ == json_string_literal(text@),
        is_plain_text(text@) ==> out->Ok_0@ == quoted(text@),
{
    serde_json::to_string(text)
}

/// Encodes `text` as a JSON string literal.
pub fn encode_string(text: &str) -> (out: String)
    ensures
        out@ == json_string_literal(text@),
        is_plain_text(text@) ==> out@ == quoted(text@),
{
    to_json_string(text).unwrap()
}

} // verus!
