//! The one document this service ever sends.

use vstd::prelude::*;
use crate::json::{encode_string, is_plain_text, json_string_literal, quoted};

verus! {

/// The response payload: a record with the single field `result`.
#[derive(Clone, Debug, PartialEq, Eq)]
pub struct NothingResponse {
    pub result: String,
}

impl View for NothingResponse {
    type V = Seq<char>;

    /// A payload is its `result` text.
    open spec fn view(&self) -> Seq<char> {
        self.result@
    }
}

/// The value of `result` in every answer.
pub open spec fn nothing_text() -> Seq<char> {
    "nothing"@
}

/// The JSON object with the one member `result`, whose value is the JSON
/// text `encoded_result`.
pub open spec fn object_text(encoded_result: Seq<char>) -> Seq<char> {
    "{\"result\":"@ + encoded_result + "}"@
}

/// The body of every answer.
pub open spec fn nothing_json() -> Seq<char> {
    "{\"result\":\"nothing\"}"@
}

/// `nothing` needs no escape, and the object built round it is the fixed body.
pub proof fn lemma_nothing_json()
    ensures
        is_plain_text(nothing_text()),
        object_text(quoted(nothing_text())) == nothing_json(),
{
    reveal_strlit("nothing");
    reveal_strlit("{\"result\":");
    reveal_strlit("}");
    reveal_strlit("{\"result\":\"nothing\"}");
    assert(object_text(quoted(nothing_text())) =~= nothing_json());
}

impl NothingResponse {
    /// The payload whose `result` is `nothing`.
    pub fn nothing() -> (payload: Self)
        ensures
            payload@ == nothing_text(),
    {
        NothingResponse { result: String::from_str("nothing") }
    }

    /// Writes the object round an already encoded `result` value.
    pub fn frame(encoded_result: &str) -> (out: String)
        ensures
            out@ == object_text(encoded_result@),
    {
        let mut out = String::from_str("{\"result\":");
        out.append(encoded_result);
        out.append("}");
        out
    }

    /// Serializes the payload as JSON, without whitespace.
    pub fn to_json(&self) -> (out: String)
        ensures
            out@ == object_text(json_string_literal(self@)),
            is_plain_text(self@) ==> out@ == object_text(quoted(self@)),
            self@ == nothing_text() ==> out@ == nothing_json(),
    {
        let encoded = encode_string(self.result.as_str());
        proof {
            lemma_nothing_json();
        }
        Self::frame(encoded.as_str())
    }
}

} // verus!
