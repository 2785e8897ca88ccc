//! The service itself: one handler behind every route, and the policy round
//! it.

use vstd::prelude::*;
use crate::cors::{
    cors_fields, is_cors_name, is_kept, lemma_cors_names_differ, lemma_policy_allows_any, with_cors,
    with_cors_fields, ALLOW_HEADERS, ALLOW_METHODS, ALLOW_ORIGIN, ANY,
};
use crate::json::{is_plain_text, json_string_literal, quoted};
use crate::message::{
    fields_of, first_value, has_field, Field, Header, Request, RequestView, Response,
    ResponseView,
};
use crate::payload::{nothing_json, nothing_text, object_text, NothingResponse};

verus! {

/// The address the server listens on.
pub const BIND_ADDRESS: &'static str = "0.0.0.0:3000";

/// The route of the root path.
pub const ROOT_ROUTE: &'static str = "/";

/// The route of every other path, whatever its depth.
pub const CATCH_ALL_ROUTE: &'static str = "/{*path}";

/// The status of every answer.
pub const STATUS_OK: u16 = 200;

/// Header that names the media type of a body.
pub const CONTENT_TYPE: &'static str = "content-type";

/// The media type of JSON.
pub const APPLICATION_JSON: &'static str = "application/json";

/// Request header by which a browser names the page that asks.
pub const ORIGIN: &'static str = "origin";

/// The headers of a JSON response before the policy is applied.
pub open spec fn json_fields() -> Seq<Field> {
    seq![(CONTENT_TYPE@, APPLICATION_JSON@)]
}

/// The headers of every answer, in the order they are sent.
pub open spec fn reply_fields() -> Seq<Field> {
    seq![
        (CONTENT_TYPE@, APPLICATION_JSON@),
        (ALLOW_ORIGIN@, ANY@),
        (ALLOW_METHODS@, ANY@),
        (ALLOW_HEADERS@, ANY@),
    ]
}

/// The answer to `request`. Nothing of the request enters into it.
pub open spec fn reply_to(request: RequestView) -> ResponseView {
    ResponseView { status: STATUS_OK, fields: reply_fields(), body: nothing_json() }
}

/// The handler behind every route: status 200 and the payload `nothing`.
pub fn fallback_handler() -> (answer: (u16, NothingResponse))
    ensures
        answer.0 == STATUS_OK,
        answer.1@ == nothing_text(),
{
    (STATUS_OK, NothingResponse::nothing())
}

/// Turns a status and a payload into a response: the payload as JSON in the
/// body, and the content type that says so.
pub fn json_response(status: u16, payload: &NothingResponse) -> (response: Response)
    ensures
        response@.status == status,
        response@.fields == json_fields(),
        response@.body == object_text(json_string_literal(payload@)),
        is_plain_text(payload@) ==> response@.body == object_text(quoted(payload@)),
        payload@ == nothing_text() ==> response@.body == nothing_json(),
{
    let body = payload.to_json();
    let mut headers: Vec<Header> = Vec::new();
    headers.push(Header::new(CONTENT_TYPE, APPLICATION_JSON));
    assert(fields_of(headers@) == json_fields());
    Response { status, headers, body }
}

/// The policy leaves the content type alone and adds its three headers.
pub proof fn lemma_reply_fields()
    ensures
        with_cors_fields(json_fields()) == reply_fields(),
{
    lemma_cors_names_differ();
    reveal_strlit("content-type");
    reveal_strlit("access-control-allow-origin");
    reveal_strlit("access-control-allow-methods");
    reveal_strlit("access-control-allow-headers");
    assert(CONTENT_TYPE@.len() == 12);
    assert(!is_cors_name(CONTENT_TYPE@));
    assert(is_kept()(json_fields().last()));
    assert(json_fields().drop_last() == Seq::<Field>::empty());
    assert(json_fields().filter(is_kept()) == json_fields()) by {
        reveal_with_fuel(Seq::filter, 2);
    }
    assert(json_fields() + cors_fields() == reply_fields());
}

/// Answers a request. Method, path, headers and body are all accepted and
/// none is looked at: the answer is status 200, the body
/// `{"result":"nothing"}` with its JSON content type, and the three wildcard
/// cross-origin headers.
pub fn respond(request: &Request) -> (response: Response)
    ensures
        response@ == reply_to(request@),
        response@.status == 200,
        response@.body == nothing_json(),
        response@.fields == reply_fields(),
        has_field(request@.fields, ORIGIN@) ==> has_field(response@.fields, ALLOW_ORIGIN@),
{
    let (status, payload) = fallback_handler();
    let response = with_cors(json_response(status, &payload));
    proof {
        lemma_reply_fields();
        assert(reply_fields()[1].0 == ALLOW_ORIGIN@);
    }
    response
}

/// Whatever the method and the path, the answer is status 200 with the body
/// `{"result":"nothing"}`, sent as JSON.
pub proof fn lemma_every_request_gets_nothing(request: RequestView)
    ensures
        reply_to(request).status == 200,
        reply_to(request).body == nothing_json(),
        first_value(reply_to(request).fields, CONTENT_TYPE@) == Some(APPLICATION_JSON@),
{
}

/// A request that carries an `origin` header is answered with an
/// `access-control-allow-origin` header; its value is the wildcard.
pub proof fn lemma_origin_is_allowed(request: RequestView)
    requires
        has_field(request.fields, ORIGIN@),
    ensures
        has_field(reply_to(request).fields, ALLOW_ORIGIN@),
        first_value(reply_to(request).fields, ALLOW_ORIGIN@) == Some(ANY@),
{
    lemma_reply_fields();
    lemma_policy_allows_any(json_fields());
    assert(reply_fields()[1].0 == ALLOW_ORIGIN@);
}

/// Two requests get the same answer, however they differ in method, path,
/// headers or body.
pub proof fn lemma_answer_ignores_request(a: RequestView, b: RequestView)
    ensures
        reply_to(a) == reply_to(b),
{
}

} // verus!
