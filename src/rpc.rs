//! JSON-RPC exchanges with the remote media-control service: the envelopes
//! sent, and what their replies mean.

use vstd::prelude::*;
use crate::error::{describe, AppError};
use crate::json::{array_items, field, str_field, JsonValue};

verus! {

/// The protocol version that every envelope carries.
pub const RPC_VERSION: &'static str = "2.0";
/// The request id that every envelope carries; requests are not pipelined.
pub const RPC_ID: &'static str = "1";
pub const LOOKUP_METHOD: &'static str = "core.library.lookup";
pub const SEARCH_METHOD: &'static str = "core.library.search";
pub const STATE_METHOD: &'static str = "core.playback.get_state";

/// `m` is the member `key` with the string value `text`.
pub open spec fn text_member(m: (String, JsonValue), key: Seq<char>, text: Seq<char>) -> bool {
    m.0@ == key && match m.1 {
        JsonValue::String(s) => s@ == text,
        _ => false,
    }
}

/// `m` is the member `key` with the number value written `digits`.
pub open spec fn number_member(m: (String, JsonValue), key: Seq<char>, digits: Seq<char>) -> bool {
    m.0@ == key && match m.1 {
        JsonValue::Number(n) => n@ == digits,
        _ => false,
    }
}

/// `r` is the envelope that calls `method`: version, id, method name, and the
/// parameters where there are any, in that order.
pub open spec fn is_envelope(r: JsonValue, method: Seq<char>, params: Option<JsonValue>) -> bool {
    match r {
        JsonValue::Object(ms) => {
            &&& ms@.len() == if params is Some { 4int } else { 3int }
            &&& text_member(ms@[0], "jsonrpc"@, RPC_VERSION@)
            &&& number_member(ms@[1], "id"@, RPC_ID@)
            &&& text_member(ms@[2], "method"@, method)
            &&& match params {
                Some(p) => ms@[3].0@ == "params"@ && ms@[3].1 == p,
                None => true,
            }
        },
        _ => false,
    }
}

/// The text of an error object's `message`, or `fallback` where it has none.
pub open spec fn error_message(e: JsonValue, fallback: Seq<char>) -> Seq<char> {
    match str_field(e, "message"@) {
        Some(m) => m,
        None => fallback,
    }
}

/// Builds the envelope that calls `method` with `params`.
pub fn rpc_envelope(method: &str, params: Option<JsonValue>) -> (r: JsonValue)
    ensures
        is_envelope(r, method@, params),
{
    let mut members: Vec<(String, JsonValue)> = Vec::new();
    members.push(("jsonrpc".to_owned(), JsonValue::from_str_value(RPC_VERSION)));
    members.push(("id".to_owned(), JsonValue::Number(RPC_ID.to_owned())));
    members.push(("method".to_owned(), JsonValue::from_str_value(method)));
    let ghost p = params;
    match params {
        Some(v) => members.push(("params".to_owned(), v)),
        None => {},
    }
    JsonValue::Object(members)
}

/// `p` is `{"uri": uri}`.
pub open spec fn is_lookup_params(p: JsonValue, uri: Seq<char>) -> bool {
    match p {
        JsonValue::Object(ms) => ms@.len() == 1 && text_member(ms@[0], "uri"@, uri),
        _ => false,
    }
}

/// `p` is `{"query": {"any": [query]}, "exact": false}`.
pub open spec fn is_search_params(p: JsonValue, query: Seq<char>) -> bool {
    match p {
        JsonValue::Object(ms) => {
            &&& ms@.len() == 2
            &&& ms@[0].0@ == "query"@
            &&& match ms@[0].1 {
                JsonValue::Object(q) => {
                    &&& q@.len() == 1
                    &&& q@[0].0@ == "any"@
                    &&& match q@[0].1 {
                        JsonValue::Array(items) => items@.len() == 1 && match items@[0] {
                            JsonValue::String(s) => s@ == query,
                            _ => false,
                        },
                        _ => false,
                    }
                },
                _ => false,
            }
            &&& ms@[1].0@ == "exact"@
            &&& ms@[1].1 == JsonValue::Bool(false)
        },
        _ => false,
    }
}

/// The parameters of a lookup of `uri`.
pub fn lookup_params(uri: &str) -> (r: JsonValue)
    ensures
        is_lookup_params(r, uri@),
{
    let mut members: Vec<(String, JsonValue)> = Vec::new();
    members.push(("uri".to_owned(), JsonValue::from_str_value(uri)));
    JsonValue::Object(members)
}

/// The parameters of a search that matches `query` as a keyword in any field.
pub fn search_params(query: &str) -> (r: JsonValue)
    ensures
        is_search_params(r, query@),
{
    let mut any: Vec<JsonValue> = Vec::new();
    any.push(JsonValue::from_str_value(query));
    let mut inner: Vec<(String, JsonValue)> = Vec::new();
    inner.push(("any".to_owned(), JsonValue::Array(any)));
    let mut members: Vec<(String, JsonValue)> = Vec::new();
    members.push(("query".to_owned(), JsonValue::Object(inner)));
    members.push(("exact".to_owned(), JsonValue::Bool(false)));
    JsonValue::Object(members)
}

/// The envelope that looks up the records of `uri`.
pub fn lookup_request(uri: &str) -> (r: JsonValue)
    ensures
        r matches JsonValue::Object(ms) && ms@.len() == 4 && is_envelope(r, LOOKUP_METHOD@, Some(ms@[3].1))
            && is_lookup_params(ms@[3].1, uri@),
{
    rpc_envelope(LOOKUP_METHOD, Some(lookup_params(uri)))
}

/// The envelope that searches for `query` in any field.
pub fn search_request(query: &str) -> (r: JsonValue)
    ensures
        r matches JsonValue::Object(ms) && ms@.len() == 4 && is_envelope(r, SEARCH_METHOD@, Some(ms@[3].1))
            && is_search_params(ms@[3].1, query@),
{
    rpc_envelope(SEARCH_METHOD, Some(search_params(query)))
}

/// The envelope of the health probe, which asks for the playback state.
pub fn health_request() -> (r: JsonValue)
    ensures
        is_envelope(r, STATE_METHOD@, None),
{
    rpc_envelope(STATE_METHOD, None)
}

/// What a reply to a method call means: its `error` object becomes an
/// upstream failure with that error's message; otherwise its `result` is
/// the answer, and a reply with neither is an upstream failure.
pub fn method_outcome(response: JsonValue) -> (r: Result<JsonValue, AppError>)
    ensures
        match field(response, "error"@) {
            Some(e) => r matches Err(AppError::Upstream(m)) && m@ == error_message(e, "unknown Mopidy error"@),
            None => match field(response, "result"@) {
                Some(v) => r == Ok::<JsonValue, AppError>(v),
                None => r matches Err(AppError::Upstream(m)) && m@ == "Mopidy response missing result"@,
            },
        },
{
    match response.get("error") {
        Some(e) => {
            let message = match e.get_str("message") {
                Some(m) => m,
                None => "unknown Mopidy error",
            };
            return Err(AppError::upstream(message));
        },
        None => {},
    }
    match response.take_field("result") {
        Some(v) => Ok(v),
        None => Err(AppError::upstream("Mopidy response missing result")),
    }
}

/// The canonical record of a lookup result: its first element, if it is a
/// list with one.
pub fn first_record(result: JsonValue) -> (r: Option<JsonValue>)
    ensures
        match array_items(result) {
            Some(items) => if items.len() > 0 {
                r == Some(items[0])
            } else {
                r is None
            },
            None => r is None,
        },
{
    match result {
        JsonValue::Array(mut items) => {
            if items.len() > 0 {
                Some(items.remove(0))
            } else {
                None
            }
        },
        _ => None,
    }
}

/// The result groups of a search result: its elements if it is a list, none
/// otherwise.
pub fn result_groups(result: JsonValue) -> (r: Vec<JsonValue>)
    ensures
        r@ == match array_items(result) {
            Some(items) => items,
            None => seq![],
        },
{
    match result {
        JsonValue::Array(items) => items,
        _ => Vec::new(),
    }
}

/// What the health probe reports: a reply without an `error` object is
/// healthy; otherwise the error's message, or the failure's own text.
pub fn health_outcome(reply: Result<JsonValue, AppError>) -> (r: Result<(), String>)
    ensures
        match reply {
            Ok(v) => match field(v, "error"@) {
                Some(e) => r matches Err(m) && m@ == error_message(e, "RPC error returned"@),
                None => r is Ok,
            },
            Err(e) => r matches Err(m) && m@ == describe(e),
        },
{
    match reply {
        Ok(v) => match v.get("error") {
            Some(e) => {
                let message = match e.get_str("message") {
                    Some(m) => m,
                    None => "RPC error returned",
                };
                Err(message.to_owned())
            },
            None => Ok(()),
        },
        Err(e) => Err(e.message()),
    }
}

} // verus!
