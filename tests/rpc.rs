use hauski_backend::json::JsonValue;
use hauski_backend::rpc::{
    first_record, health_outcome, health_request, lookup_request, method_outcome, result_groups,
    rpc_envelope, search_request,
};
use hauski_backend::AppError;

fn s(text: &str) -> JsonValue {
    JsonValue::String(text.to_string())
}

fn obj(members: Vec<(&str, JsonValue)>) -> JsonValue {
    JsonValue::Object(members.into_iter().map(|(k, v)| (k.to_string(), v)).collect())
}

fn reply(key: &str, value: JsonValue) -> JsonValue {
    obj(vec![("jsonrpc", s("2.0")), ("id", JsonValue::Number("1".to_string())), (key, value)])
}

fn text_of(v: Option<&JsonValue>) -> Option<&str> {
    match v {
        Some(JsonValue::String(t)) => Some(t.as_str()),
        _ => None,
    }
}

#[test]
fn call_method_returns_result_payload() {
    let value = method_outcome(reply("result", s("ok"))).expect("result");
    assert!(matches!(value, JsonValue::String(ref t) if t == "ok"));
}

#[test]
fn call_method_maps_error_response() {
    let err = method_outcome(reply("error", obj(vec![("message", s("boom"))]))).expect_err("should fail");
    match err {
        AppError::Upstream(message) => assert_eq!(message, "boom"),
        other => panic!("unexpected error: {other:?}"),
    }
}

#[test]
fn error_without_message_uses_default() {
    match method_outcome(reply("error", obj(vec![]))) {
        Err(AppError::Upstream(m)) => assert_eq!(m, "unknown Mopidy error"),
        other => panic!("unexpected: {other:?}"),
    }
}

#[test]
fn reply_without_result_or_error_fails() {
    match method_outcome(obj(vec![("jsonrpc", s("2.0"))])) {
        Err(AppError::Upstream(m)) => assert_eq!(m, "Mopidy response missing result"),
        other => panic!("unexpected: {other:?}"),
    }
}

#[test]
fn lookup_track_returns_first_entry() {
    let result = method_outcome(reply(
        "result",
        JsonValue::Array(vec![obj(vec![("uri", s("track:1"))]), obj(vec![("uri", s("track:2"))])]),
    ))
    .expect("result");
    let track = first_record(result).expect("track");
    assert_eq!(text_of(track.get("uri")), Some("track:1"));
}

#[test]
fn lookup_of_empty_list_finds_nothing() {
    assert!(first_record(JsonValue::Array(vec![])).is_none());
    assert!(first_record(s("x")).is_none());
}

#[test]
fn search_any_returns_results_vector() {
    let result = method_outcome(reply("result", JsonValue::Array(vec![obj(vec![("tracks", JsonValue::Array(vec![]))])])))
        .expect("result");
    assert_eq!(result_groups(result).len(), 1);
    assert!(result_groups(JsonValue::Null).is_empty());
}

#[test]
fn health_check_surfaces_message() {
    let err = health_outcome(Ok(reply("error", obj(vec![("message", s("offline"))])))).expect_err("should error");
    assert_eq!(err, "offline");
}

#[test]
fn health_check_outcomes() {
    assert_eq!(health_outcome(Ok(reply("result", s("stopped")))), Ok(()));
    assert_eq!(health_outcome(Ok(reply("error", obj(vec![])))), Err("RPC error returned".to_string()));
    assert_eq!(
        health_outcome(Err(AppError::upstream("failed to reach Mopidy"))),
        Err("failed to reach Mopidy".to_string())
    );
}

#[test]
fn envelope_members() {
    let env = rpc_envelope("core.library.lookup", None);
    assert_eq!(text_of(env.get("jsonrpc")), Some("2.0"));
    assert!(matches!(env.get("id"), Some(JsonValue::Number(n)) if n == "1"));
    assert_eq!(text_of(env.get("method")), Some("core.library.lookup"));
    assert!(env.get("params").is_none());
}

#[test]
fn lookup_and_search_envelopes() {
    let lookup = lookup_request("a:1");
    assert_eq!(text_of(lookup.get("method")), Some("core.library.lookup"));
    assert_eq!(text_of(lookup.get("params").and_then(|p| p.get("uri"))), Some("a:1"));

    let search = search_request("Artist Seed");
    assert_eq!(text_of(search.get("method")), Some("core.library.search"));
    let params = search.get("params").expect("params");
    assert!(matches!(params.get("exact"), Some(JsonValue::Bool(false))));
    match params.get("query").and_then(|q| q.get("any")) {
        Some(JsonValue::Array(items)) => {
            assert_eq!(items.len(), 1);
            assert_eq!(text_of(items.first()), Some("Artist Seed"));
        }
        other => panic!("unexpected: {other:?}"),
    }

    let health = health_request();
    assert_eq!(text_of(health.get("method")), Some("core.playback.get_state"));
}
