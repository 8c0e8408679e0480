use axum::http::{HeaderMap, HeaderName, HeaderValue};
use light_example::headers::header_str;
use light_example::json::{Json, Member};
use light_example::mcp_error::{INVALID_REQUEST, METHOD_NOT_FOUND};
use light_example::mcp_server::{
    accepted_response, delete_mcp_session, handle_mcp, health, json_rpc_result_response,
    require_session, AppState, JsonRpcRequest, McpReply, ACCEPTED, MCP_PROTOCOL_VERSION,
    MCP_SESSION_ID, OK,
};
use serde_json::Value;

fn document(value: Value) -> Json {
    match value {
        Value::Null => Json::Null,
        Value::Bool(b) => Json::Bool(b),
        Value::Number(n) => Json::Number(n),
        Value::String(s) => Json::Text(s),
        Value::Array(items) => Json::Array(items.into_iter().map(document).collect()),
        Value::Object(members) => Json::Object(
            members
                .into_iter()
                .map(|(name, value)| Member {
                    name,
                    value: document(value),
                })
                .collect(),
        ),
    }
}

fn parse(text: &str) -> Json {
    document(serde_json::from_str(text).expect("valid JSON"))
}

fn reparse(answer: &Json) -> Value {
    serde_json::from_str(&answer.to_text()).expect("valid JSON")
}

fn request(id: u64, method: &str, params: &str) -> JsonRpcRequest<Value> {
    JsonRpcRequest {
        jsonrpc: Some("2.0".to_string()),
        method: method.to_string(),
        params: parse(params),
        id: Some(Value::from(id)),
    }
}

const INITIALIZE: &str = r#"{
    "protocolVersion": "2025-06-18",
    "capabilities": {},
    "clientInfo": { "name": "test", "version": "1" }
}"#;

fn session_headers(reply: &McpReply<Value>) -> HeaderMap {
    let mut headers = HeaderMap::new();
    headers.insert(
        "mcp-session-id",
        reply
            .headers
            .get(MCP_SESSION_ID)
            .expect("session header")
            .clone(),
    );
    headers
}

fn text_of<'a>(headers: &'a HeaderMap, name: &'static str) -> Option<&'a str> {
    header_str(headers, &HeaderName::from_static(name))
}

fn error_of(reply: &McpReply<Value>) -> (i32, String) {
    let body = reply.body.as_ref().expect("body");
    assert!(body.result.is_none());
    let error = body.error.as_ref().expect("error");
    assert!(error.data.is_none());
    (error.code, error.message.clone())
}

#[test]
fn mcp_requires_session_after_initialize() {
    let mut state = AppState::new("0.1.0");
    let reply = handle_mcp(
        &mut state,
        &HeaderMap::new(),
        request(1, "tools/list", "{}"),
    );

    assert_eq!(reply.status, OK);
    let (code, message) = error_of(&reply);
    assert_eq!(code, -32602);
    assert_eq!(message, "missing Mcp-Session-Id");
}

#[test]
fn initialize_returns_session_header() {
    let mut state = AppState::new("0.1.0");
    let reply = handle_mcp(
        &mut state,
        &HeaderMap::new(),
        request(1, "initialize", INITIALIZE),
    );

    assert_eq!(reply.status, OK);
    assert!(reply.headers.contains_key(MCP_SESSION_ID));
}

#[test]
fn tools_list_accepts_initialized_session() {
    let mut state = AppState::new("0.1.0");
    let reply = handle_mcp(
        &mut state,
        &HeaderMap::new(),
        request(1, "initialize", INITIALIZE),
    );
    let headers = session_headers(&reply);

    let reply = handle_mcp(&mut state, &headers, request(2, "tools/list", "{}"));

    assert_eq!(reply.status, OK);
    let body = reply.body.expect("body");
    assert!(body.error.is_none());
    assert_eq!(body.id, Some(Value::from(2)));
    let tools = reparse(&body.result.expect("result"));
    assert_eq!(tools["tools"].as_array().expect("tools").len(), 5);
}

#[test]
fn the_welcome_names_version_and_server() {
    let mut state = AppState::new("9.8.7");
    let reply = handle_mcp(
        &mut state,
        &HeaderMap::new(),
        request(1, "initialize", r#"{ "protocolVersion": "2024-11-05" }"#),
    );
    assert_eq!(
        text_of(&reply.headers, MCP_SESSION_ID),
        Some("demo-insurance-claim-mcp-1")
    );
    assert_eq!(
        text_of(&reply.headers, MCP_PROTOCOL_VERSION),
        Some("2024-11-05")
    );
    let body = reply.body.expect("body");
    assert_eq!(body.jsonrpc, "2.0");
    assert_eq!(
        reparse(&body.result.expect("result")),
        serde_json::from_str::<Value>(
            r#"{
                "protocolVersion": "2024-11-05",
                "capabilities": { "tools": { "listChanged": false } },
                "serverInfo": { "name": "demo-insurance-claim-mcp-server", "version": "9.8.7" }
            }"#
        )
        .expect("valid JSON")
    );
}

#[test]
fn a_blank_or_missing_version_becomes_the_default() {
    let mut state = AppState::new("1");
    for params in ["null", "{}", r#"{ "protocolVersion": " \t" }"#, r#"{ "protocolVersion": 3 }"#]
    {
        let reply = handle_mcp(
            &mut state,
            &HeaderMap::new(),
            request(1, "initialize", params),
        );
        assert_eq!(
            text_of(&reply.headers, MCP_PROTOCOL_VERSION),
            Some("2025-06-18")
        );
    }
    let padded = handle_mcp(
        &mut state,
        &HeaderMap::new(),
        request(1, "initialize", r#"{ "protocolVersion": " 1 " }"#),
    );
    let session = require_session(&state, &session_headers(&padded)).expect("session");
    assert_eq!(session.protocol_version, " 1 ");
}

#[test]
fn a_version_that_no_header_can_hold_is_left_out_of_the_headers() {
    let mut state = AppState::new("1");
    let reply = handle_mcp(
        &mut state,
        &HeaderMap::new(),
        request(1, "initialize", r#"{ "protocolVersion": "a\nb" }"#),
    );
    assert!(!reply.headers.contains_key(MCP_PROTOCOL_VERSION));
    assert!(reply.headers.contains_key(MCP_SESSION_ID));
    let beyond = handle_mcp(
        &mut state,
        &HeaderMap::new(),
        request(1, "initialize", "{ \"protocolVersion\": \"\u{e4}\" }"),
    );
    assert_eq!(
        beyond
            .headers
            .get(MCP_PROTOCOL_VERSION)
            .expect("header")
            .as_bytes(),
        "\u{e4}".as_bytes()
    );
    assert_eq!(text_of(&beyond.headers, MCP_PROTOCOL_VERSION), None);
}

#[test]
fn sessions_are_numbered_and_independent() {
    let mut state = AppState::new("1");
    let first = handle_mcp(
        &mut state,
        &HeaderMap::new(),
        request(1, "initialize", r#"{ "protocolVersion": "a" }"#),
    );
    let second = handle_mcp(
        &mut state,
        &HeaderMap::new(),
        request(2, "initialize", r#"{ "protocolVersion": "b" }"#),
    );
    assert_eq!(
        text_of(&second.headers, MCP_SESSION_ID),
        Some("demo-insurance-claim-mcp-2")
    );
    let ended: McpReply<Value> = delete_mcp_session(&mut state, &session_headers(&second));
    assert_eq!(ended.status, ACCEPTED);
    assert!(ended.body.is_none());
    assert_eq!(text_of(&ended.headers, MCP_PROTOCOL_VERSION), Some("b"));

    let kept = handle_mcp(
        &mut state,
        &session_headers(&first),
        request(3, "tools/list", "{}"),
    );
    assert_eq!(text_of(&kept.headers, MCP_PROTOCOL_VERSION), Some("a"));
    let gone = handle_mcp(
        &mut state,
        &session_headers(&second),
        request(4, "tools/list", "{}"),
    );
    assert_eq!(
        error_of(&gone),
        (-32602, "unknown Mcp-Session-Id".to_string())
    );

    let again: McpReply<Value> = delete_mcp_session(&mut state, &session_headers(&second));
    assert_eq!(again.status, ACCEPTED);
    assert!(again.headers.is_empty());
    let third = handle_mcp(
        &mut state,
        &HeaderMap::new(),
        request(5, "initialize", "{}"),
    );
    assert_eq!(
        text_of(&third.headers, MCP_SESSION_ID),
        Some("demo-insurance-claim-mcp-3")
    );
}

#[test]
fn ending_a_session_asks_for_its_name() {
    let mut state = AppState::new("1");
    let reply: McpReply<Value> = delete_mcp_session(&mut state, &HeaderMap::new());
    assert_eq!(reply.status, OK);
    assert_eq!(
        error_of(&reply),
        (-32602, "missing Mcp-Session-Id".to_string())
    );
    assert_eq!(reply.body.expect("body").id, None);
}

#[test]
fn other_versions_of_the_protocol_are_refused() {
    let mut state = AppState::new("1");
    for version in [None, Some("1.0".to_string()), Some("2.0 ".to_string())] {
        let reply = handle_mcp(
            &mut state,
            &HeaderMap::new(),
            JsonRpcRequest {
                jsonrpc: version,
                ..request(7, "initialize", "{}")
            },
        );
        assert_eq!(
            error_of(&reply),
            (INVALID_REQUEST, "invalid JSON-RPC version".to_string())
        );
        assert_eq!(INVALID_REQUEST, -32600);
        assert!(reply.headers.is_empty());
        assert_eq!(reply.body.expect("body").id, Some(Value::from(7)));
    }
    assert_eq!(state.next_session, 1);
}

fn opened() -> (AppState, HeaderMap) {
    let mut state = AppState::new("1");
    let reply = handle_mcp(
        &mut state,
        &HeaderMap::new(),
        request(1, "initialize", INITIALIZE),
    );
    let headers = session_headers(&reply);
    (state, headers)
}

#[test]
fn unknown_methods_are_not_found() {
    let (mut state, headers) = opened();
    let reply = handle_mcp(&mut state, &headers, request(2, "resources/list", "{}"));
    assert_eq!(
        error_of(&reply),
        (
            METHOD_NOT_FOUND,
            "method `resources/list` not found".to_string()
        )
    );
    assert_eq!(METHOD_NOT_FOUND, -32601);
    let with_id = handle_mcp(
        &mut state,
        &headers,
        request(3, "notifications/initialized", "{}"),
    );
    assert_eq!(
        error_of(&with_id).1,
        "method `notifications/initialized` not found"
    );
}

#[test]
fn the_ready_note_is_accepted_without_a_body() {
    let (mut state, headers) = opened();
    let reply = handle_mcp(
        &mut state,
        &headers,
        JsonRpcRequest {
            id: None,
            ..request(0, "notifications/initialized", "null")
        },
    );
    assert_eq!(reply.status, ACCEPTED);
    assert!(reply.body.is_none());
    assert_eq!(
        text_of(&reply.headers, MCP_PROTOCOL_VERSION),
        Some("2025-06-18")
    );
    let without_session = handle_mcp(
        &mut state,
        &HeaderMap::new(),
        JsonRpcRequest {
            id: None,
            ..request(0, "notifications/initialized", "null")
        },
    );
    assert_eq!(error_of(&without_session).1, "missing Mcp-Session-Id");
}

#[test]
fn tools_are_called_within_a_session() {
    let (mut state, headers) = opened();
    let reply = handle_mcp(
        &mut state,
        &headers,
        request(
            2,
            "tools/call",
            r#"{ "name": "listRequiredDocuments", "arguments": {} }"#,
        ),
    );
    assert_eq!(
        text_of(&reply.headers, MCP_PROTOCOL_VERSION),
        Some("2025-06-18")
    );
    assert!(!reply.headers.contains_key(MCP_SESSION_ID));
    let result = reparse(&reply.body.expect("body").result.expect("result"));
    assert_eq!(result["structuredContent"]["recommendedPath"], "repair");
    let refused = handle_mcp(
        &mut state,
        &headers,
        request(3, "tools/call", r#"{ "name": "none" }"#),
    );
    assert_eq!(
        error_of(&refused),
        (-32602, "tool `none` not found".to_string())
    );
    assert!(refused.headers.is_empty());
}

#[test]
fn a_session_name_that_is_not_visible_counts_as_missing() {
    let (mut state, _) = opened();
    let mut headers = HeaderMap::new();
    headers.insert(
        "mcp-session-id",
        HeaderValue::from_bytes(&[0xff]).expect("header value"),
    );
    let reply = handle_mcp(&mut state, &headers, request(2, "tools/list", "{}"));
    assert_eq!(error_of(&reply).1, "missing Mcp-Session-Id");
}

#[test]
fn session_numbers_wrap_around() {
    let mut state = AppState::new("1");
    state.next_session = u64::MAX;
    let reply = handle_mcp(
        &mut state,
        &HeaderMap::new(),
        request(1, "initialize", "{}"),
    );
    assert_eq!(
        text_of(&reply.headers, MCP_SESSION_ID),
        Some("demo-insurance-claim-mcp-18446744073709551615")
    );
    assert_eq!(state.next_session, 0);
}

#[test]
fn answers_hold_the_headers_they_are_given() {
    let both = json_rpc_result_response(
        Some(Value::from("x")),
        Json::Null,
        Some("v"),
        Some("s"),
    );
    assert_eq!(text_of(&both.headers, MCP_PROTOCOL_VERSION), Some("v"));
    assert_eq!(text_of(&both.headers, MCP_SESSION_ID), Some("s"));
    assert_eq!(both.headers.len(), 2);
    assert_eq!(both.body.expect("body").id, Some(Value::from("x")));
    let none: McpReply<Value> = accepted_response(None);
    assert!(none.headers.is_empty());
    assert_eq!(none.status, 202);
}

#[test]
fn the_claim_server_is_up() {
    let response = health();
    assert_eq!(response.status, "UP");
    assert_eq!(response.service, "demo-insurance-claim-mcp-server");
}

#[test]
fn each_header_of_an_answer_stands_once() {
    let mut state = AppState::new("1");
    let reply = handle_mcp(
        &mut state,
        &HeaderMap::new(),
        request(1, "initialize", INITIALIZE),
    );
    assert_eq!(reply.headers.len(), 2);
    assert_eq!(reply.headers.get_all(MCP_SESSION_ID).iter().count(), 1);
    assert_eq!(
        reply.headers.get_all(MCP_PROTOCOL_VERSION).iter().count(),
        1
    );
}

#[test]
fn of_several_session_headers_the_first_counts() {
    let (mut state, headers) = opened();
    let mut doubled = headers.clone();
    doubled.append("mcp-session-id", HeaderValue::from_static("other"));
    let accepted = handle_mcp(&mut state, &doubled, request(2, "tools/list", "{}"));
    assert!(accepted.body.expect("body").error.is_none());
    let mut reversed = HeaderMap::new();
    reversed.append("mcp-session-id", HeaderValue::from_static("other"));
    reversed.append(
        "mcp-session-id",
        headers.get("mcp-session-id").expect("header").clone(),
    );
    let refused = handle_mcp(&mut state, &reversed, request(3, "tools/list", "{}"));
    assert_eq!(error_of(&refused).1, "unknown Mcp-Session-Id");
}

#[test]
fn headers_are_read_by_any_name() {
    let quoted = HeaderName::from_static("x\"y");
    let mut headers = HeaderMap::new();
    headers.insert(quoted.clone(), HeaderValue::from_static(" v "));
    headers.append("Host", HeaderValue::from_static("first"));
    headers.append("host", HeaderValue::from_static("second"));
    assert_eq!(header_str(&headers, &quoted), Some(" v "));
    assert_eq!(text_of(&headers, "host"), Some("first"));
    assert_eq!(text_of(&headers, "x-none"), None);
}
