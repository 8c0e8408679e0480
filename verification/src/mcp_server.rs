//! The claim server: JSON-RPC requests, answered within sessions.

use crate::claim_tools::{call_outcome, execute_tool_call, tool_catalogue, tool_definitions};
use crate::headers::{
    all_values, header_str, header_text, insert_header, name_text, no_headers, no_values,
    static_name, with_header,
};
use crate::json::{put, text, Json, JsonModel, Member};
use crate::mcp_error::{
    invalid_params, method_not_found, McpError, McpErrorModel, INVALID_PARAMS, INVALID_REQUEST,
};
use crate::model::result_model;
use crate::text::{concat2, decimal, decimal_text, same_text, trim, trimmed};
use axum::http::{HeaderMap, HeaderName};
use vstd::hash_map::StringHashMap;
use vstd::prelude::*;

verus! {

/// The header that names the session of a request.
pub const MCP_SESSION_ID: &'static str = "mcp-session-id";

/// The header that names the protocol version of an answer.
pub const MCP_PROTOCOL_VERSION: &'static str = "mcp-protocol-version";

/// The protocol version of a session whose client names none.
pub const DEFAULT_PROTOCOL_VERSION: &'static str = "2025-06-18";

/// HTTP: the request was answered.
pub const OK: u16 = 200;

/// HTTP: the request was taken; there is nothing to say to it.
pub const ACCEPTED: u16 = 202;

/// A client's session.
#[derive(Debug)]
pub struct McpSession {
    pub protocol_version: String,
}

impl DeepView for McpSession {
    type V = Seq<char>;

    /// The protocol version agreed on.
    open spec fn deep_view(&self) -> Seq<char> {
        self.protocol_version@
    }
}

impl Clone for McpSession {
    fn clone(&self) -> (session: McpSession)
        ensures
            session.deep_view() == self.deep_view(),
    {
        McpSession { protocol_version: self.protocol_version.clone() }
    }
}

/// The server: its open sessions, the number of the next one, and the version it reports.
pub struct AppState {
    pub sessions: StringHashMap<McpSession>,
    pub next_session: u64,
    pub server_version: String,
}

/// The state of the server: of each open session, the protocol version agreed on.
#[verifier::ext_equal]
pub struct ServerModel {
    pub sessions: Map<Seq<char>, Seq<char>>,
    pub next_session: u64,
    pub server_version: Seq<char>,
}

impl DeepView for AppState {
    type V = ServerModel;

    open spec fn deep_view(&self) -> ServerModel {
        ServerModel {
            sessions: self.sessions@.map_values(|session: McpSession| session.deep_view()),
            next_session: self.next_session,
            server_version: self.server_version@,
        }
    }
}

/// A JSON-RPC request. Its identifier is handed back as it came.
pub struct JsonRpcRequest<I> {
    pub jsonrpc: Option<String>,
    pub method: String,
    pub params: Json,
    pub id: Option<I>,
}

#[verifier::ext_equal]
pub struct RequestModel<I> {
    pub jsonrpc: Option<Seq<char>>,
    pub method: Seq<char>,
    pub params: JsonModel,
    pub id: Option<I>,
}

impl<I> DeepView for JsonRpcRequest<I> {
    type V = RequestModel<I>;

    open spec fn deep_view(&self) -> RequestModel<I> {
        RequestModel {
            jsonrpc: self.jsonrpc.deep_view(),
            method: self.method@,
            params: self.params.model(),
            id: self.id,
        }
    }
}

/// A JSON-RPC error object.
pub struct JsonRpcError {
    pub code: i32,
    pub message: String,
    pub data: Option<Json>,
}

/// A JSON-RPC response.
pub struct JsonRpcResponse<I> {
    pub jsonrpc: &'static str,
    pub result: Option<Json>,
    pub error: Option<JsonRpcError>,
    pub id: Option<I>,
}

#[verifier::ext_equal]
pub struct ErrorModel {
    pub code: i32,
    pub message: Seq<char>,
    pub data: Option<JsonModel>,
}

#[verifier::ext_equal]
pub struct ResponseModel<I> {
    pub jsonrpc: Seq<char>,
    pub result: Option<JsonModel>,
    pub error: Option<ErrorModel>,
    pub id: Option<I>,
}

impl DeepView for JsonRpcError {
    type V = ErrorModel;

    open spec fn deep_view(&self) -> ErrorModel {
        ErrorModel { code: self.code, message: self.message@, data: self.data.deep_view() }
    }
}

impl<I> DeepView for JsonRpcResponse<I> {
    type V = ResponseModel<I>;

    open spec fn deep_view(&self) -> ResponseModel<I> {
        ResponseModel {
            jsonrpc: self.jsonrpc@,
            result: self.result.deep_view(),
            error: self.error.deep_view(),
            id: self.id,
        }
    }
}

/// An answer of the server, with the headers of its own and what stands in the body.
pub struct McpReply<I> {
    pub status: u16,
    pub headers: HeaderMap,
    pub body: Option<JsonRpcResponse<I>>,
}

#[verifier::ext_equal]
pub struct ReplyModel<I> {
    pub status: u16,
    pub headers: Map<Seq<char>, Seq<Seq<u8>>>,
    pub body: Option<ResponseModel<I>>,
}

impl<I> DeepView for McpReply<I> {
    type V = ReplyModel<I>;

    open spec fn deep_view(&self) -> ReplyModel<I> {
        ReplyModel {
            status: self.status,
            headers: all_values(self.headers),
            body: self.body.deep_view(),
        }
    }
}

// ---------------------------------------------------------------------------------------
// Answers
// ---------------------------------------------------------------------------------------

/// The headers of an answer: the protocol version and the session, as far as there are any.
pub open spec fn reply_headers(
    protocol_version: Option<Seq<char>>,
    session_id: Option<Seq<char>>,
) -> Map<Seq<char>, Seq<Seq<u8>>> {
    let versioned = match protocol_version {
        Some(version) => with_header(no_values(), MCP_PROTOCOL_VERSION@, version),
        None => no_values(),
    };
    match session_id {
        Some(id) => with_header(versioned, MCP_SESSION_ID@, id),
        None => versioned,
    }
}

pub open spec fn result_reply<I>(
    id: Option<I>,
    result: JsonModel,
    protocol_version: Option<Seq<char>>,
    session_id: Option<Seq<char>>,
) -> ReplyModel<I> {
    ReplyModel {
        status: OK,
        headers: reply_headers(protocol_version, session_id),
        body: Some(
            ResponseModel { jsonrpc: "2.0"@, result: Some(result), error: None, id },
        ),
    }
}

/// A refusal: it too is an answered request, with an error in the body.
pub open spec fn error_reply<I>(id: Option<I>, code: i32, message: Seq<char>) -> ReplyModel<I> {
    ReplyModel {
        status: OK,
        headers: no_values(),
        body: Some(
            ResponseModel {
                jsonrpc: "2.0"@,
                result: None,
                error: Some(ErrorModel { code, message, data: None }),
                id,
            },
        ),
    }
}

pub open spec fn accepted_reply<I>(protocol_version: Option<Seq<char>>) -> ReplyModel<I> {
    ReplyModel { status: ACCEPTED, headers: reply_headers(protocol_version, None), body: None }
}

/// The name of the header that names the session.
fn session_header() -> (name: HeaderName)
    ensures
        name_text(name) == MCP_SESSION_ID@,
{
    proof {
        reveal_strlit("mcp-session-id");
    }
    static_name(MCP_SESSION_ID)
}

/// The name of the header that names the protocol version.
fn version_header() -> (name: HeaderName)
    ensures
        name_text(name) == MCP_PROTOCOL_VERSION@,
{
    proof {
        reveal_strlit("mcp-protocol-version");
    }
    static_name(MCP_PROTOCOL_VERSION)
}

/// The headers of an answer.
fn headers_of(protocol_version: Option<&str>, session_id: Option<&str>) -> (headers: HeaderMap)
    ensures
        all_values(headers) == reply_headers(
            protocol_version.deep_view(),
            session_id.deep_view(),
        ),
{
    let mut headers = no_headers();
    proof {
        assert(no_values().len() == 0);
    }
    if let Some(version) = protocol_version {
        insert_header(&mut headers, &version_header(), version);
    }
    proof {
        assert(all_values(headers).len() <= 1);
    }
    if let Some(id) = session_id {
        insert_header(&mut headers, &session_header(), id);
    }
    headers
}

/// The answer to a request that was carried out.
pub fn json_rpc_result_response<I>(
    id: Option<I>,
    result: Json,
    protocol_version: Option<&str>,
    session_id: Option<&str>,
) -> (reply: McpReply<I>)
    ensures
        reply.deep_view() == result_reply(
            id,
            result.model(),
            protocol_version.deep_view(),
            session_id.deep_view(),
        ),
{
    McpReply {
        status: OK,
        headers: headers_of(protocol_version, session_id),
        body: Some(JsonRpcResponse { jsonrpc: "2.0", result: Some(result), error: None, id }),
    }
}

/// The answer to a request that was refused.
pub fn json_rpc_error_response<I>(id: Option<I>, code: i32, message: &str) -> (reply: McpReply<I>)
    ensures
        reply.deep_view() == error_reply(id, code, message@),
{
    McpReply {
        status: OK,
        headers: no_headers(),
        body: Some(
            JsonRpcResponse {
                jsonrpc: "2.0",
                result: None,
                error: Some(JsonRpcError { code, message: message.to_string(), data: None }),
                id,
            },
        ),
    }
}

/// The answer to a request that asks for none.
pub fn accepted_response<I>(protocol_version: Option<&str>) -> (reply: McpReply<I>)
    ensures
        reply.deep_view() == accepted_reply::<I>(protocol_version.deep_view()),
{
    McpReply { status: ACCEPTED, headers: headers_of(protocol_version, None), body: None }
}

// ---------------------------------------------------------------------------------------
// Sessions
// ---------------------------------------------------------------------------------------

/// The name of the session with the given number.
pub open spec fn session_name(number: u64) -> Seq<char> {
    "demo-insurance-claim-mcp-"@ + decimal(number as nat)
}

/// The number behind `number`; behind the greatest comes zero.
pub open spec fn next_number(number: u64) -> u64 {
    if number == u64::MAX {
        0
    } else {
        (number + 1) as u64
    }
}

/// The protocol version of a new session: what the client asks for, unless it asks for nothing
/// or for white space.
pub open spec fn agreed_version(params: JsonModel) -> Seq<char> {
    match params.text_at("protocolVersion"@) {
        Some(version) => if trimmed(version).len() > 0 {
            version
        } else {
            DEFAULT_PROTOCOL_VERSION@
        },
        None => DEFAULT_PROTOCOL_VERSION@,
    }
}

/// The answer to a client that opens a session.
pub open spec fn welcome_document(version: Seq<char>, server_version: Seq<char>) -> JsonModel {
    JsonModel::Object(
        map![
            "protocolVersion"@ => JsonModel::Text(version),
            "capabilities"@ => JsonModel::Object(
                map!["tools"@ => JsonModel::Object(map!["listChanged"@ => JsonModel::Bool(false)])],
            ),
            "serverInfo"@ => JsonModel::Object(
                map![
                    "name"@ => JsonModel::Text("demo-insurance-claim-mcp-server"@),
                    "version"@ => JsonModel::Text(server_version),
                ],
            ),
        ],
    )
}

/// A server without sessions.
pub open spec fn new_server(server_version: Seq<char>) -> ServerModel {
    ServerModel { sessions: Map::empty(), next_session: 1, server_version }
}

impl ServerModel {
    /// The server after a client has opened a session.
    pub open spec fn opened(self, params: JsonModel) -> ServerModel {
        ServerModel {
            sessions: self.sessions.insert(session_name(self.next_session), agreed_version(params)),
            next_session: next_number(self.next_session),
            ..self
        }
    }

    /// The server after the session `id` has ended.
    pub open spec fn closed(self, id: Seq<char>) -> ServerModel {
        ServerModel { sessions: self.sessions.remove(id), ..self }
    }

    /// The server after the wish to end the session that the headers name.
    pub open spec fn after_deletion(self, headers: Map<Seq<char>, Seq<Seq<u8>>>) -> ServerModel {
        match header_text(headers, MCP_SESSION_ID@) {
            Some(id) => self.closed(id),
            None => self,
        }
    }

    /// The answer to the wish to end the session that the headers name: it is accepted whether or
    /// not the session is open.
    pub open spec fn deletion_reply<I>(
        self,
        headers: Map<Seq<char>, Seq<Seq<u8>>>,
    ) -> ReplyModel<I> {
        match header_text(headers, MCP_SESSION_ID@) {
            Some(id) => accepted_reply(
                if self.sessions.contains_key(id) {
                    Some(self.sessions[id])
                } else {
                    None
                },
            ),
            None => error_reply(None, INVALID_PARAMS, "missing Mcp-Session-Id"@),
        }
    }

    /// The protocol version of the session that the headers name.
    pub open spec fn session(self, headers: Map<Seq<char>, Seq<Seq<u8>>>) -> Result<
        Seq<char>,
        McpErrorModel,
    > {
        match header_text(headers, MCP_SESSION_ID@) {
            Some(id) => if self.sessions.contains_key(id) {
                Ok(self.sessions[id])
            } else {
                Err(invalid_params("unknown Mcp-Session-Id"@))
            },
            None => Err(invalid_params("missing Mcp-Session-Id"@)),
        }
    }
}

impl AppState {
    /// A server without sessions.
    pub fn new(server_version: &str) -> (state: AppState)
        ensures
            state.deep_view() == new_server(server_version@),
    {
        let state = AppState {
            sessions: StringHashMap::new(),
            next_session: 1,
            server_version: server_version.to_string(),
        };
        proof {
            assert(state.deep_view().sessions =~= Map::empty());
        }
        state
    }
}

/// The session that the headers name.
pub fn require_session(state: &AppState, headers: &HeaderMap) -> (session: Result<
    McpSession,
    McpError,
>)
    ensures
        result_model(session) == state.deep_view().session(all_values(*headers)),
{
    let session_id: &str = match header_str(headers, &session_header()) {
        Some(session_id) => session_id,
        None => return Err(McpError::invalid_params("missing Mcp-Session-Id")),
    };
    match state.sessions.get(session_id) {
        Some(session) => Ok(session.clone()),
        None => Err(McpError::invalid_params("unknown Mcp-Session-Id")),
    }
}

/// The answer to a client that opens a session.
fn welcome(version: &str, server_version: &str) -> (document: Json)
    ensures
        document.model() == welcome_document(version@, server_version@),
{
    let mut tools: Vec<Member> = Vec::new();
    put(&mut tools, "listChanged", Json::Bool(false));
    let mut capabilities: Vec<Member> = Vec::new();
    put(&mut capabilities, "tools", Json::Object(tools));
    let mut server_info: Vec<Member> = Vec::new();
    put(&mut server_info, "name", text("demo-insurance-claim-mcp-server"));
    put(&mut server_info, "version", text(server_version));
    let mut members: Vec<Member> = Vec::new();
    put(&mut members, "protocolVersion", text(version));
    put(&mut members, "capabilities", Json::Object(capabilities));
    put(&mut members, "serverInfo", Json::Object(server_info));
    Json::Object(members)
}

/// Opens a session.
pub fn initialize_session<I>(
    state: &mut AppState,
    request: JsonRpcRequest<I>,
) -> (reply: McpReply<I>)
    ensures
        final(state).deep_view() == old(state).deep_view().opened(request.params.model()),
        reply.deep_view() == result_reply(
            request.id,
            welcome_document(
                agreed_version(request.params.model()),
                old(state).deep_view().server_version,
            ),
            Some(agreed_version(request.params.model())),
            Some(session_name(old(state).deep_view().next_session)),
        ),
{
    let protocol_version = match request.params.text_at("protocolVersion") {
        Some(requested) => if trim(requested).as_str().is_empty() {
            DEFAULT_PROTOCOL_VERSION.to_string()
        } else {
            requested.to_string()
        },
        None => DEFAULT_PROTOCOL_VERSION.to_string(),
    };
    let session_number: u64 = state.next_session;
    state.next_session = session_number.wrapping_add(1);
    let session_id = concat2("demo-insurance-claim-mcp-", decimal_text(session_number).as_str());
    let session = McpSession { protocol_version: protocol_version.clone() };
    state.sessions.insert(session_id.clone(), session);
    proof {
        assert(state.deep_view().sessions =~= old(state).deep_view().opened(
            request.params.model(),
        ).sessions);
    }
    let document = welcome(protocol_version.as_str(), state.server_version.as_str());
    json_rpc_result_response(
        request.id,
        document,
        Some(protocol_version.as_str()),
        Some(session_id.as_str()),
    )
}

/// Ends the session that the headers name.
pub fn delete_mcp_session<I>(state: &mut AppState, headers: &HeaderMap) -> (reply: McpReply<I>)
    ensures
        final(state).deep_view() == old(state).deep_view().after_deletion(all_values(*headers)),
        reply.deep_view() == old(state).deep_view().deletion_reply::<I>(all_values(*headers)),
{
    let session_id: &str = match header_str(headers, &session_header()) {
        Some(session_id) => session_id,
        None => return json_rpc_error_response(None, INVALID_PARAMS, "missing Mcp-Session-Id"),
    };
    let version: Option<String> = match state.sessions.get(session_id) {
        Some(session) => Some(session.protocol_version.clone()),
        None => None,
    };
    state.sessions.remove(session_id);
    proof {
        assert(state.deep_view().sessions =~= old(state).deep_view().closed(session_id@).sessions);
    }
    match version {
        Some(version) => accepted_response(Some(version.as_str())),
        None => accepted_response(None),
    }
}

// ---------------------------------------------------------------------------------------
// Requests
// ---------------------------------------------------------------------------------------

/// What a method answers within a session.
pub open spec fn method_outcome(method: Seq<char>, params: JsonModel) -> Result<
    JsonModel,
    McpErrorModel,
> {
    if method == "tools/list"@ {
        Ok(JsonModel::Object(map!["tools"@ => JsonModel::Array(tool_catalogue())]))
    } else if method == "tools/call"@ {
        call_outcome(params)
    } else {
        Err(method_not_found(method))
    }
}

impl<I> RequestModel<I> {
    pub open spec fn is_json_rpc(self) -> bool {
        self.jsonrpc == Some("2.0"@)
    }

    /// Whether the request opens a session.
    pub open spec fn opens_session(self) -> bool {
        self.is_json_rpc() && self.method == "initialize"@
    }

    /// Whether the request is the note that a client is ready, which asks for no answer.
    pub open spec fn is_ready_note(self) -> bool {
        self.id is None && self.method == "notifications/initialized"@
    }
}

impl ServerModel {
    /// The server after a request: only one that opens a session changes it.
    pub open spec fn after<I>(self, request: RequestModel<I>) -> ServerModel {
        if request.opens_session() {
            self.opened(request.params)
        } else {
            self
        }
    }

    /// The answer to a request.
    pub open spec fn reply<I>(
        self,
        headers: Map<Seq<char>, Seq<Seq<u8>>>,
        request: RequestModel<I>,
    ) -> ReplyModel<I> {
        if !request.is_json_rpc() {
            error_reply(request.id, INVALID_REQUEST, "invalid JSON-RPC version"@)
        } else if request.opens_session() {
            result_reply(
                request.id,
                welcome_document(agreed_version(request.params), self.server_version),
                Some(agreed_version(request.params)),
                Some(session_name(self.next_session)),
            )
        } else {
            match self.session(headers) {
                Err(error) => error_reply(request.id, error.code, error.message),
                Ok(version) => if request.is_ready_note() {
                    accepted_reply(Some(version))
                } else {
                    match method_outcome(request.method, request.params) {
                        Ok(result) => result_reply(request.id, result, Some(version), None),
                        Err(error) => error_reply(request.id, error.code, error.message),
                    }
                },
            }
        }
    }
}

/// Calls a method within a session.
fn call_method(method: &str, params: &Json) -> (outcome: Result<Json, McpError>)
    ensures
        result_model(outcome) == method_outcome(method@, params.model()),
{
    if same_text(method, "tools/list") {
        let mut members: Vec<Member> = Vec::new();
        put(&mut members, "tools", Json::Array(tool_definitions()));
        Ok(Json::Object(members))
    } else if same_text(method, "tools/call") {
        execute_tool_call(params)
    } else {
        Err(McpError::method_not_found(method))
    }
}

/// Whether a request says that it follows JSON-RPC 2.0.
fn says_json_rpc(jsonrpc: &Option<String>) -> (yes: bool)
    ensures
        yes == (jsonrpc.deep_view() == Some("2.0"@)),
{
    match jsonrpc {
        Some(version) => same_text(version.as_str(), "2.0"),
        None => false,
    }
}

/// Answers a request.
pub fn handle_mcp<I>(
    state: &mut AppState,
    headers: &HeaderMap,
    request: JsonRpcRequest<I>,
) -> (reply: McpReply<I>)
    ensures
        final(state).deep_view() == old(state).deep_view().after(request.deep_view()),
        reply.deep_view() == old(state).deep_view().reply(
            all_values(*headers),
            request.deep_view(),
        ),
{
    if !says_json_rpc(&request.jsonrpc) {
        return json_rpc_error_response(request.id, INVALID_REQUEST, "invalid JSON-RPC version");
    }
    if same_text(request.method.as_str(), "initialize") {
        return initialize_session(state, request);
    }
    let session = match require_session(state, headers) {
        Ok(session) => session,
        Err(error) => {
            return json_rpc_error_response(request.id, error.code, error.message.as_str());
        },
    };
    if request.id.is_none() && same_text(request.method.as_str(), "notifications/initialized") {
        return accepted_response(Some(session.protocol_version.as_str()));
    }
    match call_method(request.method.as_str(), &request.params) {
        Ok(result) => json_rpc_result_response(
            request.id,
            result,
            Some(session.protocol_version.as_str()),
            None,
        ),
        Err(error) => json_rpc_error_response(request.id, error.code, error.message.as_str()),
    }
}

/// The answer of a health probe.
#[derive(Debug)]
pub struct HealthResponse {
    pub status: &'static str,
    pub service: &'static str,
}

/// The server is up.
pub fn health() -> (response: HealthResponse)
    ensures
        response.status@ == "UP"@,
        response.service@ == "demo-insurance-claim-mcp-server"@,
{
    HealthResponse { status: "UP", service: "demo-insurance-claim-mcp-server" }
}

} // verus!
