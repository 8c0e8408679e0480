//! Laws of the claim server's sessions and answers.

use crate::claim_tools::{call_outcome, tool_catalogue};
use crate::headers::{header_safe, header_text, no_values, with_header};
use crate::json::JsonModel;
use crate::laws::headers::{is_visible, law_headers_read_back};
use crate::laws::texts::{law_decimal_is_injective, law_numbers_are_written_in_digits};
use crate::mcp_error::{invalid_params, McpErrorModel, INVALID_PARAMS, INVALID_REQUEST};
use crate::mcp_server::{
    agreed_version, error_reply, new_server, reply_headers, result_reply, session_name,
    welcome_document, ReplyModel, RequestModel, ServerModel, ACCEPTED, MCP_PROTOCOL_VERSION,
    MCP_SESSION_ID, OK,
};
use crate::text::{decimal, trimmed};
use vstd::prelude::*;
use vstd::utf8::encode_utf8;

verus! {

// ---------------------------------------------------------------------------------------
// Names of sessions
// ---------------------------------------------------------------------------------------

/// Sessions with different numbers have different names.
pub proof fn law_session_names_are_distinct(a: u64, b: u64)
    ensures
        session_name(a) == session_name(b) ==> a == b,
{
    if session_name(a) == session_name(b) {
        let prefix = "demo-insurance-claim-mcp-"@;
        assert(session_name(a).skip(prefix.len() as int) =~= decimal(a as nat));
        assert(session_name(b).skip(prefix.len() as int) =~= decimal(b as nat));
        law_decimal_is_injective(a as nat, b as nat);
    }
}

/// The name of a session can be the value of a header.
pub proof fn law_session_names_are_visible(number: u64)
    ensures
        is_visible(session_name(number)),
{
    reveal_strlit("demo-insurance-claim-mcp-");
    law_numbers_are_written_in_digits(number as nat);
    let prefix = "demo-insurance-claim-mcp-"@;
    let name = session_name(number);
    assert forall|i: int| 0 <= i < name.len() implies ' ' <= #[trigger] name[i] <= '~'
        || name[i] == '\t' by {
        if i < prefix.len() {
            assert(name[i] == prefix[i]);
        } else {
            assert(name[i] == decimal(number as nat)[i - prefix.len()]);
        }
    }
}

/// Whether each session has a name that belongs to a number handed out before.
pub open spec fn well_named(server: ServerModel) -> bool {
    forall|id: Seq<char>| #[trigger]
        server.sessions.contains_key(id) ==> exists|n: u64|
            n < server.next_session && id == #[trigger] session_name(n)
}

/// The name of the next session belongs to no open one.
pub proof fn law_new_sessions_are_new(server: ServerModel)
    requires
        well_named(server),
    ensures
        !server.sessions.contains_key(session_name(server.next_session)),
{
    let id = session_name(server.next_session);
    if server.sessions.contains_key(id) {
        let n = choose|n: u64| n < server.next_session && id == #[trigger] session_name(n);
        law_session_names_are_distinct(n, server.next_session);
    }
}

// ---------------------------------------------------------------------------------------
// The life of a session
// ---------------------------------------------------------------------------------------

proof fn lemma_header_names_differ()
    ensures
        MCP_SESSION_ID@ != MCP_PROTOCOL_VERSION@,
{
    reveal_strlit("mcp-session-id");
    reveal_strlit("mcp-protocol-version");
    assert(MCP_SESSION_ID@.len() == 14);
    assert(MCP_PROTOCOL_VERSION@.len() == 20);
}

/// The answer that opens a session names it, and the server accepts the session under that name,
/// with the protocol version agreed on.
pub proof fn law_an_opened_session_is_accepted<I>(
    server: ServerModel,
    headers: Map<Seq<char>, Seq<Seq<u8>>>,
    request: RequestModel<I>,
)
    requires
        request.opens_session(),
    ensures
        header_text(server.reply(headers, request).headers, MCP_SESSION_ID@) == Some(
            session_name(server.next_session),
        ),
        server.after(request).session(server.reply(headers, request).headers) == Ok::<
            Seq<char>,
            McpErrorModel,
        >(agreed_version(request.params)),
{
    let version = agreed_version(request.params);
    let name = session_name(server.next_session);
    law_session_names_are_visible(server.next_session);
    law_headers_read_back(
        reply_headers(Some(version), None),
        MCP_SESSION_ID@,
        name,
        MCP_SESSION_ID@,
    );
    assert(server.reply(headers, request).headers == with_header(
        reply_headers(Some(version), None),
        MCP_SESSION_ID@,
        name,
    ));
}

/// Within an opened session the list of tools is to be had: the answer holds the whole list,
/// under the protocol version of the session.
pub proof fn law_an_opened_session_lists_the_tools<I>(
    server: ServerModel,
    headers: Map<Seq<char>, Seq<Seq<u8>>>,
    opening: RequestModel<I>,
    listing: RequestModel<I>,
)
    requires
        opening.opens_session(),
        listing.is_json_rpc(),
        listing.method == "tools/list"@,
    ensures
        server.after(opening).reply(server.reply(headers, opening).headers, listing)
            == result_reply(
            listing.id,
            JsonModel::Object(map!["tools"@ => JsonModel::Array(tool_catalogue())]),
            Some(agreed_version(opening.params)),
            None,
        ),
{
    law_an_opened_session_is_accepted(server, headers, opening);
    reveal_strlit("tools/list");
    reveal_strlit("initialize");
    reveal_strlit("notifications/initialized");
    assert("tools/list"@[0] != "initialize"@[0]);
    assert("tools/list"@.len() == 10);
    assert("notifications/initialized"@.len() == 25);
}

/// What comes to the server: a request, or the wish to end a session.
pub enum Event<I> {
    Request(RequestModel<I>),
    Deletion(Map<Seq<char>, Seq<Seq<u8>>>),
}

/// The server after an event.
pub open spec fn after_event<I>(server: ServerModel, event: Event<I>) -> ServerModel {
    match event {
        Event::Request(request) => server.after(request),
        Event::Deletion(headers) => server.after_deletion(headers),
    }
}

/// The server after some events, one after the other.
pub open spec fn after_events<I>(server: ServerModel, events: Seq<Event<I>>) -> ServerModel
    decreases events.len(),
{
    if events.len() == 0 {
        server
    } else {
        after_event(after_events(server, events.drop_last()), events.last())
    }
}

/// Whether an event ends the session `id`.
pub open spec fn ends<I>(event: Event<I>, id: Seq<char>) -> bool {
    event matches Event::Deletion(headers) && header_text(headers, MCP_SESSION_ID@) == Some(id)
}

/// A new server is well named.
pub proof fn law_a_new_server_is_well_named(server_version: Seq<char>)
    ensures
        well_named(new_server(server_version)),
{
}

/// Events keep the names in order, as long as the numbers last.
pub proof fn law_events_keep_names_in_order<I>(server: ServerModel, events: Seq<Event<I>>)
    requires
        well_named(server),
        server.next_session + events.len() <= u64::MAX,
    ensures
        well_named(after_events(server, events)),
        server.next_session <= after_events(server, events).next_session <= server.next_session
            + events.len(),
    decreases events.len(),
{
    if events.len() > 0 {
        let before = after_events(server, events.drop_last());
        let after = after_events(server, events);
        law_events_keep_names_in_order(server, events.drop_last());
        assert forall|id: Seq<char>| #[trigger] after.sessions.contains_key(id) implies exists|
            n: u64,
        | n < after.next_session && id == #[trigger] session_name(n) by {
            if before.sessions.contains_key(id) {
                let n = choose|n: u64| n < before.next_session && id == #[trigger] session_name(n);
                assert(n < after.next_session && id == session_name(n));
            } else {
                assert(id == session_name(before.next_session));
                assert(before.next_session < after.next_session);
            }
        }
    }
}

/// A session stays open, with its protocol version, until it is ended itself: neither requests
/// nor the end of other sessions touch it.
pub proof fn law_sessions_stay_open<I>(
    server: ServerModel,
    events: Seq<Event<I>>,
    id: Seq<char>,
)
    requires
        well_named(server),
        server.next_session + events.len() <= u64::MAX,
        server.sessions.contains_key(id),
        forall|i: int| 0 <= i < events.len() ==> !ends(#[trigger] events[i], id),
    ensures
        after_events(server, events).sessions.contains_key(id),
        after_events(server, events).sessions[id] == server.sessions[id],
    decreases events.len(),
{
    if events.len() > 0 {
        let front = events.drop_last();
        assert forall|i: int| 0 <= i < front.len() implies !ends(#[trigger] front[i], id) by {
            assert(front[i] == events[i]);
        }
        law_sessions_stay_open(server, front, id);
        law_events_keep_names_in_order(server, front);
        law_new_sessions_are_new(after_events(server, front));
        assert(!ends(events[events.len() - 1], id));
    }
}

/// A session that was ended stays unknown: its name is not given again as long as the numbers
/// last.
pub proof fn law_ended_sessions_stay_unknown<I>(
    server: ServerModel,
    number: u64,
    events: Seq<Event<I>>,
    headers: Map<Seq<char>, Seq<Seq<u8>>>,
)
    requires
        well_named(server),
        number < server.next_session,
        server.next_session + events.len() <= u64::MAX,
        header_text(headers, MCP_SESSION_ID@) == Some(session_name(number)),
    ensures
        after_events(server.closed(session_name(number)), events).session(headers) == Err::<
            Seq<char>,
            McpErrorModel,
        >(invalid_params("unknown Mcp-Session-Id"@)),
{
    let closed = server.closed(session_name(number));
    assert(well_named(closed)) by {
        assert forall|id: Seq<char>| #[trigger] closed.sessions.contains_key(id) implies exists|
            n: u64,
        | n < closed.next_session && id == #[trigger] session_name(n) by {
            assert(server.sessions.contains_key(id));
        }
    }
    lemma_never_given_again(closed, number, events);
}

proof fn lemma_never_given_again<I>(server: ServerModel, number: u64, events: Seq<Event<I>>)
    requires
        well_named(server),
        number < server.next_session,
        server.next_session + events.len() <= u64::MAX,
        !server.sessions.contains_key(session_name(number)),
    ensures
        !after_events(server, events).sessions.contains_key(session_name(number)),
    decreases events.len(),
{
    if events.len() > 0 {
        let front = events.drop_last();
        lemma_never_given_again(server, number, front);
        law_events_keep_names_in_order(server, front);
        law_session_names_are_distinct(number, after_events(server, front).next_session);
    }
}

// ---------------------------------------------------------------------------------------
// Answers
// ---------------------------------------------------------------------------------------

/// Every answer with a body is a JSON-RPC response with the identifier of the request and either
/// a result or an error; only the note that a client is ready gets an answer without one.
pub proof fn law_answers_follow_json_rpc<I>(
    server: ServerModel,
    headers: Map<Seq<char>, Seq<Seq<u8>>>,
    request: RequestModel<I>,
)
    ensures
        match server.reply(headers, request).body {
            Some(body) => {
                &&& server.reply(headers, request).status == OK
                &&& body.jsonrpc == "2.0"@
                &&& body.id == request.id
                &&& body.result is Some <==> body.error is None
            },
            None => {
                &&& server.reply(headers, request).status == ACCEPTED
                &&& request.is_json_rpc()
                &&& request.is_ready_note()
                &&& server.session(headers) is Ok
            },
        },
{
}

/// A request that is refused changes nothing.
pub proof fn law_refused_requests_change_nothing<I>(
    server: ServerModel,
    headers: Map<Seq<char>, Seq<Seq<u8>>>,
    request: RequestModel<I>,
)
    requires
        server.reply(headers, request).body matches Some(body) && body.error is Some,
    ensures
        server.after(request) == server,
{
}

/// A request that is not JSON-RPC 2.0 is refused, whatever it asks for.
pub proof fn law_only_json_rpc_is_answered<I>(
    server: ServerModel,
    headers: Map<Seq<char>, Seq<Seq<u8>>>,
    request: RequestModel<I>,
)
    requires
        request.jsonrpc != Some("2.0"@),
    ensures
        server.reply(headers, request) == error_reply(
            request.id,
            INVALID_REQUEST,
            "invalid JSON-RPC version"@,
        ),
        server.after(request) == server,
{
}

/// Every method but the one that opens a session asks for one: without a session header a
/// request is refused, and likewise with the name of a session that is not open.
pub proof fn law_methods_ask_for_a_session<I>(
    server: ServerModel,
    headers: Map<Seq<char>, Seq<Seq<u8>>>,
    request: RequestModel<I>,
)
    requires
        request.is_json_rpc(),
        !request.opens_session(),
    ensures
        header_text(headers, MCP_SESSION_ID@) is None ==> server.reply(headers, request)
            == error_reply(request.id, INVALID_PARAMS, "missing Mcp-Session-Id"@),
        header_text(headers, MCP_SESSION_ID@) matches Some(id) && !server.sessions.contains_key(id)
            ==> server.reply(headers, request) == error_reply(
            request.id,
            INVALID_PARAMS,
            "unknown Mcp-Session-Id"@,
        ),
{
}

/// No answer sets a header twice, and none sets another than the session and the protocol
/// version.
pub proof fn law_answers_set_each_header_once<I>(
    server: ServerModel,
    headers: Map<Seq<char>, Seq<Seq<u8>>>,
    request: RequestModel<I>,
    name: Seq<char>,
)
    requires
        server.reply(headers, request).headers.contains_key(name),
    ensures
        server.reply(headers, request).headers[name].len() == 1,
        name == MCP_SESSION_ID@ || name == MCP_PROTOCOL_VERSION@,
{
}

/// An answer with a result names the protocol version of the session in its header, where the
/// version is visible text.
pub proof fn law_results_name_the_protocol_version<I>(
    server: ServerModel,
    headers: Map<Seq<char>, Seq<Seq<u8>>>,
    request: RequestModel<I>,
    version: Seq<char>,
)
    requires
        server.reply(headers, request).body matches Some(body) && body.result is Some,
        if request.opens_session() {
            version == agreed_version(request.params)
        } else {
            server.session(headers) == Ok::<Seq<char>, McpErrorModel>(version)
        },
        is_visible(version),
    ensures
        header_text(server.reply(headers, request).headers, MCP_PROTOCOL_VERSION@) == Some(version),
{
    lemma_header_names_differ();
    law_headers_read_back(no_values(), MCP_PROTOCOL_VERSION@, version, MCP_SESSION_ID@);
    law_session_names_are_visible(server.next_session);
    law_headers_read_back(
        reply_headers(Some(version), None),
        MCP_SESSION_ID@,
        session_name(server.next_session),
        MCP_PROTOCOL_VERSION@,
    );
}

// ---------------------------------------------------------------------------------------
// From the request
// ---------------------------------------------------------------------------------------

/// Whether a reply refuses the request `id` with that code and message.
pub open spec fn refuses<I>(
    reply: ReplyModel<I>,
    id: Option<I>,
    code: int,
    message: Seq<char>,
) -> bool {
    &&& reply.status == 200
    &&& reply.headers.dom() == Set::<Seq<char>>::empty()
    &&& reply.body matches Some(body)
    &&& body.jsonrpc == "2.0"@
    &&& body.id == id
    &&& body.result is None
    &&& body.error matches Some(error)
    &&& error.code == code
    &&& error.message == message
    &&& error.data is None
}

/// Whether a reply answers the request `id` with that result.
pub open spec fn answers_with<I>(
    reply: ReplyModel<I>,
    id: Option<I>,
    result: JsonModel,
) -> bool {
    &&& reply.status == 200
    &&& reply.body matches Some(body)
    &&& body.jsonrpc == "2.0"@
    &&& body.id == id
    &&& body.result == Some(result)
    &&& body.error is None
}

/// A new server has no sessions, and its first session is number one.
pub proof fn law_a_new_server_has_no_sessions(version: Seq<char>)
    ensures
        new_server(version).sessions.dom() == Set::<Seq<char>>::empty(),
        new_server(version).next_session == 1,
        new_server(version).server_version == version,
{
}

/// The protocol version of a session is the one the client asks for, as it is written, where it
/// is a text that is not blank, and the default otherwise.
pub proof fn law_the_client_chooses_the_version(params: JsonModel, version: Seq<char>)
    ensures
        params.get("protocolVersion"@) == Some(JsonModel::Text(version)) && trimmed(version).len()
            > 0 ==> agreed_version(params) == version,
        !(params.get("protocolVersion"@) matches Some(JsonModel::Text(text)) && trimmed(text).len()
            > 0) ==> agreed_version(params) == "2025-06-18"@,
{
}

/// The result that opens a session names the protocol version, the capabilities and the server.
pub proof fn law_the_welcome_names_version_and_server(
    version: Seq<char>,
    server_version: Seq<char>,
)
    ensures
        ({
            let welcome = welcome_document(version, server_version);
            let server = welcome.get_or_null("serverInfo"@);
            &&& welcome.get("protocolVersion"@) == Some(JsonModel::Text(version))
            &&& welcome.get_or_null("capabilities"@).get_or_null("tools"@).get("listChanged"@)
                == Some(JsonModel::Bool(false))
            &&& server.get("name"@) == Some(JsonModel::Text("demo-insurance-claim-mcp-server"@))
            &&& server.get("version"@) == Some(JsonModel::Text(server_version))
            &&& welcome->Object_0.dom() == set!["protocolVersion"@, "capabilities"@, "serverInfo"@]
            &&& server->Object_0.dom() == set!["name"@, "version"@]
        }),
{
    reveal_strlit("protocolVersion");
    reveal_strlit("capabilities");
    reveal_strlit("serverInfo");
    reveal_strlit("name");
    reveal_strlit("version");
    assert("protocolVersion"@.len() == 15);
    assert("capabilities"@.len() == 12);
    assert("serverInfo"@.len() == 10);
    assert("name"@.len() == 4);
    assert("version"@.len() == 7);
}

/// A request that opens a session is answered with the welcome, and the server then has that
/// session besides those it had, under the next number, with the version agreed on.
pub proof fn law_opening_adds_one_session<I>(
    server: ServerModel,
    headers: Map<Seq<char>, Seq<Seq<u8>>>,
    request: RequestModel<I>,
)
    requires
        request.jsonrpc == Some("2.0"@),
        request.method == "initialize"@,
    ensures
        ({
            let after = server.after(request);
            let id = "demo-insurance-claim-mcp-"@ + decimal(server.next_session as nat);
            &&& answers_with(
                server.reply(headers, request),
                request.id,
                welcome_document(agreed_version(request.params), server.server_version),
            )
            &&& after.sessions.contains_key(id)
            &&& after.sessions[id] == agreed_version(request.params)
            &&& after.sessions.remove(id) == server.sessions.remove(id)
            &&& after.server_version == server.server_version
            &&& server.next_session < u64::MAX ==> after.next_session == server.next_session + 1
            &&& server.next_session == u64::MAX ==> after.next_session == 0
        }),
{
    let id = session_name(server.next_session);
    let version = agreed_version(request.params);
    assert(server.sessions.insert(id, version).remove(id) =~= server.sessions.remove(id));
}

/// Any other request changes nothing. It is refused where it is not JSON-RPC 2.0, where it names
/// no session and where the session is not open.
pub proof fn law_other_requests_need_an_open_session<I>(
    server: ServerModel,
    headers: Map<Seq<char>, Seq<Seq<u8>>>,
    request: RequestModel<I>,
)
    requires
        request.jsonrpc != Some("2.0"@) || request.method != "initialize"@,
    ensures
        server.after(request) == server,
        ({
            let reply = server.reply(headers, request);
            let named = header_text(headers, "mcp-session-id"@);
            &&& request.jsonrpc != Some("2.0"@) ==> refuses(
                reply,
                request.id,
                -32600,
                "invalid JSON-RPC version"@,
            )
            &&& request.jsonrpc == Some("2.0"@) && named is None ==> refuses(
                reply,
                request.id,
                -32602,
                "missing Mcp-Session-Id"@,
            )
            &&& request.jsonrpc == Some("2.0"@) && named is Some && !server.sessions.contains_key(
                named->0,
            ) ==> refuses(reply, request.id, -32602, "unknown Mcp-Session-Id"@)
        }),
{
    assert(no_values().dom() =~= Set::<Seq<char>>::empty());
}

/// Within an open session the note that the client is ready is accepted without a body; the
/// tools are listed and called; a refusal of a tool is passed on; and any other method is not
/// found.
pub proof fn law_methods_within_a_session<I>(
    server: ServerModel,
    headers: Map<Seq<char>, Seq<Seq<u8>>>,
    request: RequestModel<I>,
    id: Seq<char>,
)
    requires
        request.jsonrpc == Some("2.0"@),
        request.method != "initialize"@,
        header_text(headers, "mcp-session-id"@) == Some(id),
        server.sessions.contains_key(id),
    ensures
        ({
            let reply = server.reply(headers, request);
            let method = request.method;
            let ready = request.id is None && method == "notifications/initialized"@;
            &&& ready ==> reply.status == 202 && reply.body is None
            &&& method == "tools/list"@ ==> answers_with(
                reply,
                request.id,
                JsonModel::Object(map!["tools"@ => JsonModel::Array(tool_catalogue())]),
            )
            &&& method == "tools/call"@ ==> match call_outcome(request.params) {
                Ok(result) => answers_with(reply, request.id, result),
                Err(error) => refuses(reply, request.id, error.code as int, error.message),
            }
            &&& !ready && method != "tools/list"@ && method != "tools/call"@ ==> refuses(
                reply,
                request.id,
                -32601,
                "method `"@ + method + "` not found"@,
            )
            &&& ready || reply.body->0.result is Some ==> reply.headers == reply_headers(
                Some(server.sessions[id]),
                None,
            )
        }),
{
    reveal_strlit("tools/list");
    reveal_strlit("tools/call");
    reveal_strlit("notifications/initialized");
    assert("tools/list"@.len() == 10);
    assert("tools/call"@.len() == 10);
    assert("tools/list"@[6] != "tools/call"@[6]);
    assert("notifications/initialized"@.len() == 25);
    assert(no_values().dom() =~= Set::<Seq<char>>::empty());
}

/// Ending a session takes it away and touches no other, and is accepted whether or not it was
/// open, with its protocol version where it was. Without a session header it is refused and
/// nothing changes.
pub proof fn law_ending_takes_one_session_away<I>(
    server: ServerModel,
    headers: Map<Seq<char>, Seq<Seq<u8>>>,
    id: Seq<char>,
    other: Seq<char>,
)
    ensures
        ({
            let after = server.after_deletion(headers);
            let reply = server.deletion_reply::<I>(headers);
            &&& header_text(headers, "mcp-session-id"@) == Some(id) ==> {
                &&& !after.sessions.contains_key(id)
                &&& other != id ==> (after.sessions.contains_key(other)
                    <==> server.sessions.contains_key(other))
                &&& other != id && server.sessions.contains_key(other) ==> after.sessions[other]
                    == server.sessions[other]
                &&& after.next_session == server.next_session
                &&& after.server_version == server.server_version
                &&& reply.status == 202 && reply.body is None
                &&& reply.headers == reply_headers(
                    if server.sessions.contains_key(id) {
                        Some(server.sessions[id])
                    } else {
                        None
                    },
                    None,
                )
            }
            &&& header_text(headers, "mcp-session-id"@) is None ==> after == server && refuses(
                reply,
                None,
                -32602,
                "missing Mcp-Session-Id"@,
            )
        }),
{
    assert(no_values().dom() =~= Set::<Seq<char>>::empty());
}

/// The headers of an answer are the protocol version and the session, each where there is one
/// that a header can hold, and no other.
pub proof fn law_answers_name_version_and_session(
    version: Option<Seq<char>>,
    session: Option<Seq<char>>,
)
    ensures
        ({
            let headers = reply_headers(version, session);
            &&& headers.contains_key("mcp-protocol-version"@) <==> version is Some && header_safe(
                version->0,
            )
            &&& headers.contains_key("mcp-session-id"@) <==> session is Some && header_safe(
                session->0,
            )
            &&& headers.contains_key("mcp-protocol-version"@) ==> headers["mcp-protocol-version"@]
                == seq![encode_utf8(version->0)]
            &&& headers.contains_key("mcp-session-id"@) ==> headers["mcp-session-id"@] == seq![
                encode_utf8(session->0),
            ]
            &&& forall|name: Seq<char>| #[trigger]
                headers.contains_key(name) ==> name == "mcp-protocol-version"@ || name
                    == "mcp-session-id"@
        }),
{
    lemma_header_names_differ();
}

} // verus!
