//! HTTP requests and the JSON-RPC messages in them: who is let in, what is
//! streamed, and what is answered.

use vstd::prelude::*;

use crate::auth::{
    check_mcp_auth, header_text, unauthorized_body, Guard, Headers, HttpReply, HttpRequest,
    RequestModel,
};
use crate::catalog::{get_tools_list, tools_tree};
use crate::clock;
use crate::execute::{call_step, execute_tool_with, is_sound, json_view, shows_call};
use crate::extension::told_version;
use crate::ids;
use crate::json::{Json, JsonTree};
use crate::step::StepOf;
use crate::text;

verus! {

/// A JSON-RPC message.
pub struct JsonRpcRequest {
    pub jsonrpc: Option<String>,
    pub id: Option<Json>,
    pub method: Option<String>,
    pub params: Option<Json>,
}

/// What is read of a JSON-RPC message.
pub struct RpcModel {
    pub id: Option<JsonTree>,
    pub method: Option<Seq<char>>,
    pub params: Option<JsonTree>,
}

impl View for JsonRpcRequest {
    type V = RpcModel;

    open spec fn view(&self) -> RpcModel {
        RpcModel {
            id: json_view(self.id),
            method: match self.method {
                Some(method) => Some(method@),
                None => None,
            },
            params: json_view(self.params),
        }
    }
}

/// How a request is handled.
pub enum HandlingOf<S, J> {
    /// With this reply.
    Reply { status: u16, body: J },
    /// With a stream of events, the first of which tells where to send messages.
    Stream { endpoint: S },
    /// With a tool call: its result goes into the reply to the message `id`.
    Call { id: J, step: StepOf<S, J> },
}

pub type Handling = HandlingOf<String, Json>;

pub type HandlingModel = HandlingOf<Seq<char>, JsonTree>;

impl View for HandlingOf<String, Json> {
    type V = HandlingModel;

    open spec fn view(&self) -> HandlingModel {
        match *self {
            HandlingOf::Reply { status, body } => HandlingOf::Reply { status, body: body@ },
            HandlingOf::Stream { endpoint } => HandlingOf::Stream { endpoint: endpoint@ },
            HandlingOf::Call { id, step } => HandlingOf::Call { id: id@, step: step@ },
        }
    }
}

// ---------------------------------------------------------------------------
// Streams
// ---------------------------------------------------------------------------

/// The name of the event a stream starts with.
pub const ENDPOINT_EVENT: &'static str = "endpoint";

/// The comment that keeps a stream alive, and the seconds between two of them.
pub const PING_COMMENT: &'static str = "ping";

pub const PING_SECONDS: u64 = 15;

/// The client takes a stream of events.
pub open spec fn accepts_stream(headers: Headers) -> bool {
    match header_text(headers, "accept"@) {
        Some(accept) => text::has_part(accept, "text/event-stream"@) || text::has_part(
            accept,
            "*/*"@,
        ),
        None => false,
    }
}

/// The request opens a stream: it is a `GET` that takes one, or has no body.
pub open spec fn opens_stream(request: RequestModel) -> bool {
    request.method == "GET"@ && (accepts_stream(request.headers) || request.body.len() == 0)
}

/// The host that the client called.
pub open spec fn called_host(headers: Headers) -> Seq<char> {
    match header_text(headers, "host"@) {
        Some(host) => host,
        None => "127.0.0.1:8000"@,
    }
}

/// The scheme that the client called with.
pub open spec fn called_scheme(headers: Headers) -> Seq<char> {
    if header_text(headers, "x-forwarded-proto"@) == Some("https"@) {
        "https"@
    } else {
        "http"@
    }
}

/// Where the messages of a session are sent.
pub open spec fn endpoint_url(scheme: Seq<char>, host: Seq<char>, session: u128) -> Seq<char> {
    scheme + "://"@ + host + "/api/extensions/mcp/v1/messages?session_id="@ + ids::hyphenated_text(
        session,
    )
}

fn stream_accepted(request: &HttpRequest) -> (res: bool)
    ensures
        res == accepts_stream(request@.headers),
{
    match request.header_str("accept") {
        Some(accept) => text::contains(accept.as_str(), "text/event-stream") || text::contains(
            accept.as_str(),
            "*/*",
        ),
        None => false,
    }
}

fn stream_opened(request: &HttpRequest) -> (res: bool)
    ensures
        res == opens_stream(request@),
{
    text::same(request.method.as_str(), "GET") && (stream_accepted(request) || request.body.len()
        == 0)
}

/// Where the messages of a session are sent, for the client of a request.
pub fn mcp_sse_endpoint(request: &HttpRequest, session: u128) -> (res: String)
    ensures
        res@ == endpoint_url(
            called_scheme(request@.headers),
            called_host(request@.headers),
            session,
        ),
{
    let host = match request.header_str("host") {
        Some(host) => host,
        None => "127.0.0.1:8000".to_string(),
    };
    let scheme = match request.header_str("x-forwarded-proto") {
        Some(proto) => if text::same(proto.as_str(), "https") {
            "https"
        } else {
            "http"
        },
        None => "http",
    };
    scheme.to_string().concat("://").concat(host.as_str()).concat(
        "/api/extensions/mcp/v1/messages?session_id=",
    ).concat(ids::hyphenated(session).as_str())
}

// ---------------------------------------------------------------------------
// Messages
// ---------------------------------------------------------------------------

/// The reply to the message `id` with a result.
pub open spec fn result_tree(id: JsonTree, result: JsonTree) -> JsonTree {
    JsonTree::object().with_text("jsonrpc"@, "2.0"@).with("id"@, id).with("result"@, result)
}

/// The reply to the message `id` whose method there is not.
pub open spec fn no_method_tree(id: JsonTree, method: Seq<char>) -> JsonTree {
    JsonTree::object().with_text("jsonrpc"@, "2.0"@).with("id"@, id).with(
        "error"@,
        JsonTree::object().with("code"@, JsonTree::Number(-32601)).with_text(
            "message"@,
            "Method '"@ + method + "' not found"@,
        ),
    )
}

/// What a client is told at the start.
pub open spec fn greeting_tree() -> JsonTree {
    JsonTree::object().with_text("protocolVersion"@, "2024-11-05"@).with(
        "capabilities"@,
        JsonTree::object().with(
            "tools"@,
            JsonTree::object().with("listChanged"@, JsonTree::Bool(true)),
        ),
    ).with(
        "serverInfo"@,
        JsonTree::object().with_text("name"@, "calagopus-mcp-connector"@).with_text(
            "version"@,
            "1.2.1"@,
        ),
    )
}

fn greeting() -> (res: Json)
    ensures
        res@ == greeting_tree(),
{
    let tools = Json::object().with("listChanged", Json::Bool(true));
    let info = Json::object().with_text("name", "calagopus-mcp-connector").with_text(
        "version",
        told_version().as_str(),
    );
    Json::object().with_text("protocolVersion", "2024-11-05").with(
        "capabilities",
        Json::object().with("tools", tools),
    ).with("serverInfo", info)
}

/// The number a message has that was sent without one.
pub open spec fn message_id(message: RpcModel) -> JsonTree {
    match message.id {
        Some(id) => id,
        None => JsonTree::Number(1),
    }
}

pub open spec fn message_method(message: RpcModel) -> Seq<char> {
    match message.method {
        Some(method) => method,
        None => "initialize"@,
    }
}

/// The message that a body without one stands for.
pub open spec fn default_message() -> RpcModel {
    RpcModel { id: Some(JsonTree::Number(1)), method: Some("initialize"@), params: None }
}

pub open spec fn message_handling(
    message: RpcModel,
    fresh: u128,
    now: Seq<char>,
) -> HandlingModel {
    let id = message_id(message);
    let method = message_method(message);
    if method == "initialize"@ {
        HandlingOf::Reply { status: 200, body: result_tree(id, greeting_tree()) }
    } else if method == "notifications/initialized"@ {
        HandlingOf::Reply { status: 200, body: result_tree(id, JsonTree::object()) }
    } else if method == "tools/list"@ {
        HandlingOf::Reply { status: 200, body: result_tree(id, tools_tree()) }
    } else if method == "tools/call"@ {
        HandlingOf::Call { id, step: call_step(message.params, fresh, now) }
    } else {
        HandlingOf::Reply { status: 200, body: no_method_tree(id, method) }
    }
}

/// The reply to the message `id` with a result.
pub fn result_reply(id: Json, result: Json) -> (reply: HttpReply)
    ensures
        reply.status == 200,
        reply.body@ == result_tree(id@, result@),
{
    HttpReply {
        status: 200,
        body: Json::object().with_text("jsonrpc", "2.0").with("id", id).with("result", result),
    }
}

fn no_method_reply(id: Json, method: &str) -> (reply: HttpReply)
    ensures
        reply.status == 200,
        reply.body@ == no_method_tree(id@, method@),
{
    let error = Json::object().with("code", Json::number(-32601)).with_text(
        "message",
        "Method '".to_string().concat(method).concat("' not found").as_str(),
    );
    HttpReply {
        status: 200,
        body: Json::object().with_text("jsonrpc", "2.0").with("id", id).with("error", error),
    }
}

fn replied(reply: HttpReply) -> (res: Handling)
    ensures
        res@ == (HandlingModel::Reply { status: reply.status, body: reply.body@ }),
{
    HandlingOf::Reply { status: reply.status, body: reply.body }
}

/// How a message is handled, with a fresh UUID and the time at hand.
pub fn handle_message(message: JsonRpcRequest, fresh: u128, now: &str) -> (res: Handling)
    ensures
        res@ == message_handling(message@, fresh, now@),
        res@ matches HandlingOf::Call { step, .. } ==> is_sound(step),
        res@ is Call ==> shows_call(message@.params, fresh, now@),
{
    let id = match message.id {
        Some(id) => id,
        None => Json::number(1),
    };
    let method = match message.method {
        Some(method) => method,
        None => "initialize".to_string(),
    };
    if text::same(method.as_str(), "initialize") {
        replied(result_reply(id, greeting()))
    } else if text::same(method.as_str(), "notifications/initialized") {
        replied(result_reply(id, Json::object()))
    } else if text::same(method.as_str(), "tools/list") {
        replied(result_reply(id, get_tools_list()))
    } else if text::same(method.as_str(), "tools/call") {
        HandlingOf::Call { id, step: execute_tool_with(message.params, fresh, now) }
    } else {
        replied(no_method_reply(id, method.as_str()))
    }
}

// ---------------------------------------------------------------------------
// Requests
// ---------------------------------------------------------------------------

/// How a request is handled: one that is not let in is refused, whatever it
/// asks for; one that opens a stream gets it; any other is the message in its
/// body, or a first greeting where the body holds none.
pub open spec fn request_handling(
    guard: Guard,
    request: RequestModel,
    message: Option<RpcModel>,
    fresh: u128,
    now: Seq<char>,
) -> HandlingModel {
    if !guard.admits(request) {
        HandlingOf::Reply { status: 401, body: unauthorized_body() }
    } else if opens_stream(request) {
        HandlingOf::Stream {
            endpoint: endpoint_url(
                called_scheme(request.headers),
                called_host(request.headers),
                fresh,
            ),
        }
    } else {
        message_handling(
            match message {
                Some(message) => message,
                None => default_message(),
            },
            fresh,
            now,
        )
    }
}

pub open spec fn message_view(message: Option<JsonRpcRequest>) -> Option<RpcModel> {
    match message {
        Some(message) => Some(message@),
        None => None,
    }
}

/// How a request is handled, with a fresh UUID and the time at hand. `message`
/// is the message that the body parses to, if it parses to one.
pub fn universal_mcp_handler_with(
    guard: &Guard,
    request: &HttpRequest,
    message: Option<JsonRpcRequest>,
    fresh: u128,
    now: &str,
) -> (res: Handling)
    ensures
        res@ == request_handling(*guard, request@, message_view(message), fresh, now@),
        res@ matches HandlingOf::Call { step, .. } ==> is_sound(step),
        res@ is Call ==> (message matches Some(m) && shows_call(m@.params, fresh, now@)),
{
    if let Err(reply) = check_mcp_auth(guard, request) {
        return replied(reply);
    }
    if stream_opened(request) {
        return HandlingOf::Stream { endpoint: mcp_sse_endpoint(request, fresh) };
    }
    let message = match message {
        Some(message) => message,
        None => JsonRpcRequest {
            jsonrpc: Some("2.0".to_string()),
            id: Some(Json::number(1)),
            method: Some("initialize".to_string()),
            params: None,
        },
    };
    handle_message(message, fresh, now)
}

/// How a request is handled. `message` is the message that the body parses to,
/// if it parses to one.
pub fn universal_mcp_handler(
    guard: &Guard,
    request: &HttpRequest,
    message: Option<JsonRpcRequest>,
) -> (res: Handling)
    ensures
        exists|fresh: u128, now: Seq<char>| #[trigger]
            ids::is_random_uuid(fresh) && #[trigger] clock::is_utc_stamp(now) && res@
                == request_handling(*guard, request@, message_view(message), fresh, now) && (
                res@ is Call ==> (message matches Some(m) && shows_call(m@.params, fresh, now))),
        res@ matches HandlingOf::Call { step, .. } ==> is_sound(step),
{
    let fresh: u128 = ids::new_uuid();
    let now = clock::now();
    universal_mcp_handler_with(guard, request, message, fresh, now.as_str())
}

} // verus!
