//! What holds of requests, messages and streams.

use vstd::prelude::*;

use crate::argument_laws::tells;
use crate::auth::{
    bears_secret, carries_secret, has_key_header, header_text, header_value, is_key_name,
    is_key_pair, key_header, queries_secret, unauthorized_body, visible_text, Guard, Headers,
    RequestModel,
};
use crate::catalog::{card_tree, listed_tools, tool_card, Card};
use crate::execute::call_step;
use crate::extension::{key_tree, rotated_tree};
use crate::ids;
use crate::json::JsonTree;
use crate::laws::is_trim;
use crate::members::{group_members, lemma_marks};
use crate::rpc::{
    endpoint_url, message_handling, request_handling, HandlingModel, HandlingOf, RpcModel,
};
use crate::secret::{configured_key, kept_key, key_text};
use crate::text;
use crate::text_laws::{law_trimmed_is_inside, law_trimming_takes_off_white_space};

verus! {

broadcast use group_members;

// ---------------------------------------------------------------------------
// Headers
// ---------------------------------------------------------------------------

/// The first header with a name is the one that is read, whatever stands before
/// it under other names and after it under any; without one nothing is read.
pub proof fn law_first_header_is_read(
    before: Headers,
    name: Seq<char>,
    value: Seq<u8>,
    after: Headers,
)
    requires
        forall|i: int| 0 <= i < before.len() ==> (#[trigger] before[i]).0 != name,
    ensures
        header_value(before + seq![(name, value)] + after, name) == Some(value),
        header_value(before, name) is None,
    decreases before.len(),
{
    let all = before + seq![(name, value)] + after;
    if before.len() > 0 {
        let rest = before.drop_first();
        assert(all[0] == before[0]);
        assert(all.drop_first() =~= rest + seq![(name, value)] + after);
        assert forall|i: int| 0 <= i < rest.len() implies (#[trigger] rest[i]).0 != name by {
            assert(rest[i] == before[i + 1]);
        }
        law_first_header_is_read(rest, name, value, after);
    } else {
        assert(all[0] == (name, value));
    }
}

// ---------------------------------------------------------------------------
// Who is let in
// ---------------------------------------------------------------------------

/// An open connector lets everyone in, and a locked one those who carry the
/// secret.
pub proof fn law_guards(request: RequestModel, secret: String)
    ensures
        Guard::Open.admits(request),
        Guard::Locked(secret).admits(request) <==> carries_secret(request, secret@),
{
}

/// White space around a key in a header does not matter.
pub proof fn law_padding_does_not_matter(
    request: RequestModel,
    before: Seq<char>,
    secret: Seq<char>,
    after: Seq<char>,
)
    requires
        text::is_blank(before),
        text::is_blank(after),
        is_trim(secret),
    ensures
        header_text(request.headers, "x-mcp-key"@) == Some(before + secret + after)
            ==> carries_secret(request, secret),
        header_value(request.headers, "x-mcp-key"@) is None && header_text(
            request.headers,
            "x-api-key"@,
        ) == Some(before + secret + after) ==> carries_secret(request, secret),
        header_text(request.headers, "authorization"@) == Some(
            "Bearer "@ + (before + secret + after),
        ) && !text::has_prefix(before + secret + after, "Bearer "@) ==> carries_secret(
            request,
            secret,
        ),
{
    law_trimming_takes_off_white_space(before, secret, after);
    let padded = before + secret + after;
    let value = "Bearer "@ + padded;
    reveal_strlit("Bearer ");
    assert(value.take("Bearer "@.len() as int) =~= "Bearer "@);
    assert(value.skip("Bearer "@.len() as int) =~= padded);
    assert(!text::has_prefix(padded, "Bearer "@) ==> text::without_prefixes(padded, "Bearer "@)
        == padded);
}

/// What a request that is let in sends: the secret, in a header or in a query
/// parameter of one of the names there are.
pub proof fn law_secret_was_sent(request: RequestModel, secret: Seq<char>)
    requires
        carries_secret(request, secret),
    ensures
        holds(header_text(request.headers, "authorization"@), secret) || holds(
            header_text(request.headers, "x-mcp-key"@),
            secret,
        ) || (header_value(request.headers, "x-mcp-key"@) is None && holds(
            header_text(request.headers, "x-api-key"@),
            secret,
        )) || (request.query matches Some(query) && exists|i: int, name: Seq<char>|
            #![trigger text::pieces(query, '&')[i], is_key_name(name)]
            0 <= i < text::pieces(query, '&').len() && is_key_name(name) && text::pieces(
                query,
                '&',
            )[i] == name + seq!['='] + secret),
        bears_secret(request.headers, secret) ==> (header_text(
            request.headers,
            "authorization"@,
        ) matches Some(value) && text::has_prefix(value, "Bearer "@)),
{
    if bears_secret(request.headers, secret) {
        let value = header_text(request.headers, "authorization"@)->0;
        let token = text::without_prefixes(value, "Bearer "@);
        let start = lemma_without_prefixes_is_inside(value, "Bearer "@);
        let around = law_trimmed_is_inside(token);
        assert(value =~= (start + around.0) + secret + around.1);
        assert(holds(Some(value), secret));
    } else if has_key_header(request.headers, secret) {
        let value = visible_text(key_header(request.headers)->0)->0;
        let around = law_trimmed_is_inside(value);
        assert(value == around.0 + secret + around.1);
        assert(holds(Some(value), secret));
    } else {
        let query = request.query->0;
        assert(queries_secret(request.query, secret));
        let i = choose|i: int|
            0 <= i < text::pieces(query, '&').len() && is_key_pair(
                #[trigger] text::pieces(query, '&')[i],
                secret,
            );
        let pair = text::pieces(query, '&')[i];
        text::lemma_run_exists(pair, '=');
        let (name, _) = text::halves(pair, '=')->0;
        assert(pair =~= name + seq!['='] + secret);
        assert(is_key_name(name));
    }
}

/// The text holds the secret.
pub open spec fn holds(value: Option<Seq<char>>, secret: Seq<char>) -> bool {
    value matches Some(value) && exists|before: Seq<char>, after: Seq<char>|
        value == #[trigger] (before + secret + after)
}

proof fn lemma_without_prefixes_is_inside(s: Seq<char>, prefix: Seq<char>) -> (start: Seq<char>)
    ensures
        s == start + text::without_prefixes(s, prefix),
    decreases s.len(),
{
    if prefix.len() > 0 && text::has_prefix(s, prefix) {
        let n = prefix.len() as int;
        let rest = lemma_without_prefixes_is_inside(s.skip(n), prefix);
        assert(s =~= s.take(n) + s.skip(n));
        assert(s =~= (s.take(n) + rest) + text::without_prefixes(s, prefix));
        s.take(n) + rest
    } else {
        assert(s =~= seq![] + s);
        seq![]
    }
}

/// The names that a query parameter with the secret can have are these and no
/// other.
pub proof fn law_key_names(name: Seq<char>)
    ensures
        is_key_name(name) <==> (name == "api_key"@ || name == "token"@ || name == "key"@ || name
            == "api-key"@ || name == "mcp_key"@),
{
}

/// A refusal says why.
pub proof fn law_refusal_says_why()
    ensures
        tells(unauthorized_body(), "jsonrpc"@, "2.0"@),
        unauthorized_body().get("error"@) matches Some(error) && error.get("code"@) == Some(
            JsonTree::Number(-32001),
        ) && tells(
            error,
            "message"@,
            "Unauthorized: Invalid or missing MCP authentication secret key. Provide 'Authorization: Bearer <key>', 'X-MCP-Key: <key>', or query parameter '?api_key=<key>'."@,
        ),
{
    lemma_marks();
}

// ---------------------------------------------------------------------------
// The key
// ---------------------------------------------------------------------------

/// The key in the environment is taken without the white space around it.
pub proof fn law_configured_key_is_the_value(
    before: Seq<char>,
    key: Seq<char>,
    after: Seq<char>,
)
    requires
        text::is_blank(before),
        text::is_blank(after),
        is_trim(key),
    ensures
        key.len() > 0 ==> configured_key(Some(before + key + after)) == Some(key),
        key.len() == 0 ==> configured_key(Some(before + key + after)) is None,
        configured_key(None) is None,
{
    let value = before + key + after;
    law_trimming_takes_off_white_space(before, key, after);
    text::lemma_blank_trims_to_nothing(value);
}

/// The key in the settings is taken as it stands there, unless it is blank or the
/// environment provides one.
pub proof fn law_stored_key_is_taken_as_it_stands(variable: Option<Seq<char>>, stored: Seq<char>)
    requires
        configured_key(variable) is None,
    ensures
        (exists|i: int| 0 <= i < stored.len() && !text::is_space(#[trigger] stored[i]))
            ==> kept_key(variable, Some(stored)) == Some(stored),
        (forall|i: int| 0 <= i < stored.len() ==> text::is_space(#[trigger] stored[i]))
            ==> kept_key(variable, Some(stored)) is None,
        kept_key(variable, None) is None,
{
}

/// Different UUIDs give different keys: a key holds every digit of its UUID.
pub proof fn law_keys_hold_their_uuids(id: u128, other: u128)
    ensures
        key_text(id) == key_text(other) ==> id == other,
        text::has_prefix(key_text(id), "calagopus_mcp_sec_"@),
        ids::parsed_uuid(key_text(id).skip("calagopus_mcp_sec_"@.len() as int)) == Some(id),
{
    let n = "calagopus_mcp_sec_"@.len() as int;
    assert(key_text(id).take(n) =~= "calagopus_mcp_sec_"@);
    assert(key_text(id).skip(n) =~= ids::simple_text(id));
    assert(key_text(other).skip(n) =~= ids::simple_text(other));
    ids::law_simple_text_reads_back(id);
    ids::law_simple_text_reads_back(other);
}

/// What is told of a key is the key, with an address and a header that hold it.
pub proof fn law_key_is_told(key: Seq<char>)
    ensures
        shows_key(key_tree(key), key),
        shows_key(rotated_tree(key), key),
        tells(rotated_tree(key), "message"@, "MCP Secret Key successfully rotated."@),
{
    lemma_marks();
}

/// The document tells the key and how to send it.
pub open spec fn shows_key(data: JsonTree, key: Seq<char>) -> bool {
    &&& tells(data, "status"@, "ok"@)
    &&& tells(data, "secret_key"@, key)
    &&& tells(data, "sse_url"@, "/api/extensions/mcp/v1/sse?api_key="@ + key)
    &&& tells(data, "header_example"@, "Authorization: Bearer "@ + key)
}

// ---------------------------------------------------------------------------
// Streams
// ---------------------------------------------------------------------------

/// The client says that it takes a stream.
pub open spec fn takes_stream(request: RequestModel) -> bool {
    header_text(request.headers, "accept"@) matches Some(accept) && (text::has_part(
        accept,
        "text/event-stream"@,
    ) || text::has_part(accept, "*/*"@))
}

/// A request that is let in gets a stream exactly where it is a `GET` that takes
/// one or has no body, and its message is handled otherwise; a body without a
/// message is greeted.
pub proof fn law_streams_and_messages(
    guard: Guard,
    request: RequestModel,
    message: Option<RpcModel>,
    fresh: u128,
    now: Seq<char>,
)
    requires
        guard.admits(request),
    ensures
        ({
            let handling = request_handling(guard, request, message, fresh, now);
            let streams = request.method == "GET"@ && (takes_stream(request)
                || request.body.len() == 0);
            &&& handling is Stream <==> streams
            &&& !streams ==> (message matches Some(m) ==> handling == message_handling(
                m,
                fresh,
                now,
            ))
            &&& !streams && message is None ==> (handling matches HandlingOf::Reply {
                status,
                body,
            } && status == 200 && greets(body, JsonTree::Number(1)))
        }),
{
    lemma_marks();
}

/// A stream tells the client to send its messages to the host that it called, as
/// the client wrote it, by the scheme that it called with, under a session of its
/// own.
pub proof fn law_stream_tells_the_called_host(
    guard: Guard,
    request: RequestModel,
    message: Option<RpcModel>,
    host: Seq<char>,
    scheme: Seq<char>,
    fresh: u128,
    now: Seq<char>,
)
    requires
        guard.admits(request),
        request.method == "GET"@,
        takes_stream(request) || request.body.len() == 0,
        header_text(request.headers, "host"@) == Some(host) || (header_text(
            request.headers,
            "host"@,
        ) is None && host == "127.0.0.1:8000"@),
        if header_text(request.headers, "x-forwarded-proto"@) == Some("https"@) {
            scheme == "https"@
        } else {
            scheme == "http"@
        },
    ensures
        request_handling(guard, request, message, fresh, now) == (HandlingModel::Stream {
            endpoint: scheme + "://"@ + host + "/api/extensions/mcp/v1/messages?session_id="@
                + ids::hyphenated_text(fresh),
        }),
{
}

/// Streams of different sessions, or of different hosts, are told different
/// addresses.
pub proof fn law_endpoints_differ(
    scheme: Seq<char>,
    host: Seq<char>,
    other_host: Seq<char>,
    session: u128,
    other_session: u128,
)
    ensures
        endpoint_url(scheme, host, session) == endpoint_url(
            scheme,
            host,
            other_session,
        ) ==> session == other_session,
        endpoint_url(scheme, host, session) == endpoint_url(
            scheme,
            other_host,
            session,
        ) ==> host == other_host,
{
    let a = endpoint_url(scheme, host, session);
    let b = endpoint_url(scheme, host, other_session);
    let c = endpoint_url(scheme, other_host, session);
    let path = "/api/extensions/mcp/v1/messages?session_id="@;
    let n = scheme.len() + "://"@.len();
    let at = n + host.len() + path.len();
    assert(a.skip(at as int) =~= ids::hyphenated_text(session));
    assert(b.skip(at as int) =~= ids::hyphenated_text(other_session));
    ids::law_hyphenated_text_reads_back(session);
    ids::law_hyphenated_text_reads_back(other_session);
    if a == c {
        let rest = path.len() + ids::hyphenated_text(session).len();
        assert(a.len() == n + host.len() + rest);
        assert(c.len() == n + other_host.len() + rest);
        assert(a.subrange(n as int, (n + host.len()) as int) =~= host);
        assert(c.subrange(n as int, (n + host.len()) as int) =~= other_host);
    }
}

// ---------------------------------------------------------------------------
// Messages
// ---------------------------------------------------------------------------

/// The reply answers the message `id` with a result.
pub open spec fn replies(body: JsonTree, id: JsonTree, result: JsonTree) -> bool {
    &&& tells(body, "jsonrpc"@, "2.0"@)
    &&& body.get("id"@) == Some(id)
    &&& body.get("result"@) == Some(result)
}

/// The reply greets the sender of the message `id`.
pub open spec fn greets(body: JsonTree, id: JsonTree) -> bool {
    &&& tells(body, "jsonrpc"@, "2.0"@)
    &&& body.get("id"@) == Some(id)
    &&& body.get("result"@) matches Some(result) && {
        &&& tells(result, "protocolVersion"@, "2024-11-05"@)
        &&& result.get("capabilities"@) matches Some(capabilities) && capabilities.get(
            "tools"@,
        ) matches Some(tools) && tools.get("listChanged"@) == Some(JsonTree::Bool(true))
        &&& result.get("serverInfo"@) matches Some(info) && tells(
            info,
            "name"@,
            "calagopus-mcp-connector"@,
        ) && tells(info, "version"@, "1.2.1"@)
    }
}

/// Each message is answered by its method, under its own id: a greeting, nothing,
/// the list of tools, a call with the parameters of the message, or the complaint
/// that there is no such method.
pub proof fn law_messages_are_answered(
    message: RpcModel,
    id: JsonTree,
    method: Seq<char>,
    fresh: u128,
    now: Seq<char>,
)
    requires
        message.id == Some(id) || (message.id is None && id == JsonTree::Number(1)),
        message.method == Some(method) || (message.method is None && method == "initialize"@),
    ensures
        ({
            let handling = message_handling(message, fresh, now);
            &&& method == "initialize"@ ==> (handling matches HandlingOf::Reply { status, body }
                && status == 200 && greets(body, id))
            &&& method == "notifications/initialized"@ ==> (handling matches HandlingOf::Reply {
                status,
                body,
            } && status == 200 && replies(body, id, JsonTree::Object(seq![])))
            &&& method == "tools/list"@ ==> (handling matches HandlingOf::Reply { status, body }
                && status == 200 && tells(body, "jsonrpc"@, "2.0"@) && body.get("id"@) == Some(id)
                && (body.get("result"@) matches Some(result) && lists_tools(result)))
            &&& method == "tools/call"@ ==> handling == (HandlingModel::Call {
                id,
                step: call_step(message.params, fresh, now),
            })
            &&& method != "initialize"@ && method != "notifications/initialized"@ && method
                != "tools/list"@ && method != "tools/call"@ ==> (
            handling matches HandlingOf::Reply { status, body } && status == 200 && tells(body, "jsonrpc"@, "2.0"@) && body.get("id"@) == Some(id)
                && (body.get("error"@) matches Some(error) && error.get("code"@) == Some(
                JsonTree::Number(-32601),
            ) && tells(error, "message"@, "Method '"@ + method + "' not found"@)))
        }),
{
    lemma_marks();
    lemma_methods_differ();
    assert forall|i: int| 0 <= i < 26 implies #[trigger] shows_card(
        card_tree(tool_card(listed_tools()[i])),
        tool_card(listed_tools()[i]),
    ) by {
        law_cards_are_shown(tool_card(listed_tools()[i]));
    }
}

proof fn lemma_methods_differ()
    ensures
        "initialize"@ != "notifications/initialized"@,
        "initialize"@ != "tools/list"@,
        "initialize"@ != "tools/call"@,
        "notifications/initialized"@ != "tools/list"@,
        "notifications/initialized"@ != "tools/call"@,
        "tools/list"@ != "tools/call"@,
{
    reveal_strlit("initialize");
    reveal_strlit("notifications/initialized");
    reveal_strlit("tools/list");
    reveal_strlit("tools/call");
    assert("initialize"@[0] == 'i' && "tools/list"@[0] == 't' && "tools/call"@[0] == 't');
    assert("notifications/initialized"@[0] == 'n');
    assert("tools/list"@[6] == 'l' && "tools/call"@[6] == 'c');
}

/// The list shows the card of every tool.
pub open spec fn lists_tools(result: JsonTree) -> bool {
    result.get("tools"@) matches Some(JsonTree::Array(cards)) && cards.len() == 26 && forall|i: int|
        0 <= i < 26 ==> shows_card(#[trigger] cards[i], tool_card(listed_tools()[i]))
}

/// The document shows the card.
pub open spec fn shows_card(document: JsonTree, card: Card) -> bool {
    &&& tells(document, "name"@, card.name)
    &&& tells(document, "description"@, card.description)
    &&& document.get("inputSchema"@) matches Some(schema) && {
        &&& tells(schema, "type"@, "object"@)
        &&& schema.get("properties"@) == Some(card.properties)
        &&& card.required.len() == 0 ==> schema.get("required"@) is None
        &&& card.required.len() > 0 ==> (schema.get("required"@) matches Some(
            JsonTree::Array(required),
        ) && required.len() == card.required.len() && forall|i: int|
            0 <= i < required.len() ==> #[trigger] required[i] == JsonTree::Text(
                card.required[i],
            ))
    }
}

/// A tool is listed with its name, its description, the arguments that it takes
/// and those that it requires.
pub proof fn law_cards_are_shown(card: Card)
    ensures
        shows_card(card_tree(card), card),
{
    lemma_marks();
}

} // verus!
