//! What holds of tool calls from their first step to their result.

use vstd::prelude::*;
use vstd::utf8::encode_utf8;

use crate::catalog::listed_tools;
use crate::content::{content_of, error_of, is_told, text_content};
use crate::execute::{
    call_document, call_step, called_name, create_backup_step, install_step, remove_plugin_step,
    tool_step, unknown_tool,
};
use crate::extension::{route_table, status_tree, stream_url, Endpoint};
use crate::ids;
use crate::json::{lemma_lone_entry, JsonTree};
use crate::outcome::{file_outcome, file_tree, NodeReply, READ_LIMIT};
use crate::progress::{next_step, Event};
use crate::records::FileEntry;
use crate::render::{indented, reads_back};
use crate::rpc::endpoint_url;
use crate::step::{OrderOf, PluginModel, StepModel, StepOf};
use crate::text;
use crate::tool::{normalized, tool_named, Tool};
use crate::tool_laws::{law_results_say_whether_they_failed, law_told_number_of_tools_is_right};

verus! {

// ---------------------------------------------------------------------------
// From step to step
// ---------------------------------------------------------------------------

/// After a step a call is finished, but for the catalog's answer about a plugin,
/// which an order can follow: no call takes more than two steps. A finished call
/// goes no further.
pub proof fn law_calls_end(step: StepModel, event: Event, now: Seq<char>)
    ensures
        next_step(step, event, now) matches Some(next) ==> next is Done || (step is FetchVersions
            && next is Order),
        step is Done ==> next_step(step, event, now) is None,
{
}

/// The event is of the kind that a step waits for.
pub open spec fn answers(step: StepModel, event: Event) -> bool {
    match event {
        Event::Counted { .. } => step is CountAll,
        Event::Nests(_) => step is FetchNests,
        Event::Users(_) => step is FetchUsers,
        Event::Machines(_) => step is FetchMachines,
        Event::Servers(_) => step is FetchServers,
        Event::Server(_) => step is FetchServer,
        Event::Backups(_) => step is FetchBackups,
        Event::Ordered(_) => step is Order,
        Event::Text(_) => step is FetchLogs || step is FetchFile,
        Event::Entries(_) => step is ListDirectory || step is ListPlugins,
        Event::Deleted(_) => step is Delete,
        Event::Catalog(_) => step is SearchCatalog || step is FetchVersions,
    }
}

/// A call goes on after every outcome that its step can have, good or bad, and
/// after no other.
pub proof fn law_every_outcome_is_taken(step: StepModel, event: Event, now: Seq<char>)
    ensures
        next_step(step, event, now) is Some <==> answers(step, event),
{
}

/// A result of the shape there is: a text that holds a document, or one that
/// reports an error.
pub open spec fn is_result(result: JsonTree) -> bool {
    ||| exists|data: JsonTree| result == #[trigger] content_of(data)
    ||| exists|message: Seq<char>| result == #[trigger] error_of(message)
}

/// Every call that a step finishes has a result.
pub proof fn law_later_results(step: StepModel, event: Event, now: Seq<char>)
    ensures
        next_step(step, event, now) matches Some(StepOf::Done(result)) ==> is_result(result),
{
}

/// The result holds that text and nothing else but whether it is an error. It is
/// one exactly where the text starts with the word; any other text is that of an
/// object.
pub open spec fn tells(result: JsonTree, text: Seq<char>) -> bool {
    if text::has_prefix(text, "Error: "@) {
        result == text_content(text).with("isError"@, JsonTree::Bool(true))
    } else {
        result == text_content(text) && exists|data: JsonTree| #[trigger] reads_back(data, text)
    }
}

/// Every result that a tool gives holds one text, and says by its start whether
/// it is an error.
pub proof fn law_text_says_whether_it_failed(result: JsonTree)
    requires
        is_told(result),
    ensures
        exists|text: Seq<char>| #[trigger] tells(result, text),
{
    reveal_strlit("Error: ");
    if exists|message: Seq<char>| result == #[trigger] error_of(message) {
        let message = choose|message: Seq<char>| result == #[trigger] error_of(message);
        let text = "Error: "@ + message;
        assert(text.take("Error: "@.len() as int) =~= "Error: "@);
        assert(tells(result, text));
    } else {
        let data = choose|data: JsonTree|
            result == #[trigger] content_of(data) && reads_back(data, indented(data));
        let text = indented(data);
        if text::has_prefix(text, "Error: "@) {
            assert(text.take(7)[0] == 'E');
        }
        assert(tells(result, text));
    }
}

/// A call that is finished at once shows its document, or reports an error where
/// it has none.
pub proof fn law_first_outcomes(params: Option<JsonTree>, fresh: u128, now: Seq<char>)
    ensures
        call_step(params, fresh, now) matches StepOf::Done(result) ==> match call_document(
            params,
            fresh,
            now,
        ) {
            Some(data) => result == content_of(data),
            None => exists|message: Seq<char>| result == #[trigger] error_of(message),
        },
        call_document(params, fresh, now) is Some ==> call_step(params, fresh, now) is Done,
{
}

/// What reading a file shows is the content that the daemon sent, whole, with its
/// size.
pub proof fn law_shown_file_is_the_content(
    server_uuid: Seq<char>,
    path: Seq<char>,
    content: String,
)
    requires
        encode_utf8(content@).len() <= READ_LIMIT,
    ensures
        file_outcome(server_uuid, path, NodeReply::Answered(Ok(content))) matches Ok(data)
            && data.get("content"@) == Some(JsonTree::Text(content@)) && data.get("size_bytes"@)
            == Some(JsonTree::Number(encode_utf8(content@).len() as int)),
{
    reveal_strlit("content");
    reveal_strlit("size_bytes");
    assert("content"@.len() != "size_bytes"@.len());
    let entries = file_tree(server_uuid, path, content@)->Object_0;
    lemma_lone_entry(entries, 2);
    lemma_lone_entry(entries, 3);
}

/// A call that names no tool is finished at once, with an error.
pub proof fn law_unknown_tool_does_nothing(params: Option<JsonTree>, fresh: u128, now: Seq<char>)
    requires
        tool_named(normalized(called_name(params))) is None,
    ensures
        call_step(params, fresh, now) matches StepOf::Done(result) && result.get("isError"@)
            == Some(JsonTree::Bool(true)),
{
    law_results_say_whether_they_failed(JsonTree::Null, unknown_tool(called_name(params)));
}

/// The step came to nothing.
pub open spec fn is_failure(step: StepModel, event: Event) -> bool {
    match event {
        Event::Nests(rows) => rows is Err,
        Event::Users(rows) => rows is Err,
        Event::Machines(rows) => rows is Err,
        Event::Servers(rows) => rows is Err,
        Event::Server(row) => match row {
            Ok(found) => found is None,
            Err(_) => true,
        },
        Event::Ordered(reply) => reply !is Answered,
        Event::Text(reply) => match reply {
            NodeReply::Answered(Ok(content)) => step is FetchFile && encode_utf8(content@).len()
                > READ_LIMIT,
            _ => true,
        },
        Event::Entries(reply) => reply !is Answered,
        Event::Deleted(reply) => reply !is Answered,
        _ => false,
    }
}

/// A call reports an error exactly where its step came to nothing: where a query
/// failed or found no server, where a daemon was not reached, refused or broke
/// off, and where a file is too large.
pub proof fn law_failures_are_reported(step: StepModel, event: Event, now: Seq<char>)
    requires
        answers(step, event),
        step !is FetchVersions,
    ensures
        next_step(step, event, now) matches Some(StepOf::Done(result)) && (result.get("isError"@)
            == Some(JsonTree::Bool(true)) <==> is_failure(step, event)),
{
    let result = next_step(step, event, now)->0->Done_0;
    assert forall|data: JsonTree| result == #[trigger] content_of(data) implies result.get(
        "isError"@,
    ) is None by {
        law_results_say_whether_they_failed(data, seq![]);
    }
    assert forall|message: Seq<char>| result == #[trigger] error_of(message) implies result.get(
        "isError"@,
    ) == Some(JsonTree::Bool(true)) by {
        law_results_say_whether_they_failed(JsonTree::Null, message);
    }
}

// ---------------------------------------------------------------------------
// What is reported is what was done
// ---------------------------------------------------------------------------

/// The reply to an order names the server as the call did.
pub proof fn law_receipts_name_the_server(
    tool: Tool,
    arguments: JsonTree,
    fresh: u128,
    now: Seq<char>,
)
    ensures
        tool_step(tool, arguments, fresh, now) matches StepOf::Order { server_uuid, receipt, .. }
            ==> {
            &&& server_uuid == arguments.text_or("server_uuid"@, ""@)
            &&& receipt.reply.get("server_uuid"@) == Some(JsonTree::Text(server_uuid))
        },
{
    reveal_strlit("server_uuid");
    reveal_strlit("action");
    reveal_strlit("command");
    reveal_strlit("path");
    reveal_strlit("bytes_written");
    reveal_strlit("url");
    reveal_strlit("target_directory");
    reveal_strlit("backup_uuid");
    reveal_strlit("name");
    reveal_strlit("plugin_id");
    reveal_strlit("download_url");
    reveal_strlit("target_file");
    assert("server_uuid"@[0] != "backup_uuid"@[0] && "server_uuid"@[0] != "target_file"@[0]);
    if let StepOf::Order { receipt, .. } = tool_step(tool, arguments, fresh, now) {
        lemma_lone_entry(receipt.reply->Object_0, 1);
    }
}

/// The backup that a call reports is the one that it ordered.
pub proof fn law_reported_backup_is_the_ordered(arguments: JsonTree, fresh: u128)
    ensures
        create_backup_step(arguments, fresh) matches StepOf::Order { order, receipt, .. } ==> {
            &&& order matches OrderOf::Backup { id, .. } && ids::parsed_uuid(
                receipt.reply.text_or("backup_uuid"@, ""@),
            ) == Some(id)
        },
{
    reveal_strlit("backup_uuid");
    reveal_strlit("name");
    assert("backup_uuid"@.len() != "name"@.len());
    if let StepOf::Order { receipt, .. } = create_backup_step(arguments, fresh) {
        lemma_lone_entry(receipt.reply->Object_0, 2);
    }
    ids::law_hyphenated_text_reads_back(fresh);
}

/// The address that an installation reports is the one the daemon fetches, and
/// the file that it reports is the one the daemon writes, where the call or the
/// catalog gives it a name.
pub proof fn law_reported_plugin_is_the_fetched(plugin: PluginModel)
    ensures
        install_step(plugin) matches StepOf::Order { order, receipt, .. } ==> {
            &&& order matches OrderOf::Pull { root, url, file_name, .. } && {
                &&& receipt.reply.get("download_url"@) == Some(JsonTree::Text(url))
                &&& file_name matches Some(name) ==> receipt.reply.get("target_file"@) == Some(
                    JsonTree::Text(root + "/"@ + name),
                )
            }
        },
{
    reveal_strlit("download_url");
    reveal_strlit("target_file");
    reveal_strlit("/plugins/");
    reveal_strlit("/plugins");
    reveal_strlit("/");
    assert("download_url"@.len() != "target_file"@.len());
    assert("/plugins/"@ =~= "/plugins"@ + "/"@);
    if let StepOf::Order { receipt, .. } = install_step(plugin) {
        lemma_lone_entry(receipt.reply->Object_0, 3);
        lemma_lone_entry(receipt.reply->Object_0, 4);
    }
}

/// The file name that a plugin is listed with removes that file.
pub proof fn law_listed_plugin_can_be_removed(entry: FileEntry, arguments: JsonTree)
    requires
        entry.is_plugin(),
        ids::parsed_uuid(arguments.text_or("server_uuid"@, ""@)) is Some,
        arguments.get("filename"@) == entry.plugin_tree().get("filename"@),
    ensures
        remove_plugin_step(arguments) matches StepOf::Delete { root, filename, .. } && root
            == "/plugins"@ && filename == entry.name@,
{
    reveal_strlit("filename");
    reveal_strlit("name");
    reveal_strlit("size_bytes");
    reveal_strlit("modified");
    reveal_strlit(".jar");
    assert("filename"@[0] != "modified"@[0]);
    lemma_lone_entry(entry.plugin_tree()->Object_0, 0);
    let name = entry.name@;
    assert(name.skip(name.len() - 4)[0] == '.');
    assert(!text::is_space(name[name.len() - 4]));
}

// ---------------------------------------------------------------------------
// Addresses
// ---------------------------------------------------------------------------

/// The addresses that a client is told, of the stream and of the messages, are
/// addresses at which the connector answers.
pub proof fn law_told_addresses_are_routed(
    key: Seq<char>,
    scheme: Seq<char>,
    host: Seq<char>,
    session: u128,
)
    ensures
        route_table().contains(("/api/extensions/mcp/v1/sse"@, Endpoint::Universal)),
        stream_url(key) == "/api/extensions/mcp/v1/sse"@ + "?api_key="@ + key,
        route_table().contains(("/api/extensions/mcp/v1/messages"@, Endpoint::Universal)),
        endpoint_url(scheme, host, session) == scheme + "://"@ + host
            + "/api/extensions/mcp/v1/messages"@ + "?session_id="@ + ids::hyphenated_text(session),
{
    assert(route_table()[2] == ("/api/extensions/mcp/v1/sse"@, Endpoint::Universal));
    assert(route_table()[1] == ("/api/extensions/mcp/v1/messages"@, Endpoint::Universal));
    reveal_strlit("/api/extensions/mcp/v1/sse");
    reveal_strlit("?api_key=");
    reveal_strlit("/api/extensions/mcp/v1/sse?api_key=");
    assert("/api/extensions/mcp/v1/sse?api_key="@ =~= "/api/extensions/mcp/v1/sse"@
        + "?api_key="@);
    reveal_strlit("/api/extensions/mcp/v1/messages");
    reveal_strlit("?session_id=");
    reveal_strlit("/api/extensions/mcp/v1/messages?session_id=");
    assert("/api/extensions/mcp/v1/messages?session_id="@
        =~= "/api/extensions/mcp/v1/messages"@ + "?session_id="@);
}

/// The state of the extension tells its package, its key and its tools as they
/// are, and every address in it is one at which the extension answers.
pub proof fn law_status_tells_the_extension(key: Seq<char>)
    ensures
        ({
            let status = status_tree(key);
            let endpoints = status.get("endpoints"@)->0;
            &&& status.get("package_name"@) == Some(JsonTree::Text("dev.calagopus.mcpserver"@))
            &&& status.get("name"@) == Some(JsonTree::Text("MCP Connector"@))
            &&& status.get("secret_key"@) == Some(JsonTree::Text(key))
            &&& status.get("tools_count"@) == Some(JsonTree::Number(listed_tools().len() as int))
            &&& endpoints.get("sse"@) == Some(
                JsonTree::Text("/api/extensions/mcp/v1/sse"@ + "?api_key="@ + key),
            )
            &&& is_routed("/api/extensions/mcp/v1/sse"@, Endpoint::Universal)
            &&& tells_route(endpoints, "key"@, Endpoint::Key)
            &&& tells_route(endpoints, "rotate_key"@, Endpoint::RotateKey)
            &&& tells_route(endpoints, "messages"@, Endpoint::Universal)
            &&& tells_route(endpoints, "info"@, Endpoint::Universal)
        }),
{
    law_told_number_of_tools_is_right(key);
    law_told_addresses_are_routed(key, seq![], seq![], 0);
    reveal_strlit("package_name");
    reveal_strlit("name");
    reveal_strlit("version");
    reveal_strlit("author");
    reveal_strlit("status");
    reveal_strlit("secret_key");
    reveal_strlit("tools_count");
    reveal_strlit("endpoints");
    assert("package_name"@.len() == 12 && "name"@.len() == 4 && "version"@.len() == 7);
    assert("author"@.len() == 6 && "status"@.len() == 6 && "secret_key"@.len() == 10);
    assert("tools_count"@.len() == 11 && "endpoints"@.len() == 9);
    let entries = status_tree(key)->Object_0;
    lemma_lone_entry(entries, 0);
    lemma_lone_entry(entries, 1);
    lemma_lone_entry(entries, 5);
    lemma_lone_entry(entries, 7);
    reveal_strlit("key");
    reveal_strlit("rotate_key");
    reveal_strlit("sse");
    reveal_strlit("messages");
    reveal_strlit("info");
    assert("key"@.len() == 3 && "rotate_key"@.len() == 10 && "sse"@.len() == 3);
    assert("messages"@.len() == 8 && "info"@.len() == 4 && "key"@[0] != "sse"@[0]);
    let endpoints = entries[7].1->Object_0;
    lemma_lone_entry(endpoints, 0);
    lemma_lone_entry(endpoints, 1);
    lemma_lone_entry(endpoints, 2);
    lemma_lone_entry(endpoints, 3);
    lemma_lone_entry(endpoints, 4);
    assert(is_routed("/api/extensions/mcp/v1/key"@, Endpoint::Key)) by {
        assert(route_table()[3] == ("/api/extensions/mcp/v1/key"@, Endpoint::Key));
    }
    assert(is_routed("/api/extensions/mcp/v1/key/rotate"@, Endpoint::RotateKey)) by {
        assert(route_table()[4] == ("/api/extensions/mcp/v1/key/rotate"@, Endpoint::RotateKey));
    }
    assert(is_routed("/api/extensions/mcp/v1/info"@, Endpoint::Universal)) by {
        assert(route_table()[0] == ("/api/extensions/mcp/v1/info"@, Endpoint::Universal));
    }
}

/// The endpoint answers at that path.
pub open spec fn is_routed(path: Seq<char>, endpoint: Endpoint) -> bool {
    route_table().contains((path, endpoint))
}

/// What stands under `key` is a path at which the endpoint answers.
pub open spec fn tells_route(endpoints: JsonTree, key: Seq<char>, endpoint: Endpoint) -> bool {
    endpoints.get(key) matches Some(JsonTree::Text(path)) && is_routed(path, endpoint)
}

} // verus!
