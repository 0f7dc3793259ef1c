//! What the models of values say of the values, and what the constants read.

use vstd::prelude::*;

use crate::auth::HttpRequest;
use crate::execute::json_view;
use crate::extension::{route_table, Endpoint};
use crate::json::{last_entry, lemma_lone_entry, text_trees, trees, Json, JsonTree};
use crate::outcome::USER_AGENT;
use crate::rpc::{
    message_view, Handling, HandlingModel, HandlingOf, JsonRpcRequest, ENDPOINT_EVENT,
    PING_COMMENT, PING_SECONDS,
};
use crate::secret::{text_view, Secret};
use crate::sql;
use crate::step::{Order, OrderModel, OrderOf, Plugin, Receipt, Step, StepModel, StepOf};

verus! {

// ---------------------------------------------------------------------------
// Documents
// ---------------------------------------------------------------------------

/// A document says what it holds, item by item and entry by entry.
pub proof fn law_document_says_what_it_holds(document: Json)
    ensures
        match document {
            Json::Null => document@ == JsonTree::Null,
            Json::Bool(b) => document@ == JsonTree::Bool(b),
            Json::Unsigned(n) => document@ == JsonTree::Number(n as int),
            Json::Signed(n) => document@ == JsonTree::Number(n as int),
            Json::Decimal(s) => document@ == JsonTree::Decimal(s@),
            Json::Text(s) => document@ == JsonTree::Text(s@),
            Json::Array(items) => document@ matches JsonTree::Array(said) && said.len()
                == items@.len() && forall|i: int|
                0 <= i < said.len() ==> #[trigger] said[i] == items@[i]@,
            Json::Object(entries) => document@ matches JsonTree::Object(said) && said.len()
                == entries@.len() && forall|i: int|
                0 <= i < said.len() ==> #[trigger] said[i] == (entries@[i].0@, entries@[i].1@),
        },
{
}

/// Under a key stands the value of the last entry with that key, and nothing where
/// there is no such entry or no object.
pub proof fn law_members_are_found(document: JsonTree, key: Seq<char>, k: int)
    ensures
        document matches JsonTree::Object(entries) ==> {
            &&& 0 <= k < entries.len() && entries[k].0 == key && (forall|j: int|
                k < j < entries.len() ==> (#[trigger] entries[j]).0 != key) ==> document.get(key)
                == Some(entries[k].1)
            &&& (forall|j: int| 0 <= j < entries.len() ==> (#[trigger] entries[j]).0 != key)
                ==> document.get(key) is None
        },
        document !is Object ==> document.get(key) is None,
{
    if let JsonTree::Object(entries) = document {
        if 0 <= k < entries.len() && entries[k].0 == key && (forall|j: int|
            k < j < entries.len() ==> (#[trigger] entries[j]).0 != key) {
            lemma_lone_entry(entries, k);
        }
        if forall|j: int| 0 <= j < entries.len() ==> (#[trigger] entries[j]).0 != key {
            lemma_no_entry(entries, key);
        }
    }
}

proof fn lemma_no_entry(entries: Seq<(Seq<char>, JsonTree)>, key: Seq<char>)
    requires
        forall|j: int| 0 <= j < entries.len() ==> (#[trigger] entries[j]).0 != key,
    ensures
        last_entry(entries, key) is None,
    decreases entries.len(),
{
    if entries.len() > 0 {
        let rest = entries.drop_last();
        assert forall|j: int| 0 <= j < rest.len() implies (#[trigger] rest[j]).0 != key by {
            assert(rest[j] == entries[j]);
        }
        lemma_no_entry(rest, key);
    }
}

/// What is read under a key: the text or the whole number that stands there, and
/// the default where none does.
pub proof fn law_defaults_fill_in(
    document: JsonTree,
    key: Seq<char>,
    value: Seq<char>,
    default: Seq<char>,
    n: int,
    otherwise: i64,
)
    ensures
        document.get(key) == Some(JsonTree::Text(value)) ==> document.text_or(key, default)
            == value,
        !(document.get(key) matches Some(JsonTree::Text(_))) ==> document.text_or(key, default)
            == default,
        document.get(key) == Some(JsonTree::Number(n)) ==> if i64::MIN <= n <= i64::MAX {
            document.int_or(key, otherwise) == n
        } else {
            document.int_or(key, otherwise) == otherwise
        },
        !(document.get(key) matches Some(JsonTree::Number(_))) ==> document.int_or(key, otherwise)
            == otherwise,
{
}

/// Lists of documents and of texts are seen whole and in order.
pub proof fn law_lists_are_seen(documents: Seq<Json>, texts: Seq<Seq<char>>)
    ensures
        trees(documents).len() == documents.len(),
        forall|i: int| 0 <= i < documents.len() ==> #[trigger] trees(documents)[i] == documents[i]@,
        text_trees(texts).len() == texts.len(),
        forall|i: int|
            0 <= i < texts.len() ==> #[trigger] text_trees(texts)[i] == JsonTree::Text(texts[i]),
{
}

// ---------------------------------------------------------------------------
// Requests
// ---------------------------------------------------------------------------

/// A request says what it holds, header by header.
pub proof fn law_request_says_what_it_holds(request: HttpRequest)
    ensures
        request@.method == request.method@,
        request@.body == request.body@,
        request.query matches Some(query) ==> request@.query == Some(query@),
        request.query is None ==> request@.query is None,
        request@.headers.len() == request.headers@.len(),
        forall|i: int|
            0 <= i < request.headers@.len() ==> #[trigger] request@.headers[i] == (
                request.headers@[i].name@,
                request.headers@[i].value@,
            ),
{
}

/// A message says what it holds.
pub proof fn law_message_says_what_it_holds(message: JsonRpcRequest)
    ensures
        message.id matches Some(id) ==> message@.id == Some(id@),
        message.id is None ==> message@.id is None,
        message.method matches Some(method) ==> message@.method == Some(method@),
        message.method is None ==> message@.method is None,
        message.params matches Some(params) ==> message@.params == Some(params@),
        message.params is None ==> message@.params is None,
        message_view(Some(message)) == Some(message@),
        message_view(None) is None,
{
}

/// A value that may be missing says whether it is, and what it is.
pub proof fn law_options_say_what_they_hold(document: Json, text: &str)
    ensures
        json_view(Some(document)) == Some(document@),
        json_view(None) is None,
        text_view(Some(text)) == Some(text@),
        text_view(None) is None,
{
}

/// A secret is the key that it was made of, wherever it comes from.
pub proof fn law_secret_is_its_key(key: String)
    ensures
        Secret::Configured(key).key() == key@,
        Secret::Stored(key).key() == key@,
        Secret::Fresh(key).key() == key@,
{
}

// ---------------------------------------------------------------------------
// Steps
// ---------------------------------------------------------------------------

/// An order says what it holds.
pub proof fn law_order_says_what_it_holds(order: Order)
    ensures
        match order {
            OrderOf::Power(action) => order@ == OrderModel::Power(action),
            OrderOf::Command(command) => order@ == OrderModel::Command(command@),
            OrderOf::Write { path, content } => order@ == (OrderModel::Write {
                path: path@,
                content: content@,
            }),
            OrderOf::Pull { root, url, file_name, use_header, foreground } => order@ matches OrderOf::Pull {
                root: said_root,
                url: said_url,
                file_name: said_name,
                use_header: said_header,
                foreground: said_foreground,
            } && {
                &&& said_root == root@ && said_url == url@
                &&& file_name matches Some(name) ==> said_name == Some(name@)
                &&& file_name is None ==> said_name is None
                &&& said_header == use_header && said_foreground == foreground
            },
            OrderOf::Backup { id, ignore } => order@ == (OrderModel::Backup {
                id,
                ignore: ignore@,
            }),
        },
{
}

/// A receipt and a plugin say what they hold.
pub proof fn law_receipt_says_what_it_holds(receipt: Receipt, plugin: Plugin)
    ensures
        receipt@.failure == receipt.failure@,
        receipt@.reply == receipt.reply@,
        receipt@.stamp == receipt.stamp@,
        plugin@.server_uuid == plugin.server_uuid@,
        plugin@.plugin_id == plugin.plugin_id@,
        plugin@.download_url == plugin.download_url@,
        plugin@.filename == plugin.filename@,
{
}

/// A step says what it holds.
pub proof fn law_step_says_what_it_holds(step: Step)
    ensures
        match step {
            StepOf::Done(result) => step@ == StepModel::Done(result@),
            StepOf::CountAll => step@ is CountAll,
            StepOf::FetchNests => step@ is FetchNests,
            StepOf::FetchUsers => step@ is FetchUsers,
            StepOf::FetchMachines => step@ is FetchMachines,
            StepOf::FetchServers { limit } => step@ == (StepModel::FetchServers { limit }),
            StepOf::FetchServer { id, server_uuid } => step@ == (StepModel::FetchServer {
                id,
                server_uuid: server_uuid@,
            }),
            StepOf::FetchBackups { server, server_uuid } => step@ == (StepModel::FetchBackups {
                server,
                server_uuid: server_uuid@,
            }),
            StepOf::Order { id, server_uuid, order, receipt } => step@ == (StepModel::Order {
                id,
                server_uuid: server_uuid@,
                order: order@,
                receipt: receipt@,
            }),
            StepOf::FetchLogs { id, server_uuid, lines, tail } => step@ == (StepModel::FetchLogs {
                id,
                server_uuid: server_uuid@,
                lines,
                tail,
            }),
            StepOf::FetchFile { id, server_uuid, path } => step@ == (StepModel::FetchFile {
                id,
                server_uuid: server_uuid@,
                path: path@,
            }),
            StepOf::ListDirectory { id, server_uuid, directory } => step@ == (
            StepModel::ListDirectory { id, server_uuid: server_uuid@, directory: directory@ }),
            StepOf::ListPlugins { id, server_uuid, directory } => step@ == (
            StepModel::ListPlugins { id, server_uuid: server_uuid@, directory: directory@ }),
            StepOf::Delete { id, server_uuid, root, filename } => step@ == (StepModel::Delete {
                id,
                server_uuid: server_uuid@,
                root: root@,
                filename: filename@,
            }),
            StepOf::SearchCatalog { url, query, software, mc_version } => step@ == (
            StepModel::SearchCatalog {
                url: url@,
                query: query@,
                software: software@,
                mc_version: mc_version@,
            }),
            StepOf::FetchVersions { url, plugin } => step@ == (StepModel::FetchVersions {
                url: url@,
                plugin: plugin@,
            }),
        },
{
}

/// A handling says what it holds.
pub proof fn law_handling_says_what_it_holds(handling: Handling)
    ensures
        match handling {
            HandlingOf::Reply { status, body } => handling@ == (HandlingModel::Reply {
                status,
                body: body@,
            }),
            HandlingOf::Stream { endpoint } => handling@ == (HandlingModel::Stream {
                endpoint: endpoint@,
            }),
            HandlingOf::Call { id, step } => handling@ == (HandlingModel::Call {
                id: id@,
                step: step@,
            }),
        },
{
}

// ---------------------------------------------------------------------------
// Constants
// ---------------------------------------------------------------------------

/// The connector answers at each of its paths, the key and the state at theirs,
/// and there are no other paths.
pub proof fn law_routes(path: Seq<char>, endpoint: Endpoint)
    ensures
        route_table().contains((path, endpoint)) <==> {
            ||| endpoint == Endpoint::Universal && (path == "/api/extensions/mcp/v1/info"@ || path
                == "/api/extensions/mcp/v1/messages"@ || path == "/api/extensions/mcp/v1/sse"@
                || path == "/mcp"@ || path == "/api/mcp"@)
            ||| endpoint == Endpoint::Key && path == "/api/extensions/mcp/v1/key"@
            ||| endpoint == Endpoint::RotateKey && path == "/api/extensions/mcp/v1/key/rotate"@
            ||| endpoint == Endpoint::Status && path == "/api/extensions/mcp/v1/status"@
        },
{
    let table = route_table();
    assert(table[0].1 == Endpoint::Universal && table[1].1 == Endpoint::Universal);
    assert(table[2].1 == Endpoint::Universal && table[3].1 == Endpoint::Key);
    assert(table[4].1 == Endpoint::RotateKey && table[5].1 == Endpoint::Status);
    assert(table[6].1 == Endpoint::Universal && table[7].1 == Endpoint::Universal);
}

/// What a stream is opened and kept alive with, and what the connector calls
/// itself.
pub proof fn law_constants()
    ensures
        ENDPOINT_EVENT@ == "endpoint"@,
        PING_COMMENT@ == "ping"@,
        PING_SECONDS == 15,
        USER_AGENT@ == "CalagopusMCP/1.2.1"@,
{
}

/// The statements for the key: what is written is what is read, and a key that is
/// there is written over.
pub proof fn law_key_statements()
    ensures
        sql::READ_SECRET@
            == "SELECT value FROM settings WHERE key = 'dev_calagopus_mcp::secret_key'"@,
        sql::WRITE_SECRET@
            == "INSERT INTO settings (key, value) VALUES ('dev_calagopus_mcp::secret_key', $1) ON CONFLICT (key) DO UPDATE SET value = EXCLUDED.value"@,
{
}

/// The statements for listings: every row of the table, with the columns that are
/// shown; of the servers no more than were asked for.
pub proof fn law_listing_statements()
    ensures
        sql::COUNT_USERS@ == "SELECT COUNT(*) FROM users"@,
        sql::COUNT_NODES@ == "SELECT COUNT(*) FROM nodes"@,
        sql::COUNT_SERVERS@ == "SELECT COUNT(*) FROM servers"@,
        sql::LIST_NESTS@ == "SELECT uuid, name, author, created FROM nests"@,
        sql::LIST_USERS@ == "SELECT uuid, username, email, admin, created FROM users"@,
        sql::LIST_MACHINES@
            == "SELECT uuid, name, url, sftp_port, memory, disk, created FROM nodes"@,
        sql::LIST_SERVERS@
            == "SELECT uuid, name, node_uuid, memory, disk, created FROM servers LIMIT $1"@,
{
}

/// The statements about one server: that server's row, its node and its backups,
/// and fifty backups of any.
pub proof fn law_server_statements()
    ensures
        sql::GET_SERVER@
            == "SELECT uuid, name, node_uuid, memory, disk, created FROM servers WHERE uuid = $1"@,
        sql::NODE_OF_SERVER@
            == "SELECT nodes.url, nodes.token FROM servers JOIN nodes ON nodes.uuid = servers.node_uuid WHERE servers.uuid = $1"@,
        sql::BACKUPS_OF_SERVER@
            == "SELECT uuid, name, is_successful, bytes, checksum, created FROM server_backups WHERE server_uuid = $1"@,
        sql::SOME_BACKUPS@
            == "SELECT uuid, name, is_successful, bytes, checksum, created FROM server_backups LIMIT 50"@,
{
}

} // verus!
