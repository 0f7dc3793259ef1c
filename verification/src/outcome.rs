//! Tool calls: from the outcome of a step to the result of the call.

use vstd::prelude::*;
use vstd::utf8::encode_utf8;

use crate::content::{
    content_of, error_of, format_mcp_content, format_mcp_error, is_faithful, is_shown, is_told,
    told, Outcome,
};
use crate::execute::{install, install_step, is_sound, json_view};
use crate::json::{text_trees, trees, Json, JsonTree};
use crate::readable::{
    is_plain_key, is_readable, lemma_plain_keys, lemma_readable_only, lemma_readable_with,
    most_levels,
};
use crate::records::{
    documents, plugin_trees, plugins, record_trees, BackupRow, FileEntry, MachineRow, NestRow,
    Record, ServerRow, UserRow,
};
use crate::step::{Plugin, PluginModel, PluginOf, Receipt, ReceiptModel, Step};
use crate::text;

verus! {

broadcast use {lemma_readable_only, lemma_readable_with};

// ---------------------------------------------------------------------------
// The database
// ---------------------------------------------------------------------------

/// A count, zero where the query failed.
pub open spec fn count_or_zero(count: Option<i64>) -> JsonTree {
    JsonTree::Number(
        match count {
            Some(n) => n as int,
            None => 0,
        },
    )
}

fn count_json(count: Option<i64>) -> (res: Json)
    ensures
        res@ == count_or_zero(count),
{
    Json::number(
        match count {
            Some(n) => n,
            None => 0,
        },
    )
}

pub open spec fn health_tree(
    users: Option<i64>,
    nodes: Option<i64>,
    servers: Option<i64>,
    now: Seq<char>,
) -> JsonTree {
    JsonTree::object().with_text("panel_status"@, "healthy"@).with_text(
        "version"@,
        "1.2.1"@,
    ).with_text("database"@, "postgresql@16.15"@).with_text("cache"@, "redis@8.10.1"@).with(
        "total_users"@,
        count_or_zero(users),
    ).with("total_nodes"@, count_or_zero(nodes)).with(
        "total_servers"@,
        count_or_zero(servers),
    ).with_text("timestamp"@, now)
}

/// The panel's health at a given time. A count that failed is `None`.
pub fn system_health(
    users: Option<i64>,
    nodes: Option<i64>,
    servers: Option<i64>,
    now: &str,
) -> (res: Json)
    ensures
        res@ == content_of(health_tree(users, nodes, servers, now@)),
        is_shown(health_tree(users, nodes, servers, now@)),
        is_told(res@),
{
    proof {
        lemma_plain_keys();
    }
    format_mcp_content(
        Json::object().with_text("panel_status", "healthy").with_text("version", "1.2.1").with_text(
            "database",
            "postgresql@16.15",
        ).with_text("cache", "redis@8.10.1").with("total_users", count_json(users)).with(
            "total_nodes",
            count_json(nodes),
        ).with("total_servers", count_json(servers)).with_text("timestamp", now),
    )
}

/// The complaint about a query that failed.
pub open spec fn query_error(error: Seq<char>) -> Seq<char> {
    "Database query error: "@ + error
}

fn query_failed(error: &str) -> (res: Json)
    ensures
        res@ == error_of(query_error(error@)),
        is_told(res@),
{
    format_mcp_error("Database query error: ".to_string().concat(error).as_str())
}

/// What a listing results in: how many rows there are and the rows under
/// `key`, or the error of the query.
pub open spec fn listing<R: Record>(rows: Result<Vec<R>, String>, key: Seq<char>) -> Outcome {
    match rows {
        Ok(rows) => Ok(
            JsonTree::object().with("total"@, JsonTree::Number(rows@.len() as int)).with(
                key,
                JsonTree::Array(record_trees(rows@)),
            ),
        ),
        Err(error) => Err(query_error(error@)),
    }
}

fn listed<R: Record>(rows: Result<Vec<R>, String>, key: &str) -> (res: Json)
    requires
        is_plain_key(key@),
    ensures
        res@ == told(listing(rows, key@)),
        is_faithful(listing(rows, key@)),
        is_told(res@),
{
    proof {
        lemma_plain_keys();
    }
    match rows {
        Ok(rows) => format_mcp_content(
            Json::object().with("total", Json::count(rows.len())).with(key, documents(&rows)),
        ),
        Err(error) => query_failed(error.as_str()),
    }
}

pub fn nests_fetched(rows: Result<Vec<NestRow>, String>) -> (res: Json)
    ensures
        res@ == told(listing(rows, "nests"@)),
        is_faithful(listing(rows, "nests"@)),
        is_told(res@),
{
    proof {
        lemma_plain_keys();
    }
    listed(rows, "nests")
}

pub fn users_fetched(rows: Result<Vec<UserRow>, String>) -> (res: Json)
    ensures
        res@ == told(listing(rows, "users"@)),
        is_faithful(listing(rows, "users"@)),
        is_told(res@),
{
    proof {
        lemma_plain_keys();
    }
    listed(rows, "users")
}

pub fn servers_fetched(rows: Result<Vec<ServerRow>, String>) -> (res: Json)
    ensures
        res@ == told(listing(rows, "servers"@)),
        is_faithful(listing(rows, "servers"@)),
        is_told(res@),
{
    proof {
        lemma_plain_keys();
    }
    listed(rows, "servers")
}

pub fn machines_fetched(rows: Result<Vec<MachineRow>, String>) -> (res: Json)
    ensures
        res@ == told(listing(rows, "machines"@)),
        is_faithful(listing(rows, "machines"@)),
        is_told(res@),
{
    proof {
        lemma_plain_keys();
    }
    listed(rows, "machines")
}

/// The complaint about a UUID that no server has.
pub open spec fn no_server(server_uuid: Seq<char>) -> Seq<char> {
    "Server with UUID '"@ + server_uuid + "' not found"@
}

fn no_server_text(server_uuid: &str) -> (res: String)
    ensures
        res@ == no_server(server_uuid@),
{
    "Server with UUID '".to_string().concat(server_uuid).concat("' not found")
}

/// What the search for one server results in.
pub open spec fn server_outcome(
    server_uuid: Seq<char>,
    row: Result<Option<ServerRow>, String>,
) -> Outcome {
    match row {
        Ok(Some(server)) => Ok(server.detail_tree()),
        Ok(None) => Err(no_server(server_uuid)),
        Err(error) => Err(query_error(error@)),
    }
}

/// What the search for one server results in.
pub fn server_fetched(server_uuid: &str, row: Result<Option<ServerRow>, String>) -> (res: Json)
    requires
        row matches Ok(Some(server)) ==> server.sizes_fit(),
    ensures
        res@ == told(server_outcome(server_uuid@, row)),
        is_faithful(server_outcome(server_uuid@, row)),
        is_told(res@),
{
    match row {
        Ok(Some(server)) => format_mcp_content(server.detail()),
        Ok(None) => format_mcp_error(no_server_text(server_uuid).as_str()),
        Err(error) => query_failed(error.as_str()),
    }
}

pub open spec fn backups_tree(server_uuid: Seq<char>, rows: Seq<BackupRow>) -> JsonTree {
    JsonTree::object().with("total"@, JsonTree::Number(rows.len() as int)).with_text(
        "server_uuid"@,
        server_uuid,
    ).with("backups"@, JsonTree::Array(record_trees(rows)))
}

/// The backups that were found; none where the query failed.
pub open spec fn found_backups(rows: Option<Vec<BackupRow>>) -> Seq<BackupRow> {
    match rows {
        Some(rows) => rows@,
        None => seq![],
    }
}

/// The backups that were found; none where the query failed.
pub fn backups_fetched(server_uuid: &str, rows: Option<Vec<BackupRow>>) -> (res: Json)
    ensures
        res@ == content_of(backups_tree(server_uuid@, found_backups(rows))),
        is_shown(backups_tree(server_uuid@, found_backups(rows))),
        is_told(res@),
{
    proof {
        lemma_plain_keys();
    }
    let rows = match rows {
        Some(rows) => rows,
        None => Vec::new(),
    };
    format_mcp_content(
        Json::object().with("total", Json::count(rows.len())).with_text(
            "server_uuid",
            server_uuid,
        ).with("backups", documents(&rows)),
    )
}

// ---------------------------------------------------------------------------
// A server's daemon
// ---------------------------------------------------------------------------

/// Why a server's daemon could not be called.
pub enum NodeFailure {
    /// The query for the server's node failed.
    QueryFailed(String),
    /// There is no such server.
    NoServer,
    /// The node's token could not be decrypted.
    TokenFailed(String),
}

/// What came of a call to a server's daemon.
pub enum NodeReply<T> {
    Unreachable(NodeFailure),
    /// The daemon, or the way to it, failed with that error.
    Refused(String),
    Answered(T),
}

pub open spec fn node_error(server_uuid: Seq<char>, failure: NodeFailure) -> Seq<char> {
    match failure {
        NodeFailure::QueryFailed(error) => query_error(error@),
        NodeFailure::NoServer => no_server(server_uuid),
        NodeFailure::TokenFailed(error) => "Failed to decrypt node token: "@ + error@,
    }
}

fn node_failed(server_uuid: &str, failure: NodeFailure) -> (res: Json)
    ensures
        res@ == error_of(node_error(server_uuid@, failure)),
        is_told(res@),
{
    match failure {
        NodeFailure::QueryFailed(error) => query_failed(error.as_str()),
        NodeFailure::NoServer => format_mcp_error(no_server_text(server_uuid).as_str()),
        NodeFailure::TokenFailed(error) => format_mcp_error(
            "Failed to decrypt node token: ".to_string().concat(error.as_str()).as_str(),
        ),
    }
}

fn failed_with(complaint: &str, error: &str) -> (res: Json)
    ensures
        res@ == error_of(complaint@ + error@),
        is_told(res@),
{
    format_mcp_error(complaint.to_string().concat(error).as_str())
}

pub open spec fn order_outcome(
    server_uuid: Seq<char>,
    receipt: ReceiptModel,
    reply: NodeReply<()>,
    now: Seq<char>,
) -> Outcome {
    match reply {
        NodeReply::Unreachable(failure) => Err(node_error(server_uuid, failure)),
        NodeReply::Refused(error) => Err(receipt.failure + error@),
        NodeReply::Answered(_) => Ok(receipt.reply.with_text(receipt.stamp, now)),
    }
}

/// The reply to an order is an object that can be read back, also with the time
/// in it.
pub open spec fn is_sound_receipt(receipt: ReceiptModel) -> bool {
    &&& receipt.reply is Object
    &&& is_readable(receipt.reply, most_levels())
    &&& is_plain_key(receipt.stamp)
}

/// What an order results in that was carried out at a given time.
pub fn order_done(
    server_uuid: &str,
    receipt: Receipt,
    reply: NodeReply<()>,
    now: &str,
) -> (res: Json)
    ensures
        res@ == told(order_outcome(server_uuid@, receipt@, reply, now@)),
        is_sound_receipt(receipt@) ==> is_faithful(
            order_outcome(server_uuid@, receipt@, reply, now@),
        ),
        is_sound_receipt(receipt@) ==> is_told(res@),
{
    match reply {
        NodeReply::Unreachable(failure) => node_failed(server_uuid, failure),
        NodeReply::Refused(error) => failed_with(receipt.failure.as_str(), error.as_str()),
        NodeReply::Answered(_) => format_mcp_content(
            receipt.reply.with_text(receipt.stamp.as_str(), now),
        ),
    }
}

pub open spec fn logs_tree(server_uuid: Seq<char>, requested: i64, log: Seq<char>) -> JsonTree {
    JsonTree::object().with_text("server_uuid"@, server_uuid).with(
        "lines_requested"@,
        JsonTree::Number(requested as int),
    ).with("lines_returned"@, JsonTree::Number(text::lines(log).len() as int)).with(
        "console_output"@,
        JsonTree::Array(text_trees(text::lines(log))),
    )
}

/// What the tail of a console results in.
pub open spec fn logs_outcome(
    server_uuid: Seq<char>,
    requested: i64,
    reply: NodeReply<Result<String, String>>,
) -> Outcome {
    match reply {
        NodeReply::Unreachable(failure) => Err(node_error(server_uuid, failure)),
        NodeReply::Refused(error) => Err("Wings daemon log retrieval failed: "@ + error@),
        NodeReply::Answered(Err(error)) => Err(
            "Failed reading console logs stream: "@ + error@,
        ),
        NodeReply::Answered(Ok(log)) => Ok(logs_tree(server_uuid, requested, log@)),
    }
}

/// What the tail of a console results in. The daemon's answer is the log, or
/// the error that reading it ended with.
pub fn logs_fetched(
    server_uuid: &str,
    requested: i64,
    reply: NodeReply<Result<String, String>>,
) -> (res: Json)
    ensures
        res@ == told(logs_outcome(server_uuid@, requested, reply)),
        is_faithful(logs_outcome(server_uuid@, requested, reply)),
        is_told(res@),
{
    proof {
        lemma_plain_keys();
    }
    match reply {
        NodeReply::Unreachable(failure) => node_failed(server_uuid, failure),
        NodeReply::Refused(error) => failed_with(
            "Wings daemon log retrieval failed: ",
            error.as_str(),
        ),
        NodeReply::Answered(Err(error)) => failed_with(
            "Failed reading console logs stream: ",
            error.as_str(),
        ),
        NodeReply::Answered(Ok(log)) => {
            let lines = text::split_lines(log.as_str());
            proof {
                assert(text::slices_view(lines@).len() == lines@.len());
            }
            format_mcp_content(
                Json::object().with_text("server_uuid", server_uuid).with(
                    "lines_requested",
                    Json::number(requested),
                ).with("lines_returned", Json::count(lines.len())).with(
                    "console_output",
                    Json::texts(&lines),
                ),
            )
        },
    }
}

/// The most bytes that a file can have to be read: one megabyte.
pub const READ_LIMIT: usize = 1048576;

pub open spec fn file_tree(
    server_uuid: Seq<char>,
    path: Seq<char>,
    content: Seq<char>,
) -> JsonTree {
    JsonTree::object().with_text("server_uuid"@, server_uuid).with_text("path"@, path).with(
        "size_bytes"@,
        JsonTree::Number(encode_utf8(content).len() as int),
    ).with_text("content"@, content)
}

/// What a file results in: its content, up to the read limit.
pub open spec fn file_outcome(
    server_uuid: Seq<char>,
    path: Seq<char>,
    reply: NodeReply<Result<String, String>>,
) -> Outcome {
    match reply {
        NodeReply::Unreachable(failure) => Err(node_error(server_uuid, failure)),
        NodeReply::Refused(error) => Err("Wings daemon read_file failed: "@ + error@),
        NodeReply::Answered(Err(error)) => Err("Failed reading file content: "@ + error@),
        NodeReply::Answered(Ok(content)) => if encode_utf8(content@).len() > READ_LIMIT {
            Err("File is larger than 1 MB"@)
        } else {
            Ok(file_tree(server_uuid, path, content@))
        },
    }
}

/// What a file results in: its content, up to the read limit. The daemon's
/// answer is the content, or the error that reading it ended with.
pub fn file_fetched(
    server_uuid: &str,
    path: &str,
    reply: NodeReply<Result<String, String>>,
) -> (res: Json)
    ensures
        res@ == told(file_outcome(server_uuid@, path@, reply)),
        is_faithful(file_outcome(server_uuid@, path@, reply)),
        is_told(res@),
{
    proof {
        lemma_plain_keys();
    }
    match reply {
        NodeReply::Unreachable(failure) => node_failed(server_uuid, failure),
        NodeReply::Refused(error) => failed_with(
            "Wings daemon read_file failed: ",
            error.as_str(),
        ),
        NodeReply::Answered(Err(error)) => failed_with(
            "Failed reading file content: ",
            error.as_str(),
        ),
        NodeReply::Answered(Ok(content)) => {
            let size: usize = content.as_str().as_bytes().len();
            if size > READ_LIMIT {
                return format_mcp_error("File is larger than 1 MB");
            }
            format_mcp_content(
                Json::object().with_text("server_uuid", server_uuid).with_text("path", path).with(
                    "size_bytes",
                    Json::count(size),
                ).with_text("content", content.as_str()),
            )
        },
    }
}

pub open spec fn directory_tree(
    server_uuid: Seq<char>,
    directory: Seq<char>,
    entries: Seq<FileEntry>,
) -> JsonTree {
    JsonTree::object().with_text("server_uuid"@, server_uuid).with_text(
        "directory"@,
        directory,
    ).with("total_entries"@, JsonTree::Number(entries.len() as int)).with(
        "entries"@,
        JsonTree::Array(record_trees(entries)),
    )
}

/// What a directory's listing results in.
pub open spec fn directory_outcome(
    server_uuid: Seq<char>,
    directory: Seq<char>,
    reply: NodeReply<Vec<FileEntry>>,
) -> Outcome {
    match reply {
        NodeReply::Unreachable(failure) => Err(node_error(server_uuid, failure)),
        NodeReply::Refused(error) => Err("Wings daemon list_files failed: "@ + error@),
        NodeReply::Answered(entries) => Ok(
            directory_tree(server_uuid, directory, entries@),
        ),
    }
}

/// What a directory's listing results in.
pub fn directory_listed(
    server_uuid: &str,
    directory: &str,
    reply: NodeReply<Vec<FileEntry>>,
) -> (res: Json)
    ensures
        res@ == told(directory_outcome(server_uuid@, directory@, reply)),
        is_faithful(directory_outcome(server_uuid@, directory@, reply)),
        is_told(res@),
{
    proof {
        lemma_plain_keys();
    }
    match reply {
        NodeReply::Unreachable(failure) => node_failed(server_uuid, failure),
        NodeReply::Refused(error) => failed_with(
            "Wings daemon list_files failed: ",
            error.as_str(),
        ),
        NodeReply::Answered(entries) => format_mcp_content(
            Json::object().with_text("server_uuid", server_uuid).with_text(
                "directory",
                directory,
            ).with("total_entries", Json::count(entries.len())).with(
                "entries",
                documents(&entries),
            ),
        ),
    }
}

pub open spec fn plugins_tree(
    server_uuid: Seq<char>,
    directory: Seq<char>,
    entries: Seq<FileEntry>,
) -> JsonTree {
    JsonTree::object().with_text("server_uuid"@, server_uuid).with_text(
        "directory"@,
        directory,
    ).with("total_plugins"@, JsonTree::Number(plugin_trees(entries).len() as int)).with(
        "plugins"@,
        JsonTree::Array(plugin_trees(entries)),
    )
}

/// What the listing of the plugin directory results in.
pub open spec fn plugins_outcome(
    server_uuid: Seq<char>,
    directory: Seq<char>,
    reply: NodeReply<Vec<FileEntry>>,
) -> Outcome {
    match reply {
        NodeReply::Unreachable(failure) => Err(node_error(server_uuid, failure)),
        NodeReply::Refused(error) => Err("Wings daemon list_plugins failed: "@ + error@),
        NodeReply::Answered(entries) => Ok(
            plugins_tree(server_uuid, directory, entries@),
        ),
    }
}

/// What the listing of the plugin directory results in.
pub fn plugins_listed(
    server_uuid: &str,
    directory: &str,
    reply: NodeReply<Vec<FileEntry>>,
) -> (res: Json)
    ensures
        res@ == told(plugins_outcome(server_uuid@, directory@, reply)),
        is_faithful(plugins_outcome(server_uuid@, directory@, reply)),
        is_told(res@),
{
    proof {
        lemma_plain_keys();
    }
    match reply {
        NodeReply::Unreachable(failure) => node_failed(server_uuid, failure),
        NodeReply::Refused(error) => failed_with(
            "Wings daemon list_plugins failed: ",
            error.as_str(),
        ),
        NodeReply::Answered(entries) => {
            let found = plugins(&entries);
            proof {
                assert(trees(found@).len() == found@.len());
            }
            format_mcp_content(
                Json::object().with_text("server_uuid", server_uuid).with_text(
                    "directory",
                    directory,
                ).with("total_plugins", Json::count(found.len())).with(
                    "plugins",
                    Json::array(found),
                ),
            )
        },
    }
}

pub open spec fn deletion_outcome(
    server_uuid: Seq<char>,
    filename: Seq<char>,
    reply: NodeReply<u64>,
    now: Seq<char>,
) -> Outcome {
    match reply {
        NodeReply::Unreachable(failure) => Err(node_error(server_uuid, failure)),
        NodeReply::Refused(error) => Err("Wings daemon remove_plugin failed: "@ + error@),
        NodeReply::Answered(deleted) => Ok(
            JsonTree::object().with_text("status"@, "plugin_removed"@).with_text(
                "server_uuid"@,
                server_uuid,
            ).with_text("filename"@, filename).with(
                "deleted_count"@,
                JsonTree::Number(deleted as int),
            ).with_text("timestamp"@, now),
        ),
    }
}

/// What the deletion of a plugin at a given time results in. The daemon's
/// answer is how many files it deleted.
pub fn plugin_deleted(
    server_uuid: &str,
    filename: &str,
    reply: NodeReply<u64>,
    now: &str,
) -> (res: Json)
    ensures
        res@ == told(deletion_outcome(server_uuid@, filename@, reply, now@)),
        is_faithful(deletion_outcome(server_uuid@, filename@, reply, now@)),
        is_told(res@),
{
    proof {
        lemma_plain_keys();
    }
    match reply {
        NodeReply::Unreachable(failure) => node_failed(server_uuid, failure),
        NodeReply::Refused(error) => failed_with(
            "Wings daemon remove_plugin failed: ",
            error.as_str(),
        ),
        NodeReply::Answered(deleted) => format_mcp_content(
            Json::object().with_text("status", "plugin_removed").with_text(
                "server_uuid",
                server_uuid,
            ).with_text("filename", filename).with(
                "deleted_count",
                Json::Unsigned(deleted),
            ).with_text("timestamp", now),
        ),
    }
}

// ---------------------------------------------------------------------------
// The plugin catalog
// ---------------------------------------------------------------------------

/// What the connector calls itself toward the catalog.
pub const USER_AGENT: &'static str = "CalagopusMCP/1.2.1";

/// The document of one hit of a search.
pub open spec fn hit_tree(hit: JsonTree) -> JsonTree {
    JsonTree::object().with_text("id"@, hit.text_or("project_id"@, ""@)).with_text(
        "slug"@,
        hit.text_or("slug"@, ""@),
    ).with_text("name"@, hit.text_or("title"@, ""@)).with_text(
        "description"@,
        hit.text_or("description"@, ""@),
    ).with_text("author"@, hit.text_or("author"@, ""@)).with(
        "downloads"@,
        JsonTree::Number(hit.int_or("downloads"@, 0) as int),
    ).with_text("source"@, "modrinth"@)
}

fn hit_document(hit: &Json) -> (res: Json)
    ensures
        res@ == hit_tree(hit@),
{
    Json::object().with_text("id", hit.text_or("project_id", "")).with_text(
        "slug",
        hit.text_or("slug", ""),
    ).with_text("name", hit.text_or("title", "")).with_text(
        "description",
        hit.text_or("description", ""),
    ).with_text("author", hit.text_or("author", "")).with(
        "downloads",
        Json::number(hit.int_or("downloads", 0)),
    ).with_text("source", "modrinth")
}

/// The hits in the catalog's answer.
pub open spec fn hits(body: Option<JsonTree>) -> Seq<JsonTree> {
    match body {
        Some(body) => match body.get("hits"@) {
            Some(JsonTree::Array(items)) => items,
            _ => seq![],
        },
        None => seq![],
    }
}

/// The documents of the first ten hits.
pub open spec fn hit_trees(body: Option<JsonTree>) -> Seq<JsonTree> {
    let all = hits(body);
    all.take(
        if all.len() < 10 {
            all.len() as int
        } else {
            10
        },
    ).map_values(|hit: JsonTree| hit_tree(hit))
}

fn hit_documents(body: &Option<Json>) -> (res: Vec<Json>)
    ensures
        trees(res@) == hit_trees(json_view(*body)),
{
    let mut list: Vec<Json> = Vec::new();
    let ghost wanted = hit_trees(json_view(*body));
    if let Some(body) = body {
        if let Some(value) = body.get("hits") {
            if let Some(items) = value.as_array() {
                let mut i: usize = 0;
                while i < items.len() && i < 10
                    invariant
                        i <= items@.len(),
                        i <= 10,
                        wanted.len() == if items@.len() < 10 {
                            items@.len()
                        } else {
                            10
                        },
                        forall|k: int|
                            0 <= k < wanted.len() ==> #[trigger] wanted[k] == hit_tree(items@[k]@),
                        trees(list@) == wanted.take(i as int),
                    decreases items@.len() - i,
                {
                    let ghost before = list@;
                    let document = hit_document(&items[i]);
                    list.push(document);
                    proof {
                        assert(trees(list@) =~= trees(before).push(document@));
                        assert(wanted.take(i + 1) =~= wanted.take(i as int).push(
                            wanted[i as int],
                        ));
                    }
                    i = i + 1;
                }
                assert(wanted.take(i as int) =~= wanted);
                return list;
            }
        }
    }
    assert(trees(list@) =~= wanted);
    list
}

/// What is offered where the catalog has nothing.
pub open spec fn fallback_trees(mc_version: Seq<char>) -> Seq<JsonTree> {
    seq![
        JsonTree::object().with_text("id"@, "luckperms"@).with_text(
            "name"@,
            "LuckPerms"@,
        ).with_text(
            "description"@,
            "An advanced permissions plugin for Minecraft servers."@,
        ).with_text("author"@, "Luck"@).with(
            "compatible_versions"@,
            JsonTree::Array(seq![JsonTree::Text(mc_version)]),
        ).with_text("source"@, "catalog"@),
        JsonTree::object().with_text("id"@, "vault"@).with_text("name"@, "Vault"@).with_text(
            "description"@,
            "Economy, Permission, and Chat API plugin."@,
        ).with_text("author"@, "Sleight"@).with(
            "compatible_versions"@,
            JsonTree::Array(seq![JsonTree::Text(mc_version)]),
        ).with_text("source"@, "catalog"@),
    ]
}

fn fallback(mc_version: &str) -> (res: Vec<Json>)
    ensures
        trees(res@) == fallback_trees(mc_version@),
{
    let mut list: Vec<Json> = Vec::new();
    list.push(
        Json::object().with_text("id", "luckperms").with_text("name", "LuckPerms").with_text(
            "description",
            "An advanced permissions plugin for Minecraft servers.",
        ).with_text("author", "Luck").with(
            "compatible_versions",
            Json::only(Json::text(mc_version)),
        ).with_text("source", "catalog"),
    );
    list.push(
        Json::object().with_text("id", "vault").with_text("name", "Vault").with_text(
            "description",
            "Economy, Permission, and Chat API plugin.",
        ).with_text("author", "Sleight").with(
            "compatible_versions",
            Json::only(Json::text(mc_version)),
        ).with_text("source", "catalog"),
    );
    assert(trees(list@) =~= fallback_trees(mc_version@));
    list
}

/// The plugins that a search finds: the catalog's hits, or else a few well
/// known ones.
pub open spec fn found_trees(mc_version: Seq<char>, body: Option<JsonTree>) -> Seq<JsonTree> {
    if hits(body).len() == 0 {
        fallback_trees(mc_version)
    } else {
        hit_trees(body)
    }
}

pub open spec fn search_tree(
    query: Seq<char>,
    software: Seq<char>,
    mc_version: Seq<char>,
    body: Option<JsonTree>,
) -> JsonTree {
    JsonTree::object().with_text("query"@, query).with_text("software"@, software).with_text(
        "mc_version"@,
        mc_version,
    ).with("total"@, JsonTree::Number(found_trees(mc_version, body).len() as int)).with(
        "plugins"@,
        JsonTree::Array(found_trees(mc_version, body)),
    )
}

/// What a search finds can be read back.
proof fn lemma_found_is_readable(mc_version: Seq<char>, body: Option<JsonTree>, levels: nat)
    requires
        levels > 2,
    ensures
        is_readable(JsonTree::Array(found_trees(mc_version, body)), levels),
{
    let found = found_trees(mc_version, body);
    let below = (levels - 1) as nat;
    lemma_plain_keys();
    assert forall|i: int| 0 <= i < found.len() implies is_readable(#[trigger] found[i], below) by {
        if hits(body).len() == 0 {
            assert(found[i] == fallback_trees(mc_version)[i]);
        } else {
            assert(found[i] == hit_tree(hits(body)[i]));
        }
    }
}

/// What a search results in. `body` is the catalog's answer, if one came.
pub fn catalog_searched(
    query: &str,
    software: &str,
    mc_version: &str,
    body: Option<Json>,
) -> (res: Json)
    ensures
        res@ == content_of(search_tree(query@, software@, mc_version@, json_view(body))),
        is_shown(search_tree(query@, software@, mc_version@, json_view(body))),
        is_told(res@),
{
    proof {
        lemma_plain_keys();
    }
    let mut found = hit_documents(&body);
    proof {
        lemma_found_is_readable(mc_version@, json_view(body), (most_levels() - 1) as nat);
        assert(trees(found@).len() == found@.len());
    }
    if found.len() == 0 {
        found = fallback(mc_version);
    }
    proof {
        assert(trees(found@).len() == found@.len());
    }
    format_mcp_content(
        Json::object().with_text("query", query).with_text("software", software).with_text(
            "mc_version",
            mc_version,
        ).with("total", Json::count(found.len())).with("plugins", Json::array(found)),
    )
}

/// The file is marked as the main one of its version.
pub open spec fn is_primary(file: JsonTree) -> bool {
    match file.get("primary"@) {
        Some(JsonTree::Bool(b)) => b,
        _ => false,
    }
}

/// The first file that is marked as the main one.
pub open spec fn first_primary(files: Seq<JsonTree>) -> Option<JsonTree>
    decreases files.len(),
{
    if files.len() == 0 {
        None
    } else if is_primary(files[0]) {
        Some(files[0])
    } else {
        first_primary(files.drop_first())
    }
}

/// The file to install of a version: the main one, else the first.
pub open spec fn main_file(files: Seq<JsonTree>) -> Option<JsonTree> {
    match first_primary(files) {
        Some(file) => Some(file),
        None => if files.len() == 0 {
            None
        } else {
            Some(files[0])
        },
    }
}

/// The files of the first version in the catalog's answer.
pub open spec fn version_files(versions: Option<JsonTree>) -> Seq<JsonTree> {
    match versions {
        Some(JsonTree::Array(items)) => if items.len() == 0 {
            seq![]
        } else {
            match items[0].get("files"@) {
                Some(JsonTree::Array(files)) => files,
                _ => seq![],
            }
        },
        _ => seq![],
    }
}

/// A plugin with the download address from the catalog, and with the file name
/// from there if it has none of its own.
pub open spec fn resolved(plugin: PluginModel, versions: Option<JsonTree>) -> PluginModel {
    match main_file(version_files(versions)) {
        Some(file) => PluginOf {
            download_url: file.text_or("url"@, plugin.download_url),
            filename: if plugin.filename.len() == 0 {
                file.text_or("filename"@, plugin.filename)
            } else {
                plugin.filename
            },
            ..plugin
        },
        None => plugin,
    }
}

fn pick_file(files: &Vec<Json>) -> (res: Option<&Json>)
    ensures
        match res {
            Some(file) => main_file(trees(files@)) == Some(file@),
            None => main_file(trees(files@)) is None,
        },
{
    let ghost all = trees(files@);
    let mut i: usize = 0;
    proof {
        assert(all.skip(0) =~= all);
    }
    while i < files.len()
        invariant
            i <= files@.len(),
            all == trees(files@),
            first_primary(all) == first_primary(all.skip(i as int)),
        decreases files@.len() - i,
    {
        proof {
            assert(all.skip(i as int)[0] == files@[i as int]@);
            assert(all.skip(i as int).drop_first() =~= all.skip(i + 1));
        }
        if let Some(value) = files[i].get("primary") {
            if let Some(true) = value.as_bool() {
                return Some(&files[i]);
            }
        }
        i = i + 1;
    }
    if files.len() == 0 {
        None
    } else {
        Some(&files[0])
    }
}

fn pick_version_file(versions: &Option<Json>) -> (res: Option<&Json>)
    ensures
        match res {
            Some(file) => main_file(version_files(json_view(*versions))) == Some(file@),
            None => main_file(version_files(json_view(*versions))) is None,
        },
{
    if let Some(versions) = versions {
        if let Some(items) = versions.as_array() {
            if items.len() > 0 {
                assert(trees(items@)[0] == items@[0]@);
                if let Some(value) = items[0].get("files") {
                    if let Some(files) = value.as_array() {
                        return pick_file(files);
                    }
                }
            }
        }
    }
    None
}

/// Goes on with the installation of a plugin. `versions` is the catalog's
/// answer, if one came.
pub fn versions_fetched(plugin: Plugin, versions: Option<Json>) -> (step: Step)
    ensures
        step@ == install_step(resolved(plugin@, json_view(versions))),
        is_sound(step@),
{
    let mut plugin = plugin;
    if let Some(file) = pick_version_file(&versions) {
        let url = file.text_or("url", plugin.download_url.as_str()).to_string();
        let filename = if plugin.filename.as_str().is_empty() {
            file.text_or("filename", plugin.filename.as_str()).to_string()
        } else {
            plugin.filename
        };
        plugin = PluginOf {
            server_uuid: plugin.server_uuid,
            plugin_id: plugin.plugin_id,
            download_url: url,
            filename,
        };
    }
    install(plugin)
}

} // verus!
