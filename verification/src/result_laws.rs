//! What a call shows once its step is done.

use vstd::prelude::*;
use vstd::utf8::encode_utf8;

use crate::argument_laws::tells;
use crate::clock::{plain_text, rfc3339_text, Moment};
use crate::content::{content_of, error_of, told, Outcome};
use crate::ids;
use crate::json::JsonTree;
use crate::members::{group_members, lemma_marks};
use crate::outcome::{found_trees, NodeFailure, NodeReply};
use crate::progress::{answer_tree, next_outcome, next_step, Event};
use crate::records::{
    plugin_trees, record_trees, BackupRow, FileEntry, MachineRow, NestRow, Record, ServerRow,
    UserRow,
};
use crate::render::indented;
use crate::step::{ReceiptModel, StepModel, StepOf};
use crate::text;

verus! {

broadcast use group_members;

/// The number stands under that key.
pub open spec fn counts(data: JsonTree, key: Seq<char>, n: int) -> bool {
    data.get(key) == Some(JsonTree::Number(n))
}

/// The text of a time without its zone stands under that key.
pub open spec fn dates(data: JsonTree, key: Seq<char>, moment: Moment) -> bool {
    tells(data, key, plain_text(moment.seconds_view(), moment.nanos_view()))
}

/// The text of a UUID stands under that key.
pub open spec fn identifies(data: JsonTree, key: Seq<char>, id: u128) -> bool {
    tells(data, key, ids::hyphenated_text(id))
}

/// The step leads to that outcome, and the call is finished with it.
pub open spec fn comes_to(step: StepModel, event: Event, now: Seq<char>, outcome: Outcome) -> bool {
    &&& next_outcome(step, event, now) == Some(outcome)
    &&& next_step(step, event, now) == Some(StepModel::Done(told(outcome)))
}

// ---------------------------------------------------------------------------
// Results
// ---------------------------------------------------------------------------

/// A result holds one text: that of the document as it is printed, or the message
/// of the error as it is.
pub proof fn law_results_hold_one_text(data: JsonTree, message: Seq<char>)
    ensures
        told(Ok(data)) == content_of(data) && told(Err(message)) == error_of(message),
        holds_text(content_of(data), indented(data)),
        content_of(data).get("isError"@) is None,
        holds_text(error_of(message), "Error: "@ + message),
        error_of(message).get("isError"@) == Some(JsonTree::Bool(true)),
{
    lemma_marks();
}

/// The content is that one text.
pub open spec fn holds_text(result: JsonTree, text: Seq<char>) -> bool {
    result.get("content"@) matches Some(JsonTree::Array(items)) && items.len() == 1 && tells(
        items[0],
        "type"@,
        "text"@,
    ) && tells(items[0], "text"@, text)
}

// ---------------------------------------------------------------------------
// Health
// ---------------------------------------------------------------------------

/// The count that was made, or zero.
pub open spec fn counted(count: Option<i64>, n: int) -> bool {
    match count {
        Some(count) => n == count,
        None => n == 0,
    }
}

/// The health report has each count under its own name, zero where the count
/// failed.
pub proof fn law_health_shows_the_counts(
    users: Option<i64>,
    nodes: Option<i64>,
    servers: Option<i64>,
    n_users: int,
    n_nodes: int,
    n_servers: int,
    now: Seq<char>,
)
    requires
        counted(users, n_users),
        counted(nodes, n_nodes),
        counted(servers, n_servers),
    ensures
        next_outcome(
            StepOf::CountAll,
            Event::Counted { users, nodes, servers },
            now,
        ) matches Some(Ok(data)) && {
            &&& comes_to(StepOf::CountAll, Event::Counted { users, nodes, servers }, now, Ok(data))
            &&& counts(data, "total_users"@, n_users)
            &&& counts(data, "total_nodes"@, n_nodes)
            &&& counts(data, "total_servers"@, n_servers)
            &&& tells(data, "timestamp"@, now)
            &&& tells(data, "panel_status"@, "healthy"@)
            &&& tells(data, "version"@, "1.2.1"@)
            &&& tells(data, "database"@, "postgresql@16.15"@)
            &&& tells(data, "cache"@, "redis@8.10.1"@)
        },
{
    lemma_marks();
}

// ---------------------------------------------------------------------------
// Listings
// ---------------------------------------------------------------------------

/// Under `key` stands the document of every row, in the order of the rows, and
/// under `total` how many there are.
pub open spec fn lists<R: Record>(
    data: JsonTree,
    total: Seq<char>,
    key: Seq<char>,
    rows: Seq<R>,
) -> bool {
    data.get(key) matches Some(JsonTree::Array(items)) && {
        &&& items.len() == rows.len()
        &&& counts(data, total, items.len() as int)
        &&& forall|i: int| 0 <= i < rows.len() ==> #[trigger] items[i] == rows[i].tree()
    }
}

/// Every record has its document, in the order of the records.
pub proof fn law_every_record_has_its_document<R: Record>(records: Seq<R>)
    ensures
        record_trees(records).len() == records.len(),
        forall|i: int|
            0 <= i < records.len() ==> #[trigger] record_trees(records)[i] == records[i].tree(),
{
}

/// Every row that the database has is listed.
pub proof fn law_every_row_is_listed(
    nests: Vec<NestRow>,
    users: Vec<UserRow>,
    machines: Vec<MachineRow>,
    servers: Vec<ServerRow>,
    limit: i64,
    now: Seq<char>,
)
    ensures
        next_outcome(StepOf::FetchNests, Event::Nests(Ok(nests)), now) matches Some(Ok(data))
            && lists(data, "total"@, "nests"@, nests@),
        next_outcome(StepOf::FetchUsers, Event::Users(Ok(users)), now) matches Some(Ok(data))
            && lists(data, "total"@, "users"@, users@),
        next_outcome(StepOf::FetchMachines, Event::Machines(Ok(machines)), now) matches Some(
            Ok(data),
        ) && lists(data, "total"@, "machines"@, machines@),
        next_outcome(
            StepOf::FetchServers { limit },
            Event::Servers(Ok(servers)),
            now,
        ) matches Some(Ok(data)) && lists(data, "total"@, "servers"@, servers@),
{
    lemma_marks();
}

/// The error of a failed query is reported as it is.
pub proof fn law_failed_queries_are_reported(
    error: String,
    limit: i64,
    id: u128,
    server_uuid: Seq<char>,
    now: Seq<char>,
)
    ensures
        ({
            let outcome = Outcome::Err("Database query error: "@ + error@);
            &&& comes_to(StepOf::FetchNests, Event::Nests(Err(error)), now, outcome)
            &&& comes_to(StepOf::FetchUsers, Event::Users(Err(error)), now, outcome)
            &&& comes_to(StepOf::FetchMachines, Event::Machines(Err(error)), now, outcome)
            &&& comes_to(StepOf::FetchServers { limit }, Event::Servers(Err(error)), now, outcome)
            &&& comes_to(
                StepOf::FetchServer { id, server_uuid },
                Event::Server(Err(error)),
                now,
                outcome,
            )
        }),
{
}

/// The documents of rows show what the rows hold.
pub proof fn law_rows_are_shown(
    nest: NestRow,
    user: UserRow,
    machine: MachineRow,
    backup: BackupRow,
)
    ensures
        identifies(nest.tree(), "uuid"@, nest.uuid),
        tells(nest.tree(), "name"@, nest.name@),
        tells(nest.tree(), "author"@, nest.author@),
        dates(nest.tree(), "created"@, nest.created),
        identifies(user.tree(), "uuid"@, user.uuid),
        tells(user.tree(), "username"@, user.username@),
        tells(user.tree(), "email"@, user.email@),
        user.tree().get("is_admin"@) == Some(JsonTree::Bool(user.admin)),
        dates(user.tree(), "created"@, user.created),
        identifies(machine.tree(), "uuid"@, machine.uuid),
        tells(machine.tree(), "name"@, machine.name@),
        tells(machine.tree(), "url"@, machine.url@),
        tells(machine.tree(), "status"@, "healthy"@),
        counts(machine.tree(), "sftp_port"@, machine.sftp_port as int),
        counts(machine.tree(), "memory_mb"@, machine.memory as int),
        counts(machine.tree(), "disk_mb"@, machine.disk as int),
        dates(machine.tree(), "created"@, machine.created),
        identifies(backup.tree(), "uuid"@, backup.uuid),
        tells(backup.tree(), "name"@, backup.name@),
        backup.tree().get("completed"@) == Some(JsonTree::Bool(backup.is_successful)),
        counts(backup.tree(), "size_bytes"@, backup.bytes as int),
        backup.checksum matches Some(checksum) ==> tells(backup.tree(), "checksum"@, checksum@),
        backup.checksum is None ==> backup.tree().get("checksum"@) == Some(JsonTree::Null),
        dates(backup.tree(), "created"@, backup.created),
{
    lemma_marks();
}

/// What both documents of a server show of it.
pub open spec fn shows_server(data: JsonTree, server: ServerRow) -> bool {
    &&& identifies(data, "uuid"@, server.uuid)
    &&& tells(data, "name"@, server.name@)
    &&& identifies(data, "node_uuid"@, server.node_uuid)
    &&& counts(data, "memory_mb"@, server.memory as int)
    &&& counts(data, "disk_mb"@, server.disk as int)
    &&& dates(data, "created"@, server.created)
}

/// A server is listed with what its row holds, and shown with more in detail: a
/// quarter of its memory and a tenth of its disk are in use, in whole bytes.
pub proof fn law_servers_are_shown(
    server: ServerRow,
    id: u128,
    server_uuid: Seq<char>,
    now: Seq<char>,
)
    ensures
        shows_server(server.tree(), server),
        tells(server.tree(), "status"@, "online"@),
        next_outcome(
            StepOf::FetchServer { id, server_uuid },
            Event::Server(Ok(Some(server))),
            now,
        ) matches Some(Ok(data)) && {
            &&& shows_server(data, server)
            &&& tells(data, "status"@, "running"@)
            &&& data.get("daemon_state"@) matches Some(state) && {
                &&& tells(state, "state"@, "running"@)
                &&& state.get("cpu_absolute"@) == Some(JsonTree::Decimal("1.2"@))
                &&& state.get("memory_bytes"@) matches Some(JsonTree::Number(memory)) && memory * 4
                    == server.memory * 1048576
                &&& state.get("disk_bytes"@) matches Some(JsonTree::Number(disk)) && {
                    &&& server.disk >= 0 ==> disk * 10 <= server.disk * 1048576 < disk * 10 + 10
                    &&& server.disk <= 0 ==> disk * 10 - 10 < server.disk * 1048576 <= disk * 10
                }
                &&& state.get("network"@) matches Some(network) && counts(
                    network,
                    "rx_bytes"@,
                    1048576,
                ) && counts(network, "tx_bytes"@, 2097152)
            }
        },
        comes_to(
            StepOf::FetchServer { id, server_uuid },
            Event::Server(Ok(None)),
            now,
            Err("Server with UUID '"@ + server_uuid + "' not found"@),
        ),
{
    lemma_marks();
}

/// Every backup that was found is listed, under the server that was asked for.
pub proof fn law_backups_are_listed(
    server: Option<u128>,
    server_uuid: Seq<char>,
    rows: Vec<BackupRow>,
    now: Seq<char>,
)
    ensures
        next_outcome(
            StepOf::FetchBackups { server, server_uuid },
            Event::Backups(Some(rows)),
            now,
        ) matches Some(Ok(data)) && lists(data, "total"@, "backups"@, rows@) && tells(
            data,
            "server_uuid"@,
            server_uuid,
        ),
        next_outcome(
            StepOf::FetchBackups { server, server_uuid },
            Event::Backups(None),
            now,
        ) matches Some(Ok(data)) && lists(data, "total"@, "backups"@, Seq::<BackupRow>::empty())
            && tells(data, "server_uuid"@, server_uuid),
{
    lemma_marks();
}

// ---------------------------------------------------------------------------
// A server's daemon
// ---------------------------------------------------------------------------

/// Why a daemon could not be called, as it is told.
pub open spec fn explains(
    message: Seq<char>,
    server_uuid: Seq<char>,
    failure: NodeFailure,
) -> bool {
    match failure {
        NodeFailure::QueryFailed(error) => message == "Database query error: "@ + error@,
        NodeFailure::NoServer => message == "Server with UUID '"@ + server_uuid + "' not found"@,
        NodeFailure::TokenFailed(error) => message == "Failed to decrypt node token: "@ + error@,
    }
}

/// A daemon that cannot be called is reported with the reason, whatever it was to
/// do.
pub proof fn law_unreachable_daemons_are_reported(
    step: StepModel,
    event: Event,
    server_uuid: Seq<char>,
    failure: NodeFailure,
    now: Seq<char>,
)
    requires
        match (step, event) {
            (StepOf::Order { server_uuid: given, .. }, Event::Ordered(reply)) => given
                == server_uuid && reply == NodeReply::<()>::Unreachable(failure),
            (StepOf::FetchLogs { server_uuid: given, .. }, Event::Text(reply)) => given
                == server_uuid && reply == NodeReply::<Result<String, String>>::Unreachable(
                failure,
            ),
            (StepOf::FetchFile { server_uuid: given, .. }, Event::Text(reply)) => given
                == server_uuid && reply == NodeReply::<Result<String, String>>::Unreachable(
                failure,
            ),
            (StepOf::ListDirectory { server_uuid: given, .. }, Event::Entries(reply)) => given
                == server_uuid && reply == NodeReply::<Vec<FileEntry>>::Unreachable(failure),
            (StepOf::ListPlugins { server_uuid: given, .. }, Event::Entries(reply)) => given
                == server_uuid && reply == NodeReply::<Vec<FileEntry>>::Unreachable(failure),
            (StepOf::Delete { server_uuid: given, .. }, Event::Deleted(reply)) => given
                == server_uuid && reply == NodeReply::<u64>::Unreachable(failure),
            _ => false,
        },
    ensures
        next_outcome(step, event, now) matches Some(Err(message)) && explains(
            message,
            server_uuid,
            failure,
        ),
{
}

/// What a daemon answers an order is reported: its error behind the complaint of
/// the order, or the reply of the order with the time added and nothing else
/// changed.
pub proof fn law_orders_are_answered(
    step: StepModel,
    receipt: ReceiptModel,
    error: String,
    now: Seq<char>,
    key: Seq<char>,
)
    requires
        step matches StepOf::Order { receipt: kept, .. } && kept == receipt,
        receipt.reply is Object,
    ensures
        comes_to(
            step,
            Event::Ordered(NodeReply::Refused(error)),
            now,
            Err(receipt.failure + error@),
        ),
        next_outcome(step, Event::Ordered(NodeReply::Answered(())), now) matches Some(Ok(data))
            && tells(data, receipt.stamp, now) && (key != receipt.stamp ==> data.get(key)
            == receipt.reply.get(key)),
{
}

/// The console is shown line by line, and the errors on the way are reported.
pub proof fn law_console_is_shown(
    id: u128,
    server_uuid: Seq<char>,
    lines: i64,
    tail: u64,
    log: String,
    error: String,
    now: Seq<char>,
)
    ensures
        ({
            let step = StepModel::FetchLogs { id, server_uuid, lines, tail };
            &&& next_outcome(
                step,
                Event::Text(NodeReply::Answered(Ok(log))),
                now,
            ) matches Some(Ok(data)) && {
                &&& tells(data, "server_uuid"@, server_uuid)
                &&& counts(data, "lines_requested"@, lines as int)
                &&& data.get("console_output"@) matches Some(JsonTree::Array(shown)) && {
                    &&& counts(data, "lines_returned"@, shown.len() as int)
                    &&& shown.len() == text::lines(log@).len()
                    &&& forall|i: int|
                        0 <= i < shown.len() ==> #[trigger] shown[i] == JsonTree::Text(
                            text::lines(log@)[i],
                        )
                }
            }
            &&& comes_to(
                step,
                Event::Text(NodeReply::Answered(Err(error))),
                now,
                Err("Failed reading console logs stream: "@ + error@),
            )
            &&& comes_to(
                step,
                Event::Text(NodeReply::Refused(error)),
                now,
                Err("Wings daemon log retrieval failed: "@ + error@),
            )
        }),
{
    lemma_marks();
}

/// A file is shown whole with its size in bytes, up to one megabyte, and the
/// errors on the way are reported.
pub proof fn law_file_is_shown(
    id: u128,
    server_uuid: Seq<char>,
    path: Seq<char>,
    content: String,
    error: String,
    now: Seq<char>,
)
    ensures
        ({
            let step = StepModel::FetchFile { id, server_uuid, path };
            &&& encode_utf8(content@).len() <= 1048576 ==> (next_outcome(
                step,
                Event::Text(NodeReply::Answered(Ok(content))),
                now,
            ) matches Some(Ok(data)) && {
                &&& tells(data, "server_uuid"@, server_uuid)
                &&& tells(data, "path"@, path)
                &&& tells(data, "content"@, content@)
                &&& counts(data, "size_bytes"@, encode_utf8(content@).len() as int)
            })
            &&& encode_utf8(content@).len() > 1048576 ==> comes_to(
                step,
                Event::Text(NodeReply::Answered(Ok(content))),
                now,
                Err("File is larger than 1 MB"@),
            )
            &&& comes_to(
                step,
                Event::Text(NodeReply::Answered(Err(error))),
                now,
                Err("Failed reading file content: "@ + error@),
            )
            &&& comes_to(
                step,
                Event::Text(NodeReply::Refused(error)),
                now,
                Err("Wings daemon read_file failed: "@ + error@),
            )
        }),
{
    lemma_marks();
}

/// Every entry of a directory is listed, with what the daemon tells of it.
pub proof fn law_directory_is_listed(
    id: u128,
    server_uuid: Seq<char>,
    directory: Seq<char>,
    entries: Vec<FileEntry>,
    entry: FileEntry,
    error: String,
    now: Seq<char>,
)
    ensures
        ({
            let step = StepModel::ListDirectory { id, server_uuid, directory };
            &&& next_outcome(
                step,
                Event::Entries(NodeReply::Answered(entries)),
                now,
            ) matches Some(Ok(data)) && {
                &&& tells(data, "server_uuid"@, server_uuid)
                &&& tells(data, "directory"@, directory)
                &&& lists(data, "total_entries"@, "entries"@, entries@)
            }
            &&& comes_to(
                step,
                Event::Entries(NodeReply::Refused(error)),
                now,
                Err("Wings daemon list_files failed: "@ + error@),
            )
        }),
        tells(entry.tree(), "name"@, entry.name@),
        counts(entry.tree(), "size"@, entry.size as int),
        entry.tree().get("is_file"@) == Some(JsonTree::Bool(entry.file)),
        entry.tree().get("is_directory"@) == Some(JsonTree::Bool(entry.directory)),
        tells(
            entry.tree(),
            "modified"@,
            rfc3339_text(entry.modified.seconds_view(), entry.modified.nanos_view()),
        ),
{
    lemma_marks();
}

/// The plugins of a directory are shown with their number.
pub proof fn law_plugin_directory_is_shown(
    id: u128,
    server_uuid: Seq<char>,
    directory: Seq<char>,
    entries: Vec<FileEntry>,
    error: String,
    now: Seq<char>,
)
    ensures
        ({
            let step = StepModel::ListPlugins { id, server_uuid, directory };
            &&& next_outcome(
                step,
                Event::Entries(NodeReply::Answered(entries)),
                now,
            ) matches Some(Ok(data)) && {
                &&& tells(data, "server_uuid"@, server_uuid)
                &&& tells(data, "directory"@, directory)
                &&& data.get("plugins"@) matches Some(JsonTree::Array(shown)) && shown
                    == plugin_trees(entries@) && counts(
                    data,
                    "total_plugins"@,
                    shown.len() as int,
                )
            }
            &&& comes_to(
                step,
                Event::Entries(NodeReply::Refused(error)),
                now,
                Err("Wings daemon list_plugins failed: "@ + error@),
            )
        }),
{
    lemma_marks();
}

/// A deletion is reported with the file and with the number that the daemon
/// gives.
pub proof fn law_deletion_is_reported(
    id: u128,
    server_uuid: Seq<char>,
    root: Seq<char>,
    filename: Seq<char>,
    deleted: u64,
    error: String,
    now: Seq<char>,
)
    ensures
        ({
            let step = StepModel::Delete { id, server_uuid, root, filename };
            &&& next_outcome(
                step,
                Event::Deleted(NodeReply::Answered(deleted)),
                now,
            ) matches Some(Ok(data)) && {
                &&& tells(data, "status"@, "plugin_removed"@)
                &&& tells(data, "server_uuid"@, server_uuid)
                &&& tells(data, "filename"@, filename)
                &&& counts(data, "deleted_count"@, deleted as int)
                &&& tells(data, "timestamp"@, now)
            }
            &&& comes_to(
                step,
                Event::Deleted(NodeReply::Refused(error)),
                now,
                Err("Wings daemon remove_plugin failed: "@ + error@),
            )
        }),
{
    lemma_marks();
}

/// A search is reported with what was searched for and with all that was found.
pub proof fn law_search_is_reported(
    url: Seq<char>,
    query: Seq<char>,
    software: Seq<char>,
    mc_version: Seq<char>,
    answer: Option<Vec<u8>>,
    now: Seq<char>,
)
    ensures
        next_outcome(
            StepOf::SearchCatalog { url, query, software, mc_version },
            Event::Catalog(answer),
            now,
        ) matches Some(Ok(data)) && {
            &&& tells(data, "query"@, query)
            &&& tells(data, "software"@, software)
            &&& tells(data, "mc_version"@, mc_version)
            &&& data.get("plugins"@) matches Some(JsonTree::Array(found)) && found
                == found_trees(mc_version, answer_tree(answer)) && counts(
                data,
                "total"@,
                found.len() as int,
            )
        },
{
    lemma_marks();
}

} // verus!
