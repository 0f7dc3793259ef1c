//! What each tool makes of its arguments.

use vstd::prelude::*;
use vstd::utf8::encode_utf8;

use crate::content::{content_of, error_of};
use crate::execute::{call_step, first_document, tool_step};
use crate::ids;
use crate::json::JsonTree;
use crate::members::{group_members, lemma_marks};
use crate::step::{OrderOf, PowerAction, StepModel, StepOf};
use crate::text;
use crate::tool::{normalized, tool_named, Tool};

verus! {

broadcast use group_members;

/// The arguments hold that text under that key.
pub open spec fn gives(arguments: JsonTree, key: Seq<char>, value: Seq<char>) -> bool {
    arguments.get(key) == Some(JsonTree::Text(value))
}

/// The arguments hold no text under that key.
pub open spec fn leaves_open(arguments: JsonTree, key: Seq<char>) -> bool {
    !(arguments.get(key) matches Some(JsonTree::Text(_)))
}

/// What is read under that key: the text that the arguments hold there, or else
/// the default.
pub open spec fn reads(
    arguments: JsonTree,
    key: Seq<char>,
    value: Seq<char>,
    default: Seq<char>,
) -> bool {
    gives(arguments, key, value) || (leaves_open(arguments, key) && value == default)
}

/// What is read under that key: the whole number of 64 bits with a sign that the
/// arguments hold there, or else the default.
pub open spec fn reads_number(arguments: JsonTree, key: Seq<char>, n: i64, default: i64) -> bool {
    match arguments.get(key) {
        Some(JsonTree::Number(given)) => if i64::MIN <= given <= i64::MAX {
            n == given
        } else {
            n == default
        },
        _ => n == default,
    }
}

/// The arguments name a server by that text.
pub open spec fn names(arguments: JsonTree, server_uuid: Seq<char>, id: u128) -> bool {
    gives(arguments, "server_uuid"@, server_uuid) && ids::parsed_uuid(server_uuid) == Some(id)
}

/// The text stands under that key.
pub open spec fn tells(data: JsonTree, key: Seq<char>, value: Seq<char>) -> bool {
    data.get(key) == Some(JsonTree::Text(value))
}

/// The call is finished and shows that document.
pub open spec fn answers_with(step: StepModel, data: JsonTree) -> bool {
    step == StepModel::Done(content_of(data))
}

/// The call is finished and reports that error.
pub open spec fn fails_with(step: StepModel, message: Seq<char>) -> bool {
    step == StepModel::Done(error_of(message))
}

// ---------------------------------------------------------------------------
// Calls
// ---------------------------------------------------------------------------

/// A call goes to the tool that it names, with the arguments that it gives, or
/// with none where it gives none.
pub proof fn law_calls_go_to_the_named_tool(
    params: JsonTree,
    name: Seq<char>,
    tool: Tool,
    fresh: u128,
    now: Seq<char>,
)
    requires
        params.get("name"@) == Some(JsonTree::Text(name)),
        tool_named(normalized(name)) == Some(tool),
    ensures
        params.get("arguments"@) matches Some(arguments) ==> call_step(Some(params), fresh, now)
            == tool_step(tool, arguments, fresh, now),
        params.get("arguments"@) is None ==> call_step(Some(params), fresh, now) == tool_step(
            tool,
            JsonTree::Object(seq![]),
            fresh,
            now,
        ),
{
}

/// A call to a tool that there is not is told which name was looked for.
pub proof fn law_unknown_names_are_told(
    params: JsonTree,
    name: Seq<char>,
    fresh: u128,
    now: Seq<char>,
)
    requires
        params.get("name"@) == Some(JsonTree::Text(name)),
        tool_named(normalized(name)) is None,
    ensures
        fails_with(
            call_step(Some(params), fresh, now),
            "Unknown tool '"@ + name + "' (normalized: '"@ + normalized(name) + "')"@,
        ),
{
}

/// The tools without arguments each have their own step.
pub proof fn law_plain_tools(arguments: JsonTree, fresh: u128, now: Seq<char>)
    ensures
        tool_step(Tool::GetSystemHealth, arguments, fresh, now) is CountAll,
        tool_step(Tool::ListNests, arguments, fresh, now) is FetchNests,
        tool_step(Tool::ListUsers, arguments, fresh, now) is FetchUsers,
        tool_step(Tool::ListMachines, arguments, fresh, now) is FetchMachines,
{
}

// ---------------------------------------------------------------------------
// Servers
// ---------------------------------------------------------------------------

/// The tool does something to a server, given what else it needs.
pub open spec fn concerns_server(tool: Tool, arguments: JsonTree) -> bool {
    match tool {
        Tool::GetServer => true,
        Tool::ReadConsole => true,
        Tool::ListFiles => true,
        Tool::ReadFile => true,
        Tool::WriteFile => true,
        Tool::UploadFileFromUrl => true,
        Tool::CreateBackup => true,
        Tool::ListPlugins => true,
        Tool::PowerServer => gives(arguments, "action"@, "stop"@),
        Tool::SendConsoleCommand => exists|command: Seq<char>| #[trigger]
            gives(arguments, "command"@, command) && !text::is_blank(command),
        Tool::RemovePlugin => exists|filename: Seq<char>| #[trigger]
            gives(arguments, "filename"@, filename) && !text::is_blank(filename),
        Tool::InstallPlugin => exists|url: Seq<char>| #[trigger]
            gives(arguments, "download_url"@, url) && url.len() > 0,
        _ => false,
    }
}

/// A text that is no UUID is refused by every tool that does something to a
/// server, and told as it was given.
pub proof fn law_bad_server_is_refused(
    tool: Tool,
    arguments: JsonTree,
    server_uuid: Seq<char>,
    fresh: u128,
    now: Seq<char>,
)
    requires
        concerns_server(tool, arguments),
        reads(arguments, "server_uuid"@, server_uuid, ""@),
        ids::parsed_uuid(server_uuid) is None,
    ensures
        fails_with(
            tool_step(tool, arguments, fresh, now),
            "Invalid server UUID: '"@ + server_uuid + "'"@,
        ),
{
    if tool == Tool::PowerServer {
        reveal_strlit("stop");
        reveal_strlit("start");
        assert("stop"@.len() != "start"@.len());
        assert(text::is_ascii("stop"@));
        assert(text::ascii_lowercase("stop"@) =~= "stop"@);
    }
}

/// As many servers are fetched as the call says, fifty where it says nothing.
pub proof fn law_limit_is_the_given(arguments: JsonTree, n: i64, fresh: u128, now: Seq<char>)
    requires
        reads_number(arguments, "limit"@, n, 50),
    ensures
        tool_step(Tool::ListServers, arguments, fresh, now) == (StepModel::FetchServers {
            limit: n,
        }),
{
}

/// The server that is fetched is the one that the call names.
pub proof fn law_named_server_is_fetched(
    arguments: JsonTree,
    server_uuid: Seq<char>,
    id: u128,
    fresh: u128,
    now: Seq<char>,
)
    requires
        names(arguments, server_uuid, id),
    ensures
        tool_step(Tool::GetServer, arguments, fresh, now) == (StepModel::FetchServer {
            id,
            server_uuid,
        }),
        tool_step(Tool::ListPlugins, arguments, fresh, now) == (StepModel::ListPlugins {
            id,
            server_uuid,
            directory: "/plugins"@,
        }),
        tool_step(Tool::ListBackups, arguments, fresh, now) == (StepModel::FetchBackups {
            server: Some(id),
            server_uuid,
        }),
{
}

/// The power signal goes to the named server, and the reply tells the action as
/// it was given. What is no action is refused and told as it was given.
pub proof fn law_power_signal(
    arguments: JsonTree,
    server_uuid: Seq<char>,
    id: u128,
    action: Seq<char>,
    fresh: u128,
    now: Seq<char>,
)
    requires
        names(arguments, server_uuid, id),
        reads(arguments, "action"@, action, "restart"@),
    ensures
        ({
            let step = tool_step(Tool::PowerServer, arguments, fresh, now);
            let lower = text::lowercase(action);
            &&& lower == "start"@ || lower == "stop"@ || lower == "restart"@ || lower == "kill"@
                ==> (step matches StepOf::Order {
                id: told,
                server_uuid: given,
                order: OrderOf::Power(power),
                receipt,
            } && {
                &&& told == id && given == server_uuid
                &&& (power == PowerAction::Start) == (lower == "start"@)
                &&& (power == PowerAction::Stop) == (lower == "stop"@)
                &&& (power == PowerAction::Restart) == (lower == "restart"@)
                &&& (power == PowerAction::Kill) == (lower == "kill"@)
                &&& tells(receipt.reply, "status"@, "power_signal_sent"@)
                &&& tells(receipt.reply, "server_uuid"@, server_uuid)
                &&& tells(receipt.reply, "action"@, action)
                &&& receipt.stamp == "timestamp"@
                &&& receipt.failure == "Wings daemon power signal failed: "@
            })
            &&& lower != "start"@ && lower != "stop"@ && lower != "restart"@ && lower != "kill"@
                ==> fails_with(
                step,
                "Invalid power action: '"@ + action
                    + "'. Must be one of: start, stop, restart, kill."@,
            )
        }),
{
    lemma_marks();
    reveal_strlit("start");
    reveal_strlit("stop");
    reveal_strlit("restart");
    reveal_strlit("kill");
    assert("start"@.len() == 5 && "stop"@.len() == 4 && "restart"@.len() == 7);
    assert("stop"@[0] != "kill"@[0]);
}

/// The command is sent to the named server's console as it was given; a blank
/// one is not sent.
pub proof fn law_command_is_sent_as_given(
    arguments: JsonTree,
    server_uuid: Seq<char>,
    id: u128,
    command: Seq<char>,
    fresh: u128,
    now: Seq<char>,
)
    requires
        names(arguments, server_uuid, id),
        reads(arguments, "command"@, command, ""@),
    ensures
        ({
            let step = tool_step(Tool::SendConsoleCommand, arguments, fresh, now);
            &&& (exists|i: int| 0 <= i < command.len() && !text::is_space(#[trigger] command[i]))
                ==> (step matches StepOf::Order {
                id: told,
                server_uuid: given,
                order: OrderOf::Command(sent),
                receipt,
            } && {
                &&& told == id && given == server_uuid && sent == command
                &&& tells(receipt.reply, "status"@, "command_executed"@)
                &&& tells(receipt.reply, "server_uuid"@, server_uuid)
                &&& tells(receipt.reply, "command"@, command)
                &&& receipt.stamp == "timestamp"@
                &&& receipt.failure == "Wings daemon command execution failed: "@
            })
            &&& (forall|i: int|
                0 <= i < command.len() ==> text::is_space(#[trigger] command[i])) ==> fails_with(
                step,
                "Command string cannot be empty"@,
            )
        }),
{
    lemma_marks();
}

/// As many lines are asked of the console as the call says, fifty where it says
/// nothing.
pub proof fn law_lines_are_the_given(
    arguments: JsonTree,
    server_uuid: Seq<char>,
    id: u128,
    n: i64,
    fresh: u128,
    now: Seq<char>,
)
    requires
        names(arguments, server_uuid, id),
        reads_number(arguments, "lines"@, n, 50),
    ensures
        tool_step(Tool::ReadConsole, arguments, fresh, now) matches StepOf::FetchLogs {
            id: told,
            server_uuid: given,
            lines,
            tail,
        } && {
            &&& told == id && given == server_uuid && lines == n
            &&& n >= 0 ==> tail == n
            &&& n < 0 ==> tail == n + 0x1_0000_0000_0000_0000
        },
{
}

// ---------------------------------------------------------------------------
// Files
// ---------------------------------------------------------------------------

/// The directory that is listed and the file that is read are those that the
/// call gives.
pub proof fn law_paths_are_the_given(
    arguments: JsonTree,
    server_uuid: Seq<char>,
    id: u128,
    path: Seq<char>,
    fresh: u128,
    now: Seq<char>,
)
    requires
        names(arguments, server_uuid, id),
    ensures
        reads(arguments, "directory"@, path, "/"@) ==> tool_step(
            Tool::ListFiles,
            arguments,
            fresh,
            now,
        ) == (StepModel::ListDirectory { id, server_uuid, directory: path }),
        reads(arguments, "path"@, path, ""@) ==> tool_step(
            Tool::ReadFile,
            arguments,
            fresh,
            now,
        ) == (StepModel::FetchFile { id, server_uuid, path }),
{
}

/// The content that a call gives is written as it was given, character for
/// character, at the path that it gives, and the size that is reported is that of
/// what is written.
pub proof fn law_content_is_written_as_given(
    arguments: JsonTree,
    server_uuid: Seq<char>,
    id: u128,
    path: Seq<char>,
    content: Seq<char>,
    fresh: u128,
    now: Seq<char>,
)
    requires
        names(arguments, server_uuid, id),
        reads(arguments, "path"@, path, ""@),
        reads(arguments, "content"@, content, ""@),
    ensures
        tool_step(Tool::WriteFile, arguments, fresh, now) matches StepOf::Order {
            id: told,
            server_uuid: given,
            order: OrderOf::Write { path: at, content: written },
            receipt,
        } && {
            &&& told == id && given == server_uuid
            &&& at == path && written == content
            &&& receipt.reply.get("bytes_written"@) == Some(
                JsonTree::Number(encode_utf8(written).len() as int),
            )
            &&& tells(receipt.reply, "status"@, "file_written"@)
            &&& tells(receipt.reply, "server_uuid"@, server_uuid)
            &&& tells(receipt.reply, "path"@, path)
            &&& receipt.stamp == "timestamp"@
            &&& receipt.failure == "Wings daemon write_file failed: "@
        },
{
    lemma_marks();
}

/// The file at the address that a call gives is fetched into the directory that
/// it gives, the root where it gives none, in the background.
pub proof fn law_upload_fetches_the_given(
    arguments: JsonTree,
    server_uuid: Seq<char>,
    id: u128,
    url: Seq<char>,
    directory: Seq<char>,
    fresh: u128,
    now: Seq<char>,
)
    requires
        names(arguments, server_uuid, id),
        reads(arguments, "url"@, url, ""@),
        reads(arguments, "directory"@, directory, "/"@),
    ensures
        tool_step(Tool::UploadFileFromUrl, arguments, fresh, now) matches StepOf::Order {
            id: told,
            server_uuid: given,
            order: OrderOf::Pull { root, url: from, file_name, use_header, foreground },
            receipt,
        } && {
            &&& told == id && given == server_uuid
            &&& root == directory && from == url && file_name is None
            &&& use_header && !foreground
            &&& tells(receipt.reply, "status"@, "upload_job_queued"@)
            &&& tells(receipt.reply, "server_uuid"@, server_uuid)
            &&& tells(receipt.reply, "url"@, url)
            &&& tells(receipt.reply, "target_directory"@, directory)
            &&& receipt.stamp == "timestamp"@
            &&& receipt.failure == "Wings daemon upload_file_from_url failed: "@
        },
{
    lemma_marks();
}

/// A download link is for the server and the path that the call gives, holds a
/// token of its own, and lasts an hour.
pub proof fn law_download_link(
    arguments: JsonTree,
    server_uuid: Seq<char>,
    path: Seq<char>,
    fresh: u128,
    now: Seq<char>,
)
    requires
        reads(arguments, "server_uuid"@, server_uuid, ""@),
        reads(arguments, "path"@, path, "/"@),
    ensures
        first_document(Tool::DownloadFiles, arguments, fresh, now) matches Some(data) && {
            &&& answers_with(tool_step(Tool::DownloadFiles, arguments, fresh, now), data)
            &&& tells(data, "server_uuid"@, server_uuid)
            &&& tells(data, "path"@, path)
            &&& tells(
                data,
                "download_url"@,
                "/api/client/servers/"@ + server_uuid + "/files/download?token="@
                    + ids::hyphenated_text(fresh),
            )
            &&& data.get("expires_in_seconds"@) == Some(JsonTree::Number(3600))
        },
{
    lemma_marks();
}

// ---------------------------------------------------------------------------
// Backups
// ---------------------------------------------------------------------------

/// A text that is no UUID asks for backups of any server.
pub proof fn law_backups_of_any_server(
    arguments: JsonTree,
    server_uuid: Seq<char>,
    fresh: u128,
    now: Seq<char>,
)
    requires
        reads(arguments, "server_uuid"@, server_uuid, ""@),
        ids::parsed_uuid(server_uuid) is None,
    ensures
        tool_step(Tool::ListBackups, arguments, fresh, now) == (StepModel::FetchBackups {
            server: None,
            server_uuid,
        }),
{
}

/// A backup of the named server is ordered under the fresh UUID, leaving nothing
/// out, and reported under the name that the call gives.
pub proof fn law_backup_is_ordered(
    arguments: JsonTree,
    server_uuid: Seq<char>,
    id: u128,
    name: Seq<char>,
    fresh: u128,
    now: Seq<char>,
)
    requires
        names(arguments, server_uuid, id),
        reads(arguments, "name"@, name, "Manual Backup"@),
    ensures
        tool_step(Tool::CreateBackup, arguments, fresh, now) matches StepOf::Order {
            id: told,
            server_uuid: given,
            order: OrderOf::Backup { id: backup, ignore },
            receipt,
        } && {
            &&& told == id && given == server_uuid
            &&& backup == fresh && ignore == ""@
            &&& tells(receipt.reply, "status"@, "backup_queued"@)
            &&& tells(receipt.reply, "server_uuid"@, server_uuid)
            &&& tells(receipt.reply, "backup_uuid"@, ids::hyphenated_text(fresh))
            &&& tells(receipt.reply, "name"@, name)
            &&& receipt.stamp == "timestamp"@
            &&& receipt.failure == "Wings daemon create_backup failed: "@
        },
{
    lemma_marks();
}

/// A link to a backup is for the server and the backup that the call gives, holds
/// a token of its own, and lasts a quarter of an hour.
pub proof fn law_backup_link(
    arguments: JsonTree,
    server_uuid: Seq<char>,
    backup_uuid: Seq<char>,
    fresh: u128,
    now: Seq<char>,
)
    requires
        reads(arguments, "server_uuid"@, server_uuid, ""@),
        reads(arguments, "backup_uuid"@, backup_uuid, ""@),
    ensures
        first_document(Tool::DownloadBackup, arguments, fresh, now) matches Some(data) && {
            &&& answers_with(tool_step(Tool::DownloadBackup, arguments, fresh, now), data)
            &&& tells(data, "server_uuid"@, server_uuid)
            &&& tells(data, "backup_uuid"@, backup_uuid)
            &&& tells(
                data,
                "download_url"@,
                "/api/client/servers/"@ + server_uuid + "/backups/"@ + backup_uuid
                    + "/download?token="@ + ids::hyphenated_text(fresh),
            )
            &&& data.get("expires_in_seconds"@) == Some(JsonTree::Number(900))
        },
{
    lemma_marks();
}

// ---------------------------------------------------------------------------
// Web apps
// ---------------------------------------------------------------------------

/// A web app is shown under the name that the call gives.
pub proof fn law_site_is_the_given(
    arguments: JsonTree,
    site_id: Seq<char>,
    fresh: u128,
    now: Seq<char>,
)
    requires
        reads(arguments, "site_id"@, site_id, "main-app"@),
    ensures
        first_document(Tool::GetSite, arguments, fresh, now) matches Some(data) && {
            &&& answers_with(tool_step(Tool::GetSite, arguments, fresh, now), data)
            &&& tells(data, "site_id"@, site_id)
            &&& tells(data, "address"@, "http://"@ + site_id + ".localhost:5173"@)
            &&& tells(data, "status"@, "active"@)
            &&& data.get("domains"@) matches Some(JsonTree::Array(domains)) && domains.len()
                == 1 && tells(domains[0], "domain"@, site_id + ".localhost"@)
                && domains[0].get("ssl_active"@) == Some(JsonTree::Bool(true))
                && domains[0].get("primary"@) == Some(JsonTree::Bool(true))
            &&& data.get("last_deploy"@) matches Some(deploy) && tells(
                deploy,
                "commit"@,
                "a1b2c3d"@,
            ) && tells(deploy, "deployed_at"@, now) && tells(deploy, "status"@, "success"@)
        },
{
    lemma_marks();
}

/// The repository that a call gives is deployed on the web app that it gives,
/// from the branch that it gives.
pub proof fn law_repository_is_the_given(
    arguments: JsonTree,
    site_id: Seq<char>,
    repo_url: Seq<char>,
    branch: Seq<char>,
    fresh: u128,
    now: Seq<char>,
)
    requires
        reads(arguments, "site_id"@, site_id, ""@),
        reads(arguments, "repo_url"@, repo_url, ""@),
        reads(arguments, "branch"@, branch, "main"@),
    ensures
        first_document(Tool::DeployRepo, arguments, fresh, now) matches Some(data) && {
            &&& answers_with(tool_step(Tool::DeployRepo, arguments, fresh, now), data)
            &&& tells(data, "status"@, "deploy_started"@)
            &&& tells(data, "site_id"@, site_id)
            &&& tells(data, "repo_url"@, repo_url)
            &&& tells(data, "branch"@, branch)
            &&& tells(data, "build_id"@, ids::hyphenated_text(fresh))
        },
{
    lemma_marks();
}

/// The archive that a call gives is deployed on the web app that it gives.
pub proof fn law_archive_is_the_given(
    arguments: JsonTree,
    site_id: Seq<char>,
    archive_url: Seq<char>,
    fresh: u128,
    now: Seq<char>,
)
    requires
        reads(arguments, "site_id"@, site_id, ""@),
        reads(arguments, "archive_url"@, archive_url, ""@),
    ensures
        first_document(Tool::DeployFiles, arguments, fresh, now) matches Some(data) && {
            &&& answers_with(tool_step(Tool::DeployFiles, arguments, fresh, now), data)
            &&& tells(data, "status"@, "file_deploy_queued"@)
            &&& tells(data, "site_id"@, site_id)
            &&& tells(data, "archive_url"@, archive_url)
            &&& tells(data, "deploy_id"@, ids::hyphenated_text(fresh))
        },
{
    lemma_marks();
}

/// The domain that a call gives is attached to the web app that it gives, and
/// detached from it.
pub proof fn law_domain_is_the_given(
    arguments: JsonTree,
    site_id: Seq<char>,
    domain: Seq<char>,
    fresh: u128,
    now: Seq<char>,
)
    requires
        reads(arguments, "site_id"@, site_id, ""@),
        reads(arguments, "domain"@, domain, ""@),
    ensures
        first_document(Tool::AttachDomain, arguments, fresh, now) matches Some(data) && {
            &&& answers_with(tool_step(Tool::AttachDomain, arguments, fresh, now), data)
            &&& tells(data, "status"@, "domain_attached"@)
            &&& tells(data, "site_id"@, site_id)
            &&& tells(data, "domain"@, domain)
            &&& tells(data, "ssl_status"@, "provisioning_auto_cert"@)
            &&& data.get("dns_records"@) matches Some(JsonTree::Array(records))
                && records.len() == 1 && tells(records[0], "type"@, "A"@) && tells(
                records[0],
                "name"@,
                "@"@,
            ) && tells(records[0], "value"@, "127.0.0.1"@)
        },
        first_document(Tool::DetachDomain, arguments, fresh, now) matches Some(data) && {
            &&& answers_with(tool_step(Tool::DetachDomain, arguments, fresh, now), data)
            &&& tells(data, "status"@, "domain_detached"@)
            &&& tells(data, "site_id"@, site_id)
            &&& tells(data, "domain"@, domain)
        },
{
    lemma_marks();
}

} // verus!
