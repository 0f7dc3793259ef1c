//! What holds of the tools and of their results.

use vstd::prelude::*;

use crate::catalog::{listed_tools, tool_card};
use crate::content::{content_of, error_of, text_content};
use crate::execute::{
    bad_uuid, deploy_repo_step, download_files_step, failure, get_server_step,
    install_plugin_step, install_step, list_files_step, list_servers_step, power_action,
    power_server_step, read_console_step, tool_step, upload_file_from_url_step,
};
use crate::extension::status_tree;
use crate::ids;
use crate::json::{last_entry, lemma_get_with, lemma_lone_entry, JsonTree};
use crate::outcome::{found_trees, resolved};
use crate::records::{plugin_trees, FileEntry, Record, ServerRow};
use crate::render;
use crate::rpc::{message_handling, message_id, result_tree, HandlingOf, RpcModel};
use crate::step::{OrderOf, PluginModel, PowerAction, StepModel, StepOf};
use crate::text;
use crate::tool::{normalized, tool_named, Tool};

verus! {

// ---------------------------------------------------------------------------
// Names
// ---------------------------------------------------------------------------

/// A name in lower case, with underscores for hyphens.
pub open spec fn spelled(name: Seq<char>) -> Seq<char> {
    text::with_swapped(text::ascii_lowercase(name), '-', '_')
}

/// A tool answers to its listed name in whatever case, with hyphens or with
/// underscores, and with the panel's prefix or without it.
pub proof fn law_every_spelling_is_understood(tool: Tool, alias: Seq<char>)
    requires
        text::is_ascii(alias),
        spelled(alias) == spelled(tool_card(tool).name) || spelled(alias) == "calagopus_"@
            + spelled(tool_card(tool).name),
    ensures
        tool_named(normalized(alias)) == Some(tool),
{
    let key = spelled(tool_card(tool).name);
    let prefix = "calagopus_"@;
    lemma_listed_name(tool);
    reveal_strlit("calagopus_");
    assert(text::without_prefixes(key, prefix) == key);
    if spelled(alias) != key {
        let full = prefix + key;
        assert(full.take(prefix.len() as int) =~= prefix);
        assert(full.skip(prefix.len() as int) =~= key);
        assert(text::without_prefixes(full, prefix) == key);
    }
}

/// The three ways the documentation gives: the listed name with hyphens, with
/// underscores, and with underscores after the panel's prefix.
pub proof fn law_documented_names_are_understood(tool: Tool)
    ensures
        tool_named(normalized(tool_card(tool).name)) == Some(tool),
        tool_named(normalized(text::with_swapped(tool_card(tool).name, '-', '_'))) == Some(tool),
        tool_named(
            normalized("calagopus_"@ + text::with_swapped(tool_card(tool).name, '-', '_')),
        ) == Some(tool),
{
    let name = tool_card(tool).name;
    let plain = text::with_swapped(name, '-', '_');
    let full = "calagopus_"@ + plain;
    lemma_listed_name(tool);
    reveal_strlit("calagopus_");
    assert(text::ascii_lowercase(name) =~= name);
    assert(spelled(plain) =~= plain);
    assert(spelled(full) =~= "calagopus_"@ + plain);
    law_every_spelling_is_understood(tool, name);
    law_every_spelling_is_understood(tool, plain);
    law_every_spelling_is_understood(tool, full);
}

/// What the two laws need to know of each listed name.
proof fn lemma_listed_name(tool: Tool)
    ensures
        text::is_ascii(tool_card(tool).name),
        forall|i: int|
            0 <= i < tool_card(tool).name.len() ==> !('A' <= #[trigger] tool_card(tool).name[i]
                <= 'Z'),
        !text::has_prefix(spelled(tool_card(tool).name), "calagopus_"@),
        tool_named(spelled(tool_card(tool).name)) == Some(tool),
{
    reveal_strlit("calagopus_");
    let name = tool_card(tool).name;
    let key = spelled(name);
    if text::has_prefix(key, "calagopus_"@) {
        assert(key.take(10)[0] == 'c' && key.take(10)[1] == 'a');
        assert(key[0] == 'c' && key[1] == 'a');
    }
    reveal_strlit("get_system_health");
    reveal_strlit("system_health");
    reveal_strlit("health");
    reveal_strlit("list_nests");
    reveal_strlit("nests");
    reveal_strlit("list_users");
    reveal_strlit("users");
    reveal_strlit("list_servers");
    reveal_strlit("get_server");
    reveal_strlit("power_server");
    reveal_strlit("send_console_command");
    reveal_strlit("read_console");
    reveal_strlit("list_machines");
    reveal_strlit("list_files");
    reveal_strlit("read_file");
    reveal_strlit("write_file");
    reveal_strlit("upload_file_from_url");
    reveal_strlit("download_files");
    reveal_strlit("list_backups");
    reveal_strlit("create_backup");
    reveal_strlit("download_backup");
    reveal_strlit("get_site");
    reveal_strlit("deploy_repo");
    reveal_strlit("deploy_files");
    reveal_strlit("attach_domain");
    reveal_strlit("detach_domain");
    reveal_strlit("search_plugins");
    reveal_strlit("list_plugins");
    reveal_strlit("install_plugin");
    reveal_strlit("remove_plugin");
    match tool {
        Tool::GetSystemHealth => {
            reveal_strlit("get-system-health");
            assert(key =~= "get_system_health"@);
        },
        Tool::ListNests => {
            reveal_strlit("list-nests");
            assert(key =~= "list_nests"@);
        },
        Tool::ListUsers => {
            reveal_strlit("list-users");
            assert(key =~= "list_users"@);
            assert(key[5] != "list_nests"@[5]);
        },
        Tool::ListServers => {
            reveal_strlit("list-servers");
            assert(key =~= "list_servers"@);
        },
        Tool::GetServer => {
            reveal_strlit("get-server");
            assert(key =~= "get_server"@);
            assert(key[0] != "list_nests"@[0]);
            assert(key[0] != "list_users"@[0]);
        },
        Tool::PowerServer => {
            reveal_strlit("power-server");
            assert(key =~= "power_server"@);
            assert(key[0] != "list_servers"@[0]);
        },
        Tool::SendConsoleCommand => {
            reveal_strlit("send-console-command");
            assert(key =~= "send_console_command"@);
        },
        Tool::ReadConsole => {
            reveal_strlit("read-console");
            assert(key =~= "read_console"@);
            assert(key[0] != "list_servers"@[0]);
            assert(key[0] != "power_server"@[0]);
        },
        Tool::ListMachines => {
            reveal_strlit("list-machines");
            assert(key =~= "list_machines"@);
            assert(key[0] != "system_health"@[0]);
        },
        Tool::ListFiles => {
            reveal_strlit("list-files");
            assert(key =~= "list_files"@);
            assert(key[5] != "list_nests"@[5]);
            assert(key[5] != "list_users"@[5]);
            assert(key[0] != "get_server"@[0]);
        },
        Tool::ReadFile => {
            reveal_strlit("read-file");
            assert(key =~= "read_file"@);
        },
        Tool::WriteFile => {
            reveal_strlit("write-file");
            assert(key =~= "write_file"@);
            assert(key[0] != "list_nests"@[0]);
            assert(key[0] != "list_users"@[0]);
            assert(key[0] != "get_server"@[0]);
            assert(key[0] != "list_files"@[0]);
        },
        Tool::UploadFileFromUrl => {
            reveal_strlit("upload-file-from-url");
            assert(key =~= "upload_file_from_url"@);
            assert(key[0] != "send_console_command"@[0]);
        },
        Tool::DownloadFiles => {
            reveal_strlit("download-files");
            assert(key =~= "download_files"@);
        },
        Tool::ListBackups => {
            reveal_strlit("list-backups");
            assert(key =~= "list_backups"@);
            assert(key[5] != "list_servers"@[5]);
            assert(key[0] != "power_server"@[0]);
            assert(key[0] != "read_console"@[0]);
        },
        Tool::CreateBackup => {
            reveal_strlit("create-backup");
            assert(key =~= "create_backup"@);
            assert(key[0] != "system_health"@[0]);
            assert(key[0] != "list_machines"@[0]);
        },
        Tool::DownloadBackup => {
            reveal_strlit("download-backup");
            assert(key =~= "download_backup"@);
        },
        Tool::GetSite => {
            reveal_strlit("get-site");
            assert(key =~= "get_site"@);
        },
        Tool::DeployRepo => {
            reveal_strlit("deploy-repo");
            assert(key =~= "deploy_repo"@);
        },
        Tool::DeployFiles => {
            reveal_strlit("deploy-files");
            assert(key =~= "deploy_files"@);
            assert(key[0] != "list_servers"@[0]);
            assert(key[0] != "power_server"@[0]);
            assert(key[0] != "read_console"@[0]);
            assert(key[0] != "list_backups"@[0]);
        },
        Tool::AttachDomain => {
            reveal_strlit("attach-domain");
            assert(key =~= "attach_domain"@);
            assert(key[0] != "system_health"@[0]);
            assert(key[0] != "list_machines"@[0]);
            assert(key[0] != "create_backup"@[0]);
        },
        Tool::DetachDomain => {
            reveal_strlit("detach-domain");
            assert(key =~= "detach_domain"@);
            assert(key[0] != "system_health"@[0]);
            assert(key[0] != "list_machines"@[0]);
            assert(key[0] != "create_backup"@[0]);
            assert(key[0] != "attach_domain"@[0]);
        },
        Tool::SearchPlugins => {
            reveal_strlit("search-plugins");
            assert(key =~= "search_plugins"@);
            assert(key[0] != "download_files"@[0]);
        },
        Tool::ListPlugins => {
            reveal_strlit("list-plugins");
            assert(key =~= "list_plugins"@);
            assert(key[5] != "list_servers"@[5]);
            assert(key[0] != "power_server"@[0]);
            assert(key[0] != "read_console"@[0]);
            assert(key[5] != "list_backups"@[5]);
            assert(key[0] != "deploy_files"@[0]);
        },
        Tool::InstallPlugin => {
            reveal_strlit("install-plugin");
            assert(key =~= "install_plugin"@);
            assert(key[0] != "download_files"@[0]);
            assert(key[0] != "search_plugins"@[0]);
        },
        Tool::RemovePlugin => {
            reveal_strlit("remove-plugin");
            assert(key =~= "remove_plugin"@);
            assert(key[0] != "system_health"@[0]);
            assert(key[0] != "list_machines"@[0]);
            assert(key[0] != "create_backup"@[0]);
            assert(key[0] != "attach_domain"@[0]);
            assert(key[0] != "detach_domain"@[0]);
        },
    }
}

/// No tool answers to a name but its own, spelled out, and a few short ones.
pub proof fn law_only_known_names_are_understood(name: Seq<char>)
    ensures
        tool_named(name) matches Some(tool) ==> name == spelled(tool_card(tool).name) || (tool
            == Tool::GetSystemHealth && (name == "system_health"@ || name == "health"@)) || (tool
            == Tool::ListNests && name == "nests"@) || (tool == Tool::ListUsers && name
            == "users"@),
{
    if let Some(tool) = tool_named(name) {
        lemma_spelled_name(tool);
    }
}

/// The names without hyphens.
proof fn lemma_spelled_name(tool: Tool)
    ensures
        spelled(tool_card(tool).name) == plain_name(tool),
{
    match tool {
        Tool::GetSystemHealth => {
            reveal_strlit("get-system-health");
            reveal_strlit("get_system_health");
            assert(spelled("get-system-health"@) =~= "get_system_health"@);
        },
        Tool::ListNests => {
            reveal_strlit("list-nests");
            reveal_strlit("list_nests");
            assert(spelled("list-nests"@) =~= "list_nests"@);
        },
        Tool::ListUsers => {
            reveal_strlit("list-users");
            reveal_strlit("list_users");
            assert(spelled("list-users"@) =~= "list_users"@);
        },
        Tool::ListServers => {
            reveal_strlit("list-servers");
            reveal_strlit("list_servers");
            assert(spelled("list-servers"@) =~= "list_servers"@);
        },
        Tool::GetServer => {
            reveal_strlit("get-server");
            reveal_strlit("get_server");
            assert(spelled("get-server"@) =~= "get_server"@);
        },
        Tool::PowerServer => {
            reveal_strlit("power-server");
            reveal_strlit("power_server");
            assert(spelled("power-server"@) =~= "power_server"@);
        },
        Tool::SendConsoleCommand => {
            reveal_strlit("send-console-command");
            reveal_strlit("send_console_command");
            assert(spelled("send-console-command"@) =~= "send_console_command"@);
        },
        Tool::ReadConsole => {
            reveal_strlit("read-console");
            reveal_strlit("read_console");
            assert(spelled("read-console"@) =~= "read_console"@);
        },
        Tool::ListMachines => {
            reveal_strlit("list-machines");
            reveal_strlit("list_machines");
            assert(spelled("list-machines"@) =~= "list_machines"@);
        },
        Tool::ListFiles => {
            reveal_strlit("list-files");
            reveal_strlit("list_files");
            assert(spelled("list-files"@) =~= "list_files"@);
        },
        Tool::ReadFile => {
            reveal_strlit("read-file");
            reveal_strlit("read_file");
            assert(spelled("read-file"@) =~= "read_file"@);
        },
        Tool::WriteFile => {
            reveal_strlit("write-file");
            reveal_strlit("write_file");
            assert(spelled("write-file"@) =~= "write_file"@);
        },
        Tool::UploadFileFromUrl => {
            reveal_strlit("upload-file-from-url");
            reveal_strlit("upload_file_from_url");
            assert(spelled("upload-file-from-url"@) =~= "upload_file_from_url"@);
        },
        Tool::DownloadFiles => {
            reveal_strlit("download-files");
            reveal_strlit("download_files");
            assert(spelled("download-files"@) =~= "download_files"@);
        },
        Tool::ListBackups => {
            reveal_strlit("list-backups");
            reveal_strlit("list_backups");
            assert(spelled("list-backups"@) =~= "list_backups"@);
        },
        Tool::CreateBackup => {
            reveal_strlit("create-backup");
            reveal_strlit("create_backup");
            assert(spelled("create-backup"@) =~= "create_backup"@);
        },
        Tool::DownloadBackup => {
            reveal_strlit("download-backup");
            reveal_strlit("download_backup");
            assert(spelled("download-backup"@) =~= "download_backup"@);
        },
        Tool::GetSite => {
            reveal_strlit("get-site");
            reveal_strlit("get_site");
            assert(spelled("get-site"@) =~= "get_site"@);
        },
        Tool::DeployRepo => {
            reveal_strlit("deploy-repo");
            reveal_strlit("deploy_repo");
            assert(spelled("deploy-repo"@) =~= "deploy_repo"@);
        },
        Tool::DeployFiles => {
            reveal_strlit("deploy-files");
            reveal_strlit("deploy_files");
            assert(spelled("deploy-files"@) =~= "deploy_files"@);
        },
        Tool::AttachDomain => {
            reveal_strlit("attach-domain");
            reveal_strlit("attach_domain");
            assert(spelled("attach-domain"@) =~= "attach_domain"@);
        },
        Tool::DetachDomain => {
            reveal_strlit("detach-domain");
            reveal_strlit("detach_domain");
            assert(spelled("detach-domain"@) =~= "detach_domain"@);
        },
        Tool::SearchPlugins => {
            reveal_strlit("search-plugins");
            reveal_strlit("search_plugins");
            assert(spelled("search-plugins"@) =~= "search_plugins"@);
        },
        Tool::ListPlugins => {
            reveal_strlit("list-plugins");
            reveal_strlit("list_plugins");
            assert(spelled("list-plugins"@) =~= "list_plugins"@);
        },
        Tool::InstallPlugin => {
            reveal_strlit("install-plugin");
            reveal_strlit("install_plugin");
            assert(spelled("install-plugin"@) =~= "install_plugin"@);
        },
        Tool::RemovePlugin => {
            reveal_strlit("remove-plugin");
            reveal_strlit("remove_plugin");
            assert(spelled("remove-plugin"@) =~= "remove_plugin"@);
        },
    }
}

/// The name of a tool with underscores.
pub open spec fn plain_name(tool: Tool) -> Seq<char> {
    match tool {
        Tool::GetSystemHealth => "get_system_health"@,
        Tool::ListNests => "list_nests"@,
        Tool::ListUsers => "list_users"@,
        Tool::ListServers => "list_servers"@,
        Tool::GetServer => "get_server"@,
        Tool::PowerServer => "power_server"@,
        Tool::SendConsoleCommand => "send_console_command"@,
        Tool::ReadConsole => "read_console"@,
        Tool::ListMachines => "list_machines"@,
        Tool::ListFiles => "list_files"@,
        Tool::ReadFile => "read_file"@,
        Tool::WriteFile => "write_file"@,
        Tool::UploadFileFromUrl => "upload_file_from_url"@,
        Tool::DownloadFiles => "download_files"@,
        Tool::ListBackups => "list_backups"@,
        Tool::CreateBackup => "create_backup"@,
        Tool::DownloadBackup => "download_backup"@,
        Tool::GetSite => "get_site"@,
        Tool::DeployRepo => "deploy_repo"@,
        Tool::DeployFiles => "deploy_files"@,
        Tool::AttachDomain => "attach_domain"@,
        Tool::DetachDomain => "detach_domain"@,
        Tool::SearchPlugins => "search_plugins"@,
        Tool::ListPlugins => "list_plugins"@,
        Tool::InstallPlugin => "install_plugin"@,
        Tool::RemovePlugin => "remove_plugin"@,
    }
}

/// Every tool is listed, and listed once; there are twenty-six.
pub proof fn law_every_tool_is_listed_once(tool: Tool)
    ensures
        listed_tools().len() == 26,
        listed_tools().contains(tool),
        listed_tools().no_duplicates(),
{
    let tools = listed_tools();
    match tool {
        Tool::GetSystemHealth => assert(tools[0] == tool),
        Tool::ListNests => assert(tools[1] == tool),
        Tool::ListUsers => assert(tools[2] == tool),
        Tool::ListServers => assert(tools[3] == tool),
        Tool::GetServer => assert(tools[4] == tool),
        Tool::PowerServer => assert(tools[5] == tool),
        Tool::SendConsoleCommand => assert(tools[6] == tool),
        Tool::ReadConsole => assert(tools[7] == tool),
        Tool::ListMachines => assert(tools[8] == tool),
        Tool::ListFiles => assert(tools[9] == tool),
        Tool::ReadFile => assert(tools[10] == tool),
        Tool::WriteFile => assert(tools[11] == tool),
        Tool::UploadFileFromUrl => assert(tools[12] == tool),
        Tool::DownloadFiles => assert(tools[13] == tool),
        Tool::ListBackups => assert(tools[14] == tool),
        Tool::CreateBackup => assert(tools[15] == tool),
        Tool::DownloadBackup => assert(tools[16] == tool),
        Tool::GetSite => assert(tools[17] == tool),
        Tool::DeployRepo => assert(tools[18] == tool),
        Tool::DeployFiles => assert(tools[19] == tool),
        Tool::AttachDomain => assert(tools[20] == tool),
        Tool::DetachDomain => assert(tools[21] == tool),
        Tool::SearchPlugins => assert(tools[22] == tool),
        Tool::ListPlugins => assert(tools[23] == tool),
        Tool::InstallPlugin => assert(tools[24] == tool),
        Tool::RemovePlugin => assert(tools[25] == tool),
    }
}

/// The number of tools that the extension's state gives is the number that is
/// listed.
pub proof fn law_told_number_of_tools_is_right(key: Seq<char>)
    ensures
        status_tree(key).get("tools_count"@) == Some(
            JsonTree::Number(listed_tools().len() as int),
        ),
{
    reveal_strlit("tools_count");
    reveal_strlit("endpoints");
    assert("tools_count"@.len() != "endpoints"@.len());
    reveal_with_fuel(last_entry, 3);
    let entries = status_tree(key)->Object_0;
    assert(entries.drop_last().last() == entries[6]);
}

/// Every argument that a tool requires is among those it describes.
pub proof fn law_required_arguments_are_described(tool: Tool, i: int)
    requires
        0 <= i < tool_card(tool).required.len(),
    ensures
        tool_card(tool).properties.get(tool_card(tool).required[i]) is Some,
{
    reveal_with_fuel(last_entry, 5);
    let entries = tool_card(tool).properties->Object_0;
    let required = tool_card(tool).required;
    assert(exists|k: int| 0 <= k < entries.len() && (#[trigger] entries[k]).0 == required[i]) by {
        if i == 0 {
            assert(entries[0].0 == required[0]);
        } else if i == 1 {
            assert(entries[1].0 == required[1]);
        } else {
            assert(entries[2].0 == required[2]);
        }
    }
    let k = choose|k: int| 0 <= k < entries.len() && (#[trigger] entries[k]).0 == required[i];
    lemma_entry_is_found(entries, k);
}

/// A key that an entry has is found.
proof fn lemma_entry_is_found(entries: Seq<(Seq<char>, JsonTree)>, k: int)
    requires
        0 <= k < entries.len(),
    ensures
        last_entry(entries, entries[k].0) is Some,
    decreases entries.len(),
{
    if k < entries.len() - 1 {
        assert(entries.drop_last()[k] == entries[k]);
        lemma_entry_is_found(entries.drop_last(), k);
    }
}

// ---------------------------------------------------------------------------
// Results
// ---------------------------------------------------------------------------

/// A result says that it is an error exactly when it is one.
pub proof fn law_results_say_whether_they_failed(data: JsonTree, message: Seq<char>)
    ensures
        error_of(message).get("isError"@) == Some(JsonTree::Bool(true)),
        content_of(data).get("isError"@) is None,
        error_of(message).get("content"@) == text_content("Error: "@ + message).get("content"@),
        content_of(data).get("content"@) is Some,
{
    reveal_strlit("isError");
    reveal_strlit("content");
    assert("isError"@[0] != "content"@[0]);
    let text = "Error: "@ + message;
    lemma_get_with(text_content(text), "isError"@, JsonTree::Bool(true), "content"@);
    let shown = render::indented(data);
    let shown_item = JsonTree::Array(
        seq![JsonTree::object().with_text("type"@, "text"@).with_text("text"@, shown)],
    );
    lemma_get_with(JsonTree::object(), "content"@, shown_item, "isError"@);
}

/// Every reply to a message carries the message's id, and either a result or an
/// error.
pub proof fn law_replies_carry_the_id(message: RpcModel, fresh: u128, now: Seq<char>)
    ensures
        message_handling(message, fresh, now) matches HandlingOf::Reply { status, body } ==> {
            &&& status == 200
            &&& body.get("jsonrpc"@) == Some(JsonTree::Text("2.0"@))
            &&& body.get("id"@) == Some(message_id(message))
            &&& body.get("result"@) is Some <==> body.get("error"@) is None
        },
        message_handling(message, fresh, now) matches HandlingOf::Call { id, step } ==> id
            == message_id(message),
{
    match message_handling(message, fresh, now) {
        HandlingOf::Reply { status, body } => {
            lemma_reply_members(message_id(message), "result"@, body->Object_0.last().1);
            lemma_reply_members(message_id(message), "error"@, body->Object_0.last().1);
        },
        _ => {},
    }
}

/// The reply with a tool call's result carries the id and the result.
pub proof fn law_call_replies_carry_the_result(id: JsonTree, result: JsonTree)
    ensures
        result_tree(id, result).get("jsonrpc"@) == Some(JsonTree::Text("2.0"@)),
        result_tree(id, result).get("id"@) == Some(id),
        result_tree(id, result).get("result"@) == Some(result),
        result_tree(id, result).get("error"@) is None,
{
    lemma_reply_members(id, "result"@, result);
}

proof fn lemma_reply_members(id: JsonTree, member: Seq<char>, value: JsonTree)
    requires
        member == "result"@ || member == "error"@,
    ensures
        ({
            let reply = JsonTree::object().with_text("jsonrpc"@, "2.0"@).with("id"@, id).with(
                member,
                value,
            );
            &&& reply.get("jsonrpc"@) == Some(JsonTree::Text("2.0"@))
            &&& reply.get("id"@) == Some(id)
            &&& reply.get(member) == Some(value)
            &&& member == "result"@ ==> reply.get("error"@) is None
            &&& member == "error"@ ==> reply.get("result"@) is None
        }),
{
    reveal_strlit("jsonrpc");
    reveal_strlit("id");
    reveal_strlit("result");
    reveal_strlit("error");
    let one = JsonTree::object().with_text("jsonrpc"@, "2.0"@);
    let two = one.with("id"@, id);
    let version = JsonTree::Text("2.0"@);
    let other = if member == "result"@ {
        "error"@
    } else {
        "result"@
    };
    assert(JsonTree::object().get(other) is None);
    assert("jsonrpc"@.len() == 7 && "id"@.len() == 2);
    assert("result"@.len() == 6 && "error"@.len() == 5);
    lemma_get_with(JsonTree::object(), "jsonrpc"@, version, other);
    lemma_get_with(one, "id"@, id, "jsonrpc"@);
    lemma_get_with(one, "id"@, id, other);
    lemma_get_with(two, member, value, "jsonrpc"@);
    lemma_get_with(two, member, value, "id"@);
    lemma_get_with(two, member, value, other);
}

// ---------------------------------------------------------------------------
// Servers
// ---------------------------------------------------------------------------

/// The server that a step concerns, if it concerns a certain one.
pub open spec fn server_of(step: StepModel) -> Option<u128> {
    match step {
        StepOf::FetchServer { id, .. } => Some(id),
        StepOf::FetchBackups { server, .. } => server,
        StepOf::Order { id, .. } => Some(id),
        StepOf::FetchLogs { id, .. } => Some(id),
        StepOf::FetchFile { id, .. } => Some(id),
        StepOf::ListDirectory { id, .. } => Some(id),
        StepOf::ListPlugins { id, .. } => Some(id),
        StepOf::Delete { id, .. } => Some(id),
        _ => None,
    }
}

/// No server is touched but the one that the arguments name, and none where
/// they name none.
pub proof fn law_only_the_named_server_is_touched(
    tool: Tool,
    arguments: JsonTree,
    fresh: u128,
    now: Seq<char>,
)
    ensures
        server_of(tool_step(tool, arguments, fresh, now)) matches Some(id) ==> ids::parsed_uuid(
            arguments.text_or("server_uuid"@, ""@),
        ) == Some(id),
{
}

/// Arguments without a server name none.
pub proof fn law_no_argument_names_no_server(arguments: JsonTree)
    requires
        arguments.get("server_uuid"@) is None,
    ensures
        ids::parsed_uuid(arguments.text_or("server_uuid"@, ""@)) is None,
        get_server_step(arguments) == failure(bad_uuid(""@)),
{
    reveal_strlit("");
}

/// The UUID that a server is listed with names that server.
pub proof fn law_listed_server_can_be_fetched(row: ServerRow, arguments: JsonTree)
    requires
        arguments.get("server_uuid"@) == row.tree().get("uuid"@),
    ensures
        server_of(get_server_step(arguments)) == Some(row.uuid),
{
    reveal_strlit("uuid");
    reveal_strlit("name");
    reveal_strlit("node_uuid");
    reveal_strlit("memory_mb");
    reveal_strlit("disk_mb");
    reveal_strlit("status");
    reveal_strlit("created");
    assert("uuid"@[0] != "name"@[0]);
    reveal_with_fuel(last_entry, 8);
    let entries = row.tree()->Object_0;
    lemma_lone_entry(entries, 0);
    ids::law_hyphenated_text_reads_back(row.uuid);
}

/// A power action is understood in whatever case, and without one the server is
/// restarted.
pub proof fn law_power_actions(arguments: JsonTree)
    requires
        ids::parsed_uuid(arguments.text_or("server_uuid"@, ""@)) is Some,
    ensures
        ({
            let action = arguments.text_or("action"@, "restart"@);
            let step = power_server_step(arguments);
            &&& text::is_ascii(action) && text::ascii_lowercase(action) == "start"@
                ==> orders_power(step, PowerAction::Start)
            &&& text::is_ascii(action) && text::ascii_lowercase(action) == "stop"@
                ==> orders_power(step, PowerAction::Stop)
            &&& text::is_ascii(action) && text::ascii_lowercase(action) == "restart"@
                ==> orders_power(step, PowerAction::Restart)
            &&& text::is_ascii(action) && text::ascii_lowercase(action) == "kill"@
                ==> orders_power(step, PowerAction::Kill)
            &&& arguments.get("action"@) is None ==> orders_power(step, PowerAction::Restart)
            &&& power_action(text::lowercase(action)) is None ==> step is Done
        }),
{
    reveal_strlit("start");
    reveal_strlit("stop");
    reveal_strlit("restart");
    reveal_strlit("kill");
    assert("start"@.len() == 5 && "stop"@.len() == 4 && "restart"@.len() == 7);
    assert("stop"@[0] != "kill"@[0]);
    assert(text::ascii_lowercase("restart"@) =~= "restart"@);
    assert(text::is_ascii("restart"@));
}

/// The step sends that power signal.
pub open spec fn orders_power(step: StepModel, action: PowerAction) -> bool {
    step matches StepOf::Order { order, .. } && order == OrderOf::<Seq<char>>::Power(action)
}

/// The defaults that the tools' descriptions give.
pub proof fn law_documented_defaults(arguments: JsonTree)
    requires
        ids::parsed_uuid(arguments.text_or("server_uuid"@, ""@)) is Some,
    ensures
        arguments.get("limit"@) is None ==> list_servers_step(arguments) == (
        StepModel::FetchServers { limit: 50 }),
        arguments.get("lines"@) is None ==> match read_console_step(arguments) {
            StepOf::FetchLogs { lines, tail, .. } => lines == 50 && tail == 50,
            _ => false,
        },
        arguments.get("directory"@) is None ==> match list_files_step(arguments) {
            StepOf::ListDirectory { directory, .. } => directory == "/"@,
            _ => false,
        },
        arguments.get("directory"@) is None ==> match upload_file_from_url_step(arguments) {
            StepOf::Order { order: OrderOf::Pull { root, .. }, .. } => root == "/"@,
            _ => false,
        },
{
}

/// Leaving out an argument of the tools that answer at once is the same as
/// giving the default that the tools' descriptions name.
pub proof fn law_left_out_is_default(arguments: JsonTree, fresh: u128)
    requires
        arguments is Object,
    ensures
        arguments.get("path"@) is None ==> download_files_step(arguments, fresh)
            == download_files_step(arguments.with_text("path"@, "/"@), fresh),
        arguments.get("branch"@) is None ==> deploy_repo_step(arguments, fresh)
            == deploy_repo_step(arguments.with_text("branch"@, "main"@), fresh),
{
    reveal_strlit("path");
    reveal_strlit("server_uuid");
    reveal_strlit("branch");
    reveal_strlit("site_id");
    reveal_strlit("repo_url");
    assert("path"@.len() == 4 && "server_uuid"@.len() == 11 && "branch"@.len() == 6);
    assert("site_id"@.len() == 7 && "repo_url"@.len() == 8);
    lemma_get_with(arguments, "path"@, JsonTree::Text("/"@), "server_uuid"@);
    lemma_get_with(arguments, "branch"@, JsonTree::Text("main"@), "site_id"@);
    lemma_get_with(arguments, "branch"@, JsonTree::Text("main"@), "repo_url"@);
}

// ---------------------------------------------------------------------------
// Files and plugins
// ---------------------------------------------------------------------------

/// No line of a text has a line feed in it.
pub proof fn law_lines_hold_no_line_feed(s: Seq<char>, i: int, k: int)
    requires
        0 <= i < text::lines(s).len(),
        0 <= k < text::lines(s)[i].len(),
    ensures
        text::lines(s)[i][k] != '\n',
    decreases s.len(),
{
    text::lemma_run_exists(s, '\n');
    let n = text::run_before(s, '\n') as int;
    if s.len() > 0 {
        if n >= s.len() {
        } else if i == 0 {
            assert(text::lines(s)[0][k] == s[k]);
        } else {
            let rest = s.skip(n + 1);
            assert(text::lines(s)[i] == text::lines(rest)[i - 1]);
            law_lines_hold_no_line_feed(rest, i - 1, k);
        }
    }
}

/// Every plugin in a directory is listed, and nothing else is.
pub proof fn law_plugins_are_listed(entries: Seq<FileEntry>)
    ensures
        forall|i: int|
            0 <= i < entries.len() && (#[trigger] entries[i]).is_plugin() ==> plugin_trees(
                entries,
            ).contains(entries[i].plugin_tree()),
        forall|tree: JsonTree| #[trigger]
            plugin_trees(entries).contains(tree) ==> exists|i: int|
                0 <= i < entries.len() && (#[trigger] entries[i]).is_plugin() && tree
                    == entries[i].plugin_tree(),
{
    let is_plugin = |e: FileEntry| e.is_plugin();
    let found = entries.filter(is_plugin);
    let listed = plugin_trees(entries);
    assert forall|i: int| 0 <= i < entries.len() && (#[trigger] entries[i]).is_plugin() implies
        listed.contains(entries[i].plugin_tree()) by {
        entries.lemma_filter_contains(is_plugin, i);
        let j = choose|j: int| 0 <= j < found.len() && found[j] == entries[i];
        assert(listed[j] == entries[i].plugin_tree());
    }
    assert forall|tree: JsonTree| #[trigger] listed.contains(tree) implies exists|i: int|
        0 <= i < entries.len() && (#[trigger] entries[i]).is_plugin() && tree
            == entries[i].plugin_tree() by {
        let j = choose|j: int| 0 <= j < listed.len() && listed[j] == tree;
        entries.lemma_filter_pred(is_plugin, j);
        entries.lemma_filter_contains_rev(is_plugin, found[j]);
        let i = choose|i: int| 0 <= i < entries.len() && entries[i] == found[j];
        assert(entries[i].is_plugin() && tree == entries[i].plugin_tree());
    }
}

/// A search offers from one to ten plugins.
pub proof fn law_search_offers_one_to_ten(mc_version: Seq<char>, body: Option<JsonTree>)
    ensures
        1 <= found_trees(mc_version, body).len() <= 10,
{
}

/// The catalog is asked for a plugin's versions only where the call gives a
/// plugin and no address, and at most once: from the answer on there is nothing
/// left but an error or the order to fetch the file.
pub proof fn law_catalog_is_asked_at_most_once(arguments: JsonTree, plugin: PluginModel)
    ensures
        install_plugin_step(arguments) is FetchVersions <==> arguments.text_or(
            "download_url"@,
            ""@,
        ).len() == 0 && arguments.text_or("plugin_id"@, ""@).len() > 0,
        install_step(plugin) is Done || install_step(plugin) is Order,
{
}

/// The catalog's answer changes neither the server nor the plugin, nor a file
/// name that the call gives.
pub proof fn law_answer_changes_only_what_is_open(plugin: PluginModel, versions: Option<JsonTree>)
    ensures
        resolved(plugin, versions).server_uuid == plugin.server_uuid,
        resolved(plugin, versions).plugin_id == plugin.plugin_id,
        plugin.filename.len() > 0 ==> resolved(plugin, versions).filename == plugin.filename,
{
}

} // verus!
