//! Tool calls: from the name and the arguments to the first step.

use vstd::prelude::*;
use vstd::utf8::encode_utf8;

use crate::clock;
use crate::content::{
    content_of, error_of, format_mcp_content, format_mcp_error, is_shown, is_told,
};
use crate::ids;
use crate::json::{Json, JsonTree};
use crate::outcome::is_sound_receipt;
use crate::readable::{
    is_readable, lemma_plain_keys, lemma_readable_only, lemma_readable_with, most_levels,
};
use crate::step::{
    Order, OrderModel, OrderOf, Plugin, PluginModel, PluginOf, PowerAction, Receipt, ReceiptModel,
    ReceiptOf, Step, StepModel, StepOf,
};
use crate::text;
use crate::tool::{normalize, normalized, tool_named, Tool};

verus! {

broadcast use {lemma_readable_only, lemma_readable_with};

// ---------------------------------------------------------------------------
// Parts that several tools share
// ---------------------------------------------------------------------------

/// What the step results in, at once or once the order is carried out, is told
/// as a result should be.
pub open spec fn is_sound(step: StepModel) -> bool {
    match step {
        StepOf::Done(result) => is_told(result),
        StepOf::Order { receipt, .. } => is_sound_receipt(receipt),
        _ => true,
    }
}

/// The call ends with a document.
pub open spec fn answer(data: JsonTree) -> StepModel {
    StepOf::Done(content_of(data))
}

/// The call ends with an error.
pub open spec fn failure(message: Seq<char>) -> StepModel {
    StepOf::Done(error_of(message))
}

fn answered(data: Json) -> (step: Step)
    ensures
        step@ == answer(data@),
        data@ is Object && is_readable(data@, most_levels()) ==> is_shown(data@) && is_sound(step@),
{
    StepOf::Done(format_mcp_content(data))
}

fn failed(message: &str) -> (step: Step)
    ensures
        step@ == failure(message@),
        is_sound(step@),
{
    StepOf::Done(format_mcp_error(message))
}

/// The complaint about a text that is no UUID.
pub open spec fn bad_uuid(server_uuid: Seq<char>) -> Seq<char> {
    "Invalid server UUID: '"@ + server_uuid + "'"@
}

/// The server that a text names, or the step that refuses the text.
fn server_id(server_uuid: &str) -> (res: Result<u128, Step>)
    ensures
        match res {
            Ok(id) => ids::parsed_uuid(server_uuid@) == Some(id),
            Err(step) => ids::parsed_uuid(server_uuid@) is None && step@ == failure(
                bad_uuid(server_uuid@),
            ) && is_sound(step@),
        },
{
    match ids::parse(server_uuid) {
        Some(id) => Ok(id),
        None => Err(
            failed("Invalid server UUID: '".to_string().concat(server_uuid).concat("'").as_str()),
        ),
    }
}

/// An order to the daemon of the server that a text names.
pub open spec fn order_step(
    server_uuid: Seq<char>,
    order: OrderModel,
    receipt: ReceiptModel,
) -> StepModel {
    match ids::parsed_uuid(server_uuid) {
        Some(id) => StepOf::Order { id, server_uuid, order, receipt },
        None => failure(bad_uuid(server_uuid)),
    }
}

fn order_to(server_uuid: &str, order: Order, receipt: Receipt) -> (step: Step)
    ensures
        step@ == order_step(server_uuid@, order@, receipt@),
        is_sound_receipt(receipt@) ==> is_sound(step@),
{
    match server_id(server_uuid) {
        Ok(id) => StepOf::Order { id, server_uuid: server_uuid.to_string(), order, receipt },
        Err(step) => step,
    }
}

fn receipt(failure: &str, reply: Json, stamp: &str) -> (res: Receipt)
    ensures
        res@ == (ReceiptModel { failure: failure@, reply: reply@, stamp: stamp@ }),
{
    ReceiptOf { failure: failure.to_string(), reply, stamp: stamp.to_string() }
}

// ---------------------------------------------------------------------------
// Servers
// ---------------------------------------------------------------------------

pub open spec fn list_servers_step(arguments: JsonTree) -> StepModel {
    StepOf::FetchServers { limit: arguments.int_or("limit"@, 50) }
}

fn list_servers(arguments: &Json) -> (step: Step)
    ensures
        step@ == list_servers_step(arguments@),
        is_sound(step@),
{
    StepOf::FetchServers { limit: arguments.int_or("limit", 50) }
}

pub open spec fn get_server_step(arguments: JsonTree) -> StepModel {
    let server_uuid = arguments.text_or("server_uuid"@, ""@);
    match ids::parsed_uuid(server_uuid) {
        Some(id) => StepOf::FetchServer { id, server_uuid },
        None => failure(bad_uuid(server_uuid)),
    }
}

fn get_server(arguments: &Json) -> (step: Step)
    ensures
        step@ == get_server_step(arguments@),
        is_sound(step@),
{
    let server_uuid = arguments.text_or("server_uuid", "");
    match server_id(server_uuid) {
        Ok(id) => StepOf::FetchServer { id, server_uuid: server_uuid.to_string() },
        Err(step) => step,
    }
}

/// The power action with that name.
pub open spec fn power_action(name: Seq<char>) -> Option<PowerAction> {
    if name == "start"@ {
        Some(PowerAction::Start)
    } else if name == "stop"@ {
        Some(PowerAction::Stop)
    } else if name == "restart"@ {
        Some(PowerAction::Restart)
    } else if name == "kill"@ {
        Some(PowerAction::Kill)
    } else {
        None
    }
}

fn parse_power_action(name: &str) -> (res: Option<PowerAction>)
    ensures
        res == power_action(name@),
{
    if text::same(name, "start") {
        Some(PowerAction::Start)
    } else if text::same(name, "stop") {
        Some(PowerAction::Stop)
    } else if text::same(name, "restart") {
        Some(PowerAction::Restart)
    } else if text::same(name, "kill") {
        Some(PowerAction::Kill)
    } else {
        None
    }
}

pub open spec fn power_server_step(arguments: JsonTree) -> StepModel {
    let server_uuid = arguments.text_or("server_uuid"@, ""@);
    let action = arguments.text_or("action"@, "restart"@);
    match power_action(text::lowercase(action)) {
        Some(power) => order_step(
            server_uuid,
            OrderOf::Power(power),
            ReceiptOf {
                failure: "Wings daemon power signal failed: "@,
                reply: JsonTree::object().with_text("status"@, "power_signal_sent"@).with_text(
                    "server_uuid"@,
                    server_uuid,
                ).with_text("action"@, action),
                stamp: "timestamp"@,
            },
        ),
        None => failure(
            "Invalid power action: '"@ + action
                + "'. Must be one of: start, stop, restart, kill."@,
        ),
    }
}

fn power_server(arguments: &Json) -> (step: Step)
    ensures
        step@ == power_server_step(arguments@),
        is_sound(step@),
{
    proof {
        lemma_plain_keys();
    }
    let server_uuid = arguments.text_or("server_uuid", "");
    let action = arguments.text_or("action", "restart");
    let lower = text::to_lowercase(action);
    match parse_power_action(lower.as_str()) {
        Some(power) => order_to(
            server_uuid,
            OrderOf::Power(power),
            receipt(
                "Wings daemon power signal failed: ",
                Json::object().with_text("status", "power_signal_sent").with_text(
                    "server_uuid",
                    server_uuid,
                ).with_text("action", action),
                "timestamp",
            ),
        ),
        None => failed(
            "Invalid power action: '".to_string().concat(action).concat(
                "'. Must be one of: start, stop, restart, kill.",
            ).as_str(),
        ),
    }
}

pub open spec fn send_console_command_step(arguments: JsonTree) -> StepModel {
    let server_uuid = arguments.text_or("server_uuid"@, ""@);
    let command = arguments.text_or("command"@, ""@);
    if text::is_blank(command) {
        failure("Command string cannot be empty"@)
    } else {
        order_step(
            server_uuid,
            OrderOf::Command(command),
            ReceiptOf {
                failure: "Wings daemon command execution failed: "@,
                reply: JsonTree::object().with_text("status"@, "command_executed"@).with_text(
                    "server_uuid"@,
                    server_uuid,
                ).with_text("command"@, command),
                stamp: "timestamp"@,
            },
        )
    }
}

fn send_console_command(arguments: &Json) -> (step: Step)
    ensures
        step@ == send_console_command_step(arguments@),
        is_sound(step@),
{
    proof {
        lemma_plain_keys();
    }
    let server_uuid = arguments.text_or("server_uuid", "");
    let command = arguments.text_or("command", "");
    if text::blank(command) {
        return failed("Command string cannot be empty");
    }
    order_to(
        server_uuid,
        OrderOf::Command(command.to_string()),
        receipt(
            "Wings daemon command execution failed: ",
            Json::object().with_text("status", "command_executed").with_text(
                "server_uuid",
                server_uuid,
            ).with_text("command", command),
            "timestamp",
        ),
    )
}

/// A number as the daemon is handed it: a negative one wraps around.
pub open spec fn wrapped(n: i64) -> u64 {
    if n >= 0 {
        n as u64
    } else {
        (n + 0x1_0000_0000_0000_0000) as u64
    }
}

fn wrap(n: i64) -> (res: u64)
    ensures
        res == wrapped(n),
{
    let res: u64 = n as u64;
    assert(n < 0 ==> (n as u64) == n + 0x1_0000_0000_0000_0000) by (bit_vector);
    res
}

pub open spec fn read_console_step(arguments: JsonTree) -> StepModel {
    let server_uuid = arguments.text_or("server_uuid"@, ""@);
    let lines = arguments.int_or("lines"@, 50);
    match ids::parsed_uuid(server_uuid) {
        Some(id) => StepOf::FetchLogs { id, server_uuid, lines, tail: wrapped(lines) },
        None => failure(bad_uuid(server_uuid)),
    }
}

fn read_console(arguments: &Json) -> (step: Step)
    ensures
        step@ == read_console_step(arguments@),
        is_sound(step@),
{
    let server_uuid = arguments.text_or("server_uuid", "");
    let lines: i64 = arguments.int_or("lines", 50);
    match server_id(server_uuid) {
        Ok(id) => StepOf::FetchLogs {
            id,
            server_uuid: server_uuid.to_string(),
            lines,
            tail: wrap(lines),
        },
        Err(step) => step,
    }
}

// ---------------------------------------------------------------------------
// Files
// ---------------------------------------------------------------------------

pub open spec fn list_files_step(arguments: JsonTree) -> StepModel {
    let server_uuid = arguments.text_or("server_uuid"@, ""@);
    let directory = arguments.text_or("directory"@, "/"@);
    match ids::parsed_uuid(server_uuid) {
        Some(id) => StepOf::ListDirectory { id, server_uuid, directory },
        None => failure(bad_uuid(server_uuid)),
    }
}

fn list_files(arguments: &Json) -> (step: Step)
    ensures
        step@ == list_files_step(arguments@),
        is_sound(step@),
{
    let server_uuid = arguments.text_or("server_uuid", "");
    let directory = arguments.text_or("directory", "/");
    match server_id(server_uuid) {
        Ok(id) => StepOf::ListDirectory {
            id,
            server_uuid: server_uuid.to_string(),
            directory: directory.to_string(),
        },
        Err(step) => step,
    }
}

pub open spec fn read_file_step(arguments: JsonTree) -> StepModel {
    let server_uuid = arguments.text_or("server_uuid"@, ""@);
    let path = arguments.text_or("path"@, ""@);
    match ids::parsed_uuid(server_uuid) {
        Some(id) => StepOf::FetchFile { id, server_uuid, path },
        None => failure(bad_uuid(server_uuid)),
    }
}

fn read_file(arguments: &Json) -> (step: Step)
    ensures
        step@ == read_file_step(arguments@),
        is_sound(step@),
{
    let server_uuid = arguments.text_or("server_uuid", "");
    let path = arguments.text_or("path", "");
    match server_id(server_uuid) {
        Ok(id) => StepOf::FetchFile {
            id,
            server_uuid: server_uuid.to_string(),
            path: path.to_string(),
        },
        Err(step) => step,
    }
}

pub open spec fn write_file_step(arguments: JsonTree) -> StepModel {
    let server_uuid = arguments.text_or("server_uuid"@, ""@);
    let path = arguments.text_or("path"@, ""@);
    let content = arguments.text_or("content"@, ""@);
    order_step(
        server_uuid,
        OrderOf::Write { path, content },
        ReceiptOf {
            failure: "Wings daemon write_file failed: "@,
            reply: JsonTree::object().with_text("status"@, "file_written"@).with_text(
                "server_uuid"@,
                server_uuid,
            ).with_text("path"@, path).with(
                "bytes_written"@,
                JsonTree::Number(encode_utf8(content).len() as int),
            ),
            stamp: "timestamp"@,
        },
    )
}

fn write_file(arguments: &Json) -> (step: Step)
    ensures
        step@ == write_file_step(arguments@),
        is_sound(step@),
{
    proof {
        lemma_plain_keys();
    }
    let server_uuid = arguments.text_or("server_uuid", "");
    let path = arguments.text_or("path", "");
    let content = arguments.text_or("content", "");
    order_to(
        server_uuid,
        OrderOf::Write { path: path.to_string(), content: content.to_string() },
        receipt(
            "Wings daemon write_file failed: ",
            Json::object().with_text("status", "file_written").with_text(
                "server_uuid",
                server_uuid,
            ).with_text("path", path).with(
                "bytes_written",
                Json::count(content.as_bytes().len()),
            ),
            "timestamp",
        ),
    )
}

pub open spec fn upload_file_from_url_step(arguments: JsonTree) -> StepModel {
    let server_uuid = arguments.text_or("server_uuid"@, ""@);
    let url = arguments.text_or("url"@, ""@);
    let directory = arguments.text_or("directory"@, "/"@);
    order_step(
        server_uuid,
        OrderOf::Pull {
            root: directory,
            url,
            file_name: None,
            use_header: true,
            foreground: false,
        },
        ReceiptOf {
            failure: "Wings daemon upload_file_from_url failed: "@,
            reply: JsonTree::object().with_text("status"@, "upload_job_queued"@).with_text(
                "server_uuid"@,
                server_uuid,
            ).with_text("url"@, url).with_text("target_directory"@, directory),
            stamp: "timestamp"@,
        },
    )
}

fn upload_file_from_url(arguments: &Json) -> (step: Step)
    ensures
        step@ == upload_file_from_url_step(arguments@),
        is_sound(step@),
{
    proof {
        lemma_plain_keys();
    }
    let server_uuid = arguments.text_or("server_uuid", "");
    let url = arguments.text_or("url", "");
    let directory = arguments.text_or("directory", "/");
    order_to(
        server_uuid,
        OrderOf::Pull {
            root: directory.to_string(),
            url: url.to_string(),
            file_name: None,
            use_header: true,
            foreground: false,
        },
        receipt(
            "Wings daemon upload_file_from_url failed: ",
            Json::object().with_text("status", "upload_job_queued").with_text(
                "server_uuid",
                server_uuid,
            ).with_text("url", url).with_text("target_directory", directory),
            "timestamp",
        ),
    )
}

pub open spec fn download_files_tree(arguments: JsonTree, token: u128) -> JsonTree {
    let server_uuid = arguments.text_or("server_uuid"@, ""@);
    let path = arguments.text_or("path"@, "/"@);
    JsonTree::object().with_text("server_uuid"@, server_uuid).with_text(
        "path"@,
        path,
    ).with_text(
        "download_url"@,
        "/api/client/servers/"@ + server_uuid + "/files/download?token="@
            + ids::hyphenated_text(token),
    ).with("expires_in_seconds"@, JsonTree::Number(3600))
}

pub open spec fn download_files_step(arguments: JsonTree, token: u128) -> StepModel {
    answer(download_files_tree(arguments, token))
}

fn download_files(arguments: &Json, token: u128) -> (step: Step)
    ensures
        step@ == download_files_step(arguments@, token),
        is_shown(download_files_tree(arguments@, token)),
        is_sound(step@),
{
    proof {
        lemma_plain_keys();
    }
    let server_uuid = arguments.text_or("server_uuid", "");
    let path = arguments.text_or("path", "/");
    let url = "/api/client/servers/".to_string().concat(server_uuid).concat(
        "/files/download?token=",
    ).concat(ids::hyphenated(token).as_str());
    answered(
        Json::object().with_text("server_uuid", server_uuid).with_text("path", path).with_text(
            "download_url",
            url.as_str(),
        ).with("expires_in_seconds", Json::number(3600)),
    )
}

// ---------------------------------------------------------------------------
// Backups
// ---------------------------------------------------------------------------

pub open spec fn list_backups_step(arguments: JsonTree) -> StepModel {
    let server_uuid = arguments.text_or("server_uuid"@, ""@);
    StepOf::FetchBackups { server: ids::parsed_uuid(server_uuid), server_uuid }
}

fn list_backups(arguments: &Json) -> (step: Step)
    ensures
        step@ == list_backups_step(arguments@),
        is_sound(step@),
{
    let server_uuid = arguments.text_or("server_uuid", "");
    StepOf::FetchBackups { server: ids::parse(server_uuid), server_uuid: server_uuid.to_string() }
}

pub open spec fn create_backup_step(arguments: JsonTree, backup: u128) -> StepModel {
    let server_uuid = arguments.text_or("server_uuid"@, ""@);
    let name = arguments.text_or("name"@, "Manual Backup"@);
    order_step(
        server_uuid,
        OrderOf::Backup { id: backup, ignore: ""@ },
        ReceiptOf {
            failure: "Wings daemon create_backup failed: "@,
            reply: JsonTree::object().with_text("status"@, "backup_queued"@).with_text(
                "server_uuid"@,
                server_uuid,
            ).with_text("backup_uuid"@, ids::hyphenated_text(backup)).with_text("name"@, name),
            stamp: "timestamp"@,
        },
    )
}

fn create_backup(arguments: &Json, backup: u128) -> (step: Step)
    ensures
        step@ == create_backup_step(arguments@, backup),
        is_sound(step@),
{
    proof {
        lemma_plain_keys();
    }
    let server_uuid = arguments.text_or("server_uuid", "");
    let name = arguments.text_or("name", "Manual Backup");
    order_to(
        server_uuid,
        OrderOf::Backup { id: backup, ignore: "".to_string() },
        receipt(
            "Wings daemon create_backup failed: ",
            Json::object().with_text("status", "backup_queued").with_text(
                "server_uuid",
                server_uuid,
            ).with_text("backup_uuid", ids::hyphenated(backup).as_str()).with_text("name", name),
            "timestamp",
        ),
    )
}

pub open spec fn download_backup_tree(arguments: JsonTree, token: u128) -> JsonTree {
    let server_uuid = arguments.text_or("server_uuid"@, ""@);
    let backup_uuid = arguments.text_or("backup_uuid"@, ""@);
    JsonTree::object().with_text("server_uuid"@, server_uuid).with_text(
        "backup_uuid"@,
        backup_uuid,
    ).with_text(
        "download_url"@,
        "/api/client/servers/"@ + server_uuid + "/backups/"@ + backup_uuid
            + "/download?token="@ + ids::hyphenated_text(token),
    ).with("expires_in_seconds"@, JsonTree::Number(900))
}

pub open spec fn download_backup_step(arguments: JsonTree, token: u128) -> StepModel {
    answer(download_backup_tree(arguments, token))
}

fn download_backup(arguments: &Json, token: u128) -> (step: Step)
    ensures
        step@ == download_backup_step(arguments@, token),
        is_shown(download_backup_tree(arguments@, token)),
        is_sound(step@),
{
    proof {
        lemma_plain_keys();
    }
    let server_uuid = arguments.text_or("server_uuid", "");
    let backup_uuid = arguments.text_or("backup_uuid", "");
    let url = "/api/client/servers/".to_string().concat(server_uuid).concat("/backups/").concat(
        backup_uuid,
    ).concat("/download?token=").concat(ids::hyphenated(token).as_str());
    answered(
        Json::object().with_text("server_uuid", server_uuid).with_text(
            "backup_uuid",
            backup_uuid,
        ).with_text("download_url", url.as_str()).with("expires_in_seconds", Json::number(900)),
    )
}

// ---------------------------------------------------------------------------
// Web apps
// ---------------------------------------------------------------------------

pub open spec fn get_site_tree(arguments: JsonTree, now: Seq<char>) -> JsonTree {
    let site_id = arguments.text_or("site_id"@, "main-app"@);
    JsonTree::object().with_text("site_id"@, site_id).with_text(
        "address"@,
        "http://"@ + site_id + ".localhost:5173"@,
    ).with_text("status"@, "active"@).with(
        "domains"@,
        JsonTree::Array(
            seq![
                JsonTree::object().with_text("domain"@, site_id + ".localhost"@).with(
                    "ssl_active"@,
                    JsonTree::Bool(true),
                ).with("primary"@, JsonTree::Bool(true)),
            ],
        ),
    ).with(
        "last_deploy"@,
        JsonTree::object().with_text("commit"@, "a1b2c3d"@).with_text(
            "deployed_at"@,
            now,
        ).with_text("status"@, "success"@),
    )
}

pub open spec fn get_site_step(arguments: JsonTree, now: Seq<char>) -> StepModel {
    answer(get_site_tree(arguments, now))
}

fn get_site(arguments: &Json, now: &str) -> (step: Step)
    ensures
        step@ == get_site_step(arguments@, now@),
        is_shown(get_site_tree(arguments@, now@)),
        is_sound(step@),
{
    proof {
        lemma_plain_keys();
    }
    let site_id = arguments.text_or("site_id", "main-app");
    let address = "http://".to_string().concat(site_id).concat(".localhost:5173");
    let domain = Json::object().with_text(
        "domain",
        site_id.to_string().concat(".localhost").as_str(),
    ).with("ssl_active", Json::Bool(true)).with("primary", Json::Bool(true));
    let deploy = Json::object().with_text("commit", "a1b2c3d").with_text(
        "deployed_at",
        now,
    ).with_text("status", "success");
    answered(
        Json::object().with_text("site_id", site_id).with_text("address", address.as_str()).with_text(
            "status",
            "active",
        ).with("domains", Json::only(domain)).with("last_deploy", deploy),
    )
}

pub open spec fn deploy_repo_tree(arguments: JsonTree, build: u128) -> JsonTree {
    let site_id = arguments.text_or("site_id"@, ""@);
    let repo_url = arguments.text_or("repo_url"@, ""@);
    let branch = arguments.text_or("branch"@, "main"@);
    JsonTree::object().with_text("status"@, "deploy_started"@).with_text(
        "site_id"@,
        site_id,
    ).with_text("repo_url"@, repo_url).with_text("branch"@, branch).with_text(
        "build_id"@,
        ids::hyphenated_text(build),
    )
}

pub open spec fn deploy_repo_step(arguments: JsonTree, build: u128) -> StepModel {
    answer(deploy_repo_tree(arguments, build))
}

fn deploy_repo(arguments: &Json, build: u128) -> (step: Step)
    ensures
        step@ == deploy_repo_step(arguments@, build),
        is_shown(deploy_repo_tree(arguments@, build)),
        is_sound(step@),
{
    proof {
        lemma_plain_keys();
    }
    let site_id = arguments.text_or("site_id", "");
    let repo_url = arguments.text_or("repo_url", "");
    let branch = arguments.text_or("branch", "main");
    answered(
        Json::object().with_text("status", "deploy_started").with_text("site_id", site_id).with_text(
            "repo_url",
            repo_url,
        ).with_text("branch", branch).with_text("build_id", ids::hyphenated(build).as_str()),
    )
}

pub open spec fn deploy_files_tree(arguments: JsonTree, deploy: u128) -> JsonTree {
    let site_id = arguments.text_or("site_id"@, ""@);
    let archive_url = arguments.text_or("archive_url"@, ""@);
    JsonTree::object().with_text("status"@, "file_deploy_queued"@).with_text(
        "site_id"@,
        site_id,
    ).with_text("archive_url"@, archive_url).with_text(
        "deploy_id"@,
        ids::hyphenated_text(deploy),
    )
}

pub open spec fn deploy_files_step(arguments: JsonTree, deploy: u128) -> StepModel {
    answer(deploy_files_tree(arguments, deploy))
}

fn deploy_files(arguments: &Json, deploy: u128) -> (step: Step)
    ensures
        step@ == deploy_files_step(arguments@, deploy),
        is_shown(deploy_files_tree(arguments@, deploy)),
        is_sound(step@),
{
    proof {
        lemma_plain_keys();
    }
    let site_id = arguments.text_or("site_id", "");
    let archive_url = arguments.text_or("archive_url", "");
    answered(
        Json::object().with_text("status", "file_deploy_queued").with_text(
            "site_id",
            site_id,
        ).with_text("archive_url", archive_url).with_text(
            "deploy_id",
            ids::hyphenated(deploy).as_str(),
        ),
    )
}

pub open spec fn attach_domain_tree(arguments: JsonTree) -> JsonTree {
    let site_id = arguments.text_or("site_id"@, ""@);
    let domain = arguments.text_or("domain"@, ""@);
    JsonTree::object().with_text("status"@, "domain_attached"@).with_text(
        "site_id"@,
        site_id,
    ).with_text("domain"@, domain).with_text("ssl_status"@, "provisioning_auto_cert"@).with(
        "dns_records"@,
        JsonTree::Array(
            seq![
                JsonTree::object().with_text("type"@, "A"@).with_text(
                    "name"@,
                    "@"@,
                ).with_text("value"@, "127.0.0.1"@),
            ],
        ),
    )
}

pub open spec fn attach_domain_step(arguments: JsonTree) -> StepModel {
    answer(attach_domain_tree(arguments))
}

fn attach_domain(arguments: &Json) -> (step: Step)
    ensures
        step@ == attach_domain_step(arguments@),
        is_shown(attach_domain_tree(arguments@)),
        is_sound(step@),
{
    proof {
        lemma_plain_keys();
    }
    let site_id = arguments.text_or("site_id", "");
    let domain = arguments.text_or("domain", "");
    let record = Json::object().with_text("type", "A").with_text("name", "@").with_text(
        "value",
        "127.0.0.1",
    );
    answered(
        Json::object().with_text("status", "domain_attached").with_text(
            "site_id",
            site_id,
        ).with_text("domain", domain).with_text("ssl_status", "provisioning_auto_cert").with(
            "dns_records",
            Json::only(record),
        ),
    )
}

pub open spec fn detach_domain_tree(arguments: JsonTree) -> JsonTree {
    let site_id = arguments.text_or("site_id"@, ""@);
    let domain = arguments.text_or("domain"@, ""@);
    JsonTree::object().with_text("status"@, "domain_detached"@).with_text(
        "site_id"@,
        site_id,
    ).with_text("domain"@, domain)
}

pub open spec fn detach_domain_step(arguments: JsonTree) -> StepModel {
    answer(detach_domain_tree(arguments))
}

fn detach_domain(arguments: &Json) -> (step: Step)
    ensures
        step@ == detach_domain_step(arguments@),
        is_shown(detach_domain_tree(arguments@)),
        is_sound(step@),
{
    proof {
        lemma_plain_keys();
    }
    let site_id = arguments.text_or("site_id", "");
    let domain = arguments.text_or("domain", "");
    answered(
        Json::object().with_text("status", "domain_detached").with_text(
            "site_id",
            site_id,
        ).with_text("domain", domain),
    )
}

// ---------------------------------------------------------------------------
// Plugins
// ---------------------------------------------------------------------------

/// The catalog's address for a search: the words, in the category of the server
/// software, for the game version.
pub open spec fn search_url(
    query: Seq<char>,
    software: Seq<char>,
    mc_version: Seq<char>,
) -> Seq<char> {
    "https://api.modrinth.com/v2/search?query="@ + query + "&facets=[[\"categories:"@ + software
        + "\"],[\"versions:"@ + mc_version + "\"]]"@
}

pub open spec fn search_plugins_step(arguments: JsonTree) -> StepModel {
    let query = arguments.text_or("query"@, ""@);
    let software = arguments.text_or("software"@, "paper"@);
    let mc_version = arguments.text_or("mc_version"@, "1.20.4"@);
    StepOf::SearchCatalog {
        url: search_url(query, software, mc_version),
        query,
        software,
        mc_version,
    }
}

fn search_plugins(arguments: &Json) -> (step: Step)
    ensures
        step@ == search_plugins_step(arguments@),
        is_sound(step@),
{
    let query = arguments.text_or("query", "");
    let software = arguments.text_or("software", "paper");
    let mc_version = arguments.text_or("mc_version", "1.20.4");
    let url = "https://api.modrinth.com/v2/search?query=".to_string().concat(query).concat(
        "&facets=[[\"categories:",
    ).concat(software).concat("\"],[\"versions:").concat(mc_version).concat("\"]]");
    StepOf::SearchCatalog {
        url,
        query: query.to_string(),
        software: software.to_string(),
        mc_version: mc_version.to_string(),
    }
}

pub open spec fn list_plugins_step(arguments: JsonTree) -> StepModel {
    let server_uuid = arguments.text_or("server_uuid"@, ""@);
    match ids::parsed_uuid(server_uuid) {
        Some(id) => StepOf::ListPlugins { id, server_uuid, directory: "/plugins"@ },
        None => failure(bad_uuid(server_uuid)),
    }
}

fn list_plugins(arguments: &Json) -> (step: Step)
    ensures
        step@ == list_plugins_step(arguments@),
        is_sound(step@),
{
    let server_uuid = arguments.text_or("server_uuid", "");
    match server_id(server_uuid) {
        Ok(id) => StepOf::ListPlugins {
            id,
            server_uuid: server_uuid.to_string(),
            directory: "/plugins".to_string(),
        },
        Err(step) => step,
    }
}

/// The step that fetches a plugin into the server's plugin directory, once it
/// is known where from.
pub open spec fn install_step(plugin: PluginModel) -> StepModel {
    if plugin.download_url.len() == 0 {
        failure(
            "Either direct 'download_url' or a valid 'plugin_id' (resolvable via Modrinth) must be provided."@,
        )
    } else {
        order_step(
            plugin.server_uuid,
            OrderOf::Pull {
                root: "/plugins"@,
                url: plugin.download_url,
                file_name: if plugin.filename.len() == 0 {
                    None
                } else {
                    Some(plugin.filename)
                },
                use_header: true,
                foreground: true,
            },
            ReceiptOf {
                failure: "Wings daemon install_plugin failed: "@,
                reply: JsonTree::object().with_text("status"@, "plugin_installed"@).with_text(
                    "server_uuid"@,
                    plugin.server_uuid,
                ).with_text("plugin_id"@, plugin.plugin_id).with_text(
                    "download_url"@,
                    plugin.download_url,
                ).with_text(
                    "target_file"@,
                    "/plugins/"@ + if plugin.filename.len() == 0 {
                        "downloaded_plugin.jar"@
                    } else {
                        plugin.filename
                    },
                ),
                stamp: "installed_at"@,
            },
        )
    }
}

pub(crate) fn install(plugin: Plugin) -> (step: Step)
    ensures
        step@ == install_step(plugin@),
        is_sound(step@),
{
    proof {
        lemma_plain_keys();
    }
    if plugin.download_url.as_str().is_empty() {
        return failed(
            "Either direct 'download_url' or a valid 'plugin_id' (resolvable via Modrinth) must be provided.",
        );
    }
    let named = !plugin.filename.as_str().is_empty();
    let target = if named {
        plugin.filename.as_str()
    } else {
        "downloaded_plugin.jar"
    };
    let reply = Json::object().with_text("status", "plugin_installed").with_text(
        "server_uuid",
        plugin.server_uuid.as_str(),
    ).with_text("plugin_id", plugin.plugin_id.as_str()).with_text(
        "download_url",
        plugin.download_url.as_str(),
    ).with_text("target_file", "/plugins/".to_string().concat(target).as_str());
    order_to(
        plugin.server_uuid.as_str(),
        OrderOf::Pull {
            root: "/plugins".to_string(),
            url: plugin.download_url.clone(),
            file_name: if named {
                Some(plugin.filename.clone())
            } else {
                None
            },
            use_header: true,
            foreground: true,
        },
        receipt("Wings daemon install_plugin failed: ", reply, "installed_at"),
    )
}

/// The catalog's address for the versions of a plugin.
pub open spec fn versions_url(plugin_id: Seq<char>) -> Seq<char> {
    "https://api.modrinth.com/v2/project/"@ + plugin_id + "/version"@
}

pub open spec fn install_plugin_step(arguments: JsonTree) -> StepModel {
    let plugin = PluginOf {
        server_uuid: arguments.text_or("server_uuid"@, ""@),
        plugin_id: arguments.text_or("plugin_id"@, ""@),
        download_url: arguments.text_or("download_url"@, ""@),
        filename: arguments.text_or("filename"@, ""@),
    };
    if plugin.download_url.len() == 0 && plugin.plugin_id.len() > 0 {
        StepOf::FetchVersions { url: versions_url(plugin.plugin_id), plugin }
    } else {
        install_step(plugin)
    }
}

fn install_plugin(arguments: &Json) -> (step: Step)
    ensures
        step@ == install_plugin_step(arguments@),
        is_sound(step@),
{
    let plugin: Plugin = PluginOf {
        server_uuid: arguments.text_or("server_uuid", "").to_string(),
        plugin_id: arguments.text_or("plugin_id", "").to_string(),
        download_url: arguments.text_or("download_url", "").to_string(),
        filename: arguments.text_or("filename", "").to_string(),
    };
    if plugin.download_url.as_str().is_empty() && !plugin.plugin_id.as_str().is_empty() {
        let url = "https://api.modrinth.com/v2/project/".to_string().concat(
            plugin.plugin_id.as_str(),
        ).concat("/version");
        StepOf::FetchVersions { url, plugin }
    } else {
        install(plugin)
    }
}

pub open spec fn remove_plugin_step(arguments: JsonTree) -> StepModel {
    let server_uuid = arguments.text_or("server_uuid"@, ""@);
    let filename = arguments.text_or("filename"@, ""@);
    if text::is_blank(filename) {
        failure("Plugin filename cannot be empty"@)
    } else {
        match ids::parsed_uuid(server_uuid) {
            Some(id) => StepOf::Delete { id, server_uuid, root: "/plugins"@, filename },
            None => failure(bad_uuid(server_uuid)),
        }
    }
}

fn remove_plugin(arguments: &Json) -> (step: Step)
    ensures
        step@ == remove_plugin_step(arguments@),
        is_sound(step@),
{
    let server_uuid = arguments.text_or("server_uuid", "");
    let filename = arguments.text_or("filename", "");
    if text::blank(filename) {
        return failed("Plugin filename cannot be empty");
    }
    match server_id(server_uuid) {
        Ok(id) => StepOf::Delete {
            id,
            server_uuid: server_uuid.to_string(),
            root: "/plugins".to_string(),
            filename: filename.to_string(),
        },
        Err(step) => step,
    }
}

// ---------------------------------------------------------------------------
// Calls
// ---------------------------------------------------------------------------

/// The first step of a tool, with a fresh UUID and the time at hand.
pub open spec fn tool_step(
    tool: Tool,
    arguments: JsonTree,
    fresh: u128,
    now: Seq<char>,
) -> StepModel {
    match tool {
        Tool::GetSystemHealth => StepOf::CountAll,
        Tool::ListNests => StepOf::FetchNests,
        Tool::ListUsers => StepOf::FetchUsers,
        Tool::ListServers => list_servers_step(arguments),
        Tool::GetServer => get_server_step(arguments),
        Tool::PowerServer => power_server_step(arguments),
        Tool::SendConsoleCommand => send_console_command_step(arguments),
        Tool::ReadConsole => read_console_step(arguments),
        Tool::ListMachines => StepOf::FetchMachines,
        Tool::ListFiles => list_files_step(arguments),
        Tool::ReadFile => read_file_step(arguments),
        Tool::WriteFile => write_file_step(arguments),
        Tool::UploadFileFromUrl => upload_file_from_url_step(arguments),
        Tool::DownloadFiles => download_files_step(arguments, fresh),
        Tool::ListBackups => list_backups_step(arguments),
        Tool::CreateBackup => create_backup_step(arguments, fresh),
        Tool::DownloadBackup => download_backup_step(arguments, fresh),
        Tool::GetSite => get_site_step(arguments, now),
        Tool::DeployRepo => deploy_repo_step(arguments, fresh),
        Tool::DeployFiles => deploy_files_step(arguments, fresh),
        Tool::AttachDomain => attach_domain_step(arguments),
        Tool::DetachDomain => detach_domain_step(arguments),
        Tool::SearchPlugins => search_plugins_step(arguments),
        Tool::ListPlugins => list_plugins_step(arguments),
        Tool::InstallPlugin => install_plugin_step(arguments),
        Tool::RemovePlugin => remove_plugin_step(arguments),
    }
}

/// The document of a tool that answers at once.
pub open spec fn first_document(
    tool: Tool,
    arguments: JsonTree,
    fresh: u128,
    now: Seq<char>,
) -> Option<JsonTree> {
    match tool {
        Tool::DownloadFiles => Some(download_files_tree(arguments, fresh)),
        Tool::DownloadBackup => Some(download_backup_tree(arguments, fresh)),
        Tool::GetSite => Some(get_site_tree(arguments, now)),
        Tool::DeployRepo => Some(deploy_repo_tree(arguments, fresh)),
        Tool::DeployFiles => Some(deploy_files_tree(arguments, fresh)),
        Tool::AttachDomain => Some(attach_domain_tree(arguments)),
        Tool::DetachDomain => Some(detach_domain_tree(arguments)),
        _ => None,
    }
}

/// The first step of a tool, with a fresh UUID and the time at hand.
pub fn start_tool(tool: Tool, arguments: &Json, fresh: u128, now: &str) -> (step: Step)
    ensures
        step@ == tool_step(tool, arguments@, fresh, now@),
        first_document(tool, arguments@, fresh, now@) matches Some(data) ==> is_shown(data),
        is_sound(step@),
{
    match tool {
        Tool::GetSystemHealth => StepOf::CountAll,
        Tool::ListNests => StepOf::FetchNests,
        Tool::ListUsers => StepOf::FetchUsers,
        Tool::ListServers => list_servers(arguments),
        Tool::GetServer => get_server(arguments),
        Tool::PowerServer => power_server(arguments),
        Tool::SendConsoleCommand => send_console_command(arguments),
        Tool::ReadConsole => read_console(arguments),
        Tool::ListMachines => StepOf::FetchMachines,
        Tool::ListFiles => list_files(arguments),
        Tool::ReadFile => read_file(arguments),
        Tool::WriteFile => write_file(arguments),
        Tool::UploadFileFromUrl => upload_file_from_url(arguments),
        Tool::DownloadFiles => download_files(arguments, fresh),
        Tool::ListBackups => list_backups(arguments),
        Tool::CreateBackup => create_backup(arguments, fresh),
        Tool::DownloadBackup => download_backup(arguments, fresh),
        Tool::GetSite => get_site(arguments, now),
        Tool::DeployRepo => deploy_repo(arguments, fresh),
        Tool::DeployFiles => deploy_files(arguments, fresh),
        Tool::AttachDomain => attach_domain(arguments),
        Tool::DetachDomain => detach_domain(arguments),
        Tool::SearchPlugins => search_plugins(arguments),
        Tool::ListPlugins => list_plugins(arguments),
        Tool::InstallPlugin => install_plugin(arguments),
        Tool::RemovePlugin => remove_plugin(arguments),
    }
}

/// The name that a call's parameters give, and the arguments that go with it.
pub open spec fn called_name(params: Option<JsonTree>) -> Seq<char> {
    match params {
        Some(params) => params.text_or("name"@, ""@),
        None => ""@,
    }
}

pub open spec fn called_arguments(params: Option<JsonTree>) -> JsonTree {
    match params {
        Some(params) => match params.get("arguments"@) {
            Some(arguments) => arguments,
            None => JsonTree::object(),
        },
        None => JsonTree::object(),
    }
}

/// The complaint about a name that no tool has.
pub open spec fn unknown_tool(name: Seq<char>) -> Seq<char> {
    "Unknown tool '"@ + name + "' (normalized: '"@ + normalized(name) + "')"@
}

/// The first step of a call, with a fresh UUID and the time at hand.
pub open spec fn call_step(params: Option<JsonTree>, fresh: u128, now: Seq<char>) -> StepModel {
    let name = called_name(params);
    match tool_named(normalized(name)) {
        Some(tool) => tool_step(tool, called_arguments(params), fresh, now),
        None => failure(unknown_tool(name)),
    }
}

/// The document that a call is answered with at once, if it is.
pub open spec fn call_document(params: Option<JsonTree>, fresh: u128, now: Seq<char>) -> Option<
    JsonTree,
> {
    match tool_named(normalized(called_name(params))) {
        Some(tool) => first_document(tool, called_arguments(params), fresh, now),
        None => None,
    }
}

/// The document that a call is answered with at once, if it is, is read back from
/// the result.
pub open spec fn shows_call(params: Option<JsonTree>, fresh: u128, now: Seq<char>) -> bool {
    call_document(params, fresh, now) matches Some(data) ==> is_shown(data)
}

pub open spec fn json_view(value: Option<Json>) -> Option<JsonTree> {
    match value {
        Some(value) => Some(value@),
        None => None,
    }
}

/// The first step of a call, with a fresh UUID and the time at hand.
pub fn execute_tool_with(params: Option<Json>, fresh: u128, now: &str) -> (step: Step)
    ensures
        step@ == call_step(json_view(params), fresh, now@),
        shows_call(json_view(params), fresh, now@),
        is_sound(step@),
{
    let empty = Json::object();
    let params: &Json = match &params {
        Some(params) => params,
        None => &empty,
    };
    let name = params.text_or("name", "");
    let arguments = match params.get("arguments") {
        Some(arguments) => arguments,
        None => &empty,
    };
    let plain = normalize(name);
    match Tool::named(plain.as_str()) {
        Some(tool) => start_tool(tool, arguments, fresh, now),
        None => failed(
            "Unknown tool '".to_string().concat(name).concat("' (normalized: '").concat(
                plain.as_str(),
            ).concat("')").as_str(),
        ),
    }
}

/// The first step of a call.
pub fn execute_tool(params: Option<Json>) -> (step: Step)
    ensures
        exists|fresh: u128, now: Seq<char>| #[trigger]
            ids::is_random_uuid(fresh) && #[trigger] clock::is_utc_stamp(now) && step@
                == call_step(json_view(params), fresh, now) && shows_call(
                json_view(params),
                fresh,
                now,
            ),
        is_sound(step@),
{
    let fresh: u128 = ids::new_uuid();
    let now = clock::now();
    execute_tool_with(params, fresh, now.as_str())
}

} // verus!
