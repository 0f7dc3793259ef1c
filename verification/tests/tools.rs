use calagopus_mcp::execute::{execute_tool, execute_tool_with, start_tool};
use calagopus_mcp::json::Json;
use calagopus_mcp::step::{OrderOf, PowerAction, Step, StepOf};
use calagopus_mcp::tool::{normalize, Tool};

const SERVER: &str = "67e55044-10b1-426f-9247-bb680e5fe0c8";
const ID: u128 = 0x67e5504410b1426f9247bb680e5fe0c8;

const NAMES: [&str; 26] = [
    "list-servers", "get-server", "power-server", "send-console-command", "read-console",
    "list-machines", "get-system-health", "list-files", "read-file", "write-file",
    "upload-file-from-url", "download-files", "list-backups", "create-backup", "download-backup",
    "get-site", "deploy-repo", "deploy-files", "attach-domain", "detach-domain", "search-plugins",
    "list-plugins", "install-plugin", "remove-plugin", "list-nests", "list-users",
];

fn arguments(pairs: &[(&str, &str)]) -> Json {
    let mut object = Json::object();
    for (key, value) in pairs {
        object = object.with_text(key, value);
    }
    object
}

fn start(tool: Tool, pairs: &[(&str, &str)]) -> Step {
    start_tool(tool, &arguments(pairs), ID, "now")
}

fn text(result: &Json) -> &str {
    result.get("content").unwrap().as_array().unwrap()[0].get("text").unwrap().as_str().unwrap()
}

fn error(step: Step) -> String {
    match step {
        StepOf::Done(result) => {
            assert_eq!(result.get("isError").unwrap().as_bool(), Some(true));
            text(&result).to_string()
        }
        _ => panic!("not finished"),
    }
}

fn document(step: Step) -> serde_json::Value {
    match step {
        StepOf::Done(result) => {
            assert!(result.get("isError").is_none());
            serde_json::from_str(text(&result)).unwrap()
        }
        _ => panic!("not finished"),
    }
}

fn parsed(text: &str) -> serde_json::Value {
    serde_json::from_str(text).unwrap()
}

#[test]
fn every_documented_name_is_understood() {
    for name in NAMES {
        let tool = Tool::named(&normalize(name)).unwrap();
        let plain = name.replace('-', "_");
        for alias in [
            plain.clone(),
            format!("calagopus_{plain}"),
            format!("calagopus-{name}"),
            format!("CALAGOPUS_{}", plain.to_uppercase()),
            format!("calagopus_calagopus_{plain}"),
        ] {
            assert_eq!(Tool::named(&normalize(&alias)), Some(tool), "{alias}");
        }
    }
    assert_eq!(Tool::named("health"), Some(Tool::GetSystemHealth));
    assert_eq!(Tool::named("system_health"), Some(Tool::GetSystemHealth));
    assert_eq!(Tool::named("nests"), Some(Tool::ListNests));
    assert_eq!(Tool::named("users"), Some(Tool::ListUsers));
    assert_eq!(Tool::named("servers"), None);
}

#[test]
fn names_beyond_ascii_are_lowered_too() {
    // The Kelvin sign is an upper-case k.
    assert_eq!(normalize("list-bac\u{212a}ups"), "list_backups");
    assert_eq!(normalize("\u{c4}"), "\u{e4}");
}

#[test]
fn unknown_tools() {
    let params = Json::object().with_text("name", "Calagopus_Make-Coffee");
    assert_eq!(
        error(execute_tool(Some(params))),
        "Error: Unknown tool 'Calagopus_Make-Coffee' (normalized: 'make_coffee')"
    );
    assert_eq!(error(execute_tool(None)), "Error: Unknown tool '' (normalized: '')");
}

#[test]
fn arguments_go_to_the_tool() {
    let params = Json::object()
        .with_text("name", "list-servers")
        .with("arguments", Json::object().with("limit", Json::Unsigned(3)));
    assert!(matches!(execute_tool_with(Some(params), 0, ""), StepOf::FetchServers { limit: 3 }));
    let bare = Json::object().with_text("name", "list-servers");
    assert!(matches!(execute_tool_with(Some(bare), 0, ""), StepOf::FetchServers { limit: 50 }));
    let odd = Json::object()
        .with_text("name", "list-servers")
        .with("arguments", Json::object().with("limit", Json::Unsigned(u64::MAX)));
    assert!(matches!(execute_tool_with(Some(odd), 0, ""), StepOf::FetchServers { limit: 50 }));
}

#[test]
fn servers_are_named_by_uuid() {
    for form in [
        SERVER,
        "67E5504410b1426f9247bb680e5fe0c8",
        "{67e55044-10b1-426f-9247-bb680e5fe0c8}",
        "URN:uuid:67e55044-10b1-426f-9247-bb680e5fe0c8",
    ] {
        match start(Tool::GetServer, &[("server_uuid", form)]) {
            StepOf::FetchServer { id, server_uuid } => {
                assert_eq!(id, ID);
                assert_eq!(server_uuid, form);
            }
            _ => panic!("{form}"),
        }
    }
    for form in [
        "",
        "x",
        "67e55044-10b1-426f-9247-bb680e5fe0cg",
        "67e55044010b1-426f-9247-bb680e5fe0c8",
        "(67e55044-10b1-426f-9247-bb680e5fe0c8)",
        "urn:uid::67e55044-10b1-426f-9247-bb680e5fe0c8",
        "\u{e9}7e55044-10b1-426f-9247-bb680e5fe0c",
    ] {
        assert_eq!(
            error(start(Tool::GetServer, &[("server_uuid", form)])),
            format!("Error: Invalid server UUID: '{form}'")
        );
    }
    assert_eq!(error(start(Tool::ReadFile, &[])), "Error: Invalid server UUID: ''");
}

#[test]
fn power_actions() {
    for (name, action) in [
        ("start", PowerAction::Start),
        ("STOP", PowerAction::Stop),
        ("Restart", PowerAction::Restart),
        ("\u{212a}ill", PowerAction::Kill),
    ] {
        match start(Tool::PowerServer, &[("server_uuid", SERVER), ("action", name)]) {
            StepOf::Order { id, order: OrderOf::Power(power), receipt, .. } => {
                assert_eq!(id, ID);
                assert_eq!(power, action);
                assert_eq!(receipt.reply.get("action").unwrap().as_str(), Some(name));
            }
            _ => panic!("{name}"),
        }
    }
    assert!(matches!(
        start(Tool::PowerServer, &[("server_uuid", SERVER)]),
        StepOf::Order { order: OrderOf::Power(PowerAction::Restart), .. }
    ));
    // The action is looked at before the server.
    assert_eq!(
        error(start(Tool::PowerServer, &[("action", "explode")])),
        "Error: Invalid power action: 'explode'. Must be one of: start, stop, restart, kill."
    );
}

#[test]
fn console_commands() {
    assert_eq!(
        error(start(Tool::SendConsoleCommand, &[("server_uuid", SERVER), ("command", " \t")])),
        "Error: Command string cannot be empty"
    );
    match start(Tool::SendConsoleCommand, &[("server_uuid", SERVER), ("command", " say hi ")]) {
        StepOf::Order { order: OrderOf::Command(command), .. } => assert_eq!(command, " say hi "),
        _ => panic!("no order"),
    }
}

#[test]
fn console_lines() {
    let with = |n: Json| {
        let call = arguments(&[("server_uuid", SERVER)]).with("lines", n);
        match start_tool(Tool::ReadConsole, &call, 0, "") {
            StepOf::FetchLogs { lines, tail, .. } => (lines, tail),
            _ => panic!("no logs"),
        }
    };
    assert_eq!(with(Json::Unsigned(7)), (7, 7));
    assert_eq!(with(Json::Signed(-1)), (-1, u64::MAX));
    assert_eq!(with(Json::text("7")), (50, 50));
}

#[test]
fn file_orders() {
    match start(
        Tool::WriteFile,
        &[("server_uuid", SERVER), ("path", "a.txt"), ("content", "h\u{e9}\u{20ac}")],
    ) {
        StepOf::Order { order: OrderOf::Write { path, content }, receipt, .. } => {
            assert_eq!((path.as_str(), content.as_str()), ("a.txt", "h\u{e9}\u{20ac}"));
            assert_eq!(receipt.reply.get("bytes_written").unwrap().as_i64(), Some(6));
            assert_eq!(receipt.failure, "Wings daemon write_file failed: ");
            assert_eq!(receipt.stamp, "timestamp");
        }
        _ => panic!("no order"),
    }
    match start(Tool::UploadFileFromUrl, &[("server_uuid", SERVER), ("url", "http://x")]) {
        StepOf::Order { order: OrderOf::Pull { root, url, file_name, use_header, foreground }, .. } => {
            assert_eq!((root.as_str(), url.as_str()), ("/", "http://x"));
            assert_eq!((file_name, use_header, foreground), (None, true, false));
        }
        _ => panic!("no order"),
    }
    assert!(matches!(
        start(Tool::ListFiles, &[("server_uuid", SERVER)]),
        StepOf::ListDirectory { directory, .. } if directory == "/"
    ));
}

#[test]
fn download_links() {
    assert_eq!(
        document(start(Tool::DownloadFiles, &[("server_uuid", "s")])),
        parsed(
            r#"{"server_uuid":"s","path":"/","download_url":"/api/client/servers/s/files/download?token=67e55044-10b1-426f-9247-bb680e5fe0c8","expires_in_seconds":3600}"#
        )
    );
    assert_eq!(
        document(start(Tool::DownloadBackup, &[("server_uuid", "s"), ("backup_uuid", "b")])),
        parsed(
            r#"{"server_uuid":"s","backup_uuid":"b","download_url":"/api/client/servers/s/backups/b/download?token=67e55044-10b1-426f-9247-bb680e5fe0c8","expires_in_seconds":900}"#
        )
    );
}

#[test]
fn download_tokens_are_fresh() {
    let link = || {
        let params = Json::object().with_text("name", "download_files");
        document(execute_tool(Some(params)))["download_url"].as_str().unwrap().to_string()
    };
    let token = link().split_once("token=").unwrap().1.to_string();
    assert_eq!(uuid::Uuid::parse_str(&token).unwrap().to_string(), token);
    assert_ne!(link(), link());
}

#[test]
fn backups() {
    assert!(matches!(
        start(Tool::ListBackups, &[("server_uuid", SERVER)]),
        StepOf::FetchBackups { server: Some(ID), .. }
    ));
    assert!(matches!(
        start(Tool::ListBackups, &[("server_uuid", "x")]),
        StepOf::FetchBackups { server: None, .. }
    ));
    match start(Tool::CreateBackup, &[("server_uuid", SERVER)]) {
        StepOf::Order { order: OrderOf::Backup { id, ignore }, receipt, .. } => {
            assert_eq!((id, ignore.as_str()), (ID, ""));
            assert_eq!(receipt.reply.get("name").unwrap().as_str(), Some("Manual Backup"));
            assert_eq!(receipt.reply.get("backup_uuid").unwrap().as_str(), Some(SERVER));
        }
        _ => panic!("no order"),
    }
}

#[test]
fn web_apps() {
    assert_eq!(
        document(start(Tool::GetSite, &[])),
        parsed(
            r#"{"site_id":"main-app","address":"http://main-app.localhost:5173","status":"active","domains":[{"domain":"main-app.localhost","ssl_active":true,"primary":true}],"last_deploy":{"commit":"a1b2c3d","deployed_at":"now","status":"success"}}"#
        )
    );
    assert_eq!(
        document(start(Tool::DeployRepo, &[("site_id", "a"), ("repo_url", "r")])),
        parsed(
            r#"{"status":"deploy_started","site_id":"a","repo_url":"r","branch":"main","build_id":"67e55044-10b1-426f-9247-bb680e5fe0c8"}"#
        )
    );
    assert_eq!(
        document(start(Tool::DeployFiles, &[("site_id", "a")])),
        parsed(
            r#"{"status":"file_deploy_queued","site_id":"a","archive_url":"","deploy_id":"67e55044-10b1-426f-9247-bb680e5fe0c8"}"#
        )
    );
    assert_eq!(
        document(start(Tool::AttachDomain, &[("site_id", "a"), ("domain", "d")])),
        parsed(
            r#"{"status":"domain_attached","site_id":"a","domain":"d","ssl_status":"provisioning_auto_cert","dns_records":[{"type":"A","name":"@","value":"127.0.0.1"}]}"#
        )
    );
    assert_eq!(
        document(start(Tool::DetachDomain, &[("site_id", "a"), ("domain", "d")])),
        parsed(r#"{"status":"domain_detached","site_id":"a","domain":"d"}"#)
    );
}

#[test]
fn plugin_searches() {
    match start(Tool::SearchPlugins, &[("query", "vault")]) {
        StepOf::SearchCatalog { url, query, software, mc_version } => {
            assert_eq!(
                url,
                "https://api.modrinth.com/v2/search?query=vault&facets=[[\"categories:paper\"],[\"versions:1.20.4\"]]"
            );
            assert_eq!((query.as_str(), software.as_str(), mc_version.as_str()), ("vault", "paper", "1.20.4"));
        }
        _ => panic!("no search"),
    }
}

#[test]
fn plugin_installations() {
    assert_eq!(
        error(start(Tool::InstallPlugin, &[("server_uuid", SERVER)])),
        "Error: Either direct 'download_url' or a valid 'plugin_id' (resolvable via Modrinth) must be provided."
    );
    match start(Tool::InstallPlugin, &[("server_uuid", SERVER), ("plugin_id", "vault")]) {
        StepOf::FetchVersions { url, plugin } => {
            assert_eq!(url, "https://api.modrinth.com/v2/project/vault/version");
            assert_eq!(plugin.server_uuid, SERVER);
        }
        _ => panic!("no versions"),
    }
    match start(Tool::InstallPlugin, &[("server_uuid", SERVER), ("download_url", "u")]) {
        StepOf::Order { order: OrderOf::Pull { root, url, file_name, use_header, foreground }, receipt, .. } => {
            assert_eq!((root.as_str(), url.as_str()), ("/plugins", "u"));
            assert_eq!((file_name, use_header, foreground), (None, true, true));
            assert_eq!(
                receipt.reply.get("target_file").unwrap().as_str(),
                Some("/plugins/downloaded_plugin.jar")
            );
            assert_eq!(receipt.stamp, "installed_at");
        }
        _ => panic!("no order"),
    }
}

#[test]
fn plugin_removals() {
    assert_eq!(
        error(start(Tool::RemovePlugin, &[("filename", " ")])),
        "Error: Plugin filename cannot be empty"
    );
    match start(Tool::RemovePlugin, &[("server_uuid", SERVER), ("filename", "a.jar")]) {
        StepOf::Delete { id, root, filename, .. } => {
            assert_eq!((id, root.as_str(), filename.as_str()), (ID, "/plugins", "a.jar"));
        }
        _ => panic!("no deletion"),
    }
    assert!(matches!(
        start(Tool::ListPlugins, &[("server_uuid", SERVER)]),
        StepOf::ListPlugins { directory, .. } if directory == "/plugins"
    ));
}

#[test]
fn tools_without_arguments() {
    assert!(matches!(start(Tool::GetSystemHealth, &[]), StepOf::CountAll));
    assert!(matches!(start(Tool::ListNests, &[]), StepOf::FetchNests));
    assert!(matches!(start(Tool::ListUsers, &[]), StepOf::FetchUsers));
    assert!(matches!(start(Tool::ListMachines, &[]), StepOf::FetchMachines));
}
