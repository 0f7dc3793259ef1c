use calagopus_mcp::clock::Moment;
use calagopus_mcp::execute::start_tool;
use calagopus_mcp::json::Json;
use calagopus_mcp::outcome::{NodeFailure, NodeReply};
use calagopus_mcp::progress::{advance, advance_at, Event};
use calagopus_mcp::records::{FileEntry, ServerRow};
use calagopus_mcp::step::{OrderOf, Step, StepOf};
use calagopus_mcp::tool::Tool;

const SERVER: &str = "67e55044-10b1-426f-9247-bb680e5fe0c8";
const ID: u128 = 0x67e5504410b1426f9247bb680e5fe0c8;

fn start(tool: Tool, pairs: &[(&str, &str)]) -> Step {
    let mut arguments = Json::object().with_text("server_uuid", SERVER);
    for (key, value) in pairs {
        arguments = arguments.with_text(key, value);
    }
    start_tool(tool, &arguments, 5, "now")
}

fn text(result: &Json) -> &str {
    result.get("content").unwrap().as_array().unwrap()[0].get("text").unwrap().as_str().unwrap()
}

fn finished(step: Option<Step>) -> (bool, String) {
    match step {
        Some(StepOf::Done(result)) => {
            (result.get("isError").is_some(), text(&result).to_string())
        }
        _ => panic!("not finished"),
    }
}

fn document(step: Option<Step>) -> serde_json::Value {
    let (failed, text) = finished(step);
    assert!(!failed, "{text}");
    serde_json::from_str(&text).unwrap()
}

fn moment() -> Moment {
    Moment::new(0, 0).unwrap()
}

fn entry(name: &str) -> FileEntry {
    FileEntry { name: name.to_string(), size: 1, file: true, directory: false, modified: moment() }
}

#[test]
fn replies_carry_the_time() {
    let event = || Event::Counted { users: Some(1), nodes: None, servers: Some(3) };
    let told = document(advance(start(Tool::GetSystemHealth, &[]), event()));
    let stamp = told["timestamp"].as_str().unwrap();
    let time = chrono::DateTime::parse_from_rfc3339(stamp).unwrap();
    assert!(stamp.ends_with("+00:00"));
    assert!((chrono::Utc::now() - time.to_utc()).num_seconds().abs() < 60);
    let told = document(advance_at(start(Tool::GetSystemHealth, &[]), event(), "then"));
    assert_eq!(told["timestamp"], "then");
    assert_eq!((&told["total_users"], &told["total_nodes"]), (&1.into(), &0.into()));
}

#[test]
fn orders_are_answered() {
    let power = || start(Tool::PowerServer, &[("action", "Kill")]);
    let done = document(advance_at(power(), Event::Ordered(NodeReply::Answered(())), "then"));
    assert_eq!(
        done,
        serde_json::from_str::<serde_json::Value>(
            r#"{"status":"power_signal_sent","server_uuid":"67e55044-10b1-426f-9247-bb680e5fe0c8","action":"Kill","timestamp":"then"}"#
        )
        .unwrap()
    );
    let refused = Event::Ordered(NodeReply::Refused("E".to_string()));
    assert_eq!(
        finished(advance(power(), refused)),
        (true, "Error: Wings daemon power signal failed: E".to_string())
    );
    let lost = Event::Ordered(NodeReply::Unreachable(NodeFailure::NoServer));
    assert_eq!(
        finished(advance(power(), lost)),
        (true, format!("Error: Server with UUID '{SERVER}' not found"))
    );
}

#[test]
fn every_order_has_its_own_complaint() {
    for (tool, complaint) in [
        (Tool::PowerServer, "power signal"),
        (Tool::SendConsoleCommand, "command execution"),
        (Tool::WriteFile, "write_file"),
        (Tool::UploadFileFromUrl, "upload_file_from_url"),
        (Tool::CreateBackup, "create_backup"),
        (Tool::InstallPlugin, "install_plugin"),
    ] {
        let step = start(tool, &[("command", "c"), ("download_url", "u")]);
        match &step {
            StepOf::Order { server_uuid, receipt, .. } => {
                assert_eq!(server_uuid, SERVER);
                assert_eq!(receipt.reply.get("server_uuid").unwrap().as_str(), Some(SERVER));
            }
            _ => panic!("no order"),
        }
        let refused = Event::Ordered(NodeReply::Refused("E".to_string()));
        assert_eq!(
            finished(advance(step, refused)),
            (true, format!("Error: Wings daemon {complaint} failed: E"))
        );
    }
}

#[test]
fn outcomes_of_other_steps_are_not_taken() {
    assert!(advance(start(Tool::ListUsers, &[]), Event::Nests(Ok(vec![]))).is_none());
    assert!(advance(start(Tool::ReadFile, &[]), Event::Catalog(None)).is_none());
    let done = start(Tool::GetSite, &[]);
    assert!(matches!(done, StepOf::Done(_)));
    assert!(advance(done, Event::Backups(None)).is_none());
}

#[test]
fn a_plugin_takes_two_steps() {
    let step = start(Tool::InstallPlugin, &[("plugin_id", "vault")]);
    assert!(matches!(step, StepOf::FetchVersions { .. }));
    let answer = br#"[{"files":[{"url":"http://f","filename":"v.jar"}]}]"#.to_vec();
    let next = advance(step, Event::Catalog(Some(answer))).unwrap();
    match &next {
        StepOf::Order { id, order: OrderOf::Pull { url, file_name, .. }, receipt, .. } => {
            assert_eq!(*id, ID);
            assert_eq!(url, "http://f");
            assert_eq!(file_name.as_deref(), Some("v.jar"));
            assert_eq!(receipt.reply.get("download_url").unwrap().as_str(), Some("http://f"));
        }
        _ => panic!("no order"),
    }
    let done = document(advance_at(next, Event::Ordered(NodeReply::Answered(())), "then"));
    assert_eq!(done["target_file"], "/plugins/v.jar");
    assert_eq!(done["installed_at"], "then");
}

#[test]
fn a_listed_server_can_be_fetched() {
    let row = || ServerRow {
        uuid: ID,
        name: "s".to_string(),
        node_uuid: 9,
        memory: 4,
        disk: 10,
        created: moment(),
    };
    let listed = document(advance(start(Tool::ListServers, &[]), Event::Servers(Ok(vec![row()]))));
    let uuid = listed["servers"][0]["uuid"].as_str().unwrap();
    let arguments = Json::object().with_text("server_uuid", uuid);
    let step = start_tool(Tool::GetServer, &arguments, 5, "now");
    assert!(matches!(step, StepOf::FetchServer { id: ID, .. }));
    let shown = document(advance(step, Event::Server(Ok(Some(row())))));
    assert_eq!(shown["daemon_state"]["memory_bytes"], 1048576);
    assert_eq!(shown["daemon_state"]["disk_bytes"], 1048576);
}

#[test]
fn a_listed_plugin_can_be_removed() {
    let entries = Event::Entries(NodeReply::Answered(vec![entry(" .jar"), entry("x.txt")]));
    let listed = document(advance(start(Tool::ListPlugins, &[]), entries));
    assert_eq!(listed["total_plugins"], 1);
    let filename = listed["plugins"][0]["filename"].as_str().unwrap();
    let step = start(Tool::RemovePlugin, &[("filename", filename)]);
    assert!(matches!(&step, StepOf::Delete { root, filename, .. } if root == "/plugins" && filename == " .jar"));
    let done = document(advance_at(step, Event::Deleted(NodeReply::Answered(1)), "then"));
    assert_eq!((&done["filename"], &done["deleted_count"]), (&" .jar".into(), &1.into()));
}

#[test]
fn texts_go_where_they_were_asked_for() {
    let logs = start(Tool::ReadConsole, &[]);
    let told = document(advance(logs, Event::Text(NodeReply::Answered(Ok("a\nb".to_string())))));
    assert_eq!((&told["lines_requested"], &told["lines_returned"]), (&50.into(), &2.into()));
    let file = start(Tool::ReadFile, &[("path", "p")]);
    let told = document(advance(file, Event::Text(NodeReply::Answered(Ok("a\nb".to_string())))));
    assert_eq!((&told["path"], &told["content"]), (&"p".into(), &"a\nb".into()));
}

#[test]
fn silence_of_the_catalog_is_no_error() {
    let search = start(Tool::SearchPlugins, &[("query", "q")]);
    assert_eq!(document(advance(search, Event::Catalog(None)))["total"], 2);
    let backups = start(Tool::ListBackups, &[]);
    assert_eq!(document(advance(backups, Event::Backups(None)))["total"], 0);
    let install = start(Tool::InstallPlugin, &[("plugin_id", "vault")]);
    assert!(finished(advance(install, Event::Catalog(None))).0);
}

#[test]
fn answers_that_are_no_documents_count_as_none() {
    for answer in [&b"<html>"[..], b"", b"{\"hits\": [{}]", b"\xff"] {
        let search = start(Tool::SearchPlugins, &[("query", "q")]);
        let found = document(advance(search, Event::Catalog(Some(answer.to_vec()))));
        assert_eq!(found["plugins"][0]["source"], "catalog");
    }
    let search = start(Tool::SearchPlugins, &[("query", "q")]);
    let answer = br#"{"hits":[{"title":"T","downloads":7}]}"#.to_vec();
    let found = document(advance(search, Event::Catalog(Some(answer))));
    assert_eq!((&found["plugins"][0]["name"], &found["plugins"][0]["downloads"]), (&"T".into(), &7.into()));
}

#[test]
fn errors_are_told_by_their_start() {
    let site = start(Tool::GetSite, &[("site_id", "Error: x")]);
    let (failed, text) = finished(Some(site));
    assert!(!failed && text.starts_with('{'));
    let (failed, text) = finished(Some(start(Tool::RemovePlugin, &[])));
    assert!(failed && text.starts_with("Error: "));
}
