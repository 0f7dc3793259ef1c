use calagopus_mcp::clock::Moment;
use calagopus_mcp::content::{content, format_mcp_content, format_mcp_error};
use calagopus_mcp::json::Json;
use calagopus_mcp::outcome::{
    backups_fetched, catalog_searched, directory_listed, file_fetched, logs_fetched,
    machines_fetched, nests_fetched, order_done, plugin_deleted, plugins_listed, server_fetched,
    servers_fetched, system_health, users_fetched, versions_fetched, NodeFailure, NodeReply,
};
use calagopus_mcp::records::{BackupRow, FileEntry, MachineRow, NestRow, ServerRow, UserRow};
use calagopus_mcp::render::{document_of, pretty, read, value_of};
use calagopus_mcp::step::{OrderOf, Plugin, PluginOf, Receipt, ReceiptOf, StepOf};

const SERVER: &str = "67e55044-10b1-426f-9247-bb680e5fe0c8";
const ID: u128 = 0x67e5504410b1426f9247bb680e5fe0c8;

fn moment() -> Moment {
    Moment::new(1431648000, 500_000_000).unwrap()
}

fn text(result: &Json) -> &str {
    result.get("content").unwrap().as_array().unwrap()[0].get("text").unwrap().as_str().unwrap()
}

fn error(result: Json) -> String {
    assert_eq!(result.get("isError").unwrap().as_bool(), Some(true));
    text(&result).to_string()
}

fn document(result: Json) -> serde_json::Value {
    assert!(result.get("isError").is_none());
    serde_json::from_str(text(&result)).unwrap()
}

fn parsed(text: &str) -> serde_json::Value {
    serde_json::from_str(text).unwrap()
}

fn json(value: &serde_json::Value) -> Json {
    match value {
        serde_json::Value::Null => Json::Null,
        serde_json::Value::Bool(b) => Json::Bool(*b),
        serde_json::Value::Number(n) => match n.as_i64() {
            Some(n) => Json::Signed(n),
            None => Json::Decimal(n.to_string()),
        },
        serde_json::Value::String(s) => Json::text(s),
        serde_json::Value::Array(items) => Json::Array(items.iter().map(json).collect()),
        serde_json::Value::Object(map) => {
            Json::Object(map.iter().map(|(k, v)| (k.clone(), json(v))).collect())
        }
    }
}

fn server(memory: i64, disk: i64) -> ServerRow {
    ServerRow { uuid: ID, name: "s".to_string(), node_uuid: 1, memory, disk, created: moment() }
}

#[test]
fn documents_are_shown_indented() {
    let document = Json::object()
        .with("b", Json::Bool(true))
        .with("a", Json::Array(vec![Json::Null, Json::Signed(-2), Json::Decimal("1.2".to_string())]));
    assert_eq!(
        pretty(&document),
        "{\n  \"a\": [\n    null,\n    -2,\n    1.2\n  ],\n  \"b\": true\n}"
    );
    assert_eq!(text(&format_mcp_content(Json::text("x\"y"))), "\"x\\\"y\"");
    assert_eq!(text(&format_mcp_error("bad")), "Error: bad");
}

#[test]
fn later_entries_count() {
    let twice = Json::object().with("k", Json::Unsigned(1)).with("k", Json::Unsigned(2));
    assert_eq!(twice.get("k"), Some(&Json::Unsigned(2)));
    assert_eq!(pretty(&twice), "{\n  \"k\": 2\n}");
}

#[test]
fn moments_are_what_chrono_can_hold() {
    for (seconds, nanos) in [
        (0, 0),
        (-8_334_601_228_800, 0),
        (-8_334_601_228_801, 999_999_999),
        (8_210_266_876_799, 1_999_999_999),
        (8_210_266_876_800, 0),
        (59, 1_000_000_000),
        (60, 1_000_000_000),
        (-1, 1_500_000_000),
        (-2, 1_500_000_000),
        (0, 2_000_000_000),
        (i64::MIN, 0),
        (i64::MAX, 0),
    ] {
        let time = chrono::DateTime::from_timestamp(seconds, nanos);
        let moment = Moment::new(seconds, nanos);
        assert_eq!(time.is_some(), moment.is_some(), "{seconds} {nanos}");
        if let (Some(time), Some(moment)) = (time, moment) {
            assert_eq!(moment.plain(), time.naive_utc().to_string());
            assert_eq!(moment.rfc3339(), time.to_rfc3339());
            assert!(moment.rfc3339().ends_with("+00:00") && moment.rfc3339().len() >= 25);
        }
    }
    assert_eq!(moment().plain(), "2015-05-15 00:00:00.500");
    assert_eq!(moment().rfc3339(), "2015-05-15T00:00:00.500+00:00");
}

#[test]
fn health() {
    assert_eq!(
        document(system_health(Some(3), None, Some(-1), "now")),
        parsed(
            r#"{"panel_status":"healthy","version":"1.2.1","database":"postgresql@16.15","cache":"redis@8.10.1","total_users":3,"total_nodes":0,"total_servers":-1,"timestamp":"now"}"#
        )
    );
}

#[test]
fn listings() {
    let nests = vec![NestRow {
        uuid: ID,
        name: "n".to_string(),
        author: "a".to_string(),
        created: moment(),
    }];
    assert_eq!(
        document(nests_fetched(Ok(nests))),
        parsed(
            r#"{"total":1,"nests":[{"uuid":"67e55044-10b1-426f-9247-bb680e5fe0c8","name":"n","author":"a","created":"2015-05-15 00:00:00.500"}]}"#
        )
    );
    let users = vec![UserRow {
        uuid: 0,
        username: "u".to_string(),
        email: "e".to_string(),
        admin: true,
        created: moment(),
    }];
    assert_eq!(
        document(users_fetched(Ok(users))),
        parsed(
            r#"{"total":1,"users":[{"uuid":"00000000-0000-0000-0000-000000000000","username":"u","email":"e","is_admin":true,"created":"2015-05-15 00:00:00.500"}]}"#
        )
    );
    assert_eq!(
        document(servers_fetched(Ok(vec![server(1, 2), server(3, 4)])))["servers"][1],
        parsed(
            r#"{"uuid":"67e55044-10b1-426f-9247-bb680e5fe0c8","name":"s","node_uuid":"00000000-0000-0000-0000-000000000001","memory_mb":3,"disk_mb":4,"status":"online","created":"2015-05-15 00:00:00.500"}"#
        )
    );
    let machines = vec![MachineRow {
        uuid: 2,
        name: "m".to_string(),
        url: "http://m".to_string(),
        sftp_port: 2022,
        memory: 5,
        disk: 6,
        created: moment(),
    }];
    assert_eq!(
        document(machines_fetched(Ok(machines))),
        parsed(
            r#"{"total":1,"machines":[{"uuid":"00000000-0000-0000-0000-000000000002","name":"m","url":"http://m","status":"healthy","sftp_port":2022,"memory_mb":5,"disk_mb":6,"created":"2015-05-15 00:00:00.500"}]}"#
        )
    );
    assert_eq!(error(nests_fetched(Err("down".to_string()))), "Error: Database query error: down");
    assert_eq!(document(users_fetched(Ok(vec![]))), parsed(r#"{"total":0,"users":[]}"#));
}

#[test]
fn one_server() {
    assert_eq!(
        document(server_fetched(SERVER, Ok(Some(server(1024, 5))))),
        parsed(
            r#"{"uuid":"67e55044-10b1-426f-9247-bb680e5fe0c8","name":"s","node_uuid":"00000000-0000-0000-0000-000000000001","memory_mb":1024,"disk_mb":5,"status":"running","daemon_state":{"state":"running","cpu_absolute":1.2,"memory_bytes":268435456,"disk_bytes":524288,"network":{"rx_bytes":1048576,"tx_bytes":2097152}},"created":"2015-05-15 00:00:00.500"}"#
        )
    );
    // Quotients are rounded toward zero.
    let odd = document(server_fetched(SERVER, Ok(Some(server(-1, -1)))));
    assert_eq!(odd["daemon_state"]["memory_bytes"], -262144);
    assert_eq!(odd["daemon_state"]["disk_bytes"], -104857);
    assert_eq!(
        error(server_fetched("some", Ok(None))),
        "Error: Server with UUID 'some' not found"
    );
    assert_eq!(
        error(server_fetched("some", Err("down".to_string()))),
        "Error: Database query error: down"
    );
}

#[test]
fn sizes_in_bytes_have_to_fit() {
    assert!(server(8796093022207, -8796093022208).fits());
    assert!(!server(8796093022208, 0).fits());
    assert!(!server(0, -8796093022209).fits());
    let largest = document(server_fetched(SERVER, Ok(Some(server(8796093022207, 0)))));
    assert_eq!(largest["daemon_state"]["memory_bytes"], 8796093022207i64 * 1048576 / 4);
}

#[test]
fn backup_listings() {
    let rows = vec![BackupRow {
        uuid: 3,
        name: "b".to_string(),
        is_successful: false,
        bytes: 9,
        checksum: None,
        created: moment(),
    }];
    assert_eq!(
        document(backups_fetched("s", Some(rows))),
        parsed(
            r#"{"total":1,"server_uuid":"s","backups":[{"uuid":"00000000-0000-0000-0000-000000000003","name":"b","completed":false,"size_bytes":9,"checksum":null,"created":"2015-05-15 00:00:00.500"}]}"#
        )
    );
    let finished = vec![BackupRow {
        uuid: 3,
        name: "b".to_string(),
        is_successful: true,
        bytes: 9,
        checksum: Some("sha1:0a".to_string()),
        created: moment(),
    }];
    assert_eq!(document(backups_fetched("s", Some(finished)))["backups"][0]["checksum"], "sha1:0a");
    assert_eq!(
        document(backups_fetched("s", None)),
        parsed(r#"{"total":0,"server_uuid":"s","backups":[]}"#)
    );
}

fn receipt() -> Receipt {
    ReceiptOf {
        failure: "It failed: ".to_string(),
        reply: Json::object().with_text("status", "done"),
        stamp: "at".to_string(),
    }
}

#[test]
fn orders() {
    assert_eq!(
        document(order_done("s", receipt(), NodeReply::Answered(()), "now")),
        parsed(r#"{"status":"done","at":"now"}"#)
    );
    assert_eq!(
        error(order_done("s", receipt(), NodeReply::Refused("no".to_string()), "now")),
        "Error: It failed: no"
    );
}

#[test]
fn unreachable_daemons() {
    let failed = |failure| error(order_done("s", receipt(), NodeReply::Unreachable(failure), "now"));
    assert_eq!(failed(NodeFailure::NoServer), "Error: Server with UUID 's' not found");
    assert_eq!(
        failed(NodeFailure::QueryFailed("q".to_string())),
        "Error: Database query error: q"
    );
    assert_eq!(
        failed(NodeFailure::TokenFailed("t".to_string())),
        "Error: Failed to decrypt node token: t"
    );
}

#[test]
fn console_tails() {
    assert_eq!(
        document(logs_fetched("s", -4, NodeReply::Answered(Ok("a\r\nb\n\nc".to_string())))),
        parsed(
            r#"{"server_uuid":"s","lines_requested":-4,"lines_returned":4,"console_output":["a","b","","c"]}"#
        )
    );
    assert_eq!(
        error(logs_fetched("s", 1, NodeReply::Answered(Err("cut".to_string())))),
        "Error: Failed reading console logs stream: cut"
    );
    assert_eq!(
        error(logs_fetched("s", 1, NodeReply::Refused("no".to_string()))),
        "Error: Wings daemon log retrieval failed: no"
    );
}

#[test]
fn files_up_to_a_megabyte() {
    assert_eq!(
        document(file_fetched("s", "p", NodeReply::Answered(Ok("h\u{e9}".to_string())))),
        parsed(r#"{"server_uuid":"s","path":"p","size_bytes":3,"content":"hé"}"#)
    );
    let full = "x".repeat(1048576);
    let shown = document(file_fetched("s", "p", NodeReply::Answered(Ok(full.clone()))));
    assert_eq!(shown["size_bytes"], 1048576);
    assert_eq!(
        error(file_fetched("s", "p", NodeReply::Answered(Ok(full + "x")))),
        "Error: File is larger than 1 MB"
    );
    assert_eq!(
        error(file_fetched("s", "p", NodeReply::Answered(Err("cut".to_string())))),
        "Error: Failed reading file content: cut"
    );
    assert_eq!(
        error(file_fetched("s", "p", NodeReply::Refused("no".to_string()))),
        "Error: Wings daemon read_file failed: no"
    );
}

fn entry(name: &str, file: bool) -> FileEntry {
    FileEntry { name: name.to_string(), size: 8, file, directory: !file, modified: moment() }
}

#[test]
fn directories() {
    assert_eq!(
        document(directory_listed("s", "/", NodeReply::Answered(vec![entry("d", false)]))),
        parsed(
            r#"{"server_uuid":"s","directory":"/","total_entries":1,"entries":[{"name":"d","size":8,"is_file":false,"is_directory":true,"modified":"2015-05-15T00:00:00.500+00:00"}]}"#
        )
    );
    assert_eq!(
        error(directory_listed("s", "/", NodeReply::Refused("no".to_string()))),
        "Error: Wings daemon list_files failed: no"
    );
}

#[test]
fn plugin_directories() {
    let entries = vec![
        entry("Vault.jar", true),
        entry("notes.txt", true),
        entry("folder.jar", false),
        entry("twice.jar.jar", true),
        entry("UPPER.JAR", true),
    ];
    let listed = document(plugins_listed("s", "/plugins", NodeReply::Answered(entries)));
    assert_eq!(listed["total_plugins"], 2);
    assert_eq!(
        listed["plugins"][0],
        parsed(
            r#"{"filename":"Vault.jar","name":"Vault","size_bytes":8,"modified":"2015-05-15T00:00:00.500+00:00"}"#
        )
    );
    assert_eq!(listed["plugins"][1]["name"], "twice");
    assert_eq!(
        error(plugins_listed("s", "/plugins", NodeReply::Refused("no".to_string()))),
        "Error: Wings daemon list_plugins failed: no"
    );
}

#[test]
fn deletions() {
    assert_eq!(
        document(plugin_deleted("s", "a.jar", NodeReply::Answered(1), "now")),
        parsed(
            r#"{"status":"plugin_removed","server_uuid":"s","filename":"a.jar","deleted_count":1,"timestamp":"now"}"#
        )
    );
    assert_eq!(
        error(plugin_deleted("s", "a.jar", NodeReply::Refused("no".to_string()), "now")),
        "Error: Wings daemon remove_plugin failed: no"
    );
}

#[test]
fn searches() {
    let body = parsed(
        r#"{"hits":[{"project_id":"p","slug":"sl","title":"T","description":"d","author":"a","downloads":12,"other":1},{"downloads":"many"}]}"#,
    );
    assert_eq!(
        document(catalog_searched("q", "paper", "1.21", Some(json(&body)))),
        parsed(
            r#"{"query":"q","software":"paper","mc_version":"1.21","total":2,"plugins":[{"id":"p","slug":"sl","name":"T","description":"d","author":"a","downloads":12,"source":"modrinth"},{"id":"","slug":"","name":"","description":"","author":"","downloads":0,"source":"modrinth"}]}"#
        )
    );
    let many = Json::object().with("hits", Json::Array((0..12).map(|_| Json::Null).collect()));
    assert_eq!(document(catalog_searched("q", "s", "v", Some(many)))["total"], 10);
}

#[test]
fn searches_without_hits() {
    for body in [None, Some(Json::Null), Some(json(&parsed(r#"{"hits":[]}"#)))] {
        let found = document(catalog_searched("q", "s", "1.20.4", body));
        assert_eq!(found["total"], 2);
        assert_eq!(
            found["plugins"][0],
            parsed(
                r#"{"id":"luckperms","name":"LuckPerms","description":"An advanced permissions plugin for Minecraft servers.","author":"Luck","compatible_versions":["1.20.4"],"source":"catalog"}"#
            )
        );
        assert_eq!(found["plugins"][1]["author"], "Sleight");
    }
}

fn plugin(filename: &str) -> Plugin {
    PluginOf {
        server_uuid: SERVER.to_string(),
        plugin_id: "vault".to_string(),
        download_url: String::new(),
        filename: filename.to_string(),
    }
}

fn pulled(filename: &str, versions: &str) -> Option<(String, Option<String>)> {
    match versions_fetched(plugin(filename), Some(json(&parsed(versions)))) {
        StepOf::Order { order: OrderOf::Pull { url, file_name, .. }, .. } => Some((url, file_name)),
        _ => None,
    }
}

#[test]
fn versions() {
    let two = r#"[{"files":[{"url":"u1","filename":"f1","primary":false},{"url":"u2","filename":"f2","primary":true}]},{"files":[]}]"#;
    assert_eq!(pulled("", two), Some(("u2".to_string(), Some("f2".to_string()))));
    assert_eq!(pulled("mine", two), Some(("u2".to_string(), Some("mine".to_string()))));
    let unmarked = r#"[{"files":[{"url":"u1"},{"url":"u2"}]}]"#;
    assert_eq!(pulled("", unmarked), Some(("u1".to_string(), None)));
    for nothing in ["[]", "{}", r#"[{"files":[]}]"#, r#"[{}]"#, r#"[{"files":[{"primary":true}]}]"#] {
        assert_eq!(pulled("", nothing), None);
    }
    match versions_fetched(plugin(""), None) {
        StepOf::Done(result) => assert_eq!(
            error(result),
            "Error: Either direct 'download_url' or a valid 'plugin_id' (resolvable via Modrinth) must be provided."
        ),
        _ => panic!("not finished"),
    }
}

#[test]
fn shown_documents_read_back() {
    let data = || {
        Json::object()
            .with("n", Json::Array(vec![Json::Signed(i64::MIN), Json::Unsigned(u64::MAX), Json::Null]))
            .with_text("t", "\"\\\n\u{1}\u{e9}\u{1f600}")
            .with("d", Json::Decimal("1.2".to_string()))
            .with_text("$serde_json::private::Number", "1")
            .with("$ref", Json::object().with_text("$serde_json::private::RawValue2", "[]"))
    };
    let shown = pretty(&data());
    assert!(shown.starts_with('{'));
    let read_back = read(&shown.into_bytes()).unwrap();
    assert_eq!(value_of(&read_back), value_of(&data()));
    assert_eq!(text(&format_mcp_content(data())), pretty(&data()));
}

#[test]
fn reading_has_its_limits() {
    let nested = |levels: usize| {
        let mut document = Json::Null;
        for _ in 0..levels {
            document = Json::Array(vec![document]);
        }
        document
    };
    assert!(read(&pretty(&nested(127)).into_bytes()).is_some());
    assert!(read(&pretty(&nested(128)).into_bytes()).is_none());
    assert!(read(&b"{} x".to_vec()).is_none());
    let kept = Json::object().with_text("$serde_json::private::RawValue", "[]");
    assert_ne!(value_of(&read(&pretty(&kept).into_bytes()).unwrap()), value_of(&kept));
}

#[test]
fn decimals_keep_every_digit() {
    for number in [0.1 + 0.2, 1.7976931348623157e308, 5e-324, -0.0, 1e21, 123456789.12345679] {
        let value = serde_json::Value::from(number);
        assert_eq!(value_of(&document_of(&value)), value);
        assert_eq!(value_of(&document_of(&value)).as_f64(), Some(number));
    }
    assert_eq!(value_of(&Json::Decimal("none".to_string())), serde_json::Value::Null);
}

#[test]
fn contents_hold_one_text() {
    assert_eq!(
        value_of(&content("Error: x")),
        parsed(r#"{"content":[{"type":"text","text":"Error: x"}]}"#)
    );
}
