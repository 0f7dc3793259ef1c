use calagopus_mcp::auth::{Guard, Header, HttpRequest};
use calagopus_mcp::extension::{get_extension, get_mcp_status_handler, routes, Endpoint};
use calagopus_mcp::json::Json;
use calagopus_mcp::rpc::{
    result_reply, universal_mcp_handler, universal_mcp_handler_with, Handling, HandlingOf,
    JsonRpcRequest,
};
use calagopus_mcp::step::StepOf;

fn value(json: &Json) -> serde_json::Value {
    match json {
        Json::Null => serde_json::Value::Null,
        Json::Bool(b) => serde_json::Value::from(*b),
        Json::Unsigned(n) => serde_json::Value::from(*n),
        Json::Signed(n) => serde_json::Value::from(*n),
        Json::Decimal(s) => serde_json::from_str(s).unwrap(),
        Json::Text(s) => serde_json::Value::from(s.as_str()),
        Json::Array(items) => items.iter().map(value).collect(),
        Json::Object(entries) => entries.iter().map(|(k, v)| (k.clone(), value(v))).collect(),
    }
}

fn parsed(text: &str) -> serde_json::Value {
    serde_json::from_str(text).unwrap()
}

fn request(method: &str, headers: &[(&str, &str)], body: &str) -> HttpRequest {
    HttpRequest {
        method: method.to_string(),
        headers: headers
            .iter()
            .map(|(n, v)| Header { name: n.to_string(), value: v.as_bytes().to_vec() })
            .collect(),
        query: None,
        body: body.as_bytes().to_vec(),
    }
}

fn message(id: Option<Json>, method: &str) -> Option<JsonRpcRequest> {
    Some(JsonRpcRequest {
        jsonrpc: Some("2.0".to_string()),
        id,
        method: Some(method.to_string()),
        params: None,
    })
}

fn handled(request: &HttpRequest, message: Option<JsonRpcRequest>) -> Handling {
    universal_mcp_handler_with(&Guard::Open, request, message, 7, "now")
}

fn body(handling: Handling) -> serde_json::Value {
    match handling {
        HandlingOf::Reply { status, body } => {
            assert_eq!(status, 200);
            value(&body)
        }
        _ => panic!("no reply"),
    }
}

#[test]
fn a_greeting() {
    let expected = r#"{"jsonrpc":"2.0","id":5,"result":{"protocolVersion":"2024-11-05","capabilities":{"tools":{"listChanged":true}},"serverInfo":{"name":"calagopus-mcp-connector","version":"1.2.1"}}}"#;
    let post = request("POST", &[], "{}");
    assert_eq!(body(handled(&post, message(Some(Json::Unsigned(5)), "initialize"))), parsed(expected));
}

#[test]
fn a_body_without_a_message_is_greeted() {
    let post = request("POST", &[], "not json");
    let reply = body(handled(&post, None));
    assert_eq!(reply["id"], 1);
    assert_eq!(reply["result"]["protocolVersion"], "2024-11-05");
    let bare = JsonRpcRequest { jsonrpc: None, id: None, method: None, params: None };
    assert_eq!(body(handled(&post, Some(bare))), reply);
}

#[test]
fn notifications_get_an_empty_result() {
    let post = request("POST", &[], "{}");
    let reply = body(handled(&post, message(Some(Json::text("a")), "notifications/initialized")));
    assert_eq!(reply, parsed(r#"{"jsonrpc":"2.0","id":"a","result":{}}"#));
}

#[test]
fn unknown_methods() {
    let post = request("POST", &[], "{}");
    let reply = body(handled(&post, message(None, "resources/list")));
    assert_eq!(
        reply,
        parsed(r#"{"jsonrpc":"2.0","id":1,"error":{"code":-32601,"message":"Method 'resources/list' not found"}}"#)
    );
}

#[test]
fn the_list_of_tools() {
    let post = request("POST", &[], "{}");
    let reply = body(handled(&post, message(None, "tools/list")));
    let tools = reply["result"]["tools"].as_array().unwrap();
    assert_eq!(tools.len(), 26);
    assert_eq!(
        tools[5],
        parsed(
            r#"{"name":"power-server","description":"Start, stop, restart, or kill a server daemon container.","inputSchema":{"type":"object","properties":{"server_uuid":{"type":"string","description":"The UUID of the target server"},"action":{"type":"string","enum":["start","stop","restart","kill"],"description":"Power action to execute"}},"required":["server_uuid","action"]}}"#
        )
    );
    assert_eq!(tools[0]["inputSchema"], parsed(r#"{"type":"object","properties":{}}"#));
    assert_eq!(
        tools[3]["inputSchema"],
        parsed(
            r#"{"type":"object","properties":{"limit":{"type":"integer","description":"Max servers to return (default 50)"}}}"#
        )
    );
}

#[test]
fn calls_carry_the_id_to_their_reply() {
    let post = request("POST", &[], "{}");
    let call = JsonRpcRequest {
        jsonrpc: None,
        id: Some(Json::Decimal("1.5".to_string())),
        method: Some("tools/call".to_string()),
        params: Some(Json::object().with_text("name", "list-users")),
    };
    match handled(&post, Some(call)) {
        HandlingOf::Call { id, step } => {
            assert!(matches!(step, StepOf::FetchUsers));
            let reply = result_reply(id, Json::text("done"));
            assert_eq!(reply.status, 200);
            assert_eq!(value(&reply.body), parsed(r#"{"jsonrpc":"2.0","id":1.5,"result":"done"}"#));
        }
        _ => panic!("no call"),
    }
}

fn endpoint(method: &str, headers: &[(&str, &str)], body: &str) -> Option<String> {
    match handled(&request(method, headers, body), None) {
        HandlingOf::Stream { endpoint } => Some(endpoint),
        _ => None,
    }
}

#[test]
fn streams() {
    assert_eq!(
        endpoint("GET", &[], "").unwrap(),
        "http://127.0.0.1:8000/api/extensions/mcp/v1/messages?session_id=00000000-0000-0000-0000-000000000007"
    );
    assert_eq!(
        endpoint(
            "GET",
            &[("host", "panel.example"), ("x-forwarded-proto", "https"), ("accept", "a, text/event-stream")],
            "body"
        )
        .unwrap(),
        "https://panel.example/api/extensions/mcp/v1/messages?session_id=00000000-0000-0000-0000-000000000007"
    );
    assert!(endpoint("GET", &[("accept", "*/*")], "body").is_some());
    assert!(endpoint("GET", &[("accept", "application/json")], "body").is_none());
    assert!(endpoint("GET", &[("accept", "application/json")], "").is_some());
    assert!(endpoint("POST", &[("accept", "*/*")], "").is_none());
    assert!(endpoint("GET", &[("x-forwarded-proto", "HTTPS")], "").unwrap().starts_with("http://"));
}

#[test]
fn a_locked_connector_refuses_whatever_is_asked() {
    let guard = Guard::Locked("k".to_string());
    for asked in [request("GET", &[], ""), request("POST", &[], "{}")] {
        for method in ["initialize", "tools/list", "tools/call", "other"] {
            let handling =
                universal_mcp_handler_with(&guard, &asked, message(None, method), 7, "now");
            assert!(matches!(handling, HandlingOf::Reply { status: 401, .. }));
        }
    }
    let sent = request("POST", &[("x-mcp-key", "k")], "{}");
    assert!(matches!(
        universal_mcp_handler(&guard, &sent, message(None, "initialize")),
        HandlingOf::Reply { status: 200, .. }
    ));
}

#[test]
fn sessions_are_fresh() {
    let get = request("GET", &[], "");
    let mut seen = Vec::new();
    for _ in 0..2 {
        match universal_mcp_handler(&Guard::Open, &get, None) {
            HandlingOf::Stream { endpoint } => {
                let session = endpoint.split_once("session_id=").unwrap().1.to_string();
                let id = uuid::Uuid::parse_str(&session).unwrap();
                assert_eq!(id.get_version_num(), 4);
                seen.push(session);
            }
            _ => panic!("no stream"),
        }
    }
    assert_ne!(seen[0], seen[1]);
}

#[test]
fn the_extension() {
    let extension = get_extension();
    assert_eq!(extension.package_name, "dev.calagopus.mcpserver");
    assert_eq!(extension.version, semver::Version::new(1, 2, 1));
    assert_eq!(extension.version.to_string(), "1.2.1");
    assert_eq!(extension.authors, vec!["Pato"]);
    let panel = extension.metadata_toml.panel_version;
    assert_eq!(panel.to_string(), ">=1.1.0");
    assert!(panel.matches(&semver::Version::new(1, 1, 0)));
    assert!(!panel.matches(&semver::Version::new(1, 0, 9)));
}

#[test]
fn the_documented_endpoints_are_routed() {
    let table = routes();
    assert_eq!(table.len(), 8);
    for path in ["/api/extensions/mcp/v1/info", "/api/extensions/mcp/v1/sse", "/api/extensions/mcp/v1/messages"] {
        assert!(table.contains(&(path, Endpoint::Universal)));
    }
    assert!(table.contains(&("/api/extensions/mcp/v1/key/rotate", Endpoint::RotateKey)));
}

#[test]
fn required_arguments_are_described() {
    let post = request("POST", &[], "{}");
    let reply = body(handled(&post, message(None, "tools/list")));
    let mut required = 0;
    for tool in reply["result"]["tools"].as_array().unwrap() {
        let schema = &tool["inputSchema"];
        for name in schema["required"].as_array().into_iter().flatten() {
            assert!(schema["properties"].get(name.as_str().unwrap()).is_some(), "{tool}");
            required += 1;
        }
    }
    assert_eq!(required, 32);
}

#[test]
fn the_state_of_the_extension_is_right() {
    let status = get_mcp_status_handler("k");
    let extension = get_extension();
    let told = |key: &str| status.get(key).unwrap().as_str().unwrap().to_string();
    assert_eq!(told("version"), extension.version.to_string());
    assert_eq!(told("package_name"), extension.package_name);
    assert_eq!(told("name"), extension.metadata_toml.name);
    assert_eq!(told("secret_key"), "k");
    let endpoints = status.get("endpoints").unwrap();
    for (key, endpoint) in [
        ("key", Endpoint::Key),
        ("rotate_key", Endpoint::RotateKey),
        ("sse", Endpoint::Universal),
        ("messages", Endpoint::Universal),
        ("info", Endpoint::Universal),
    ] {
        let address = endpoints.get(key).unwrap().as_str().unwrap();
        let path = address.split('?').next().unwrap();
        assert!(routes().contains(&(path, endpoint)), "{key}");
    }
}

#[test]
fn the_told_endpoint_is_routed() {
    let url = endpoint("GET", &[("host", "panel")], "").unwrap();
    let path = url.strip_prefix("http://panel").unwrap().split_once('?').unwrap().0;
    assert!(routes().contains(&(path, Endpoint::Universal)));
}
