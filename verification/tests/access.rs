use calagopus_mcp::auth::{auth_disabled, check_mcp_auth, Guard, Header, HttpRequest};
use calagopus_mcp::extension::{
    get_mcp_key_handler, get_mcp_status_handler, rotate_mcp_key_handler,
};
use calagopus_mcp::json::Json;
use calagopus_mcp::secret::{
    configured_secret, get_or_generate_mcp_secret, mcp_secret_from, rotate_mcp_secret, Secret,
};

const KEY: &str = "calagopus_mcp_sec_052ef6fe079321fe1fac23eae66f7db7";

fn request(headers: &[(&str, &[u8])], query: Option<&str>) -> HttpRequest {
    HttpRequest {
        method: "POST".to_string(),
        headers: headers
            .iter()
            .map(|(n, v)| Header { name: n.to_string(), value: v.to_vec() })
            .collect(),
        query: query.map(|q| q.to_string()),
        body: Vec::new(),
    }
}

fn admitted(secret: &str, headers: &[(&str, &[u8])], query: Option<&str>) -> bool {
    check_mcp_auth(&Guard::Locked(secret.to_string()), &request(headers, query)).is_ok()
}

fn text<'a>(json: &'a Json, key: &str) -> &'a str {
    json.get(key).unwrap().as_str().unwrap()
}

#[test]
fn the_readme_address_is_let_in() {
    assert!(admitted(KEY, &[], Some("api_key=calagopus_mcp_sec_052ef6fe079321fe1fac23eae66f7db7")));
}

#[test]
fn bearer_tokens() {
    let good = format!("Bearer {KEY}");
    assert!(admitted(KEY, &[("authorization", good.as_bytes())], None));
    let spaced = format!("Bearer   {KEY}\t");
    assert!(admitted(KEY, &[("authorization", spaced.as_bytes())], None));
    let twice = format!("Bearer Bearer {KEY}");
    assert!(admitted(KEY, &[("authorization", twice.as_bytes())], None));
    let lower = format!("bearer {KEY}");
    assert!(!admitted(KEY, &[("authorization", lower.as_bytes())], None));
    assert!(!admitted(KEY, &[("authorization", KEY.as_bytes())], None));
    assert!(!admitted(KEY, &[("authorization", b"Bearer wrong")], None));
}

#[test]
fn a_secret_that_starts_like_a_bearer_cannot_be_borne() {
    assert!(!admitted("Bearer x", &[("authorization", b"Bearer Bearer x")], None));
    assert!(admitted("Bearer x", &[("x-mcp-key", b"Bearer x")], None));
}

#[test]
fn key_headers() {
    assert!(admitted(KEY, &[("x-mcp-key", KEY.as_bytes())], None));
    assert!(admitted(KEY, &[("x-api-key", format!(" {KEY} ").as_bytes())], None));
    // The first of the two names decides, also where its value is no text.
    assert!(!admitted(KEY, &[("x-api-key", KEY.as_bytes()), ("x-mcp-key", b"no")], None));
    assert!(!admitted(KEY, &[("x-api-key", KEY.as_bytes()), ("x-mcp-key", b"\xff")], None));
    // The first value of a header decides.
    assert!(!admitted(KEY, &[("x-mcp-key", b"no"), ("x-mcp-key", KEY.as_bytes())], None));
}

#[test]
fn header_values_that_are_no_text() {
    for bad in [&b"k\xe9y"[..], b"k\x7fy", b"k\x01y", b"k\ny"] {
        let lossy = String::from_utf8_lossy(bad).to_string();
        assert!(!admitted(&lossy, &[("x-mcp-key", bad)], None));
    }
    assert!(admitted("a\tb", &[("x-mcp-key", b"a\tb")], None));
}

#[test]
fn query_parameters() {
    for name in ["api_key", "token", "key", "api-key", "mcp_key"] {
        assert!(admitted("s=1", &[], Some(&format!("a=b&{name}=s=1&c"))));
        assert!(!admitted("s=1", &[], Some(&format!("a=b&x{name}=s=1&c"))));
    }
    assert!(!admitted("s&1", &[], Some("key=s&1")));
    assert!(!admitted("s", &[], Some("key= s")));
    assert!(!admitted("s", &[], Some("key")));
    assert!(!admitted("s", &[], None));
}

#[test]
fn refusals_say_how_to_get_in() {
    let refused = check_mcp_auth(&Guard::Locked(KEY.to_string()), &request(&[], None));
    let reply = match refused {
        Ok(()) => panic!("let in"),
        Err(reply) => reply,
    };
    assert_eq!(reply.status, 401);
    assert_eq!(text(&reply.body, "jsonrpc"), "2.0");
    let error = reply.body.get("error").unwrap();
    assert_eq!(error.get("code").unwrap().as_i64(), Some(-32001));
    assert_eq!(
        text(error, "message"),
        "Unauthorized: Invalid or missing MCP authentication secret key. Provide 'Authorization: Bearer <key>', 'X-MCP-Key: <key>', or query parameter '?api_key=<key>'."
    );
    assert!(check_mcp_auth(&Guard::Open, &request(&[], None)).is_ok());
}

#[test]
fn only_true_switches_the_check_off() {
    assert!(auth_disabled(Some("true")));
    assert!(!auth_disabled(Some("TRUE")));
    assert!(!auth_disabled(Some(" true")));
    assert!(!auth_disabled(None));
}

#[test]
fn the_environment_comes_first() {
    assert_eq!(configured_secret(Some(" k ")), Some("k".to_string()));
    assert_eq!(configured_secret(Some(" \t")), None);
    assert_eq!(configured_secret(None), None);
    assert!(matches!(get_or_generate_mcp_secret(Some(" k "), Some("s")), Secret::Configured(k) if k == "k"));
    assert!(matches!(get_or_generate_mcp_secret(Some(" "), Some(" s ")), Secret::Stored(k) if k == " s "));
    assert!(matches!(get_or_generate_mcp_secret(None, Some("  ")), Secret::Fresh(_)));
    let fresh = get_or_generate_mcp_secret(None, None);
    assert!(matches!(fresh, Secret::Fresh(_)));
    assert_eq!(fresh.into_key().len(), 50);
}

#[test]
fn fresh_keys() {
    let key = rotate_mcp_secret();
    let digits = key.strip_prefix("calagopus_mcp_sec_").unwrap();
    assert_eq!(digits.len(), 32);
    assert!(digits.chars().all(|c| c.is_ascii_digit() || ('a'..='f').contains(&c)));
    assert_eq!(&digits[12..13], "4");
    assert!("89ab".contains(&digits[16..17]));
    assert_ne!(key, rotate_mcp_secret());
    assert!(admitted(&key, &[("authorization", format!("Bearer {key}").as_bytes())], None));
    assert!(admitted(&key, &[], Some(&format!("api_key={key}"))));
}

#[test]
fn keys_are_made_from_uuids() {
    assert_eq!(mcp_secret_from(0x052ef6fe079321fe1fac23eae66f7db7), KEY);
    assert_eq!(mcp_secret_from(0), "calagopus_mcp_sec_00000000000000000000000000000000");
}

#[test]
fn what_is_told_about_the_key_works() {
    let told = get_mcp_key_handler(KEY);
    assert_eq!(text(&told, "status"), "ok");
    assert_eq!(text(&told, "secret_key"), KEY);
    let (path, query) = text(&told, "sse_url").split_once('?').unwrap();
    assert_eq!(path, "/api/extensions/mcp/v1/sse");
    assert!(admitted(KEY, &[], Some(query)));
    let value = text(&told, "header_example").strip_prefix("Authorization: ").unwrap();
    assert!(admitted(KEY, &[("authorization", value.as_bytes())], None));
    let rotated = rotate_mcp_key_handler(KEY);
    assert_eq!(text(&rotated, "message"), "MCP Secret Key successfully rotated.");
    assert_eq!(text(&rotated, "header_example"), format!("Authorization: Bearer {KEY}"));
    let status = get_mcp_status_handler(KEY);
    assert_eq!(text(&status, "version"), "1.2.1");
    assert_eq!(status.get("tools_count").unwrap().as_i64(), Some(26));
    assert_eq!(
        text(status.get("endpoints").unwrap(), "sse"),
        format!("/api/extensions/mcp/v1/sse?api_key={KEY}")
    );
}

#[test]
fn a_written_key_is_kept() {
    let key = rotate_mcp_secret();
    assert!(matches!(get_or_generate_mcp_secret(None, Some(&key)), Secret::Stored(k) if k == key));
    assert!(matches!(get_or_generate_mcp_secret(Some(""), Some(&key)), Secret::Stored(k) if k == key));
    assert!(matches!(get_or_generate_mcp_secret(Some("x"), Some(&key)), Secret::Configured(k) if k == "x"));
}

#[test]
fn an_old_key_is_refused() {
    let (old, new) = (rotate_mcp_secret(), rotate_mcp_secret());
    for (sent, opens) in [(&old, false), (&new, true)] {
        let value = format!("Bearer {sent}");
        assert_eq!(admitted(&new, &[("authorization", value.as_bytes())], None), opens);
        assert_eq!(admitted(&new, &[("x-mcp-key", sent.as_bytes())], None), opens);
        assert_eq!(admitted(&new, &[("x-api-key", sent.as_bytes())], None), opens);
        assert_eq!(admitted(&new, &[], Some(&format!("token={sent}"))), opens);
    }
}

#[test]
fn keys_that_only_some_ways_can_hold() {
    let new = rotate_mcp_secret();
    for way in ["x-mcp-key", "x-api-key"] {
        for old in ["a&b", "Bearer x"] {
            assert!(admitted(old, &[(way, old.as_bytes())], None));
            assert!(!admitted(&new, &[(way, old.as_bytes())], None));
        }
    }
    assert!(admitted(" x ", &[], Some("key= x ")));
    assert!(!admitted(&new, &[], Some("key= x ")));
}

#[test]
fn a_configured_key_is_told_so_that_it_works() {
    let key = configured_secret(Some(" my=key ")).unwrap();
    let told = get_mcp_key_handler(&key);
    let query = text(&told, "sse_url").split_once('?').unwrap().1;
    assert!(admitted(&key, &[], Some(query)));
    let value = text(&told, "header_example").strip_prefix("Authorization: ").unwrap();
    assert!(admitted(&key, &[("authorization", value.as_bytes())], None));
}
