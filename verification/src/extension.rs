//! The extension as the panel sees it: what it is, where it listens, and what
//! it tells about its key.

use vstd::prelude::*;

use crate::json::{lemma_lone_entry, Json, JsonTree};
use crate::text;

verus! {

/// `semver::Version`, carried to the panel.
#[verifier::external_type_specification]
#[verifier::external_body]
pub struct ExVersion(semver::Version);

/// `semver::VersionReq`, carried to the panel.
#[verifier::external_type_specification]
#[verifier::external_body]
pub struct ExVersionReq(semver::VersionReq);

/// The `semver` version with these numbers and nothing behind them.
pub uninterp spec fn release(major: u64, minor: u64, patch: u64) -> semver::Version;

/// The `semver` requirement that a text stands for, if it stands for one.
pub uninterp spec fn requirement(text: Seq<char>) -> Option<semver::VersionReq>;

/// `semver::Version::new`. The version depends on the three numbers alone.
#[verifier::external_body]
fn new_version(major: u64, minor: u64, patch: u64) -> (version: semver::Version)
    ensures
        version == release(major, minor, patch),
{
    semver::Version::new(major, minor, patch)
}

/// `semver::VersionReq::parse`. The requirement depends on the text alone, and
/// the requirement that the extension makes of the panel is one. Which other
/// texts are read is not stated.
#[verifier::external_body]
fn parse_requirement(text: &str) -> (parsed: Option<semver::VersionReq>)
    ensures
        parsed == requirement(text@),
        text@ == ">= 1.1.0"@ ==> parsed is Some,
{
    semver::VersionReq::parse(text).ok()
}

/// The decimal digits of a number.
pub open spec fn digits(n: nat) -> Seq<char>
    decreases n,
{
    if n < 10 {
        seq![(0x30 + n) as char]
    } else {
        digits(n / 10).push((0x30 + n % 10) as char)
    }
}

/// Three numbers with dots between.
pub open spec fn dotted(major: u64, minor: u64, patch: u64) -> Seq<char> {
    digits(major as nat) + seq!['.'] + digits(minor as nat) + seq!['.'] + digits(patch as nat)
}

/// The text of a version, as `semver` writes it.
pub uninterp spec fn version_text(version: semver::Version) -> Seq<char>;

/// `semver::Version::to_string`. The text depends on the version alone, and that
/// of a version with nothing behind its numbers is the numbers with dots
/// between.
#[verifier::external_body]
fn version_to_string(version: &semver::Version) -> (text: String)
    ensures
        text@ == version_text(*version),
        forall|major: u64, minor: u64, patch: u64|
            *version == #[trigger] release(major, minor, patch) ==> text@ == dotted(
                major,
                minor,
                patch,
            ),
{
    version.to_string()
}

/// The version of the extension.
pub open spec fn extension_version() -> semver::Version {
    release(1, 2, 1)
}

fn current_version() -> (version: semver::Version)
    ensures
        version == extension_version(),
{
    new_version(1, 2, 1)
}

/// The version of the extension, as it is told.
pub(crate) fn told_version() -> (text: String)
    ensures
        text@ == "1.2.1"@,
        text@ == version_text(extension_version()),
{
    let version = current_version();
    assert(version == release(1, 2, 1));
    let text = version_to_string(&version);
    proof {
        reveal_strlit("1.2.1");
        assert(dotted(1, 2, 1) =~= "1.2.1"@);
    }
    text
}

/// The extension.
#[derive(Default)]
pub struct ExtensionStruct;

/// What the extension's package says of itself.
pub struct MetadataToml {
    pub package_name: &'static str,
    pub name: &'static str,
    /// The versions of the panel that it works with.
    pub panel_version: semver::VersionReq,
    pub license_text: Option<&'static str>,
}

/// The extension with what the panel shows of it.
pub struct ConstructedExtension {
    pub metadata_toml: MetadataToml,
    pub package_name: &'static str,
    pub description: &'static str,
    pub authors: Vec<&'static str>,
    pub version: semver::Version,
    pub extension: ExtensionStruct,
}

/// The extension with what the panel shows of it.
pub fn get_extension() -> (res: ConstructedExtension)
    ensures
        res.metadata_toml.package_name@ == "dev.calagopus.mcpserver"@,
        res.metadata_toml.name@ == "MCP Connector"@,
        requirement(">= 1.1.0"@) == Some(res.metadata_toml.panel_version),
        res.metadata_toml.license_text matches Some(license) && license@
            == "Custom License - Copyright (c) 2026 Pato. Non-commercial, Attribution Required."@,
        res.package_name@ == "dev.calagopus.mcpserver"@,
        res.description@
            == "Exposes Calagopus Game Panel management tools (26 tools) via Model Context Protocol (MCP) JSON-RPC 2.0 and SSE transports."@,
        text::slices_view(res.authors@) == seq!["Pato"@],
        res.version == release(1, 2, 1),
{
    let mut authors: Vec<&'static str> = Vec::new();
    authors.push("Pato");
    assert(text::slices_view(authors@) =~= seq!["Pato"@]);
    ConstructedExtension {
        metadata_toml: MetadataToml {
            package_name: "dev.calagopus.mcpserver",
            name: "MCP Connector",
            panel_version: parse_requirement(">= 1.1.0").unwrap(),
            license_text: Some(
                "Custom License - Copyright (c) 2026 Pato. Non-commercial, Attribution Required.",
            ),
        },
        package_name: "dev.calagopus.mcpserver",
        description: "Exposes Calagopus Game Panel management tools (26 tools) via Model Context Protocol (MCP) JSON-RPC 2.0 and SSE transports.",
        authors,
        version: current_version(),
        extension: ExtensionStruct,
    }
}

// ---------------------------------------------------------------------------
// Routes
// ---------------------------------------------------------------------------

/// What answers at a path.
#[derive(Clone, Copy, Debug, PartialEq, Eq, Structural)]
pub enum Endpoint {
    /// The connector itself, for requests of any method.
    Universal,
    /// The key in force, for `GET` requests.
    Key,
    /// A new key, for requests of any method.
    RotateKey,
    /// The state of the extension, for `GET` requests.
    Status,
}

/// The paths that the extension listens at, with what answers there.
pub open spec fn route_table() -> Seq<(Seq<char>, Endpoint)> {
    seq![
        ("/api/extensions/mcp/v1/info"@, Endpoint::Universal),
        ("/api/extensions/mcp/v1/messages"@, Endpoint::Universal),
        ("/api/extensions/mcp/v1/sse"@, Endpoint::Universal),
        ("/api/extensions/mcp/v1/key"@, Endpoint::Key),
        ("/api/extensions/mcp/v1/key/rotate"@, Endpoint::RotateKey),
        ("/api/extensions/mcp/v1/status"@, Endpoint::Status),
        ("/mcp"@, Endpoint::Universal),
        ("/api/mcp"@, Endpoint::Universal),
    ]
}

pub open spec fn routes_view(routes: Seq<(&'static str, Endpoint)>) -> Seq<(Seq<char>, Endpoint)> {
    routes.map_values(|route: (&'static str, Endpoint)| (route.0@, route.1))
}

/// The paths that the extension listens at, with what answers there.
pub fn routes() -> (res: Vec<(&'static str, Endpoint)>)
    ensures
        routes_view(res@) == route_table(),
{
    let mut res: Vec<(&'static str, Endpoint)> = Vec::new();
    res.push(("/api/extensions/mcp/v1/info", Endpoint::Universal));
    res.push(("/api/extensions/mcp/v1/messages", Endpoint::Universal));
    res.push(("/api/extensions/mcp/v1/sse", Endpoint::Universal));
    res.push(("/api/extensions/mcp/v1/key", Endpoint::Key));
    res.push(("/api/extensions/mcp/v1/key/rotate", Endpoint::RotateKey));
    res.push(("/api/extensions/mcp/v1/status", Endpoint::Status));
    res.push(("/mcp", Endpoint::Universal));
    res.push(("/api/mcp", Endpoint::Universal));
    assert(routes_view(res@) =~= route_table());
    res
}

// ---------------------------------------------------------------------------
// The key
// ---------------------------------------------------------------------------

/// The address of the stream for a client with that key.
pub open spec fn stream_url(key: Seq<char>) -> Seq<char> {
    "/api/extensions/mcp/v1/sse?api_key="@ + key
}

/// The header with that key.
pub open spec fn header_example(key: Seq<char>) -> Seq<char> {
    "Authorization: Bearer "@ + key
}

pub open spec fn key_tree(key: Seq<char>) -> JsonTree {
    JsonTree::object().with_text("status"@, "ok"@).with_text("secret_key"@, key).with_text(
        "sse_url"@,
        stream_url(key),
    ).with_text("header_example"@, header_example(key))
}

pub open spec fn rotated_tree(key: Seq<char>) -> JsonTree {
    JsonTree::object().with_text("status"@, "ok"@).with_text(
        "message"@,
        "MCP Secret Key successfully rotated."@,
    ).with_text("secret_key"@, key).with_text("sse_url"@, stream_url(key)).with_text(
        "header_example"@,
        header_example(key),
    )
}

pub open spec fn status_tree(key: Seq<char>) -> JsonTree {
    JsonTree::object().with_text("package_name"@, "dev.calagopus.mcpserver"@).with_text(
        "name"@,
        "MCP Connector"@,
    ).with_text("version"@, "1.2.1"@).with_text("author"@, "Pato"@).with_text(
        "status"@,
        "active"@,
    ).with_text("secret_key"@, key).with("tools_count"@, JsonTree::Number(26)).with(
        "endpoints"@,
        JsonTree::object().with_text("key"@, "/api/extensions/mcp/v1/key"@).with_text(
            "rotate_key"@,
            "/api/extensions/mcp/v1/key/rotate"@,
        ).with_text("sse"@, stream_url(key)).with_text(
            "messages"@,
            "/api/extensions/mcp/v1/messages"@,
        ).with_text("info"@, "/api/extensions/mcp/v1/info"@),
    )
}

/// The version is found in the state of the extension.
proof fn lemma_told_version(key: Seq<char>)
    ensures
        status_tree(key).get("version"@) == Some(JsonTree::Text("1.2.1"@)),
{
    reveal_strlit("version");
    reveal_strlit("author");
    reveal_strlit("status");
    reveal_strlit("secret_key");
    reveal_strlit("tools_count");
    reveal_strlit("endpoints");
    assert("version"@.len() == 7 && "author"@.len() == 6 && "status"@.len() == 6);
    assert("secret_key"@.len() == 10 && "tools_count"@.len() == 11 && "endpoints"@.len() == 9);
    lemma_lone_entry(status_tree(key)->Object_0, 2);
}

fn stream_url_text(key: &str) -> (res: String)
    ensures
        res@ == stream_url(key@),
{
    "/api/extensions/mcp/v1/sse?api_key=".to_string().concat(key)
}

fn header_example_text(key: &str) -> (res: String)
    ensures
        res@ == header_example(key@),
{
    "Authorization: Bearer ".to_string().concat(key)
}

/// What is told about the key in force.
pub fn get_mcp_key_handler(key: &str) -> (res: Json)
    ensures
        res@ == key_tree(key@),
{
    Json::object().with_text("status", "ok").with_text("secret_key", key).with_text(
        "sse_url",
        stream_url_text(key).as_str(),
    ).with_text("header_example", header_example_text(key).as_str())
}

/// What is told about a new key.
pub fn rotate_mcp_key_handler(new_key: &str) -> (res: Json)
    ensures
        res@ == rotated_tree(new_key@),
{
    Json::object().with_text("status", "ok").with_text(
        "message",
        "MCP Secret Key successfully rotated.",
    ).with_text("secret_key", new_key).with_text(
        "sse_url",
        stream_url_text(new_key).as_str(),
    ).with_text("header_example", header_example_text(new_key).as_str())
}

/// The state of the extension. The version that it tells is the extension's.
pub fn get_mcp_status_handler(key: &str) -> (res: Json)
    ensures
        res@ == status_tree(key@),
        res@.get("version"@) == Some(JsonTree::Text(version_text(extension_version()))),
{
    let endpoints = Json::object().with_text("key", "/api/extensions/mcp/v1/key").with_text(
        "rotate_key",
        "/api/extensions/mcp/v1/key/rotate",
    ).with_text("sse", stream_url_text(key).as_str()).with_text(
        "messages",
        "/api/extensions/mcp/v1/messages",
    ).with_text("info", "/api/extensions/mcp/v1/info");
    proof {
        lemma_told_version(key@);
    }
    Json::object().with_text("package_name", "dev.calagopus.mcpserver").with_text(
        "name",
        "MCP Connector",
    ).with_text("version", told_version().as_str()).with_text("author", "Pato").with_text(
        "status",
        "active",
    ).with_text("secret_key", key).with("tools_count", Json::number(26)).with(
        "endpoints",
        endpoints,
    )
}

} // verus!
