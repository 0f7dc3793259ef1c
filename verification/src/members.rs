//! The members of JSON objects: how to tell their keys apart and how to find
//! them.

use vstd::prelude::*;

use crate::json::{lemma_get_with, JsonTree};

verus! {

/// What tells the keys of the connector's documents apart: the length, and the
/// first, the last and one more character.
pub open spec fn mark(key: Seq<char>) -> (nat, char, char, char) {
    (key.len(), key[0], key[key.len() as int * 2 / 3], key.last())
}

/// The value of the entry that an object was given last.
pub broadcast proof fn lemma_new_member(object: JsonTree, key: Seq<char>, value: JsonTree)
    requires
        object is Object,
    ensures
        #[trigger] object.with(key, value).get(key) == Some(value),
{
    lemma_get_with(object, key, value, key);
}

/// One more entry changes nothing under the other keys.
pub broadcast proof fn lemma_other_member(
    object: JsonTree,
    key: Seq<char>,
    value: JsonTree,
    other: Seq<char>,
)
    requires
        object is Object,
        other != key,
    ensures
        #[trigger] object.with(key, value).get(other) == object.get(other),
{
    lemma_get_with(object, key, value, other);
}

pub broadcast group group_members {
    lemma_new_member,
    lemma_other_member,
}

/// The marks of the keys.
pub proof fn lemma_marks()
    ensures
        mark("action"@) == (6nat, 'a', 'o', 'n'),
        mark("address"@) == (7nat, 'a', 'e', 's'),
        mark("archive_url"@) == (11nat, 'a', '_', 'l'),
        mark("arguments"@) == (9nat, 'a', 'n', 's'),
        mark("author"@) == (6nat, 'a', 'o', 'r'),
        mark("backup_uuid"@) == (11nat, 'b', 'u', 'd'),
        mark("backups"@) == (7nat, 'b', 'u', 's'),
        mark("branch"@) == (6nat, 'b', 'c', 'h'),
        mark("build_id"@) == (8nat, 'b', '_', 'd'),
        mark("bytes_written"@) == (13nat, 'b', 'i', 'n'),
        mark("cache"@) == (5nat, 'c', 'h', 'e'),
        mark("capabilities"@) == (12nat, 'c', 't', 's'),
        mark("checksum"@) == (8nat, 'c', 's', 'm'),
        mark("code"@) == (4nat, 'c', 'd', 'e'),
        mark("command"@) == (7nat, 'c', 'a', 'd'),
        mark("commit"@) == (6nat, 'c', 'i', 't'),
        mark("compatible_versions"@) == (19nat, 'c', 'e', 's'),
        mark("completed"@) == (9nat, 'c', 't', 'd'),
        mark("console_output"@) == (14nat, 'c', 'u', 't'),
        mark("content"@) == (7nat, 'c', 'e', 't'),
        mark("cpu_absolute"@) == (12nat, 'c', 'l', 'e'),
        mark("created"@) == (7nat, 'c', 't', 'd'),
        mark("daemon_state"@) == (12nat, 'd', 't', 'e'),
        mark("database"@) == (8nat, 'd', 'a', 'e'),
        mark("deleted_count"@) == (13nat, 'd', 'c', 't'),
        mark("deploy_id"@) == (9nat, 'd', '_', 'd'),
        mark("deployed_at"@) == (11nat, 'd', 'd', 't'),
        mark("description"@) == (11nat, 'd', 't', 'n'),
        mark("directory"@) == (9nat, 'd', 'o', 'y'),
        mark("disk_bytes"@) == (10nat, 'd', 'y', 's'),
        mark("disk_mb"@) == (7nat, 'd', '_', 'b'),
        mark("dns_records"@) == (11nat, 'd', 'o', 's'),
        mark("domain"@) == (6nat, 'd', 'i', 'n'),
        mark("domains"@) == (7nat, 'd', 'i', 's'),
        mark("download_url"@) == (12nat, 'd', '_', 'l'),
        mark("downloads"@) == (9nat, 'd', 'a', 's'),
        mark("email"@) == (5nat, 'e', 'i', 'l'),
        mark("endpoints"@) == (9nat, 'e', 'n', 's'),
        mark("entries"@) == (7nat, 'e', 'i', 's'),
        mark("enum"@) == (4nat, 'e', 'u', 'm'),
        mark("error"@) == (5nat, 'e', 'o', 'r'),
        mark("expires_in_seconds"@) == (18nat, 'e', 'e', 's'),
        mark("filename"@) == (8nat, 'f', 'a', 'e'),
        mark("files"@) == (5nat, 'f', 'e', 's'),
        mark("header_example"@) == (14nat, 'h', 'a', 'e'),
        mark("hits"@) == (4nat, 'h', 't', 's'),
        mark("id"@) == (2nat, 'i', 'd', 'd'),
        mark("info"@) == (4nat, 'i', 'f', 'o'),
        mark("inputSchema"@) == (11nat, 'i', 'h', 'a'),
        mark("installed_at"@) == (12nat, 'i', 'd', 't'),
        mark("isError"@) == (7nat, 'i', 'r', 'r'),
        mark("is_admin"@) == (8nat, 'i', 'm', 'n'),
        mark("is_directory"@) == (12nat, 'i', 't', 'y'),
        mark("is_file"@) == (7nat, 'i', 'i', 'e'),
        mark("jsonrpc"@) == (7nat, 'j', 'r', 'c'),
        mark("key"@) == (3nat, 'k', 'y', 'y'),
        mark("last_deploy"@) == (11nat, 'l', 'p', 'y'),
        mark("limit"@) == (5nat, 'l', 'i', 't'),
        mark("lines"@) == (5nat, 'l', 'e', 's'),
        mark("lines_requested"@) == (15nat, 'l', 'e', 'd'),
        mark("lines_returned"@) == (14nat, 'l', 'u', 'd'),
        mark("listChanged"@) == (11nat, 'l', 'n', 'd'),
        mark("machines"@) == (8nat, 'm', 'n', 's'),
        mark("mc_version"@) == (10nat, 'm', 's', 'n'),
        mark("memory_bytes"@) == (12nat, 'm', 'y', 's'),
        mark("memory_mb"@) == (9nat, 'm', '_', 'b'),
        mark("message"@) == (7nat, 'm', 'a', 'e'),
        mark("messages"@) == (8nat, 'm', 'g', 's'),
        mark("modified"@) == (8nat, 'm', 'i', 'd'),
        mark("name"@) == (4nat, 'n', 'm', 'e'),
        mark("nests"@) == (5nat, 'n', 't', 's'),
        mark("network"@) == (7nat, 'n', 'o', 'k'),
        mark("node_uuid"@) == (9nat, 'n', 'u', 'd'),
        mark("package_name"@) == (12nat, 'p', 'n', 'e'),
        mark("panel_status"@) == (12nat, 'p', 'a', 's'),
        mark("path"@) == (4nat, 'p', 't', 'h'),
        mark("plugin_id"@) == (9nat, 'p', '_', 'd'),
        mark("plugins"@) == (7nat, 'p', 'i', 's'),
        mark("primary"@) == (7nat, 'p', 'a', 'y'),
        mark("project_id"@) == (10nat, 'p', 't', 'd'),
        mark("properties"@) == (10nat, 'p', 't', 's'),
        mark("protocolVersion"@) == (15nat, 'p', 'r', 'n'),
        mark("query"@) == (5nat, 'q', 'r', 'y'),
        mark("repo_url"@) == (8nat, 'r', 'u', 'l'),
        mark("required"@) == (8nat, 'r', 'r', 'd'),
        mark("result"@) == (6nat, 'r', 'l', 't'),
        mark("rotate_key"@) == (10nat, 'r', '_', 'y'),
        mark("rx_bytes"@) == (8nat, 'r', 't', 's'),
        mark("secret_key"@) == (10nat, 's', '_', 'y'),
        mark("serverInfo"@) == (10nat, 's', 'I', 'o'),
        mark("server_uuid"@) == (11nat, 's', 'u', 'd'),
        mark("servers"@) == (7nat, 's', 'e', 's'),
        mark("sftp_port"@) == (9nat, 's', 'o', 't'),
        mark("site_id"@) == (7nat, 's', '_', 'd'),
        mark("size"@) == (4nat, 's', 'z', 'e'),
        mark("size_bytes"@) == (10nat, 's', 'y', 's'),
        mark("slug"@) == (4nat, 's', 'u', 'g'),
        mark("software"@) == (8nat, 's', 'a', 'e'),
        mark("source"@) == (6nat, 's', 'c', 'e'),
        mark("sse"@) == (3nat, 's', 'e', 'e'),
        mark("sse_url"@) == (7nat, 's', 'u', 'l'),
        mark("ssl_active"@) == (10nat, 's', 't', 'e'),
        mark("ssl_status"@) == (10nat, 's', 'a', 's'),
        mark("state"@) == (5nat, 's', 't', 'e'),
        mark("status"@) == (6nat, 's', 'u', 's'),
        mark("target_directory"@) == (16nat, 't', 'e', 'y'),
        mark("target_file"@) == (11nat, 't', 'f', 'e'),
        mark("text"@) == (4nat, 't', 'x', 't'),
        mark("timestamp"@) == (9nat, 't', 'a', 'p'),
        mark("title"@) == (5nat, 't', 'l', 'e'),
        mark("tools"@) == (5nat, 't', 'l', 's'),
        mark("tools_count"@) == (11nat, 't', 'o', 't'),
        mark("total"@) == (5nat, 't', 'a', 'l'),
        mark("total_entries"@) == (13nat, 't', 't', 's'),
        mark("total_nodes"@) == (11nat, 't', 'o', 's'),
        mark("total_plugins"@) == (13nat, 't', 'u', 's'),
        mark("total_servers"@) == (13nat, 't', 'r', 's'),
        mark("total_users"@) == (11nat, 't', 's', 's'),
        mark("tx_bytes"@) == (8nat, 't', 't', 's'),
        mark("type"@) == (4nat, 't', 'p', 'e'),
        mark("url"@) == (3nat, 'u', 'l', 'l'),
        mark("username"@) == (8nat, 'u', 'a', 'e'),
        mark("users"@) == (5nat, 'u', 'r', 's'),
        mark("uuid"@) == (4nat, 'u', 'i', 'd'),
        mark("value"@) == (5nat, 'v', 'u', 'e'),
        mark("version"@) == (7nat, 'v', 'i', 'n'),
{
    reveal_strlit("action");
    reveal_strlit("address");
    reveal_strlit("archive_url");
    reveal_strlit("arguments");
    reveal_strlit("author");
    reveal_strlit("backup_uuid");
    reveal_strlit("backups");
    reveal_strlit("branch");
    reveal_strlit("build_id");
    reveal_strlit("bytes_written");
    reveal_strlit("cache");
    reveal_strlit("capabilities");
    reveal_strlit("checksum");
    reveal_strlit("code");
    reveal_strlit("command");
    reveal_strlit("commit");
    reveal_strlit("compatible_versions");
    reveal_strlit("completed");
    reveal_strlit("console_output");
    reveal_strlit("content");
    reveal_strlit("cpu_absolute");
    reveal_strlit("created");
    reveal_strlit("daemon_state");
    reveal_strlit("database");
    reveal_strlit("deleted_count");
    reveal_strlit("deploy_id");
    reveal_strlit("deployed_at");
    reveal_strlit("description");
    reveal_strlit("directory");
    reveal_strlit("disk_bytes");
    reveal_strlit("disk_mb");
    reveal_strlit("dns_records");
    reveal_strlit("domain");
    reveal_strlit("domains");
    reveal_strlit("download_url");
    reveal_strlit("downloads");
    reveal_strlit("email");
    reveal_strlit("endpoints");
    reveal_strlit("entries");
    reveal_strlit("enum");
    reveal_strlit("error");
    reveal_strlit("expires_in_seconds");
    reveal_strlit("filename");
    reveal_strlit("files");
    reveal_strlit("header_example");
    reveal_strlit("hits");
    reveal_strlit("id");
    reveal_strlit("info");
    reveal_strlit("inputSchema");
    reveal_strlit("installed_at");
    reveal_strlit("isError");
    reveal_strlit("is_admin");
    reveal_strlit("is_directory");
    reveal_strlit("is_file");
    reveal_strlit("jsonrpc");
    reveal_strlit("key");
    reveal_strlit("last_deploy");
    reveal_strlit("limit");
    reveal_strlit("lines");
    reveal_strlit("lines_requested");
    reveal_strlit("lines_returned");
    reveal_strlit("listChanged");
    reveal_strlit("machines");
    reveal_strlit("mc_version");
    reveal_strlit("memory_bytes");
    reveal_strlit("memory_mb");
    reveal_strlit("message");
    reveal_strlit("messages");
    reveal_strlit("modified");
    reveal_strlit("name");
    reveal_strlit("nests");
    reveal_strlit("network");
    reveal_strlit("node_uuid");
    reveal_strlit("package_name");
    reveal_strlit("panel_status");
    reveal_strlit("path");
    reveal_strlit("plugin_id");
    reveal_strlit("plugins");
    reveal_strlit("primary");
    reveal_strlit("project_id");
    reveal_strlit("properties");
    reveal_strlit("protocolVersion");
    reveal_strlit("query");
    reveal_strlit("repo_url");
    reveal_strlit("required");
    reveal_strlit("result");
    reveal_strlit("rotate_key");
    reveal_strlit("rx_bytes");
    reveal_strlit("secret_key");
    reveal_strlit("serverInfo");
    reveal_strlit("server_uuid");
    reveal_strlit("servers");
    reveal_strlit("sftp_port");
    reveal_strlit("site_id");
    reveal_strlit("size");
    reveal_strlit("size_bytes");
    reveal_strlit("slug");
    reveal_strlit("software");
    reveal_strlit("source");
    reveal_strlit("sse");
    reveal_strlit("sse_url");
    reveal_strlit("ssl_active");
    reveal_strlit("ssl_status");
    reveal_strlit("state");
    reveal_strlit("status");
    reveal_strlit("target_directory");
    reveal_strlit("target_file");
    reveal_strlit("text");
    reveal_strlit("timestamp");
    reveal_strlit("title");
    reveal_strlit("tools");
    reveal_strlit("tools_count");
    reveal_strlit("total");
    reveal_strlit("total_entries");
    reveal_strlit("total_nodes");
    reveal_strlit("total_plugins");
    reveal_strlit("total_servers");
    reveal_strlit("total_users");
    reveal_strlit("tx_bytes");
    reveal_strlit("type");
    reveal_strlit("url");
    reveal_strlit("username");
    reveal_strlit("users");
    reveal_strlit("uuid");
    reveal_strlit("value");
    reveal_strlit("version");
}

} // verus!
