//! The documents whose text can be read back.

use vstd::prelude::*;

use crate::json::JsonTree;

verus! {

/// The levels of nesting that `serde_json` reads.
pub open spec fn most_levels() -> nat {
    127
}

/// Every key but the one that `serde_json` keeps for itself.
pub open spec fn is_plain_key(key: Seq<char>) -> bool {
    key != "$serde_json::private::RawValue"@
}

/// A digit, a point and a digit.
pub open spec fn is_short_decimal(s: Seq<char>) -> bool {
    s.len() == 3 && '0' <= s[0] <= '9' && s[1] == '.' && '0' <= s[2] <= '9'
}

/// The text of the document can be read back without loss: it nests no deeper
/// than so many levels, its whole numbers have 64 bits, its decimals are short,
/// and `serde_json` keeps none of its keys for itself.
pub open spec fn is_readable(document: JsonTree, levels: nat) -> bool
    decreases levels,
{
    match document {
        JsonTree::Null => true,
        JsonTree::Bool(_) => true,
        JsonTree::Number(n) => i64::MIN <= n <= u64::MAX,
        JsonTree::Decimal(s) => is_short_decimal(s),
        JsonTree::Text(_) => true,
        JsonTree::Array(items) => levels > 0 && forall|i: int|
            0 <= i < items.len() ==> is_readable(#[trigger] items[i], (levels - 1) as nat),
        JsonTree::Object(entries) => levels > 0 && forall|i: int|
            0 <= i < entries.len() ==> is_plain_key((#[trigger] entries[i]).0) && is_readable(
                entries[i].1,
                (levels - 1) as nat,
            ),
    }
}

/// A readable object with one more entry that is readable is readable.
pub broadcast proof fn lemma_readable_with(
    object: JsonTree,
    key: Seq<char>,
    value: JsonTree,
    levels: nat,
)
    requires
        object is Object,
        levels > 0,
        is_readable(object, levels),
        is_plain_key(key),
        is_readable(value, (levels - 1) as nat),
    ensures
        #[trigger] is_readable(object.with(key, value), levels),
{
    let entries = object->Object_0;
    assert forall|i: int| 0 <= i < entries.len() + 1 implies is_plain_key(
        (#[trigger] entries.push((key, value))[i]).0,
    ) && is_readable(entries.push((key, value))[i].1, (levels - 1) as nat) by {
        if i < entries.len() {
            assert(entries.push((key, value))[i] == entries[i]);
        }
    }
}

/// The array with one readable item is readable.
pub broadcast proof fn lemma_readable_only(item: JsonTree, levels: nat)
    requires
        levels > 0,
        is_readable(item, (levels - 1) as nat),
    ensures
        #[trigger] is_readable(JsonTree::Array(seq![item]), levels),
{
}

/// The keys of the documents that tools show are plain.
pub proof fn lemma_plain_keys()
    ensures
        is_plain_key("action"@),
        is_plain_key("address"@),
        is_plain_key("archive_url"@),
        is_plain_key("author"@),
        is_plain_key("backup_uuid"@),
        is_plain_key("backups"@),
        is_plain_key("branch"@),
        is_plain_key("build_id"@),
        is_plain_key("bytes_written"@),
        is_plain_key("cache"@),
        is_plain_key("checksum"@),
        is_plain_key("command"@),
        is_plain_key("commit"@),
        is_plain_key("compatible_versions"@),
        is_plain_key("completed"@),
        is_plain_key("console_output"@),
        is_plain_key("content"@),
        is_plain_key("cpu_absolute"@),
        is_plain_key("created"@),
        is_plain_key("daemon_state"@),
        is_plain_key("database"@),
        is_plain_key("deleted_count"@),
        is_plain_key("deploy_id"@),
        is_plain_key("deployed_at"@),
        is_plain_key("description"@),
        is_plain_key("directory"@),
        is_plain_key("disk_bytes"@),
        is_plain_key("disk_mb"@),
        is_plain_key("dns_records"@),
        is_plain_key("domain"@),
        is_plain_key("domains"@),
        is_plain_key("download_url"@),
        is_plain_key("downloads"@),
        is_plain_key("email"@),
        is_plain_key("entries"@),
        is_plain_key("expires_in_seconds"@),
        is_plain_key("filename"@),
        is_plain_key("id"@),
        is_plain_key("installed_at"@),
        is_plain_key("is_admin"@),
        is_plain_key("is_directory"@),
        is_plain_key("is_file"@),
        is_plain_key("last_deploy"@),
        is_plain_key("lines_requested"@),
        is_plain_key("lines_returned"@),
        is_plain_key("machines"@),
        is_plain_key("mc_version"@),
        is_plain_key("memory_bytes"@),
        is_plain_key("memory_mb"@),
        is_plain_key("modified"@),
        is_plain_key("name"@),
        is_plain_key("nests"@),
        is_plain_key("network"@),
        is_plain_key("node_uuid"@),
        is_plain_key("panel_status"@),
        is_plain_key("path"@),
        is_plain_key("plugin_id"@),
        is_plain_key("plugins"@),
        is_plain_key("primary"@),
        is_plain_key("query"@),
        is_plain_key("repo_url"@),
        is_plain_key("rx_bytes"@),
        is_plain_key("server_uuid"@),
        is_plain_key("servers"@),
        is_plain_key("sftp_port"@),
        is_plain_key("site_id"@),
        is_plain_key("size"@),
        is_plain_key("size_bytes"@),
        is_plain_key("slug"@),
        is_plain_key("software"@),
        is_plain_key("source"@),
        is_plain_key("ssl_active"@),
        is_plain_key("ssl_status"@),
        is_plain_key("state"@),
        is_plain_key("status"@),
        is_plain_key("target_directory"@),
        is_plain_key("target_file"@),
        is_plain_key("timestamp"@),
        is_plain_key("total"@),
        is_plain_key("total_entries"@),
        is_plain_key("total_nodes"@),
        is_plain_key("total_plugins"@),
        is_plain_key("total_servers"@),
        is_plain_key("total_users"@),
        is_plain_key("tx_bytes"@),
        is_plain_key("type"@),
        is_plain_key("url"@),
        is_plain_key("username"@),
        is_plain_key("users"@),
        is_plain_key("uuid"@),
        is_plain_key("value"@),
        is_plain_key("version"@),
{
    reveal_strlit("$serde_json::private::RawValue");
    assert forall|key: Seq<char>| key.len() > 0 && key[0] != '$' implies #[trigger] is_plain_key(
        key,
    ) by {
        assert("$serde_json::private::RawValue"@[0] == '$');
    }
    reveal_strlit("action");
    reveal_strlit("address");
    reveal_strlit("archive_url");
    reveal_strlit("author");
    reveal_strlit("backup_uuid");
    reveal_strlit("backups");
    reveal_strlit("branch");
    reveal_strlit("build_id");
    reveal_strlit("bytes_written");
    reveal_strlit("cache");
    reveal_strlit("checksum");
    reveal_strlit("command");
    reveal_strlit("commit");
    reveal_strlit("compatible_versions");
    reveal_strlit("completed");
    reveal_strlit("console_output");
    reveal_strlit("content");
    reveal_strlit("cpu_absolute");
    reveal_strlit("created");
    reveal_strlit("daemon_state");
    reveal_strlit("database");
    reveal_strlit("deleted_count");
    reveal_strlit("deploy_id");
    reveal_strlit("deployed_at");
    reveal_strlit("description");
    reveal_strlit("directory");
    reveal_strlit("disk_bytes");
    reveal_strlit("disk_mb");
    reveal_strlit("dns_records");
    reveal_strlit("domain");
    reveal_strlit("domains");
    reveal_strlit("download_url");
    reveal_strlit("downloads");
    reveal_strlit("email");
    reveal_strlit("entries");
    reveal_strlit("expires_in_seconds");
    reveal_strlit("filename");
    reveal_strlit("id");
    reveal_strlit("installed_at");
    reveal_strlit("is_admin");
    reveal_strlit("is_directory");
    reveal_strlit("is_file");
    reveal_strlit("last_deploy");
    reveal_strlit("lines_requested");
    reveal_strlit("lines_returned");
    reveal_strlit("machines");
    reveal_strlit("mc_version");
    reveal_strlit("memory_bytes");
    reveal_strlit("memory_mb");
    reveal_strlit("modified");
    reveal_strlit("name");
    reveal_strlit("nests");
    reveal_strlit("network");
    reveal_strlit("node_uuid");
    reveal_strlit("panel_status");
    reveal_strlit("path");
    reveal_strlit("plugin_id");
    reveal_strlit("plugins");
    reveal_strlit("primary");
    reveal_strlit("query");
    reveal_strlit("repo_url");
    reveal_strlit("rx_bytes");
    reveal_strlit("server_uuid");
    reveal_strlit("servers");
    reveal_strlit("sftp_port");
    reveal_strlit("site_id");
    reveal_strlit("size");
    reveal_strlit("size_bytes");
    reveal_strlit("slug");
    reveal_strlit("software");
    reveal_strlit("source");
    reveal_strlit("ssl_active");
    reveal_strlit("ssl_status");
    reveal_strlit("state");
    reveal_strlit("status");
    reveal_strlit("target_directory");
    reveal_strlit("target_file");
    reveal_strlit("timestamp");
    reveal_strlit("total");
    reveal_strlit("total_entries");
    reveal_strlit("total_nodes");
    reveal_strlit("total_plugins");
    reveal_strlit("total_servers");
    reveal_strlit("total_users");
    reveal_strlit("tx_bytes");
    reveal_strlit("type");
    reveal_strlit("url");
    reveal_strlit("username");
    reveal_strlit("users");
    reveal_strlit("uuid");
    reveal_strlit("value");
    reveal_strlit("version");
}

} // verus!
