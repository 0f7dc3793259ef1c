//! The statements that the panel's database is asked with.

use vstd::prelude::*;

verus! {

/// The key in the settings.
pub const READ_SECRET: &'static str =
    "SELECT value FROM settings WHERE key = 'dev_calagopus_mcp::secret_key'";

/// Writes the key to the settings; takes the key.
pub const WRITE_SECRET: &'static str =
    "INSERT INTO settings (key, value) VALUES ('dev_calagopus_mcp::secret_key', $1) ON CONFLICT (key) DO UPDATE SET value = EXCLUDED.value";

pub const COUNT_USERS: &'static str = "SELECT COUNT(*) FROM users";

pub const COUNT_NODES: &'static str = "SELECT COUNT(*) FROM nodes";

pub const COUNT_SERVERS: &'static str = "SELECT COUNT(*) FROM servers";

pub const LIST_NESTS: &'static str = "SELECT uuid, name, author, created FROM nests";

pub const LIST_USERS: &'static str = "SELECT uuid, username, email, admin, created FROM users";

/// Takes the number of servers at most.
pub const LIST_SERVERS: &'static str =
    "SELECT uuid, name, node_uuid, memory, disk, created FROM servers LIMIT $1";

/// Takes the server's UUID.
pub const GET_SERVER: &'static str =
    "SELECT uuid, name, node_uuid, memory, disk, created FROM servers WHERE uuid = $1";

pub const LIST_MACHINES: &'static str =
    "SELECT uuid, name, url, sftp_port, memory, disk, created FROM nodes";

/// The address and the token of a server's node; takes the server's UUID.
pub const NODE_OF_SERVER: &'static str =
    "SELECT nodes.url, nodes.token FROM servers JOIN nodes ON nodes.uuid = servers.node_uuid WHERE servers.uuid = $1";

/// Takes the server's UUID.
pub const BACKUPS_OF_SERVER: &'static str =
    "SELECT uuid, name, is_successful, bytes, checksum, created FROM server_backups WHERE server_uuid = $1";

/// Some backups of any server.
pub const SOME_BACKUPS: &'static str =
    "SELECT uuid, name, is_successful, bytes, checksum, created FROM server_backups LIMIT 50";

} // verus!
