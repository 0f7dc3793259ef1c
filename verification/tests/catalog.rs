use calagopus_mcp::catalog::get_tools_list;
use calagopus_mcp::render::pretty;

#[test]
fn the_whole_list() {
    let cards = [
        r#"{"name": "get-system-health", "description": "Query live Calagopus panel system metrics, host RAM/CPU stats, database connections, and cache latency.", "inputSchema": {"type": "object", "properties": {}}}"#,
        r#"{"name": "list-nests", "description": "List all game nests, egg repositories, and server templates configured in Calagopus.", "inputSchema": {"type": "object", "properties": {}}}"#,
        r#"{"name": "list-users", "description": "List registered panel users, email addresses, roles, and administrative privileges.", "inputSchema": {"type": "object", "properties": {}}}"#,
        r#"{"name": "list-servers", "description": "Every server the key can see, with UUIDs, nodes, memory/disk allocations, status, and creation timestamps.", "inputSchema": {"type": "object", "properties": {"limit": {"type": "integer", "description": "Max servers to return (default 50)"}}}}"#,
        r#"{"name": "get-server", "description": "One server in detail, including allocation, node mapping, egg config, and the daemon's live state.", "inputSchema": {"type": "object", "properties": {"server_uuid": {"type": "string", "description": "The UUID of the target server"}}, "required": ["server_uuid"]}}"#,
        r#"{"name": "power-server", "description": "Start, stop, restart, or kill a server daemon container.", "inputSchema": {"type": "object", "properties": {"server_uuid": {"type": "string", "description": "The UUID of the target server"}, "action": {"type": "string", "enum": ["start", "stop", "restart", "kill"], "description": "Power action to execute"}}, "required": ["server_uuid", "action"]}}"#,
        r#"{"name": "send-console-command", "description": "Run a command on a server's console.", "inputSchema": {"type": "object", "properties": {"server_uuid": {"type": "string", "description": "The UUID of the target server"}, "command": {"type": "string", "description": "The console command string to execute (e.g. 'say Hello', 'op PlayerName')"}}, "required": ["server_uuid", "command"]}}"#,
        r#"{"name": "read-console", "description": "The tail of a server's console output logs.", "inputSchema": {"type": "object", "properties": {"server_uuid": {"type": "string", "description": "The UUID of the target server"}, "lines": {"type": "integer", "description": "Number of log lines to return (default 50)"}}, "required": ["server_uuid"]}}"#,
        r#"{"name": "list-machines", "description": "Enrolled machines (nodes) with health status, SFTP port, URL, memory, and disk capacity.", "inputSchema": {"type": "object", "properties": {}}}"#,
        r#"{"name": "list-files", "description": "Browse a directory inside a server's container volume.", "inputSchema": {"type": "object", "properties": {"server_uuid": {"type": "string", "description": "The UUID of the target server"}, "directory": {"type": "string", "description": "Target directory path (default '/')"}}, "required": ["server_uuid"]}}"#,
        r#"{"name": "read-file", "description": "Read a text file from the server volume, up to 1 MB.", "inputSchema": {"type": "object", "properties": {"server_uuid": {"type": "string", "description": "The UUID of the target server"}, "path": {"type": "string", "description": "Relative file path inside server volume"}}, "required": ["server_uuid", "path"]}}"#,
        r#"{"name": "write-file", "description": "Create a file or replace its contents in the server volume. No undo.", "inputSchema": {"type": "object", "properties": {"server_uuid": {"type": "string", "description": "The UUID of the target server"}, "path": {"type": "string", "description": "File path to create or overwrite"}, "content": {"type": "string", "description": "Text content to write"}}, "required": ["server_uuid", "path", "content"]}}"#,
        r#"{"name": "upload-file-from-url", "description": "Have the machine fetch a file straight onto the server container volume.", "inputSchema": {"type": "object", "properties": {"server_uuid": {"type": "string", "description": "The UUID of the target server"}, "url": {"type": "string", "description": "Direct download URL of the file"}, "directory": {"type": "string", "description": "Target directory on server (default '/')"}}, "required": ["server_uuid", "url"]}}"#,
        r#"{"name": "download-files", "description": "A signed download link for a file, a packed directory, or the whole server volume.", "inputSchema": {"type": "object", "properties": {"server_uuid": {"type": "string", "description": "The UUID of the target server"}, "path": {"type": "string", "description": "File or directory path to download (default '/')"}}, "required": ["server_uuid"]}}"#,
        r#"{"name": "list-backups", "description": "Every backup a server holds, with state, checksum, creation timestamp, and size in bytes.", "inputSchema": {"type": "object", "properties": {"server_uuid": {"type": "string", "description": "The UUID of the target server"}}, "required": ["server_uuid"]}}"#,
        r#"{"name": "create-backup", "description": "Take a backup; it archives in the background.", "inputSchema": {"type": "object", "properties": {"server_uuid": {"type": "string", "description": "The UUID of the target server"}, "name": {"type": "string", "description": "Optional name or label for the backup"}}, "required": ["server_uuid"]}}"#,
        r#"{"name": "download-backup", "description": "A short-lived download link for a finished backup archive.", "inputSchema": {"type": "object", "properties": {"server_uuid": {"type": "string", "description": "The UUID of the target server"}, "backup_uuid": {"type": "string", "description": "The UUID of the backup"}}, "required": ["server_uuid", "backup_uuid"]}}"#,
        r#"{"name": "get-site", "description": "A web app's address, custom domains, SSL state, and last deploy status.", "inputSchema": {"type": "object", "properties": {"site_id": {"type": "string", "description": "Web app site ID or name"}}, "required": ["site_id"]}}"#,
        r#"{"name": "deploy-repo", "description": "Deploy a public GitHub repository onto a web app.", "inputSchema": {"type": "object", "properties": {"site_id": {"type": "string", "description": "Web app site ID"}, "repo_url": {"type": "string", "description": "GitHub repository URL (e.g. 'https://github.com/user/repo')"}, "branch": {"type": "string", "description": "Git branch to deploy (default 'main')"}}, "required": ["site_id", "repo_url"]}}"#,
        r#"{"name": "deploy-files", "description": "Send files you hold locally, archives unpacked in place on the web app.", "inputSchema": {"type": "object", "properties": {"site_id": {"type": "string", "description": "Web app site ID"}, "archive_url": {"type": "string", "description": "URL to ZIP/tar.gz archive to deploy"}}, "required": ["site_id"]}}"#,
        r#"{"name": "attach-domain", "description": "Point a custom domain at a web app, with auto SSL certificate provisioning.", "inputSchema": {"type": "object", "properties": {"site_id": {"type": "string", "description": "Web app site ID"}, "domain": {"type": "string", "description": "Custom domain name (e.g. 'app.example.com')"}}, "required": ["site_id", "domain"]}}"#,
        r#"{"name": "detach-domain", "description": "Stop serving a custom domain from a web app.", "inputSchema": {"type": "object", "properties": {"site_id": {"type": "string", "description": "Web app site ID"}, "domain": {"type": "string", "description": "Custom domain name to remove"}}, "required": ["site_id", "domain"]}}"#,
        r#"{"name": "search-plugins", "description": "Search the Minecraft plugin catalog (Modrinth), filtered to compatible server software.", "inputSchema": {"type": "object", "properties": {"query": {"type": "string", "description": "Search query keywords (e.g. 'LuckPerms', 'Essentials', 'Vault')"}, "software": {"type": "string", "description": "Server software (e.g. 'paper', 'spigot', 'velocity', 'fabric')"}, "mc_version": {"type": "string", "description": "Minecraft target version (e.g. '1.20.4')"}}, "required": ["query"]}}"#,
        r#"{"name": "list-plugins", "description": "Every plugin jar present in a server's /plugins folder.", "inputSchema": {"type": "object", "properties": {"server_uuid": {"type": "string", "description": "The UUID of the target server"}}, "required": ["server_uuid"]}}"#,
        r#"{"name": "install-plugin", "description": "Install a plugin and its required dependencies from the catalog into /plugins.", "inputSchema": {"type": "object", "properties": {"server_uuid": {"type": "string", "description": "The UUID of the target server"}, "plugin_id": {"type": "string", "description": "Modrinth or catalog plugin ID"}, "download_url": {"type": "string", "description": "Direct plugin JAR download URL"}, "filename": {"type": "string", "description": "JAR filename to save as"}}, "required": ["server_uuid"]}}"#,
        r#"{"name": "remove-plugin", "description": "Delete a plugin jar from the server's /plugins folder.", "inputSchema": {"type": "object", "properties": {"server_uuid": {"type": "string", "description": "The UUID of the target server"}, "filename": {"type": "string", "description": "JAR filename in /plugins (e.g. 'PluginName.jar')"}}, "required": ["server_uuid", "filename"]}}"#,
    ];
    let shown: serde_json::Value = serde_json::from_str(&pretty(&get_tools_list())).unwrap();
    let tools = shown["tools"].as_array().unwrap();
    assert_eq!(tools.len(), cards.len());
    for (tool, card) in tools.iter().zip(cards) {
        assert_eq!(*tool, serde_json::from_str::<serde_json::Value>(card).unwrap());
    }
}
