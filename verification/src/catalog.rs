//! The list of tools that clients are shown, each with what arguments it takes.

use vstd::prelude::*;

use crate::json::{text_trees, trees, Json, JsonTree};
use crate::text;
use crate::tool::Tool;

verus! {

/// What clients are shown of a tool.
pub struct Card {
    pub name: Seq<char>,
    pub description: Seq<char>,
    /// The arguments: an object with a schema for each.
    pub properties: JsonTree,
    /// The arguments that a call cannot do without.
    pub required: Seq<Seq<char>>,
}

/// The schema of an argument.
pub open spec fn property_tree(kind: Seq<char>, description: Seq<char>) -> JsonTree {
    JsonTree::object().with_text("type"@, kind).with_text("description"@, description)
}

/// The schema of a text argument.
pub open spec fn text_property(description: Seq<char>) -> JsonTree {
    property_tree("string"@, description)
}

/// The schema of a text argument with the texts it can be.
pub open spec fn choice_property(choices: Seq<Seq<char>>, description: Seq<char>) -> JsonTree {
    JsonTree::object().with_text("type"@, "string"@).with(
        "enum"@,
        JsonTree::Array(text_trees(choices)),
    ).with_text("description"@, description)
}

/// The schema of a tool's arguments.
pub open spec fn schema_tree(properties: JsonTree, required: Seq<Seq<char>>) -> JsonTree {
    let schema = JsonTree::object().with_text("type"@, "object"@).with("properties"@, properties);
    if required.len() == 0 {
        schema
    } else {
        schema.with("required"@, JsonTree::Array(text_trees(required)))
    }
}

/// The document that a tool is listed as.
pub open spec fn card_tree(card: Card) -> JsonTree {
    JsonTree::object().with_text("name"@, card.name).with_text(
        "description"@,
        card.description,
    ).with("inputSchema"@, schema_tree(card.properties, card.required))
}

/// The argument that names a server.
pub open spec fn server_property() -> JsonTree {
    JsonTree::object().with(
        "server_uuid"@,
        text_property("The UUID of the target server"@),
    )
}

/// The tools in the order they are listed.
pub open spec fn listed_tools() -> Seq<Tool> {
    seq![
        Tool::GetSystemHealth,
        Tool::ListNests,
        Tool::ListUsers,
        Tool::ListServers,
        Tool::GetServer,
        Tool::PowerServer,
        Tool::SendConsoleCommand,
        Tool::ReadConsole,
        Tool::ListMachines,
        Tool::ListFiles,
        Tool::ReadFile,
        Tool::WriteFile,
        Tool::UploadFileFromUrl,
        Tool::DownloadFiles,
        Tool::ListBackups,
        Tool::CreateBackup,
        Tool::DownloadBackup,
        Tool::GetSite,
        Tool::DeployRepo,
        Tool::DeployFiles,
        Tool::AttachDomain,
        Tool::DetachDomain,
        Tool::SearchPlugins,
        Tool::ListPlugins,
        Tool::InstallPlugin,
        Tool::RemovePlugin,
    ]
}

/// What clients are shown of each tool.
pub open spec fn tool_card(tool: Tool) -> Card {
    match tool {
        Tool::GetSystemHealth => Card {
            name: "get-system-health"@,
            description: "Query live Calagopus panel system metrics, host RAM/CPU stats, database connections, and cache latency."@,
            properties: JsonTree::object(),
            required: seq![],
        },
        Tool::ListNests => Card {
            name: "list-nests"@,
            description: "List all game nests, egg repositories, and server templates configured in Calagopus."@,
            properties: JsonTree::object(),
            required: seq![],
        },
        Tool::ListUsers => Card {
            name: "list-users"@,
            description: "List registered panel users, email addresses, roles, and administrative privileges."@,
            properties: JsonTree::object(),
            required: seq![],
        },
        Tool::ListServers => Card {
            name: "list-servers"@,
            description: "Every server the key can see, with UUIDs, nodes, memory/disk allocations, status, and creation timestamps."@,
            properties: JsonTree::object()
                .with("limit"@, property_tree("integer"@, "Max servers to return (default 50)"@)),
            required: seq![],
        },
        Tool::GetServer => Card {
            name: "get-server"@,
            description: "One server in detail, including allocation, node mapping, egg config, and the daemon's live state."@,
            properties: server_property(),
            required: seq!["server_uuid"@],
        },
        Tool::PowerServer => Card {
            name: "power-server"@,
            description: "Start, stop, restart, or kill a server daemon container."@,
            properties: server_property()
                .with("action"@, choice_property(seq!["start"@, "stop"@, "restart"@, "kill"@], "Power action to execute"@)),
            required: seq!["server_uuid"@, "action"@],
        },
        Tool::SendConsoleCommand => Card {
            name: "send-console-command"@,
            description: "Run a command on a server's console."@,
            properties: server_property()
                .with("command"@, text_property("The console command string to execute (e.g. 'say Hello', 'op PlayerName')"@)),
            required: seq!["server_uuid"@, "command"@],
        },
        Tool::ReadConsole => Card {
            name: "read-console"@,
            description: "The tail of a server's console output logs."@,
            properties: server_property()
                .with("lines"@, property_tree("integer"@, "Number of log lines to return (default 50)"@)),
            required: seq!["server_uuid"@],
        },
        Tool::ListMachines => Card {
            name: "list-machines"@,
            description: "Enrolled machines (nodes) with health status, SFTP port, URL, memory, and disk capacity."@,
            properties: JsonTree::object(),
            required: seq![],
        },
        Tool::ListFiles => Card {
            name: "list-files"@,
            description: "Browse a directory inside a server's container volume."@,
            properties: server_property()
                .with("directory"@, text_property("Target directory path (default '/')"@)),
            required: seq!["server_uuid"@],
        },
        Tool::ReadFile => Card {
            name: "read-file"@,
            description: "Read a text file from the server volume, up to 1 MB."@,
            properties: server_property()
                .with("path"@, text_property("Relative file path inside server volume"@)),
            required: seq!["server_uuid"@, "path"@],
        },
        Tool::WriteFile => Card {
            name: "write-file"@,
            description: "Create a file or replace its contents in the server volume. No undo."@,
            properties: server_property()
                .with("path"@, text_property("File path to create or overwrite"@))
                .with("content"@, text_property("Text content to write"@)),
            required: seq!["server_uuid"@, "path"@, "content"@],
        },
        Tool::UploadFileFromUrl => Card {
            name: "upload-file-from-url"@,
            description: "Have the machine fetch a file straight onto the server container volume."@,
            properties: server_property()
                .with("url"@, text_property("Direct download URL of the file"@))
                .with("directory"@, text_property("Target directory on server (default '/')"@)),
            required: seq!["server_uuid"@, "url"@],
        },
        Tool::DownloadFiles => Card {
            name: "download-files"@,
            description: "A signed download link for a file, a packed directory, or the whole server volume."@,
            properties: server_property()
                .with("path"@, text_property("File or directory path to download (default '/')"@)),
            required: seq!["server_uuid"@],
        },
        Tool::ListBackups => Card {
            name: "list-backups"@,
            description: "Every backup a server holds, with state, checksum, creation timestamp, and size in bytes."@,
            properties: server_property(),
            required: seq!["server_uuid"@],
        },
        Tool::CreateBackup => Card {
            name: "create-backup"@,
            description: "Take a backup; it archives in the background."@,
            properties: server_property()
                .with("name"@, text_property("Optional name or label for the backup"@)),
            required: seq!["server_uuid"@],
        },
        Tool::DownloadBackup => Card {
            name: "download-backup"@,
            description: "A short-lived download link for a finished backup archive."@,
            properties: server_property()
                .with("backup_uuid"@, text_property("The UUID of the backup"@)),
            required: seq!["server_uuid"@, "backup_uuid"@],
        },
        Tool::GetSite => Card {
            name: "get-site"@,
            description: "A web app's address, custom domains, SSL state, and last deploy status."@,
            properties: JsonTree::object()
                .with("site_id"@, text_property("Web app site ID or name"@)),
            required: seq!["site_id"@],
        },
        Tool::DeployRepo => Card {
            name: "deploy-repo"@,
            description: "Deploy a public GitHub repository onto a web app."@,
            properties: JsonTree::object()
                .with("site_id"@, text_property("Web app site ID"@))
                .with("repo_url"@, text_property("GitHub repository URL (e.g. 'https://github.com/user/repo')"@))
                .with("branch"@, text_property("Git branch to deploy (default 'main')"@)),
            required: seq!["site_id"@, "repo_url"@],
        },
        Tool::DeployFiles => Card {
            name: "deploy-files"@,
            description: "Send files you hold locally, archives unpacked in place on the web app."@,
            properties: JsonTree::object()
                .with("site_id"@, text_property("Web app site ID"@))
                .with("archive_url"@, text_property("URL to ZIP/tar.gz archive to deploy"@)),
            required: seq!["site_id"@],
        },
        Tool::AttachDomain => Card {
            name: "attach-domain"@,
            description: "Point a custom domain at a web app, with auto SSL certificate provisioning."@,
            properties: JsonTree::object()
                .with("site_id"@, text_property("Web app site ID"@))
                .with("domain"@, text_property("Custom domain name (e.g. 'app.example.com')"@)),
            required: seq!["site_id"@, "domain"@],
        },
        Tool::DetachDomain => Card {
            name: "detach-domain"@,
            description: "Stop serving a custom domain from a web app."@,
            properties: JsonTree::object()
                .with("site_id"@, text_property("Web app site ID"@))
                .with("domain"@, text_property("Custom domain name to remove"@)),
            required: seq!["site_id"@, "domain"@],
        },
        Tool::SearchPlugins => Card {
            name: "search-plugins"@,
            description: "Search the Minecraft plugin catalog (Modrinth), filtered to compatible server software."@,
            properties: JsonTree::object()
                .with("query"@, text_property("Search query keywords (e.g. 'LuckPerms', 'Essentials', 'Vault')"@))
                .with("software"@, text_property("Server software (e.g. 'paper', 'spigot', 'velocity', 'fabric')"@))
                .with("mc_version"@, text_property("Minecraft target version (e.g. '1.20.4')"@)),
            required: seq!["query"@],
        },
        Tool::ListPlugins => Card {
            name: "list-plugins"@,
            description: "Every plugin jar present in a server's /plugins folder."@,
            properties: server_property(),
            required: seq!["server_uuid"@],
        },
        Tool::InstallPlugin => Card {
            name: "install-plugin"@,
            description: "Install a plugin and its required dependencies from the catalog into /plugins."@,
            properties: server_property()
                .with("plugin_id"@, text_property("Modrinth or catalog plugin ID"@))
                .with("download_url"@, text_property("Direct plugin JAR download URL"@))
                .with("filename"@, text_property("JAR filename to save as"@)),
            required: seq!["server_uuid"@],
        },
        Tool::RemovePlugin => Card {
            name: "remove-plugin"@,
            description: "Delete a plugin jar from the server's /plugins folder."@,
            properties: server_property()
                .with("filename"@, text_property("JAR filename in /plugins (e.g. 'PluginName.jar')"@)),
            required: seq!["server_uuid"@, "filename"@],
        },
    }
}

/// The list of tools.
pub open spec fn tools_tree() -> JsonTree {
    JsonTree::object().with(
        "tools"@,
        JsonTree::Array(listed_tools().map_values(|tool: Tool| card_tree(tool_card(tool)))),
    )
}

// ---------------------------------------------------------------------------
// Building the list
// ---------------------------------------------------------------------------

fn none<'a>() -> (res: Vec<&'a str>)
    ensures
        text::slices_view(res@) == Seq::<Seq<char>>::empty(),
{
    let res: Vec<&'a str> = Vec::new();
    assert(text::slices_view(res@) =~= seq![]);
    res
}

fn one<'a>(a: &'a str) -> (res: Vec<&'a str>)
    ensures
        text::slices_view(res@) == seq![a@],
{
    let mut res: Vec<&'a str> = Vec::new();
    res.push(a);
    assert(text::slices_view(res@) =~= seq![a@]);
    res
}

fn two<'a>(a: &'a str, b: &'a str) -> (res: Vec<&'a str>)
    ensures
        text::slices_view(res@) == seq![a@, b@],
{
    let mut res = one(a);
    let ghost before = res@;
    res.push(b);
    assert(text::slices_view(res@) =~= text::slices_view(before).push(b@));
    assert(text::slices_view(res@) =~= seq![a@, b@]);
    res
}

fn three<'a>(a: &'a str, b: &'a str, c: &'a str) -> (res: Vec<&'a str>)
    ensures
        text::slices_view(res@) == seq![a@, b@, c@],
{
    let mut res = two(a, b);
    let ghost before = res@;
    res.push(c);
    assert(text::slices_view(res@) =~= text::slices_view(before).push(c@));
    assert(text::slices_view(res@) =~= seq![a@, b@, c@]);
    res
}

fn four<'a>(a: &'a str, b: &'a str, c: &'a str, d: &'a str) -> (res: Vec<&'a str>)
    ensures
        text::slices_view(res@) == seq![a@, b@, c@, d@],
{
    let mut res = three(a, b, c);
    let ghost before = res@;
    res.push(d);
    assert(text::slices_view(res@) =~= text::slices_view(before).push(d@));
    assert(text::slices_view(res@) =~= seq![a@, b@, c@, d@]);
    res
}

fn argument(kind: &str, description: &str) -> (res: Json)
    ensures
        res@ == property_tree(kind@, description@),
{
    Json::object().with_text("type", kind).with_text("description", description)
}

fn text_argument(description: &str) -> (res: Json)
    ensures
        res@ == text_property(description@),
{
    argument("string", description)
}

fn choice_argument(choices: &Vec<&str>, description: &str) -> (res: Json)
    ensures
        res@ == choice_property(text::slices_view(choices@), description@),
{
    Json::object().with_text("type", "string").with("enum", Json::texts(choices)).with_text(
        "description",
        description,
    )
}

fn server_argument() -> (res: Json)
    ensures
        res@ == server_property(),
{
    Json::object().with("server_uuid", text_argument("The UUID of the target server"))
}

fn card(name: &str, description: &str, properties: Json, required: Vec<&str>) -> (res: Json)
    ensures
        res@ == card_tree(
            Card {
                name: name@,
                description: description@,
                properties: properties@,
                required: text::slices_view(required@),
            },
        ),
{
    proof {
        assert(text::slices_view(required@).len() == required@.len());
    }
    let schema = Json::object().with_text("type", "object").with("properties", properties);
    let schema = if required.len() == 0 {
        schema
    } else {
        schema.with("required", Json::texts(&required))
    };
    Json::object().with_text("name", name).with_text("description", description).with(
        "inputSchema",
        schema,
    )
}

/// The document that a tool is listed as.
pub fn describe(tool: Tool) -> (res: Json)
    ensures
        res@ == card_tree(tool_card(tool)),
{
    match tool {
        Tool::GetSystemHealth => card(
            "get-system-health",
            "Query live Calagopus panel system metrics, host RAM/CPU stats, database connections, and cache latency.",
            Json::object(),
            none(),
        ),
        Tool::ListNests => card(
            "list-nests",
            "List all game nests, egg repositories, and server templates configured in Calagopus.",
            Json::object(),
            none(),
        ),
        Tool::ListUsers => card(
            "list-users",
            "List registered panel users, email addresses, roles, and administrative privileges.",
            Json::object(),
            none(),
        ),
        Tool::ListServers => card(
            "list-servers",
            "Every server the key can see, with UUIDs, nodes, memory/disk allocations, status, and creation timestamps.",
            Json::object()
                .with("limit", argument("integer", "Max servers to return (default 50)")),
            none(),
        ),
        Tool::GetServer => card(
            "get-server",
            "One server in detail, including allocation, node mapping, egg config, and the daemon's live state.",
            server_argument(),
            one("server_uuid"),
        ),
        Tool::PowerServer => card(
            "power-server",
            "Start, stop, restart, or kill a server daemon container.",
            server_argument()
                .with("action", choice_argument(&four("start", "stop", "restart", "kill"), "Power action to execute")),
            two("server_uuid", "action"),
        ),
        Tool::SendConsoleCommand => card(
            "send-console-command",
            "Run a command on a server's console.",
            server_argument()
                .with("command", text_argument("The console command string to execute (e.g. 'say Hello', 'op PlayerName')")),
            two("server_uuid", "command"),
        ),
        Tool::ReadConsole => card(
            "read-console",
            "The tail of a server's console output logs.",
            server_argument()
                .with("lines", argument("integer", "Number of log lines to return (default 50)")),
            one("server_uuid"),
        ),
        Tool::ListMachines => card(
            "list-machines",
            "Enrolled machines (nodes) with health status, SFTP port, URL, memory, and disk capacity.",
            Json::object(),
            none(),
        ),
        Tool::ListFiles => card(
            "list-files",
            "Browse a directory inside a server's container volume.",
            server_argument()
                .with("directory", text_argument("Target directory path (default '/')")),
            one("server_uuid"),
        ),
        Tool::ReadFile => card(
            "read-file",
            "Read a text file from the server volume, up to 1 MB.",
            server_argument()
                .with("path", text_argument("Relative file path inside server volume")),
            two("server_uuid", "path"),
        ),
        Tool::WriteFile => card(
            "write-file",
            "Create a file or replace its contents in the server volume. No undo.",
            server_argument()
                .with("path", text_argument("File path to create or overwrite"))
                .with("content", text_argument("Text content to write")),
            three("server_uuid", "path", "content"),
        ),
        Tool::UploadFileFromUrl => card(
            "upload-file-from-url",
            "Have the machine fetch a file straight onto the server container volume.",
            server_argument()
                .with("url", text_argument("Direct download URL of the file"))
                .with("directory", text_argument("Target directory on server (default '/')")),
            two("server_uuid", "url"),
        ),
        Tool::DownloadFiles => card(
            "download-files",
            "A signed download link for a file, a packed directory, or the whole server volume.",
            server_argument()
                .with("path", text_argument("File or directory path to download (default '/')")),
            one("server_uuid"),
        ),
        Tool::ListBackups => card(
            "list-backups",
            "Every backup a server holds, with state, checksum, creation timestamp, and size in bytes.",
            server_argument(),
            one("server_uuid"),
        ),
        Tool::CreateBackup => card(
            "create-backup",
            "Take a backup; it archives in the background.",
            server_argument()
                .with("name", text_argument("Optional name or label for the backup")),
            one("server_uuid"),
        ),
        Tool::DownloadBackup => card(
            "download-backup",
            "A short-lived download link for a finished backup archive.",
            server_argument()
                .with("backup_uuid", text_argument("The UUID of the backup")),
            two("server_uuid", "backup_uuid"),
        ),
        Tool::GetSite => card(
            "get-site",
            "A web app's address, custom domains, SSL state, and last deploy status.",
            Json::object()
                .with("site_id", text_argument("Web app site ID or name")),
            one("site_id"),
        ),
        Tool::DeployRepo => card(
            "deploy-repo",
            "Deploy a public GitHub repository onto a web app.",
            Json::object()
                .with("site_id", text_argument("Web app site ID"))
                .with("repo_url", text_argument("GitHub repository URL (e.g. 'https://github.com/user/repo')"))
                .with("branch", text_argument("Git branch to deploy (default 'main')")),
            two("site_id", "repo_url"),
        ),
        Tool::DeployFiles => card(
            "deploy-files",
            "Send files you hold locally, archives unpacked in place on the web app.",
            Json::object()
                .with("site_id", text_argument("Web app site ID"))
                .with("archive_url", text_argument("URL to ZIP/tar.gz archive to deploy")),
            one("site_id"),
        ),
        Tool::AttachDomain => card(
            "attach-domain",
            "Point a custom domain at a web app, with auto SSL certificate provisioning.",
            Json::object()
                .with("site_id", text_argument("Web app site ID"))
                .with("domain", text_argument("Custom domain name (e.g. 'app.example.com')")),
            two("site_id", "domain"),
        ),
        Tool::DetachDomain => card(
            "detach-domain",
            "Stop serving a custom domain from a web app.",
            Json::object()
                .with("site_id", text_argument("Web app site ID"))
                .with("domain", text_argument("Custom domain name to remove")),
            two("site_id", "domain"),
        ),
        Tool::SearchPlugins => card(
            "search-plugins",
            "Search the Minecraft plugin catalog (Modrinth), filtered to compatible server software.",
            Json::object()
                .with("query", text_argument("Search query keywords (e.g. 'LuckPerms', 'Essentials', 'Vault')"))
                .with("software", text_argument("Server software (e.g. 'paper', 'spigot', 'velocity', 'fabric')"))
                .with("mc_version", text_argument("Minecraft target version (e.g. '1.20.4')")),
            one("query"),
        ),
        Tool::ListPlugins => card(
            "list-plugins",
            "Every plugin jar present in a server's /plugins folder.",
            server_argument(),
            one("server_uuid"),
        ),
        Tool::InstallPlugin => card(
            "install-plugin",
            "Install a plugin and its required dependencies from the catalog into /plugins.",
            server_argument()
                .with("plugin_id", text_argument("Modrinth or catalog plugin ID"))
                .with("download_url", text_argument("Direct plugin JAR download URL"))
                .with("filename", text_argument("JAR filename to save as")),
            one("server_uuid"),
        ),
        Tool::RemovePlugin => card(
            "remove-plugin",
            "Delete a plugin jar from the server's /plugins folder.",
            server_argument()
                .with("filename", text_argument("JAR filename in /plugins (e.g. 'PluginName.jar')")),
            two("server_uuid", "filename"),
        ),
    }
}

fn tools_in_order() -> (res: Vec<Tool>)
    ensures
        res@ == listed_tools(),
{
    let mut res: Vec<Tool> = Vec::new();
    res.push(Tool::GetSystemHealth);
    res.push(Tool::ListNests);
    res.push(Tool::ListUsers);
    res.push(Tool::ListServers);
    res.push(Tool::GetServer);
    res.push(Tool::PowerServer);
    res.push(Tool::SendConsoleCommand);
    res.push(Tool::ReadConsole);
    res.push(Tool::ListMachines);
    res.push(Tool::ListFiles);
    res.push(Tool::ReadFile);
    res.push(Tool::WriteFile);
    res.push(Tool::UploadFileFromUrl);
    res.push(Tool::DownloadFiles);
    res.push(Tool::ListBackups);
    res.push(Tool::CreateBackup);
    res.push(Tool::DownloadBackup);
    res.push(Tool::GetSite);
    res.push(Tool::DeployRepo);
    res.push(Tool::DeployFiles);
    res.push(Tool::AttachDomain);
    res.push(Tool::DetachDomain);
    res.push(Tool::SearchPlugins);
    res.push(Tool::ListPlugins);
    res.push(Tool::InstallPlugin);
    res.push(Tool::RemovePlugin);
    assert(res@ =~= listed_tools());
    res
}

/// The list of tools.
pub fn get_tools_list() -> (res: Json)
    ensures
        res@ == tools_tree(),
{
    let tools = tools_in_order();
    let ghost wanted = listed_tools().map_values(|tool: Tool| card_tree(tool_card(tool)));
    let mut list: Vec<Json> = Vec::new();
    let mut i: usize = 0;
    while i < tools.len()
        invariant
            i <= tools@.len(),
            wanted.len() == tools@.len(),
            forall|k: int|
                0 <= k < wanted.len() ==> #[trigger] wanted[k] == card_tree(tool_card(tools@[k])),
            trees(list@) == wanted.take(i as int),
        decreases tools@.len() - i,
    {
        let ghost before = list@;
        let document = describe(tools[i]);
        list.push(document);
        proof {
            assert(trees(list@) =~= trees(before).push(document@));
            assert(wanted.take(i + 1) =~= wanted.take(i as int).push(wanted[i as int]));
        }
        i = i + 1;
    }
    assert(wanted.take(i as int) =~= wanted);
    Json::object().with("tools", Json::array(list))
}

} // verus!
