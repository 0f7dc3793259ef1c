//! The tools and the names they answer to.

use vstd::prelude::*;

use crate::text;

verus! {

/// The management tools.
#[derive(Clone, Copy, Debug, PartialEq, Eq, Structural)]
pub enum Tool {
    GetSystemHealth,
    ListNests,
    ListUsers,
    ListServers,
    GetServer,
    PowerServer,
    SendConsoleCommand,
    ReadConsole,
    ListMachines,
    ListFiles,
    ReadFile,
    WriteFile,
    UploadFileFromUrl,
    DownloadFiles,
    ListBackups,
    CreateBackup,
    DownloadBackup,
    GetSite,
    DeployRepo,
    DeployFiles,
    AttachDomain,
    DetachDomain,
    SearchPlugins,
    ListPlugins,
    InstallPlugin,
    RemovePlugin,
}

/// The form in which tool names are compared: lower case, with underscores for
/// hyphens, and without the panel's prefix.
pub open spec fn normalized(name: Seq<char>) -> Seq<char> {
    text::without_prefixes(
        text::with_swapped(text::lowercase(name), '-', '_'),
        "calagopus_"@,
    )
}

/// The tool with that normalized name.
pub open spec fn tool_named(name: Seq<char>) -> Option<Tool> {
    if name == "get_system_health"@ || name == "system_health"@ || name == "health"@ {
        Some(Tool::GetSystemHealth)
    } else if name == "list_nests"@ || name == "nests"@ {
        Some(Tool::ListNests)
    } else if name == "list_users"@ || name == "users"@ {
        Some(Tool::ListUsers)
    } else if name == "list_servers"@ {
        Some(Tool::ListServers)
    } else if name == "get_server"@ {
        Some(Tool::GetServer)
    } else if name == "power_server"@ {
        Some(Tool::PowerServer)
    } else if name == "send_console_command"@ {
        Some(Tool::SendConsoleCommand)
    } else if name == "read_console"@ {
        Some(Tool::ReadConsole)
    } else if name == "list_machines"@ {
        Some(Tool::ListMachines)
    } else if name == "list_files"@ {
        Some(Tool::ListFiles)
    } else if name == "read_file"@ {
        Some(Tool::ReadFile)
    } else if name == "write_file"@ {
        Some(Tool::WriteFile)
    } else if name == "upload_file_from_url"@ {
        Some(Tool::UploadFileFromUrl)
    } else if name == "download_files"@ {
        Some(Tool::DownloadFiles)
    } else if name == "list_backups"@ {
        Some(Tool::ListBackups)
    } else if name == "create_backup"@ {
        Some(Tool::CreateBackup)
    } else if name == "download_backup"@ {
        Some(Tool::DownloadBackup)
    } else if name == "get_site"@ {
        Some(Tool::GetSite)
    } else if name == "deploy_repo"@ {
        Some(Tool::DeployRepo)
    } else if name == "deploy_files"@ {
        Some(Tool::DeployFiles)
    } else if name == "attach_domain"@ {
        Some(Tool::AttachDomain)
    } else if name == "detach_domain"@ {
        Some(Tool::DetachDomain)
    } else if name == "search_plugins"@ {
        Some(Tool::SearchPlugins)
    } else if name == "list_plugins"@ {
        Some(Tool::ListPlugins)
    } else if name == "install_plugin"@ {
        Some(Tool::InstallPlugin)
    } else if name == "remove_plugin"@ {
        Some(Tool::RemovePlugin)
    } else {
        None
    }
}

/// The form in which tool names are compared.
pub fn normalize(name: &str) -> (res: String)
    ensures
        res@ == normalized(name@),
{
    let lower = text::to_lowercase(name);
    proof {
        reveal_strlit("_");
        assert("_"@ =~= seq!['_']);
        text::lemma_replaced_is_swapped(lower@, '-', '_');
    }
    let plain = text::replace(lower.as_str(), '-', "_");
    text::strip_prefixes(plain.as_str(), "calagopus_").to_string()
}

impl Tool {
    /// The tool with that normalized name.
    pub fn named(name: &str) -> (res: Option<Tool>)
        ensures
            res == tool_named(name@),
    {
        if text::same(name, "get_system_health") || text::same(name, "system_health")
            || text::same(name, "health") {
            Some(Tool::GetSystemHealth)
        } else if text::same(name, "list_nests") || text::same(name, "nests") {
            Some(Tool::ListNests)
        } else if text::same(name, "list_users") || text::same(name, "users") {
            Some(Tool::ListUsers)
        } else if text::same(name, "list_servers") {
            Some(Tool::ListServers)
        } else if text::same(name, "get_server") {
            Some(Tool::GetServer)
        } else if text::same(name, "power_server") {
            Some(Tool::PowerServer)
        } else if text::same(name, "send_console_command") {
            Some(Tool::SendConsoleCommand)
        } else if text::same(name, "read_console") {
            Some(Tool::ReadConsole)
        } else if text::same(name, "list_machines") {
            Some(Tool::ListMachines)
        } else if text::same(name, "list_files") {
            Some(Tool::ListFiles)
        } else if text::same(name, "read_file") {
            Some(Tool::ReadFile)
        } else if text::same(name, "write_file") {
            Some(Tool::WriteFile)
        } else if text::same(name, "upload_file_from_url") {
            Some(Tool::UploadFileFromUrl)
        } else if text::same(name, "download_files") {
            Some(Tool::DownloadFiles)
        } else if text::same(name, "list_backups") {
            Some(Tool::ListBackups)
        } else if text::same(name, "create_backup") {
            Some(Tool::CreateBackup)
        } else if text::same(name, "download_backup") {
            Some(Tool::DownloadBackup)
        } else if text::same(name, "get_site") {
            Some(Tool::GetSite)
        } else if text::same(name, "deploy_repo") {
            Some(Tool::DeployRepo)
        } else if text::same(name, "deploy_files") {
            Some(Tool::DeployFiles)
        } else if text::same(name, "attach_domain") {
            Some(Tool::AttachDomain)
        } else if text::same(name, "detach_domain") {
            Some(Tool::DetachDomain)
        } else if text::same(name, "search_plugins") {
            Some(Tool::SearchPlugins)
        } else if text::same(name, "list_plugins") {
            Some(Tool::ListPlugins)
        } else if text::same(name, "install_plugin") {
            Some(Tool::InstallPlugin)
        } else if text::same(name, "remove_plugin") {
            Some(Tool::RemovePlugin)
        } else {
            None
        }
    }
}

} // verus!
