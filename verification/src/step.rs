//! The steps of a tool call: a finished result, or something for the
//! application to do whose outcome the call then goes on with.

use vstd::prelude::*;

use crate::json::{Json, JsonTree};

verus! {

/// What can be done to a server's power.
#[derive(Clone, Copy, Debug, PartialEq, Eq, Structural)]
pub enum PowerAction {
    Start,
    Stop,
    Restart,
    Kill,
}

/// What a node's daemon can be told to do.
pub enum OrderOf<S> {
    /// Send a power signal.
    Power(PowerAction),
    /// Run a command on the console.
    Command(S),
    /// Create or replace a file.
    Write { path: S, content: S },
    /// Fetch a file into a directory.
    Pull { root: S, url: S, file_name: Option<S>, use_header: bool, foreground: bool },
    /// Take a backup with that UUID, leaving out what `ignore` matches.
    Backup { id: u128, ignore: S },
}

/// What an order results in: on success the reply with the time under `stamp`,
/// and else an error that starts with `failure`.
pub struct ReceiptOf<S, J> {
    pub failure: S,
    pub reply: J,
    pub stamp: S,
}

/// The plugin that a call is to install.
pub struct PluginOf<S> {
    pub server_uuid: S,
    pub plugin_id: S,
    pub download_url: S,
    pub filename: S,
}

/// A step of a tool call. Where a server is concerned, `id` is its UUID and
/// `server_uuid` the text it was given as.
pub enum StepOf<S, J> {
    /// The call is finished.
    Done(J),
    /// Count the users, the nodes and the servers.
    CountAll,
    /// Fetch all nests.
    FetchNests,
    /// Fetch all users.
    FetchUsers,
    /// Fetch all machines.
    FetchMachines,
    /// Fetch servers, so many at most.
    FetchServers { limit: i64 },
    /// Fetch one server.
    FetchServer { id: u128, server_uuid: S },
    /// Fetch the backups of a server, or some of any server.
    FetchBackups { server: Option<u128>, server_uuid: S },
    /// Tell a server's daemon to do something.
    Order { id: u128, server_uuid: S, order: OrderOf<S>, receipt: ReceiptOf<S, J> },
    /// Fetch the tail of a server's console; `lines` were asked for.
    FetchLogs { id: u128, server_uuid: S, lines: i64, tail: u64 },
    /// Fetch a file of a server.
    FetchFile { id: u128, server_uuid: S, path: S },
    /// List a directory of a server.
    ListDirectory { id: u128, server_uuid: S, directory: S },
    /// List the directory of a server that holds its plugins.
    ListPlugins { id: u128, server_uuid: S, directory: S },
    /// Delete a file of a server.
    Delete { id: u128, server_uuid: S, root: S, filename: S },
    /// Search the plugin catalog at `url`.
    SearchCatalog { url: S, query: S, software: S, mc_version: S },
    /// Fetch a plugin's versions from the catalog at `url`.
    FetchVersions { url: S, plugin: PluginOf<S> },
}

pub type Order = OrderOf<String>;

pub type OrderModel = OrderOf<Seq<char>>;

pub type Receipt = ReceiptOf<String, Json>;

pub type ReceiptModel = ReceiptOf<Seq<char>, JsonTree>;

pub type Plugin = PluginOf<String>;

pub type PluginModel = PluginOf<Seq<char>>;

pub type Step = StepOf<String, Json>;

/// What a step says.
pub type StepModel = StepOf<Seq<char>, JsonTree>;

impl View for OrderOf<String> {
    type V = OrderModel;

    open spec fn view(&self) -> OrderModel {
        match *self {
            OrderOf::Power(action) => OrderOf::Power(action),
            OrderOf::Command(command) => OrderOf::Command(command@),
            OrderOf::Write { path, content } => OrderOf::Write { path: path@, content: content@ },
            OrderOf::Pull { root, url, file_name, use_header, foreground } => OrderOf::Pull {
                root: root@,
                url: url@,
                file_name: match file_name {
                    Some(name) => Some(name@),
                    None => None,
                },
                use_header,
                foreground,
            },
            OrderOf::Backup { id, ignore } => OrderOf::Backup { id, ignore: ignore@ },
        }
    }
}

impl View for ReceiptOf<String, Json> {
    type V = ReceiptModel;

    open spec fn view(&self) -> ReceiptModel {
        ReceiptOf { failure: self.failure@, reply: self.reply@, stamp: self.stamp@ }
    }
}

impl View for PluginOf<String> {
    type V = PluginModel;

    open spec fn view(&self) -> PluginModel {
        PluginOf {
            server_uuid: self.server_uuid@,
            plugin_id: self.plugin_id@,
            download_url: self.download_url@,
            filename: self.filename@,
        }
    }
}

impl View for StepOf<String, Json> {
    type V = StepModel;

    open spec fn view(&self) -> StepModel {
        match *self {
            StepOf::Done(result) => StepOf::Done(result@),
            StepOf::CountAll => StepOf::CountAll,
            StepOf::FetchNests => StepOf::FetchNests,
            StepOf::FetchUsers => StepOf::FetchUsers,
            StepOf::FetchMachines => StepOf::FetchMachines,
            StepOf::FetchServers { limit } => StepOf::FetchServers { limit },
            StepOf::FetchServer { id, server_uuid } => StepOf::FetchServer {
                id,
                server_uuid: server_uuid@,
            },
            StepOf::FetchBackups { server, server_uuid } => StepOf::FetchBackups {
                server,
                server_uuid: server_uuid@,
            },
            StepOf::Order { id, server_uuid, order, receipt } => StepOf::Order {
                id,
                server_uuid: server_uuid@,
                order: order@,
                receipt: receipt@,
            },
            StepOf::FetchLogs { id, server_uuid, lines, tail } => StepOf::FetchLogs {
                id,
                server_uuid: server_uuid@,
                lines,
                tail,
            },
            StepOf::FetchFile { id, server_uuid, path } => StepOf::FetchFile {
                id,
                server_uuid: server_uuid@,
                path: path@,
            },
            StepOf::ListDirectory { id, server_uuid, directory } => StepOf::ListDirectory {
                id,
                server_uuid: server_uuid@,
                directory: directory@,
            },
            StepOf::ListPlugins { id, server_uuid, directory } => StepOf::ListPlugins {
                id,
                server_uuid: server_uuid@,
                directory: directory@,
            },
            StepOf::Delete { id, server_uuid, root, filename } => StepOf::Delete {
                id,
                server_uuid: server_uuid@,
                root: root@,
                filename: filename@,
            },
            StepOf::SearchCatalog { url, query, software, mc_version } => StepOf::SearchCatalog {
                url: url@,
                query: query@,
                software: software@,
                mc_version: mc_version@,
            },
            StepOf::FetchVersions { url, plugin } => StepOf::FetchVersions {
                url: url@,
                plugin: plugin@,
            },
        }
    }
}

} // verus!
