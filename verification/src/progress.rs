//! Tool calls from step to step: what the application reports of a step, and
//! the step that follows.

use vstd::prelude::*;

use crate::clock;
use crate::content::{is_faithful, told, Outcome};
use crate::execute::{install_step, is_sound, json_view};
use crate::json::{Json, JsonTree};
use crate::outcome::{
    backups_fetched, backups_tree, catalog_searched, deletion_outcome, directory_listed,
    directory_outcome, file_fetched, file_outcome, found_backups, health_tree, listing,
    logs_fetched, logs_outcome, machines_fetched, nests_fetched, order_done, order_outcome,
    plugin_deleted, plugins_listed, plugins_outcome, resolved, search_tree, server_fetched,
    server_outcome, servers_fetched, system_health, users_fetched, versions_fetched, NodeReply,
};
use crate::records::{BackupRow, FileEntry, MachineRow, NestRow, ServerRow, UserRow};
use crate::render::{read, read_tree};
use crate::step::{Step, StepModel, StepOf};

verus! {

/// What came of a step.
pub enum Event {
    /// The counts of users, nodes and servers; one that failed is `None`.
    Counted { users: Option<i64>, nodes: Option<i64>, servers: Option<i64> },
    Nests(Result<Vec<NestRow>, String>),
    Users(Result<Vec<UserRow>, String>),
    Machines(Result<Vec<MachineRow>, String>),
    Servers(Result<Vec<ServerRow>, String>),
    /// The server that was looked for, if there is one.
    Server(Result<Option<ServerRow>, String>),
    /// The backups that were found, unless the query failed.
    Backups(Option<Vec<BackupRow>>),
    /// What the daemon made of an order.
    Ordered(NodeReply<()>),
    /// The text that the daemon sent, or the error that reading it ended with.
    Text(NodeReply<Result<String, String>>),
    /// The entries of a directory.
    Entries(NodeReply<Vec<FileEntry>>),
    /// How many files the daemon deleted.
    Deleted(NodeReply<u64>),
    /// The bytes of the catalog's answer, if one came.
    Catalog(Option<Vec<u8>>),
}

/// The document in the catalog's answer.
pub open spec fn answer_tree(answer: Option<Vec<u8>>) -> Option<JsonTree> {
    match answer {
        Some(bytes) => read_tree(bytes@),
        None => None,
    }
}

fn read_answer(answer: Option<Vec<u8>>) -> (document: Option<Json>)
    ensures
        json_view(document) == answer_tree(answer),
{
    match answer {
        Some(bytes) => read(&bytes),
        None => None,
    }
}

/// What a call comes to after a step, where the event is one of that step and
/// nothing is left to do.
pub open spec fn next_outcome(step: StepModel, event: Event, now: Seq<char>) -> Option<Outcome> {
    match (step, event) {
        (StepOf::CountAll, Event::Counted { users, nodes, servers }) => Some(
            Ok(health_tree(users, nodes, servers, now)),
        ),
        (StepOf::FetchNests, Event::Nests(rows)) => Some(listing(rows, "nests"@)),
        (StepOf::FetchUsers, Event::Users(rows)) => Some(listing(rows, "users"@)),
        (StepOf::FetchMachines, Event::Machines(rows)) => Some(listing(rows, "machines"@)),
        (StepOf::FetchServers { .. }, Event::Servers(rows)) => Some(listing(rows, "servers"@)),
        (StepOf::FetchServer { server_uuid, .. }, Event::Server(row)) => Some(
            server_outcome(server_uuid, row),
        ),
        (StepOf::FetchBackups { server_uuid, .. }, Event::Backups(rows)) => Some(
            Ok(backups_tree(server_uuid, found_backups(rows))),
        ),
        (StepOf::Order { server_uuid, receipt, .. }, Event::Ordered(reply)) => Some(
            order_outcome(server_uuid, receipt, reply, now),
        ),
        (StepOf::FetchLogs { server_uuid, lines, .. }, Event::Text(reply)) => Some(
            logs_outcome(server_uuid, lines, reply),
        ),
        (StepOf::FetchFile { server_uuid, path, .. }, Event::Text(reply)) => Some(
            file_outcome(server_uuid, path, reply),
        ),
        (StepOf::ListDirectory { server_uuid, directory, .. }, Event::Entries(reply)) => Some(
            directory_outcome(server_uuid, directory, reply),
        ),
        (StepOf::ListPlugins { server_uuid, directory, .. }, Event::Entries(reply)) => Some(
            plugins_outcome(server_uuid, directory, reply),
        ),
        (StepOf::Delete { server_uuid, filename, .. }, Event::Deleted(reply)) => Some(
            deletion_outcome(server_uuid, filename, reply, now),
        ),
        (
            StepOf::SearchCatalog { query, software, mc_version, .. },
            Event::Catalog(answer),
        ) => Some(Ok(search_tree(query, software, mc_version, answer_tree(answer)))),
        _ => None,
    }
}

/// The step that follows a step with that event, where the event is one of that
/// step.
pub open spec fn next_step(step: StepModel, event: Event, now: Seq<char>) -> Option<StepModel> {
    match next_outcome(step, event, now) {
        Some(outcome) => Some(StepOf::Done(told(outcome))),
        None => match (step, event) {
            (StepOf::FetchVersions { plugin, .. }, Event::Catalog(answer)) => Some(
                install_step(resolved(plugin, answer_tree(answer))),
            ),
            _ => None,
        },
    }
}

/// The document that a call comes to after a step, if it comes to one, is read
/// back from the result.
pub open spec fn shows_outcome(step: StepModel, event: Event, now: Seq<char>) -> bool {
    next_outcome(step, event, now) matches Some(outcome) ==> is_faithful(outcome)
}

/// Goes on with a call after a step, with the time at hand. There is no next
/// step where the outcome is not one of that step.
pub fn advance_at(step: Step, event: Event, now: &str) -> (res: Option<Step>)
    requires
        event matches Event::Server(Ok(Some(server))) ==> server.sizes_fit(),
    ensures
        match res {
            Some(next) => next_step(step@, event, now@) == Some(next@),
            None => next_step(step@, event, now@) is None,
        },
        is_sound(step@) ==> shows_outcome(step@, event, now@),
        is_sound(step@) ==> (res matches Some(next) ==> is_sound(next@)),
{
    match (step, event) {
        (StepOf::CountAll, Event::Counted { users, nodes, servers }) => Some(
            StepOf::Done(system_health(users, nodes, servers, now)),
        ),
        (StepOf::FetchNests, Event::Nests(rows)) => Some(StepOf::Done(nests_fetched(rows))),
        (StepOf::FetchUsers, Event::Users(rows)) => Some(StepOf::Done(users_fetched(rows))),
        (StepOf::FetchMachines, Event::Machines(rows)) => Some(
            StepOf::Done(machines_fetched(rows)),
        ),
        (StepOf::FetchServers { .. }, Event::Servers(rows)) => Some(
            StepOf::Done(servers_fetched(rows)),
        ),
        (StepOf::FetchServer { server_uuid, .. }, Event::Server(row)) => Some(
            StepOf::Done(server_fetched(server_uuid.as_str(), row)),
        ),
        (StepOf::FetchBackups { server_uuid, .. }, Event::Backups(rows)) => Some(
            StepOf::Done(backups_fetched(server_uuid.as_str(), rows)),
        ),
        (StepOf::Order { server_uuid, receipt, .. }, Event::Ordered(reply)) => Some(
            StepOf::Done(order_done(server_uuid.as_str(), receipt, reply, now)),
        ),
        (StepOf::FetchLogs { server_uuid, lines, .. }, Event::Text(reply)) => Some(
            StepOf::Done(logs_fetched(server_uuid.as_str(), lines, reply)),
        ),
        (StepOf::FetchFile { server_uuid, path, .. }, Event::Text(reply)) => Some(
            StepOf::Done(file_fetched(server_uuid.as_str(), path.as_str(), reply)),
        ),
        (StepOf::ListDirectory { server_uuid, directory, .. }, Event::Entries(reply)) => Some(
            StepOf::Done(directory_listed(server_uuid.as_str(), directory.as_str(), reply)),
        ),
        (StepOf::ListPlugins { server_uuid, directory, .. }, Event::Entries(reply)) => Some(
            StepOf::Done(plugins_listed(server_uuid.as_str(), directory.as_str(), reply)),
        ),
        (StepOf::Delete { server_uuid, filename, .. }, Event::Deleted(reply)) => Some(
            StepOf::Done(plugin_deleted(server_uuid.as_str(), filename.as_str(), reply, now)),
        ),
        (
            StepOf::SearchCatalog { query, software, mc_version, .. },
            Event::Catalog(answer),
        ) => Some(
            StepOf::Done(
                catalog_searched(
                    query.as_str(),
                    software.as_str(),
                    mc_version.as_str(),
                    read_answer(answer),
                ),
            ),
        ),
        (StepOf::FetchVersions { plugin, .. }, Event::Catalog(answer)) => Some(
            versions_fetched(plugin, read_answer(answer)),
        ),
        _ => None,
    }
}

/// Goes on with a call after a step. There is no next step where the outcome is
/// not one of that step.
pub fn advance(step: Step, event: Event) -> (res: Option<Step>)
    requires
        event matches Event::Server(Ok(Some(server))) ==> server.sizes_fit(),
    ensures
        exists|now: Seq<char>| #[trigger]
            clock::is_utc_stamp(now) && match res {
                Some(next) => next_step(step@, event, now) == Some(next@),
                None => next_step(step@, event, now) is None,
            } && (is_sound(step@) ==> shows_outcome(step@, event, now)),
        is_sound(step@) ==> (res matches Some(next) ==> is_sound(next@)),
{
    let now = clock::now();
    advance_at(step, event, now.as_str())
}

} // verus!
