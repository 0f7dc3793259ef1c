//! What the plugin tools make of their arguments and of the catalog's answers.

use vstd::prelude::*;

use crate::argument_laws::{fails_with, gives, leaves_open, names, reads, reads_number, tells};
use crate::execute::{search_url, tool_step};
use crate::ids;
use crate::json::JsonTree;
use crate::members::{group_members, lemma_marks};
use crate::outcome::{first_primary, found_trees, main_file, resolved};
use crate::progress::{answer_tree, next_step, Event};
use crate::records::{plugin_trees, FileEntry};
use crate::render::{read_value, value_tree};
use crate::step::{OrderOf, PluginModel, StepModel, StepOf};
use crate::text;
use crate::tool::Tool;

verus! {

broadcast use group_members;

// ---------------------------------------------------------------------------
// Searching
// ---------------------------------------------------------------------------

/// The catalog is asked for the words, the software and the version that the
/// call gives, and the reply tells the same.
pub proof fn law_search_asks_for_the_given(
    arguments: JsonTree,
    query: Seq<char>,
    software: Seq<char>,
    mc_version: Seq<char>,
    fresh: u128,
    now: Seq<char>,
)
    requires
        reads(arguments, "query"@, query, ""@),
        reads(arguments, "software"@, software, "paper"@),
        reads(arguments, "mc_version"@, mc_version, "1.20.4"@),
    ensures
        tool_step(Tool::SearchPlugins, arguments, fresh, now) matches StepOf::SearchCatalog {
            url,
            query: words,
            software: category,
            mc_version: version,
        } && {
            &&& words == query && category == software && version == mc_version
            &&& text::has_prefix(url, "https://api.modrinth.com/v2/search?query="@ + query)
            &&& text::has_part(url, "categories:"@ + software + "\"]"@)
            &&& text::has_part(url, "versions:"@ + mc_version + "\"]"@)
            &&& url == "https://api.modrinth.com/v2/search?query="@ + query
                + "&facets=[[\"categories:"@ + software + "\"],[\"versions:"@ + mc_version
                + "\"]]"@
        },
{
    let start = "https://api.modrinth.com/v2/search?query="@ + query;
    let url = search_url(query, software, mc_version);
    assert(url.take(start.len() as int) =~= start);
    reveal_strlit("&facets=[[\"categories:");
    reveal_strlit("categories:");
    reveal_strlit("\"],[\"versions:");
    reveal_strlit("versions:");
    reveal_strlit("\"]]");
    reveal_strlit("\"]");
    let at = start.len() + 11;
    let category = "categories:"@ + software + "\"]"@;
    assert("&facets=[[\"categories:"@.len() == 22);
    assert(url.skip(at as int).take(category.len() as int) =~= category);
    assert(text::has_prefix(url.skip(at as int), category));
    let then = start.len() + 22 + software.len() + 5;
    let version = "versions:"@ + mc_version + "\"]"@;
    assert("\"],[\"versions:"@.len() == 14);
    assert(url.skip(then as int).take(version.len() as int) =~= version);
    assert(text::has_prefix(url.skip(then as int), version));
}

/// Searches that differ in the words, in the software or in the version ask the
/// catalog differently.
pub proof fn law_searches_differ(
    query: Seq<char>,
    other_query: Seq<char>,
    software: Seq<char>,
    other_software: Seq<char>,
    mc_version: Seq<char>,
    other_version: Seq<char>,
)
    ensures
        search_url(query, software, mc_version) == search_url(other_query, software, mc_version)
            ==> query == other_query,
        search_url(query, software, mc_version) == search_url(query, other_software, mc_version)
            ==> software == other_software,
        search_url(query, software, mc_version) == search_url(query, software, other_version)
            ==> mc_version == other_version,
{
    let url = search_url(query, software, mc_version);
    let start = "https://api.modrinth.com/v2/search?query="@;
    let middle = "&facets=[[\"categories:"@;
    let after = "\"],[\"versions:"@;
    let a = start.len() as int;
    lemma_search_url_len(query, software, mc_version);
    lemma_search_url_len(other_query, software, mc_version);
    lemma_search_url_len(query, other_software, mc_version);
    lemma_search_url_len(query, software, other_version);
    if url == search_url(other_query, software, mc_version) {
        let b = search_url(other_query, software, mc_version);
        assert(query.len() == other_query.len());
        assert(url.subrange(a, a + query.len()) =~= query);
        assert(b.subrange(a, a + query.len()) =~= other_query);
    }
    let c = a + query.len() + middle.len();
    if url == search_url(query, other_software, mc_version) {
        let b = search_url(query, other_software, mc_version);
        assert(software.len() == other_software.len());
        assert(url.subrange(c, c + software.len()) =~= software);
        assert(b.subrange(c, c + software.len()) =~= other_software);
    }
    let d = c + software.len() + after.len();
    if url == search_url(query, software, other_version) {
        let b = search_url(query, software, other_version);
        assert(mc_version.len() == other_version.len());
        assert(url.subrange(d, d + mc_version.len()) =~= mc_version);
        assert(b.subrange(d, d + mc_version.len()) =~= other_version);
    }
}

proof fn lemma_search_url_len(query: Seq<char>, software: Seq<char>, mc_version: Seq<char>)
    ensures
        search_url(query, software, mc_version).len()
            == "https://api.modrinth.com/v2/search?query="@.len() + query.len()
            + "&facets=[[\"categories:"@.len() + software.len() + "\"],[\"versions:"@.len()
            + mc_version.len() + "\"]]"@.len(),
{
}

/// What a search finds: the catalog's hits in their order, as many as there are
/// up to ten.
pub proof fn law_hits_are_shown_in_order(
    mc_version: Seq<char>,
    body: JsonTree,
    hits: Seq<JsonTree>,
    i: int,
)
    requires
        body.get("hits"@) == Some(JsonTree::Array(hits)),
        0 <= i < hits.len(),
        i < 10,
    ensures
        ({
            let found = found_trees(mc_version, Some(body));
            &&& found.len() == hits.len() || (hits.len() > 10 && found.len() == 10)
            &&& shows(found[i], "id"@, hits[i], "project_id"@)
            &&& shows(found[i], "slug"@, hits[i], "slug"@)
            &&& shows(found[i], "name"@, hits[i], "title"@)
            &&& shows(found[i], "description"@, hits[i], "description"@)
            &&& shows(found[i], "author"@, hits[i], "author"@)
            &&& forall|n: i64|
                #![trigger reads_number(hits[i], "downloads"@, n, 0)]
                reads_number(hits[i], "downloads"@, n, 0) ==> found[i].get("downloads"@) == Some(
                    JsonTree::Number(n as int),
                )
            &&& tells(found[i], "source"@, "modrinth"@)
        }),
{
    lemma_marks();
}

/// The text under `from` in a hit, or an empty one, is shown under `key`.
pub open spec fn shows(shown: JsonTree, key: Seq<char>, hit: JsonTree, from: Seq<char>) -> bool {
    &&& forall|value: Seq<char>| #[trigger]
        gives(hit, from, value) ==> tells(shown, key, value)
    &&& leaves_open(hit, from) ==> tells(shown, key, ""@)
}

/// Where the catalog has nothing, two well known plugins are offered, for the
/// version that was asked for.
pub proof fn law_fallback_is_for_the_version(mc_version: Seq<char>, body: Option<JsonTree>)
    requires
        match body {
            Some(body) => match body.get("hits"@) {
                Some(JsonTree::Array(hits)) => hits.len() == 0,
                _ => true,
            },
            None => true,
        },
    ensures
        ({
            let found = found_trees(mc_version, body);
            &&& found.len() == 2
            &&& tells(found[0], "id"@, "luckperms"@) && tells(found[1], "id"@, "vault"@)
            &&& tells(found[0], "name"@, "LuckPerms"@) && tells(found[1], "name"@, "Vault"@)
            &&& tells(found[0], "author"@, "Luck"@) && tells(found[1], "author"@, "Sleight"@)
            &&& tells(
                found[0],
                "description"@,
                "An advanced permissions plugin for Minecraft servers."@,
            )
            &&& tells(found[1], "description"@, "Economy, Permission, and Chat API plugin."@)
            &&& forall|i: int|
                0 <= i < 2 ==> {
                    &&& tells(#[trigger] found[i], "source"@, "catalog"@)
                    &&& found[i].get("compatible_versions"@) matches Some(
                        JsonTree::Array(versions),
                    ) && versions =~= seq![JsonTree::Text(mc_version)]
                }
        }),
{
    lemma_marks();
}

// ---------------------------------------------------------------------------
// Installing
// ---------------------------------------------------------------------------

/// The file is marked as the main one.
pub open spec fn is_marked(file: JsonTree) -> bool {
    file.get("primary"@) == Some(JsonTree::Bool(true))
}

/// The file to install of a version: the first that is marked as the main one,
/// or the first of all where none is.
pub open spec fn is_the_file(files: Seq<JsonTree>, k: int) -> bool {
    &&& 0 <= k < files.len()
    &&& (is_marked(files[k]) && forall|j: int| 0 <= j < k ==> !is_marked(#[trigger] files[j]))
        || (k == 0 && forall|j: int| 0 <= j < files.len() ==> !is_marked(#[trigger] files[j]))
}

/// The catalog lists the newest version first, and that is the one installed:
/// its main file, whatever other versions follow.
pub proof fn law_newest_version_is_installed(
    plugin: PluginModel,
    newest: JsonTree,
    others: Seq<JsonTree>,
    files: Seq<JsonTree>,
    k: int,
)
    requires
        newest.get("files"@) == Some(JsonTree::Array(files)),
        is_the_file(files, k),
    ensures
        ({
            let found = resolved(plugin, Some(JsonTree::Array(seq![newest] + others)));
            &&& forall|url: Seq<char>| #[trigger]
                gives(files[k], "url"@, url) ==> found.download_url == url
            &&& leaves_open(files[k], "url"@) ==> found.download_url == plugin.download_url
            &&& forall|name: Seq<char>| #[trigger]
                gives(files[k], "filename"@, name) && plugin.filename.len() == 0
                    ==> found.filename == name
            &&& leaves_open(files[k], "filename"@) ==> found.filename == plugin.filename
            &&& plugin.filename.len() > 0 ==> found.filename == plugin.filename
            &&& found.server_uuid == plugin.server_uuid && found.plugin_id == plugin.plugin_id
        }),
{
    let items = seq![newest] + others;
    assert(items[0] == newest);
    lemma_first_marked(files, k);
}

/// The older versions in the catalog's answer change nothing.
pub proof fn law_older_versions_are_ignored(
    plugin: PluginModel,
    newest: JsonTree,
    others: Seq<JsonTree>,
    changed: Seq<JsonTree>,
)
    ensures
        resolved(plugin, Some(JsonTree::Array(seq![newest] + others))) == resolved(
            plugin,
            Some(JsonTree::Array(seq![newest] + changed)),
        ),
{
    assert((seq![newest] + others)[0] == (seq![newest] + changed)[0]);
}

/// An answer without a version, or without files in the newest, leaves the plugin
/// as it is.
pub proof fn law_answer_without_files(plugin: PluginModel, versions: Option<JsonTree>)
    requires
        match versions {
            Some(JsonTree::Array(items)) => items.len() > 0 ==> match items[0].get("files"@) {
                Some(JsonTree::Array(files)) => files.len() == 0,
                _ => true,
            },
            _ => true,
        },
    ensures
        resolved(plugin, versions) == plugin,
{
}

proof fn lemma_first_marked(files: Seq<JsonTree>, k: int)
    requires
        is_the_file(files, k),
    ensures
        main_file(files) == Some(files[k]),
    decreases files.len(),
{
    if is_marked(files[k]) && k > 0 {
        let rest = files.drop_first();
        assert(!is_marked(files[0]));
        assert forall|j: int| 0 <= j < k - 1 implies !is_marked(#[trigger] rest[j]) by {
            assert(rest[j] == files[j + 1]);
        }
        assert(rest[k - 1] == files[k]);
        lemma_first_marked(rest, k - 1);
        lemma_marked_is_found(rest, k - 1);
    } else if !is_marked(files[k]) {
        lemma_none_marked(files);
    }
}

proof fn lemma_marked_is_found(files: Seq<JsonTree>, k: int)
    requires
        0 <= k < files.len(),
        is_marked(files[k]),
    ensures
        first_primary(files) is Some,
    decreases files.len(),
{
    if k > 0 {
        assert(files.drop_first()[k - 1] == files[k]);
        lemma_marked_is_found(files.drop_first(), k - 1);
    }
}

proof fn lemma_none_marked(files: Seq<JsonTree>)
    requires
        forall|j: int| 0 <= j < files.len() ==> !is_marked(#[trigger] files[j]),
    ensures
        first_primary(files) is None,
    decreases files.len(),
{
    if files.len() > 0 {
        let rest = files.drop_first();
        assert forall|j: int| 0 <= j < rest.len() implies !is_marked(#[trigger] rest[j]) by {
            assert(rest[j] == files[j + 1]);
        }
        lemma_none_marked(rest);
    }
}

/// A plugin is fetched from its address into the plugin directory of its server,
/// in the foreground, under its own file name if it has one.
pub open spec fn installs(
    step: StepModel,
    id: u128,
    server_uuid: Seq<char>,
    plugin_id: Seq<char>,
    url: Seq<char>,
    filename: Seq<char>,
) -> bool {
    step matches StepOf::Order {
        id: told,
        server_uuid: given,
        order: OrderOf::Pull { root, url: from, file_name, use_header, foreground },
        receipt,
    } && {
        &&& told == id && given == server_uuid
        &&& root == "/plugins"@ && from == url && use_header && foreground
        &&& filename.len() > 0 ==> file_name == Some(filename)
        &&& filename.len() == 0 ==> file_name is None
        &&& tells(receipt.reply, "status"@, "plugin_installed"@)
        &&& tells(receipt.reply, "server_uuid"@, server_uuid)
        &&& tells(receipt.reply, "plugin_id"@, plugin_id)
        &&& tells(receipt.reply, "download_url"@, url)
        &&& filename.len() > 0 ==> tells(receipt.reply, "target_file"@, "/plugins/"@ + filename)
        &&& filename.len() == 0 ==> tells(
            receipt.reply,
            "target_file"@,
            "/plugins/downloaded_plugin.jar"@,
        )
        &&& receipt.stamp == "installed_at"@
        &&& receipt.failure == "Wings daemon install_plugin failed: "@
    }
}

/// The plugin at the address that a call gives is installed, under the name that
/// the call gives. Without an address the catalog is asked for the plugin that
/// the call gives, and without a plugin either there is nothing to install.
pub proof fn law_given_plugin_is_installed(
    arguments: JsonTree,
    server_uuid: Seq<char>,
    id: u128,
    plugin_id: Seq<char>,
    url: Seq<char>,
    filename: Seq<char>,
    fresh: u128,
    now: Seq<char>,
)
    requires
        names(arguments, server_uuid, id),
        reads(arguments, "plugin_id"@, plugin_id, ""@),
        reads(arguments, "download_url"@, url, ""@),
        reads(arguments, "filename"@, filename, ""@),
    ensures
        ({
            let step = tool_step(Tool::InstallPlugin, arguments, fresh, now);
            &&& url.len() > 0 ==> installs(step, id, server_uuid, plugin_id, url, filename)
            &&& url.len() == 0 && plugin_id.len() > 0 ==> (step matches StepOf::FetchVersions {
                url: asked,
                plugin,
            } && {
                &&& asked == "https://api.modrinth.com/v2/project/"@ + plugin_id + "/version"@
                &&& plugin.server_uuid == server_uuid && plugin.plugin_id == plugin_id
                &&& plugin.download_url.len() == 0 && plugin.filename == filename
            })
            &&& url.len() == 0 && plugin_id.len() == 0 ==> fails_with(
                step,
                "Either direct 'download_url' or a valid 'plugin_id' (resolvable via Modrinth) must be provided."@,
            )
        }),
{
    lemma_marks();
    reveal_strlit("");
    lemma_default_target();
}

proof fn lemma_default_target()
    ensures
        "/plugins/"@ + "downloaded_plugin.jar"@ == "/plugins/downloaded_plugin.jar"@,
{
    reveal_strlit("/plugins/");
    reveal_strlit("downloaded_plugin.jar");
    reveal_strlit("/plugins/downloaded_plugin.jar");
    assert("/plugins/"@ + "downloaded_plugin.jar"@ =~= "/plugins/downloaded_plugin.jar"@);
}

/// After the catalog's answer the main file of the newest version is installed on
/// the server that the call named.
pub proof fn law_answer_is_installed(
    url: Seq<char>,
    plugin: PluginModel,
    id: u128,
    answer: Option<Vec<u8>>,
    newest: JsonTree,
    others: Seq<JsonTree>,
    files: Seq<JsonTree>,
    k: int,
    from: Seq<char>,
    name: Seq<char>,
    now: Seq<char>,
)
    requires
        ids::parsed_uuid(plugin.server_uuid) == Some(id),
        answer_tree(answer) == Some(JsonTree::Array(seq![newest] + others)),
        newest.get("files"@) == Some(JsonTree::Array(files)),
        is_the_file(files, k),
        gives(files[k], "url"@, from),
        from.len() > 0,
        if plugin.filename.len() > 0 {
            name == plugin.filename
        } else {
            reads(files[k], "filename"@, name, plugin.filename)
        },
    ensures
        next_step(
            StepOf::FetchVersions { url, plugin },
            Event::Catalog(answer),
            now,
        ) matches Some(step) && installs(
            step,
            id,
            plugin.server_uuid,
            plugin.plugin_id,
            from,
            name,
        ),
{
    lemma_marks();
    lemma_default_target();
    law_newest_version_is_installed(plugin, newest, others, files, k);
}

/// Where neither the call nor the catalog's answer gives an address, nothing is
/// installed.
pub proof fn law_nothing_is_installed_from_nowhere(
    url: Seq<char>,
    plugin: PluginModel,
    answer: Option<Vec<u8>>,
    now: Seq<char>,
)
    requires
        resolved(plugin, answer_tree(answer)).download_url.len() == 0,
    ensures
        next_step(
            StepOf::FetchVersions { url, plugin },
            Event::Catalog(answer),
            now,
        ) matches Some(step) && fails_with(
            step,
            "Either direct 'download_url' or a valid 'plugin_id' (resolvable via Modrinth) must be provided."@,
        ),
        answer is None ==> answer_tree(answer) is None,
        answer matches Some(bytes) ==> match read_value(bytes@) {
            Some(value) => answer_tree(answer) == Some(value_tree(value)),
            None => answer_tree(answer) is None,
        },
{
}

// ---------------------------------------------------------------------------
// Removing and listing
// ---------------------------------------------------------------------------

/// The file that a call gives is deleted from the plugin directory of the named
/// server; a blank name deletes nothing.
pub proof fn law_given_plugin_is_removed(
    arguments: JsonTree,
    server_uuid: Seq<char>,
    id: u128,
    filename: Seq<char>,
    fresh: u128,
    now: Seq<char>,
)
    requires
        names(arguments, server_uuid, id),
        reads(arguments, "filename"@, filename, ""@),
    ensures
        (exists|i: int| 0 <= i < filename.len() && !text::is_space(#[trigger] filename[i]))
            ==> tool_step(Tool::RemovePlugin, arguments, fresh, now) == (StepModel::Delete {
            id,
            server_uuid,
            root: "/plugins"@,
            filename,
        }),
        (forall|i: int| 0 <= i < filename.len() ==> text::is_space(#[trigger] filename[i]))
            ==> fails_with(
            tool_step(Tool::RemovePlugin, arguments, fresh, now),
            "Plugin filename cannot be empty"@,
        ),
{
}

/// Plugins are listed in the order of the directory, each as often as it is
/// there: a file whose name ends in `.jar` is one, and nothing else is.
pub proof fn law_plugins_are_listed_in_order(before: Seq<FileEntry>, entry: FileEntry)
    ensures
        ({
            let is_jar = entry.file && exists|stem: Seq<char>| entry.name@ == #[trigger] (stem
                + ".jar"@);
            let earlier = plugin_trees(before);
            let all = plugin_trees(before.push(entry));
            &&& is_jar ==> all.len() == earlier.len() + 1 && all.drop_last() == earlier
                && shows_plugin(all.last(), entry)
            &&& !is_jar ==> all == earlier
        }),
        plugin_trees(seq![]) == Seq::<JsonTree>::empty(),
{
    let is_plugin = |e: FileEntry| e.is_plugin();
    let name = entry.name@;
    lemma_marks();
    before.lemma_filter_push(entry, is_plugin);
    reveal(Seq::filter);
    assert(plugin_trees(seq![]) =~= Seq::<JsonTree>::empty());
    if text::has_suffix(name, ".jar"@) {
        let stem = name.take(name.len() - ".jar"@.len());
        assert(name =~= stem + ".jar"@);
    }
    assert forall|stem: Seq<char>| name == #[trigger] (stem + ".jar"@) implies text::has_suffix(
        name,
        ".jar"@,
    ) by {
        assert(name.skip(name.len() - ".jar"@.len()) =~= ".jar"@);
    }
    let all = plugin_trees(before.push(entry));
    if entry.is_plugin() {
        assert(all =~= plugin_trees(before).push(entry.plugin_tree()));
        assert(all.drop_last() =~= plugin_trees(before));
        assert forall|stem: Seq<char>| name == #[trigger] (stem + ".jar"@) && !text::has_suffix(
            stem,
            ".jar"@,
        ) implies tells(entry.plugin_tree(), "name"@, stem) by {
            reveal_strlit(".jar");
            assert(name.take(name.len() - 4) =~= stem);
            assert(text::without_suffixes(stem, ".jar"@) == stem);
        }
    } else {
        assert(all =~= plugin_trees(before));
    }
}

/// The document tells of a plugin what its directory entry does; its name is that
/// of the file without the ending.
pub open spec fn shows_plugin(document: JsonTree, entry: FileEntry) -> bool {
    &&& tells(document, "filename"@, entry.name@)
    &&& document.get("size_bytes"@) == Some(JsonTree::Number(entry.size as int))
    &&& tells(
        document,
        "modified"@,
        crate::clock::rfc3339_text(entry.modified.seconds_view(), entry.modified.nanos_view()),
    )
    &&& forall|stem: Seq<char>|
        entry.name@ == #[trigger] (stem + ".jar"@) && !text::has_suffix(stem, ".jar"@) ==> tells(
            document,
            "name"@,
            stem,
        )
}

} // verus!
