//! Rows of the panel's database and entries of a server's volume, and the
//! documents they are listed as.

use vstd::prelude::*;

use crate::clock::{self, Moment};
use crate::ids;
use crate::json::{trees, Json, JsonTree};
use crate::readable::{is_readable, lemma_plain_keys, lemma_readable_with, most_levels};
use crate::text;

verus! {

broadcast use lemma_readable_with;

/// The text of a moment without its zone.
pub open spec fn plain_time(moment: Moment) -> Seq<char> {
    clock::plain_text(moment.seconds_view(), moment.nanos_view())
}

/// The RFC 3339 text of a moment.
pub open spec fn rfc3339_time(moment: Moment) -> Seq<char> {
    clock::rfc3339_text(moment.seconds_view(), moment.nanos_view())
}

/// Something that is listed as a JSON document.
pub trait Record {
    spec fn tree(&self) -> JsonTree;

    /// The document is flat and can be read back.
    proof fn lemma_flat(&self, levels: nat)
        requires
            levels > 0,
        ensures
            is_readable(self.tree(), levels),
    ;

    /// The document this is listed as.
    fn document(&self) -> (res: Json)
        ensures
            res@ == self.tree(),
    ;
}

/// The documents of a list of records.
pub open spec fn record_trees<R: Record>(records: Seq<R>) -> Seq<JsonTree> {
    records.map_values(|r: R| r.tree())
}

/// The array of the records' documents, in their order.
pub fn documents<R: Record>(records: &Vec<R>) -> (res: Json)
    ensures
        res@ == JsonTree::Array(record_trees(records@)),
        forall|levels: nat| levels > 1 ==> #[trigger] is_readable(res@, levels),
{
    let mut list: Vec<Json> = Vec::new();
    let mut i: usize = 0;
    while i < records.len()
        invariant
            i <= records@.len(),
            trees(list@) == record_trees(records@).take(i as int),
        decreases records@.len() - i,
    {
        let ghost before = list@;
        let document = records[i].document();
        list.push(document);
        proof {
            assert(trees(list@) =~= trees(before).push(document@));
            assert(record_trees(records@).take(i + 1) =~= record_trees(records@).take(
                i as int,
            ).push(document@));
        }
        i = i + 1;
    }
    assert(record_trees(records@).take(records@.len() as int) =~= record_trees(records@));
    proof {
        assert forall|levels: nat| levels > 1 implies #[trigger] is_readable(
            JsonTree::Array(record_trees(records@)),
            levels,
        ) by {
            assert forall|i: int| 0 <= i < records@.len() implies is_readable(
                #[trigger] record_trees(records@)[i],
                (levels - 1) as nat,
            ) by {
                records@[i].lemma_flat((levels - 1) as nat);
            }
        }
    }
    Json::array(list)
}

/// A nest: a repository of server templates.
pub struct NestRow {
    pub uuid: u128,
    pub name: String,
    pub author: String,
    pub created: Moment,
}

impl Record for NestRow {
    open spec fn tree(&self) -> JsonTree {
        JsonTree::object().with_text("uuid"@, ids::hyphenated_text(self.uuid)).with_text(
            "name"@,
            self.name@,
        ).with_text("author"@, self.author@).with_text("created"@, plain_time(self.created))
    }

    proof fn lemma_flat(&self, levels: nat) {
        lemma_plain_keys();
    }

    fn document(&self) -> (res: Json) {
        Json::object().with_text("uuid", ids::hyphenated(self.uuid).as_str()).with_text(
            "name",
            self.name.as_str(),
        ).with_text("author", self.author.as_str()).with_text(
            "created",
            self.created.plain().as_str(),
        )
    }
}

/// A registered user of the panel.
pub struct UserRow {
    pub uuid: u128,
    pub username: String,
    pub email: String,
    pub admin: bool,
    pub created: Moment,
}

impl Record for UserRow {
    open spec fn tree(&self) -> JsonTree {
        JsonTree::object().with_text("uuid"@, ids::hyphenated_text(self.uuid)).with_text(
            "username"@,
            self.username@,
        ).with_text("email"@, self.email@).with("is_admin"@, JsonTree::Bool(self.admin)).with_text(
            "created"@,
            plain_time(self.created),
        )
    }

    proof fn lemma_flat(&self, levels: nat) {
        lemma_plain_keys();
    }

    fn document(&self) -> (res: Json) {
        Json::object().with_text("uuid", ids::hyphenated(self.uuid).as_str()).with_text(
            "username",
            self.username.as_str(),
        ).with_text("email", self.email.as_str()).with("is_admin", Json::Bool(self.admin)).with_text(
            "created",
            self.created.plain().as_str(),
        )
    }
}

/// A game server. Memory and disk are in megabytes.
pub struct ServerRow {
    pub uuid: u128,
    pub name: String,
    pub node_uuid: u128,
    pub memory: i64,
    pub disk: i64,
    pub created: Moment,
}

impl ServerRow {
    /// What every document of a server starts with.
    pub open spec fn head_tree(&self) -> JsonTree {
        JsonTree::object().with_text("uuid"@, ids::hyphenated_text(self.uuid)).with_text(
            "name"@,
            self.name@,
        ).with_text("node_uuid"@, ids::hyphenated_text(self.node_uuid)).with(
            "memory_mb"@,
            JsonTree::Number(self.memory as int),
        ).with("disk_mb"@, JsonTree::Number(self.disk as int))
    }

    fn head(&self) -> (res: Json)
        ensures
            res@ == self.head_tree(),
    {
        Json::object().with_text("uuid", ids::hyphenated(self.uuid).as_str()).with_text(
            "name",
            self.name.as_str(),
        ).with_text("node_uuid", ids::hyphenated(self.node_uuid).as_str()).with(
            "memory_mb",
            Json::number(self.memory),
        ).with("disk_mb", Json::number(self.disk))
    }

    /// The sizes in bytes fit in 64 bits with a sign.
    pub open spec fn sizes_fit(&self) -> bool {
        &&& i64::MIN <= self.memory * 1048576 <= i64::MAX
        &&& i64::MIN <= self.disk * 1048576 <= i64::MAX
    }

    /// Whether the sizes in bytes fit in 64 bits with a sign.
    pub fn fits(&self) -> (res: bool)
        ensures
            res == self.sizes_fit(),
    {
        -8796093022208 <= self.memory && self.memory <= 8796093022207 && -8796093022208
            <= self.disk && self.disk <= 8796093022207
    }

    /// The document of one server in detail.
    pub open spec fn detail_tree(&self) -> JsonTree {
        self.head_tree().with_text("status"@, "running"@).with(
            "daemon_state"@,
            JsonTree::object().with_text("state"@, "running"@).with(
                "cpu_absolute"@,
                JsonTree::Decimal("1.2"@),
            ).with("memory_bytes"@, JsonTree::Number(quotient(self.memory * 1048576, 4))).with(
                "disk_bytes"@,
                JsonTree::Number(quotient(self.disk * 1048576, 10)),
            ).with(
                "network"@,
                JsonTree::object().with("rx_bytes"@, JsonTree::Number(1048576)).with(
                    "tx_bytes"@,
                    JsonTree::Number(2097152),
                ),
            ),
        ).with_text("created"@, plain_time(self.created))
    }

    /// The document of one server in detail.
    pub fn detail(&self) -> (res: Json)
        requires
            self.sizes_fit(),
        ensures
            res@ == self.detail_tree(),
            is_readable(res@, most_levels()),
    {
        proof {
            lemma_plain_keys();
            reveal_strlit("1.2");
        }
        let memory_bytes: i64 = divide(self.memory * 1024 * 1024, 4);
        let disk_bytes: i64 = divide(self.disk * 1024 * 1024, 10);
        let network = Json::object().with("rx_bytes", Json::number(1048576)).with(
            "tx_bytes",
            Json::number(2097152),
        );
        let state = Json::object().with_text("state", "running").with(
            "cpu_absolute",
            Json::Decimal("1.2".to_string()),
        ).with("memory_bytes", Json::number(memory_bytes)).with(
            "disk_bytes",
            Json::number(disk_bytes),
        ).with("network", network);
        self.head().with_text("status", "running").with("daemon_state", state).with_text(
            "created",
            self.created.plain().as_str(),
        )
    }
}

/// The quotient rounded toward zero.
pub open spec fn quotient(n: int, d: int) -> int {
    if n >= 0 {
        n / d
    } else {
        -((-n) / d)
    }
}

fn divide(n: i64, d: i64) -> (res: i64)
    requires
        d > 1,
    ensures
        res == quotient(n as int, d as int),
{
    n / d
}

impl Record for ServerRow {
    open spec fn tree(&self) -> JsonTree {
        self.head_tree().with_text("status"@, "online"@).with_text(
            "created"@,
            plain_time(self.created),
        )
    }

    proof fn lemma_flat(&self, levels: nat) {
        lemma_plain_keys();
    }

    fn document(&self) -> (res: Json) {
        self.head().with_text("status", "online").with_text(
            "created",
            self.created.plain().as_str(),
        )
    }
}

/// A machine that servers run on. Memory and disk are in megabytes.
pub struct MachineRow {
    pub uuid: u128,
    pub name: String,
    pub url: String,
    pub sftp_port: i32,
    pub memory: i64,
    pub disk: i64,
    pub created: Moment,
}

impl Record for MachineRow {
    open spec fn tree(&self) -> JsonTree {
        JsonTree::object().with_text("uuid"@, ids::hyphenated_text(self.uuid)).with_text(
            "name"@,
            self.name@,
        ).with_text("url"@, self.url@).with_text("status"@, "healthy"@).with(
            "sftp_port"@,
            JsonTree::Number(self.sftp_port as int),
        ).with("memory_mb"@, JsonTree::Number(self.memory as int)).with(
            "disk_mb"@,
            JsonTree::Number(self.disk as int),
        ).with_text("created"@, plain_time(self.created))
    }

    proof fn lemma_flat(&self, levels: nat) {
        lemma_plain_keys();
    }

    fn document(&self) -> (res: Json) {
        Json::object().with_text("uuid", ids::hyphenated(self.uuid).as_str()).with_text(
            "name",
            self.name.as_str(),
        ).with_text("url", self.url.as_str()).with_text("status", "healthy").with(
            "sftp_port",
            Json::number(self.sftp_port as i64),
        ).with("memory_mb", Json::number(self.memory)).with(
            "disk_mb",
            Json::number(self.disk),
        ).with_text("created", self.created.plain().as_str())
    }
}

/// A backup of a server.
pub struct BackupRow {
    pub uuid: u128,
    pub name: String,
    pub is_successful: bool,
    pub bytes: i64,
    /// The checksum of the archive, once there is one.
    pub checksum: Option<String>,
    pub created: Moment,
}

impl Record for BackupRow {
    open spec fn tree(&self) -> JsonTree {
        JsonTree::object().with_text("uuid"@, ids::hyphenated_text(self.uuid)).with_text(
            "name"@,
            self.name@,
        ).with("completed"@, JsonTree::Bool(self.is_successful)).with(
            "size_bytes"@,
            JsonTree::Number(self.bytes as int),
        ).with(
            "checksum"@,
            match self.checksum {
                Some(checksum) => JsonTree::Text(checksum@),
                None => JsonTree::Null,
            },
        ).with_text("created"@, plain_time(self.created))
    }

    proof fn lemma_flat(&self, levels: nat) {
        lemma_plain_keys();
    }

    fn document(&self) -> (res: Json) {
        Json::object().with_text("uuid", ids::hyphenated(self.uuid).as_str()).with_text(
            "name",
            self.name.as_str(),
        ).with("completed", Json::Bool(self.is_successful)).with(
            "size_bytes",
            Json::number(self.bytes),
        ).with(
            "checksum",
            match &self.checksum {
                Some(checksum) => Json::text(checksum.as_str()),
                None => Json::Null,
            },
        ).with_text("created", self.created.plain().as_str())
    }
}

/// A file or directory in a server's volume.
pub struct FileEntry {
    pub name: String,
    pub size: u64,
    pub file: bool,
    pub directory: bool,
    pub modified: Moment,
}

impl Record for FileEntry {
    open spec fn tree(&self) -> JsonTree {
        JsonTree::object().with_text("name"@, self.name@).with(
            "size"@,
            JsonTree::Number(self.size as int),
        ).with("is_file"@, JsonTree::Bool(self.file)).with(
            "is_directory"@,
            JsonTree::Bool(self.directory),
        ).with_text("modified"@, rfc3339_time(self.modified))
    }

    proof fn lemma_flat(&self, levels: nat) {
        lemma_plain_keys();
    }

    fn document(&self) -> (res: Json) {
        Json::object().with_text("name", self.name.as_str()).with(
            "size",
            Json::Unsigned(self.size),
        ).with("is_file", Json::Bool(self.file)).with(
            "is_directory",
            Json::Bool(self.directory),
        ).with_text("modified", self.modified.rfc3339().as_str())
    }
}

impl FileEntry {
    /// A plugin: a file whose name ends in `.jar`.
    pub open spec fn is_plugin(&self) -> bool {
        self.file && text::has_suffix(self.name@, ".jar"@)
    }

    /// The document a plugin is listed as. Its name is the file's without every
    /// `.jar` it ends in.
    pub open spec fn plugin_tree(&self) -> JsonTree {
        JsonTree::object().with_text("filename"@, self.name@).with_text(
            "name"@,
            text::without_suffixes(self.name@, ".jar"@),
        ).with("size_bytes"@, JsonTree::Number(self.size as int)).with_text(
            "modified"@,
            rfc3339_time(self.modified),
        )
    }

    fn plugin(&self) -> (res: Option<Json>)
        ensures
            match res {
                Some(document) => self.is_plugin() && document@ == self.plugin_tree(),
                None => !self.is_plugin(),
            },
    {
        if self.file && text::ends_with(self.name.as_str(), ".jar") {
            Some(
                Json::object().with_text("filename", self.name.as_str()).with_text(
                    "name",
                    text::strip_suffixes(self.name.as_str(), ".jar"),
                ).with("size_bytes", Json::Unsigned(self.size)).with_text(
                    "modified",
                    self.modified.rfc3339().as_str(),
                ),
            )
        } else {
            None
        }
    }
}

/// The documents of the plugins among the entries, in their order.
pub open spec fn plugin_trees(entries: Seq<FileEntry>) -> Seq<JsonTree> {
    entries.filter(|e: FileEntry| e.is_plugin()).map_values(|e: FileEntry| e.plugin_tree())
}

proof fn lemma_plugins_are_flat(entries: Seq<FileEntry>, levels: nat)
    requires
        levels > 1,
    ensures
        is_readable(JsonTree::Array(plugin_trees(entries)), levels),
{
    let found = entries.filter(|e: FileEntry| e.is_plugin());
    assert forall|i: int| 0 <= i < found.len() implies is_readable(
        #[trigger] plugin_trees(entries)[i],
        (levels - 1) as nat,
    ) by {
        lemma_plain_keys();
        assert(plugin_trees(entries)[i] == found[i].plugin_tree());
    }
}

/// The documents of the plugins among the entries, in their order.
pub fn plugins(entries: &Vec<FileEntry>) -> (res: Vec<Json>)
    ensures
        trees(res@) == plugin_trees(entries@),
        forall|levels: nat|
            levels > 1 ==> #[trigger] is_readable(JsonTree::Array(trees(res@)), levels),
{
    let mut list: Vec<Json> = Vec::new();
    let mut i: usize = 0;
    proof {
        assert(entries@.take(0) =~= seq![]);
        reveal(Seq::filter);
        assert(trees(list@) =~= plugin_trees(entries@.take(0)));
    }
    while i < entries.len()
        invariant
            i <= entries@.len(),
            trees(list@) == plugin_trees(entries@.take(i as int)),
        decreases entries@.len() - i,
    {
        let ghost before = list@;
        let ghost seen = entries@.take(i as int);
        let ghost is_plugin = |e: FileEntry| e.is_plugin();
        proof {
            assert(entries@.take(i + 1) =~= seen.push(entries@[i as int]));
            seen.lemma_filter_push(entries@[i as int], is_plugin);
        }
        if let Some(document) = entries[i].plugin() {
            list.push(document);
            proof {
                assert(trees(list@) =~= trees(before).push(document@));
                assert(plugin_trees(seen.push(entries@[i as int])) =~= plugin_trees(seen).push(
                    document@,
                ));
            }
        }
        i = i + 1;
    }
    assert(entries@.take(entries@.len() as int) =~= entries@);
    proof {
        assert forall|levels: nat| levels > 1 implies #[trigger] is_readable(
            JsonTree::Array(trees(list@)),
            levels,
        ) by {
            lemma_plugins_are_flat(entries@, levels);
        }
    }
    list
}

} // verus!
