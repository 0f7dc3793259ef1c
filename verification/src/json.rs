//! JSON documents, the readings the connector takes from them, and the model
//! its contracts speak of.

use vstd::prelude::*;

use crate::readable::is_readable;
use crate::text;

verus! {

/// A JSON document.
///
/// An object keeps its entries in the order they were written. Where a key
/// occurs more than once the last entry counts.
#[derive(Debug, PartialEq)]
pub enum Json {
    Null,
    Bool(bool),
    /// A whole number from zero on.
    Unsigned(u64),
    /// A whole number, mostly one below zero.
    Signed(i64),
    /// Any other number, as its JSON text.
    Decimal(String),
    Text(String),
    Array(Vec<Json>),
    Object(Vec<(String, Json)>),
}

/// What a JSON document says.
#[verifier::ext_equal]
pub enum JsonTree {
    Null,
    Bool(bool),
    Number(int),
    Decimal(Seq<char>),
    Text(Seq<char>),
    Array(Seq<JsonTree>),
    Object(Seq<(Seq<char>, JsonTree)>),
}

impl JsonTree {
    /// The object without entries.
    pub open spec fn object() -> JsonTree {
        JsonTree::Object(seq![])
    }

    /// This object with one more entry at its end.
    pub open spec fn with(self, key: Seq<char>, value: JsonTree) -> JsonTree {
        match self {
            JsonTree::Object(entries) => JsonTree::Object(entries.push((key, value))),
            _ => self,
        }
    }

    /// This object with one more entry that holds a text.
    pub open spec fn with_text(self, key: Seq<char>, value: Seq<char>) -> JsonTree {
        self.with(key, JsonTree::Text(value))
    }

    /// The value under `key`, in an object that has one.
    pub open spec fn get(self, key: Seq<char>) -> Option<JsonTree> {
        match self {
            JsonTree::Object(entries) => last_entry(entries, key),
            _ => None,
        }
    }

    pub open spec fn as_text(self) -> Option<Seq<char>> {
        match self {
            JsonTree::Text(s) => Some(s),
            _ => None,
        }
    }

    /// The whole number this is, if 64 bits with a sign can hold it.
    pub open spec fn as_int(self) -> Option<i64> {
        match self {
            JsonTree::Number(n) => if i64::MIN <= n <= i64::MAX {
                Some(n as i64)
            } else {
                None
            },
            _ => None,
        }
    }

    pub open spec fn as_truth(self) -> Option<bool> {
        match self {
            JsonTree::Bool(b) => Some(b),
            _ => None,
        }
    }

    pub open spec fn as_items(self) -> Option<Seq<JsonTree>> {
        match self {
            JsonTree::Array(items) => Some(items),
            _ => None,
        }
    }

    /// The text under `key`, or `default` where there is none.
    pub open spec fn text_or(self, key: Seq<char>, default: Seq<char>) -> Seq<char> {
        match self.get(key) {
            Some(JsonTree::Text(s)) => s,
            _ => default,
        }
    }

    /// The whole number under `key`, or `default` where there is none.
    pub open spec fn int_or(self, key: Seq<char>, default: i64) -> i64 {
        match self.get(key) {
            Some(value) => match value.as_int() {
                Some(n) => n,
                None => default,
            },
            None => default,
        }
    }
}

/// The value of the last entry under `key`.
pub open spec fn last_entry(entries: Seq<(Seq<char>, JsonTree)>, key: Seq<char>) -> Option<JsonTree>
    decreases entries.len(),
{
    if entries.len() == 0 {
        None
    } else if entries.last().0 == key {
        Some(entries.last().1)
    } else {
        last_entry(entries.drop_last(), key)
    }
}

/// An object with one more entry has the new value under the new key and what it
/// had under every other.
pub proof fn lemma_get_with(object: JsonTree, key: Seq<char>, value: JsonTree, other: Seq<char>)
    requires
        object is Object,
    ensures
        object.with(key, value).get(key) == Some(value),
        other != key ==> object.with(key, value).get(other) == object.get(other),
{
    let entries = object->Object_0;
    assert(entries.push((key, value)).drop_last() =~= entries);
}

/// An entry's value is found where no later entry has its key.
pub proof fn lemma_lone_entry(entries: Seq<(Seq<char>, JsonTree)>, k: int)
    requires
        0 <= k < entries.len(),
        forall|j: int| k < j < entries.len() ==> (#[trigger] entries[j]).0 != entries[k].0,
    ensures
        last_entry(entries, entries[k].0) == Some(entries[k].1),
    decreases entries.len(),
{
    if k < entries.len() - 1 {
        let rest = entries.drop_last();
        assert(rest[k] == entries[k]);
        lemma_lone_entry(rest, k);
    }
}

/// What the documents in a list say.
pub open spec fn trees(items: Seq<Json>) -> Seq<JsonTree> {
    items.map_values(|item: Json| item@)
}

/// What the texts in a list read, as JSON texts.
pub open spec fn text_trees(items: Seq<Seq<char>>) -> Seq<JsonTree> {
    items.map_values(|item: Seq<char>| JsonTree::Text(item))
}

impl Json {
    pub open spec fn tree(self) -> JsonTree
        decreases self,
    {
        match self {
            Json::Null => JsonTree::Null,
            Json::Bool(b) => JsonTree::Bool(b),
            Json::Unsigned(n) => JsonTree::Number(n as int),
            Json::Signed(n) => JsonTree::Number(n as int),
            Json::Decimal(s) => JsonTree::Decimal(s@),
            Json::Text(s) => JsonTree::Text(s@),
            Json::Array(items) => JsonTree::Array(
                Seq::new(
                    items@.len(),
                    |i: int|
                        if 0 <= i < items@.len() {
                            items@[i].tree()
                        } else {
                            JsonTree::Null
                        },
                ),
            ),
            Json::Object(entries) => JsonTree::Object(
                Seq::new(
                    entries@.len(),
                    |i: int|
                        if 0 <= i < entries@.len() {
                            (entries@[i].0@, entries@[i].1.tree())
                        } else {
                            (seq![], JsonTree::Null)
                        },
                ),
            ),
        }
    }
}

impl View for Json {
    type V = JsonTree;

    open spec fn view(&self) -> JsonTree {
        self.tree()
    }
}

impl Json {
    pub fn text(s: &str) -> (res: Json)
        ensures
            res@ == JsonTree::Text(s@),
    {
        Json::Text(s.to_string())
    }

    pub fn number(n: i64) -> (res: Json)
        ensures
            res@ == JsonTree::Number(n as int),
    {
        Json::Signed(n)
    }

    /// A count.
    pub fn count(n: usize) -> (res: Json)
        ensures
            res@ == JsonTree::Number(n as int),
    {
        Json::Unsigned(n as u64)
    }

    pub fn array(items: Vec<Json>) -> (res: Json)
        ensures
            res@ == JsonTree::Array(trees(items@)),
    {
        let res = Json::Array(items);
        assert(res@->Array_0 =~= trees(items@));
        res
    }

    /// The array with one item.
    pub fn only(item: Json) -> (res: Json)
        ensures
            res@ == JsonTree::Array(seq![item@]),
    {
        let mut items: Vec<Json> = Vec::new();
        items.push(item);
        assert(trees(items@) =~= seq![item@]);
        Json::array(items)
    }

    /// The array of the given texts.
    pub fn texts(items: &Vec<&str>) -> (res: Json)
        ensures
            res@ == JsonTree::Array(text_trees(text::slices_view(items@))),
            forall|levels: nat| levels > 0 ==> #[trigger] is_readable(res@, levels),
    {
        let mut list: Vec<Json> = Vec::new();
        let mut i: usize = 0;
        while i < items.len()
            invariant
                i <= items@.len(),
                trees(list@) == text_trees(text::slices_view(items@)).take(i as int),
            decreases items@.len() - i,
        {
            let ghost before = list@;
            list.push(Json::text(items[i]));
            proof {
                assert(trees(list@) =~= trees(before).push(JsonTree::Text(items@[i as int]@)));
                assert(text_trees(text::slices_view(items@)).take(i + 1) =~= text_trees(
                    text::slices_view(items@),
                ).take(i as int).push(JsonTree::Text(items@[i as int]@)));
            }
            i = i + 1;
        }
        assert(text_trees(text::slices_view(items@)).take(items@.len() as int) =~= text_trees(
            text::slices_view(items@),
        ));
        proof {
            let all = text_trees(text::slices_view(items@));
            assert forall|levels: nat| levels > 0 implies #[trigger] is_readable(
                JsonTree::Array(all),
                levels,
            ) by {
                assert forall|k: int| 0 <= k < all.len() implies is_readable(
                    #[trigger] all[k],
                    (levels - 1) as nat,
                ) by {
                    assert(all[k] is Text);
                }
            }
        }
        Json::array(list)
    }

    /// The object without entries.
    pub fn object() -> (res: Json)
        ensures
            res@ == JsonTree::object(),
    {
        let res = Json::Object(Vec::new());
        assert(res@->Object_0 =~= seq![]);
        res
    }

    /// This object with one more entry at its end.
    pub fn with(self, key: &str, value: Json) -> (res: Json)
        ensures
            res@ == self@.with(key@, value@),
    {
        match self {
            Json::Object(entries) => {
                let mut entries = entries;
                entries.push((key.to_string(), value));
                let res = Json::Object(entries);
                assert(res@->Object_0 =~= self@->Object_0.push((key@, value@)));
                res
            },
            other => other,
        }
    }

    /// This object with one more entry that holds a text.
    pub fn with_text(self, key: &str, value: &str) -> (res: Json)
        ensures
            res@ == self@.with_text(key@, value@),
    {
        self.with(key, Json::text(value))
    }

    /// The value under `key`, in an object that has one.
    pub fn get(&self, key: &str) -> (res: Option<&Json>)
        ensures
            match res {
                Some(value) => self@.get(key@) == Some(value@),
                None => self@.get(key@) is None,
            },
    {
        match self {
            Json::Object(entries) => {
                let ghost all = self@->Object_0;
                let mut i: usize = entries.len();
                proof {
                    assert(all.take(all.len() as int) =~= all);
                }
                while i > 0
                    invariant
                        i <= entries@.len(),
                        *self == Json::Object(*entries),
                        all == self@->Object_0,
                        last_entry(all, key@) == last_entry(all.take(i as int), key@),
                    decreases i,
                {
                    proof {
                        assert(all.take(i as int).last() == all[i - 1]);
                        assert(all.take(i as int).drop_last() =~= all.take(i - 1));
                    }
                    if text::same(entries[i - 1].0.as_str(), key) {
                        return Some(&entries[i - 1].1);
                    }
                    i = i - 1;
                }
                None
            },
            _ => None,
        }
    }

    pub fn as_str(&self) -> (res: Option<&str>)
        ensures
            match res {
                Some(s) => self@.as_text() == Some(s@),
                None => self@.as_text() is None,
            },
    {
        match self {
            Json::Text(s) => Some(s.as_str()),
            _ => None,
        }
    }

    pub fn as_i64(&self) -> (res: Option<i64>)
        ensures
            res == self@.as_int(),
    {
        match self {
            Json::Unsigned(n) => if *n <= i64::MAX as u64 {
                Some(*n as i64)
            } else {
                None
            },
            Json::Signed(n) => Some(*n),
            _ => None,
        }
    }

    pub fn as_bool(&self) -> (res: Option<bool>)
        ensures
            res == self@.as_truth(),
    {
        match self {
            Json::Bool(b) => Some(*b),
            _ => None,
        }
    }

    pub fn as_array(&self) -> (res: Option<&Vec<Json>>)
        ensures
            match res {
                Some(items) => self@.as_items() == Some(trees(items@)),
                None => self@.as_items() is None,
            },
    {
        match self {
            Json::Array(items) => {
                assert(self@->Array_0 =~= trees(items@));
                Some(items)
            },
            _ => None,
        }
    }

    /// The text under `key`, or `default` where there is none.
    pub fn text_or<'a>(&'a self, key: &str, default: &'a str) -> (res: &'a str)
        ensures
            res@ == self@.text_or(key@, default@),
    {
        match self.get(key) {
            Some(value) => match value.as_str() {
                Some(s) => s,
                None => default,
            },
            None => default,
        }
    }

    /// The whole number under `key`, or `default` where there is none.
    pub fn int_or(&self, key: &str, default: i64) -> (res: i64)
        ensures
            res == self@.int_or(key@, default),
    {
        match self.get(key) {
            Some(value) => match value.as_i64() {
                Some(n) => n,
                None => default,
            },
            None => default,
        }
    }
}

} // verus!
