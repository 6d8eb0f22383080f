//! The cache file: one JSON document that holds the schema tag under
//! `version`, the time of capture under `timestamp`, and under `data` the
//! taxonomy, a table from identifier to license.
use crate::cache::{fresh_at, load_from_file_at, CacheEntry, CacheFile, CACHE_VERSION};
use crate::document::{
    first_under, json_document, json_text, lemma_position_under, parse_json, position_under,
    to_json_pretty, Node,
};
use crate::licenses::{License, Taxonomy};
use crate::text::{
    decimal, decimal_value, lemma_decimal_value_of_decimal, parse_decimal, push_decimal,
    string_from_chars, texts,
};
use vstd::prelude::*;

verus! {

/// The tags that a list holds, where it is a list of strings and nothing else.
pub open spec fn tags_in(node: Option<Node>) -> Option<Seq<Seq<char>>> {
    match node {
        Some(Node::List(items)) => if forall|i: int|
            0 <= i < items@.len() ==> (#[trigger] items@[i]).text() is Some {
            Some(Seq::new(items@.len(), |i: int| items@[i].text()->0))
        } else {
            None
        },
        _ => None,
    }
}

/// Whether a value describes a license: a table with a title, an identifier
/// and the three lists of tags.
pub open spec fn is_license(node: Node) -> bool {
    &&& node.member_text("title"@) is Some
    &&& node.member_text("spdx_id"@) is Some
    &&& tags_in(node.member("permissions"@)) is Some
    &&& tags_in(node.member("conditions"@)) is Some
    &&& tags_in(node.member("limitations"@)) is Some
}

/// Whether `license` is the license that the value describes.
pub open spec fn license_of(node: Node, license: License) -> bool {
    &&& node.member_text("title"@) == Some(license.title@)
    &&& node.member_text("spdx_id"@) == Some(license.spdx_id@)
    &&& tags_in(node.member("permissions"@)) == Some(texts(license.permissions@))
    &&& tags_in(node.member("conditions"@)) == Some(texts(license.conditions@))
    &&& tags_in(node.member("limitations"@)) == Some(texts(license.limitations@))
}

/// Whether a value describes a taxonomy: a table whose every value describes
/// a license.
pub open spec fn is_taxonomy(node: Node) -> bool {
    match node {
        Node::Table(entries) => forall|i: int|
            0 <= i < entries@.len() ==> #[trigger] is_license(entries@[i].1),
        _ => false,
    }
}

/// Whether `taxonomy` is the taxonomy that the value describes: it knows
/// exactly the identifiers of the table, and of each what the table says.
pub open spec fn taxonomy_of(node: Node, taxonomy: Map<Seq<char>, License>) -> bool {
    &&& forall|key: Seq<char>| #[trigger] taxonomy.contains_key(key) <==> node.member(key) is Some
    &&& forall|key: Seq<char>| #[trigger]
        taxonomy.contains_key(key) ==> license_of(node.member(key)->0, taxonomy[key])
}

/// The number that a value writes, where it is a number written in digits.
pub open spec fn number_in(node: Option<Node>) -> Option<nat> {
    match node {
        Some(Node::Scalar(digits)) => decimal_value(digits@),
        _ => None,
    }
}

/// The schema tag that a document holds: zero where it holds none.
pub open spec fn stored_version(document: Node) -> Option<u32> {
    match document.member("version"@) {
        None => Some(0u32),
        Some(node) => match number_in(Some(node)) {
            Some(value) if value <= u32::MAX => Some(value as u32),
            _ => None,
        },
    }
}

/// The time of capture that a document holds.
pub open spec fn stored_timestamp(document: Node) -> Option<u64> {
    match number_in(document.member("timestamp"@)) {
        Some(value) if value <= u64::MAX => Some(value as u64),
        _ => None,
    }
}

/// Whether a document holds a snapshot.
pub open spec fn is_entry(document: Node) -> bool {
    &&& stored_version(document) is Some
    &&& stored_timestamp(document) is Some
    &&& document.member("data"@) is Some
    &&& is_taxonomy(document.member("data"@)->0)
}

/// Whether `entry` is the snapshot that the document holds.
pub open spec fn entry_of(document: Node, entry: CacheEntry) -> bool {
    &&& stored_version(document) == Some(entry.version)
    &&& stored_timestamp(document) == Some(entry.timestamp)
    &&& document.member("data"@) is Some
    &&& taxonomy_of(document.member("data"@)->0, entry.data@)
}

/// Whether a text holds a snapshot.
pub open spec fn holds_entry(content: Seq<char>) -> bool {
    json_document(content) is Some && is_entry(json_document(content)->0)
}

/// The view of an optional reference.
pub open spec fn held(node: Option<&Node>) -> Option<Node> {
    match node {
        Some(n) => Some(*n),
        None => None,
    }
}

fn parse_tags(node: Option<&Node>) -> (tags: Option<Vec<String>>)
    ensures
        match tags {
            Some(list) => tags_in(held(node)) == Some(texts(list@)),
            None => tags_in(held(node)) is None,
        },
{
    let items = match node {
        Some(Node::List(items)) => items,
        _ => {
            return None;
        },
    };
    let mut tags: Vec<String> = Vec::new();
    let mut i: usize = 0;
    while i < items.len()
        invariant
            i <= items.len(),
            held(node) is Some,
            held(node)->0 is List,
            held(node)->0->List_0@ == items@,
            tags@.len() == i,
            forall|j: int| 0 <= j < i ==> (#[trigger] items@[j]).text() == Some(tags@[j]@),
        decreases items.len() - i,
    {
        match items[i].as_str() {
            Some(tag) => {
                tags.push(tag.to_owned());
            },
            None => {
                assert(items@[i as int].text() is None);
                return None;
            },
        }
        i += 1;
    }
    assert(texts(tags@) =~= Seq::new(items@.len(), |i: int| items@[i].text()->0));
    Some(tags)
}

fn parse_license(node: &Node) -> (license: Option<License>)
    ensures
        match license {
            Some(l) => license_of(*node, l),
            None => !is_license(*node),
        },
{
    let title = match node.get_str("title") {
        Some(title) => title.to_owned(),
        None => {
            return None;
        },
    };
    let spdx_id = match node.get_str("spdx_id") {
        Some(id) => id.to_owned(),
        None => {
            return None;
        },
    };
    let permissions = match parse_tags(node.get("permissions")) {
        Some(tags) => tags,
        None => {
            return None;
        },
    };
    let conditions = match parse_tags(node.get("conditions")) {
        Some(tags) => tags,
        None => {
            return None;
        },
    };
    let limitations = match parse_tags(node.get("limitations")) {
        Some(tags) => tags,
        None => {
            return None;
        },
    };
    Some(License { title, spdx_id, permissions, conditions, limitations })
}

fn parse_taxonomy(node: &Node) -> (taxonomy: Option<Taxonomy>)
    ensures
        match taxonomy {
            Some(t) => is_taxonomy(*node) && taxonomy_of(*node, t@),
            None => !is_taxonomy(*node),
        },
{
    let entries = match node {
        Node::Table(entries) => entries,
        _ => {
            return None;
        },
    };
    let mut taxonomy = Taxonomy::new();
    let mut i: usize = 0;
    assert forall|key: Seq<char>| #[trigger]
        taxonomy@.contains_key(key) <==> position_under(entries@, key, 0) < 0 by {
        lemma_position_under(entries@, key, 0);
    }
    while i < entries.len()
        invariant
            i <= entries.len(),
            *node is Table,
            node->Table_0@ == entries@,
            forall|j: int| 0 <= j < i ==> #[trigger] is_license(entries@[j].1),
            forall|key: Seq<char>| #[trigger]
                taxonomy@.contains_key(key) <==> position_under(entries@, key, 0) < i,
            forall|key: Seq<char>| #[trigger]
                taxonomy@.contains_key(key) ==> license_of(
                    entries@[position_under(entries@, key, 0)].1,
                    taxonomy@[key],
                ),
        decreases entries.len() - i,
    {
        let license = match parse_license(&entries[i].1) {
            Some(license) => license,
            None => {
                assert(!is_license(entries@[i as int].1));
                return None;
            },
        };
        let ghost before = taxonomy@;
        let ghost name = entries@[i as int].0@;
        proof {
            lemma_position_under(entries@, name, 0);
        }
        if !taxonomy.contains_key(entries[i].0.as_str()) {
            taxonomy.insert(entries[i].0.clone(), license);
            assert(position_under(entries@, name, 0) == i);
        }
        assert forall|key: Seq<char>| #[trigger]
            taxonomy@.contains_key(key) <==> position_under(entries@, key, 0) < i + 1 by {
            lemma_position_under(entries@, key, 0);
            assert(before.contains_key(key) <==> position_under(entries@, key, 0) < i);
        }
        assert forall|key: Seq<char>| #[trigger] taxonomy@.contains_key(key) implies license_of(
            entries@[position_under(entries@, key, 0)].1,
            taxonomy@[key],
        ) by {
            lemma_position_under(entries@, key, 0);
            assert(before.contains_key(key) <==> position_under(entries@, key, 0) < i);
            if before.contains_key(key) {
                assert(license_of(entries@[position_under(entries@, key, 0)].1, before[key]));
            }
        }
        i += 1;
    }
    proof {
        assert forall|key: Seq<char>| #[trigger]
            taxonomy@.contains_key(key) <==> node.member(key) is Some by {
            lemma_position_under(entries@, key, 0);
        }
        assert forall|key: Seq<char>| #[trigger] taxonomy@.contains_key(key) implies license_of(
            node.member(key)->0,
            taxonomy@[key],
        ) by {
            lemma_position_under(entries@, key, 0);
        }
    }
    Some(taxonomy)
}

fn parse_number(node: Option<&Node>) -> (number: Option<u64>)
    ensures
        match number {
            Some(n) => number_in(held(node)) == Some(n as nat),
            None => number_in(held(node)) is None || number_in(held(node))->0 > u64::MAX,
        },
{
    match node {
        Some(Node::Scalar(digits)) => parse_decimal(digits.as_str()),
        _ => None,
    }
}

/// Reads the snapshot that a cache file holds. Whatever is not a snapshot
/// counts as corrupt: a text that is no JSON document, a document without
/// `data` or `timestamp`, numbers that are none or do not fit, a license
/// without one of its fields.
pub fn parse_cache_file(content: &str) -> (file: CacheFile)
    ensures
        match file {
            CacheFile::Parsed(entry) => holds_entry(content@) && entry_of(
                json_document(content@)->0,
                entry,
            ),
            CacheFile::Corrupt => !holds_entry(content@),
            _ => false,
        },
{
    let document = match parse_json(content) {
        Some(document) => document,
        None => {
            return CacheFile::Corrupt;
        },
    };
    let version: u32 = match document.get("version") {
        None => 0,
        Some(node) => match parse_number(Some(node)) {
            Some(value) => if value <= 0xffff_ffff {
                value as u32
            } else {
                return CacheFile::Corrupt;
            },
            None => {
                return CacheFile::Corrupt;
            },
        },
    };
    let timestamp = match parse_number(document.get("timestamp")) {
        Some(value) => value,
        None => {
            return CacheFile::Corrupt;
        },
    };
    let data = match document.get("data") {
        Some(node) => match parse_taxonomy(node) {
            Some(data) => data,
            None => {
                return CacheFile::Corrupt;
            },
        },
        None => {
            return CacheFile::Corrupt;
        },
    };
    CacheFile::Parsed(CacheEntry { version, data, timestamp })
}

/// The value stored under a key is the value of the first entry under it.
proof fn lemma_member_at(entries: Seq<(String, Node)>, key: Seq<char>, at: int)
    requires
        0 <= at < entries.len(),
        entries[at].0@ == key,
        forall|j: int| 0 <= j < at ==> (#[trigger] entries[j]).0@ != key,
    ensures
        first_under(entries, key, 0) == Some(entries[at].1),
        position_under(entries, key, 0) == at,
{
    lemma_position_under(entries, key, 0);
    let p = position_under(entries, key, 0);
    if p < at {
        assert(entries[p].0@ != key);
    }
}

fn tags_node(tags: &Vec<String>) -> (node: Node)
    ensures
        tags_in(Some(node)) == Some(texts(tags@)),
{
    let mut items: Vec<Node> = Vec::new();
    let mut i: usize = 0;
    while i < tags.len()
        invariant
            i <= tags.len(),
            items@.len() == i,
            forall|j: int| 0 <= j < i ==> (#[trigger] items@[j]).text() == Some(tags@[j]@),
        decreases tags.len() - i,
    {
        items.push(Node::Text(tags[i].clone()));
        i += 1;
    }
    let ghost listed = items@;
    let node = Node::List(items);
    assert(node->List_0@ == listed);
    assert(texts(tags@) =~= Seq::new(listed.len(), |i: int| listed[i].text()->0));
    node
}

fn license_node(license: &License) -> (node: Node)
    ensures
        is_license(node),
        license_of(node, *license),
{
    let entries = vec![
        ("title".to_owned(), Node::Text(license.title.clone())),
        ("spdx_id".to_owned(), Node::Text(license.spdx_id.clone())),
        ("permissions".to_owned(), tags_node(&license.permissions)),
        ("conditions".to_owned(), tags_node(&license.conditions)),
        ("limitations".to_owned(), tags_node(&license.limitations)),
    ];
    let ghost listed = entries@;
    let node = Node::Table(entries);
    proof {
        assert(node->Table_0@ == listed);
        reveal_strlit("title");
        reveal_strlit("spdx_id");
        reveal_strlit("permissions");
        reveal_strlit("conditions");
        reveal_strlit("limitations");
        assert("title"@.len() == 5);
        assert("spdx_id"@.len() == 7);
        assert("permissions"@.len() == 11 && "permissions"@[0] == 'p');
        assert("conditions"@.len() == 10);
        assert("limitations"@.len() == 11 && "limitations"@[0] == 'l');
        lemma_member_at(listed, "title"@, 0);
        lemma_member_at(listed, "spdx_id"@, 1);
        lemma_member_at(listed, "permissions"@, 2);
        lemma_member_at(listed, "conditions"@, 3);
        lemma_member_at(listed, "limitations"@, 4);
    }
    node
}

fn number_node(n: u64) -> (node: Node)
    ensures
        number_in(Some(node)) == Some(n as nat),
{
    let mut digits: Vec<char> = Vec::new();
    push_decimal(&mut digits, n as u128);
    assert(digits@ =~= decimal(n as nat));
    proof {
        lemma_decimal_value_of_decimal(n as nat);
    }
    Node::Scalar(string_from_chars(&digits))
}

fn taxonomy_node(taxonomy: &Taxonomy) -> (node: Node)
    ensures
        is_taxonomy(node),
        taxonomy_of(node, taxonomy@),
{
    let count = taxonomy.len();
    let ghost order = taxonomy.key_order();
    let mut entries: Vec<(String, Node)> = Vec::new();
    let mut i: usize = 0;
    while i < count
        invariant
            i <= count,
            count == order.len(),
            order == taxonomy.key_order(),
            entries@.len() == i,
            forall|j: int|
                0 <= j < i ==> (#[trigger] entries@[j]).0@ == order[j] && is_license(entries@[j].1)
                    && taxonomy@.contains_key(order[j]) && license_of(
                    entries@[j].1,
                    taxonomy@[order[j]],
                ),
        decreases count - i,
    {
        let key = taxonomy.key_at(i).to_owned();
        let described = license_node(taxonomy.license_at(i));
        entries.push((key, described));
        i += 1;
    }
    let ghost listed = entries@;
    let node = Node::Table(entries);
    proof {
        assert(node->Table_0@ == listed);
        assert forall|key: Seq<char>| #[trigger]
            taxonomy@.contains_key(key) <==> node.member(key) is Some by {
            lemma_position_under(listed, key, 0);
            if taxonomy@.contains_key(key) {
                assert(order.to_set().contains(key));
                let j = choose|j: int| 0 <= j < order.len() && order[j] == key;
                assert(listed[j].0@ == key);
            }
            if node.member(key) is Some {
                let p = position_under(listed, key, 0);
                assert(listed[p].0@ == order[p]);
            }
        }
        assert forall|key: Seq<char>| #[trigger] taxonomy@.contains_key(key) implies license_of(
            node.member(key)->0,
            taxonomy@[key],
        ) by {
            lemma_position_under(listed, key, 0);
            assert(order.to_set().contains(key));
            let j = choose|j: int| 0 <= j < order.len() && order[j] == key;
            assert(listed[j].0@ == key);
            let p = position_under(listed, key, 0);
            assert(listed[p].0@ == order[p]);
        }
    }
    node
}

/// The document that holds a snapshot.
pub fn entry_document(entry: &CacheEntry) -> (document: Node)
    ensures
        is_entry(document),
        entry_of(document, *entry),
{
    let entries = vec![
        ("version".to_owned(), number_node(entry.version as u64)),
        ("data".to_owned(), taxonomy_node(&entry.data)),
        ("timestamp".to_owned(), number_node(entry.timestamp)),
    ];
    let ghost listed = entries@;
    let document = Node::Table(entries);
    proof {
        assert(document->Table_0@ == listed);
        reveal_strlit("version");
        reveal_strlit("data");
        reveal_strlit("timestamp");
        assert("version"@.len() == 7);
        assert("data"@.len() == 4);
        assert("timestamp"@.len() == 9);
        lemma_member_at(listed, "version"@, 0);
        lemma_member_at(listed, "data"@, 1);
        lemma_member_at(listed, "timestamp"@, 2);
    }
    document
}

/// The text of a printed document as a character sequence.
pub open spec fn printed(text: Option<String>) -> Option<Seq<char>> {
    match text {
        Some(t) => Some(t@),
        None => None,
    }
}

/// Writes a snapshot as the text of a cache file: the document that holds it,
/// as `serde_json` prints it. There is no text where the document cannot be
/// printed.
pub fn render_cache_entry(entry: &CacheEntry) -> (text: Option<String>)
    ensures
        exists|document: Node|
            is_entry(document) && entry_of(document, *entry) && #[trigger] json_text(document)
                == printed(text),
{
    let document = entry_document(entry);
    to_json_pretty(&document)
}

/// Whether the text of a cache file holds a snapshot that is usable at `now`:
/// one with the current schema tag, captured less than the time to live ago.
pub open spec fn content_usable_at(content: Seq<char>, now: u64) -> bool {
    &&& holds_entry(content)
    &&& stored_version(json_document(content)->0) == Some(CACHE_VERSION)
    &&& fresh_at(now, stored_timestamp(json_document(content)->0)->0)
}

/// The taxonomy that the text of a cache file holds, if it holds a snapshot
/// that is usable at `now`. Corrupt text yields nothing, and never an error.
pub fn load_from_content(content: &str, now: u64) -> (data: Option<Taxonomy>)
    ensures
        data is Some <==> content_usable_at(content@, now),
        data matches Some(taxonomy) ==> taxonomy_of(
            json_document(content@)->0.member("data"@)->0,
            taxonomy@,
        ),
{
    load_from_file_at(parse_cache_file(content), now)
}

} // verus!
