//! The taxonomy fetcher. Talking to the remote authority is the caller's
//! business; this module decides what to ask for next and what to make of each
//! answer. One bad entry never aborts the fetch: it is left out of the result.
use crate::document::{json_document, parse_json, Node};
use crate::licenses::{License, Taxonomy};
use crate::text::{push_str, string_from_chars, texts};
use vstd::prelude::*;

verus! {

/// The strings among `items` from position `from` on, in order; items that are
/// not strings are passed over.
pub open spec fn texts_in(items: Seq<Node>, from: int) -> Seq<Seq<char>>
    decreases items.len() - from,
{
    if from < 0 || from >= items.len() {
        Seq::empty()
    } else {
        match items[from].text() {
            Some(text) => seq![text] + texts_in(items, from + 1),
            None => texts_in(items, from + 1),
        }
    }
}

/// The strings that the items from position `from` on hold under `key`, in
/// order; items without such a string are passed over.
pub open spec fn member_texts_in(items: Seq<Node>, key: Seq<char>, from: int) -> Seq<Seq<char>>
    decreases items.len() - from,
{
    if from < 0 || from >= items.len() {
        Seq::empty()
    } else {
        match items[from].member_text(key) {
            Some(text) => seq![text] + member_texts_in(items, key, from + 1),
            None => member_texts_in(items, key, from + 1),
        }
    }
}

/// The license keys that the authority's list names: the list must be a JSON
/// array, and each of its items that holds a string under `key` names one.
pub open spec fn keys_in_list(body: Seq<char>) -> Option<Seq<Seq<char>>> {
    match json_document(body) {
        Some(document) => match document.items() {
            Some(items) => Some(member_texts_in(items, "key"@, 0)),
            None => None,
        },
        None => None,
    }
}

/// The tags that a license detail lists under `field`: the strings of that
/// array, and none where the field is missing or no array.
pub open spec fn tags_of(detail: Node, field: Seq<char>) -> Seq<Seq<char>> {
    match detail.member(field) {
        Some(node) => match node.items() {
            Some(items) => texts_in(items, 0),
            None => Seq::empty(),
        },
        None => Seq::empty(),
    }
}

/// The string that a license detail holds under `field`, and the request key
/// where it holds none.
pub open spec fn text_or_key(detail: Node, field: Seq<char>, key: Seq<char>) -> Seq<char> {
    match detail.member_text(field) {
        Some(text) => text,
        None => key,
    }
}

/// Whether `license` is the taxonomy entry that the detail document describes
/// when it was asked for under `key`.
pub open spec fn describes(detail: Node, key: Seq<char>, license: License) -> bool {
    &&& license.title@ == text_or_key(detail, "name"@, key)
    &&& license.spdx_id@ == text_or_key(detail, "spdx_id"@, key)
    &&& texts(license.permissions@) == tags_of(detail, "permissions"@)
    &&& texts(license.conditions@) == tags_of(detail, "conditions"@)
    &&& texts(license.limitations@) == tags_of(detail, "limitations"@)
}

/// The license keys that the authority's list names.
pub fn license_keys(list_body: &str) -> (keys: Option<Vec<String>>)
    ensures
        match keys {
            Some(list) => keys_in_list(list_body@) == Some(texts(list@)),
            None => keys_in_list(list_body@) is None,
        },
{
    let document = match parse_json(list_body) {
        Some(document) => document,
        None => {
            return None;
        },
    };
    let items = match document.as_array() {
        Some(items) => items,
        None => {
            return None;
        },
    };
    let mut keys: Vec<String> = Vec::new();
    let mut i: usize = 0;
    while i < items.len()
        invariant
            i <= items.len(),
            texts(keys@) + member_texts_in(items@, "key"@, i as int) == member_texts_in(
                items@,
                "key"@,
                0,
            ),
        decreases items.len() - i,
    {
        let ghost before = texts(keys@);
        match items[i].get_str("key") {
            Some(key) => {
                keys.push(key.to_owned());
                assert(texts(keys@) =~= before + seq![key@]);
                assert(texts(keys@) + member_texts_in(items@, "key"@, i + 1) =~= before + (
                seq![key@] + member_texts_in(items@, "key"@, i + 1)));
            },
            None => {},
        }
        i += 1;
    }
    assert(texts(keys@) + member_texts_in(items@, "key"@, i as int) =~= texts(keys@));
    Some(keys)
}

/// The tags that a license detail lists under `field`.
fn tags(detail: &Node, field: &str) -> (list: Vec<String>)
    ensures
        texts(list@) == tags_of(*detail, field@),
{
    let mut list: Vec<String> = Vec::new();
    let items = match detail.get(field) {
        Some(node) => match node.as_array() {
            Some(items) => items,
            None => {
                assert(texts(list@) =~= Seq::<Seq<char>>::empty());
                return list;
            },
        },
        None => {
            assert(texts(list@) =~= Seq::<Seq<char>>::empty());
            return list;
        },
    };
    let mut i: usize = 0;
    while i < items.len()
        invariant
            i <= items.len(),
            texts(list@) + texts_in(items@, i as int) == texts_in(items@, 0),
        decreases items.len() - i,
    {
        let ghost before = texts(list@);
        match items[i].as_str() {
            Some(tag) => {
                list.push(tag.to_owned());
                assert(texts(list@) =~= before + seq![tag@]);
                assert(texts(list@) + texts_in(items@, i + 1) =~= before + (seq![tag@] + texts_in(
                    items@,
                    i + 1,
                )));
            },
            None => {},
        }
        i += 1;
    }
    assert(texts(list@) + texts_in(items@, i as int) =~= texts(list@));
    list
}

/// The string that a license detail holds under `field`, or the request key.
fn text_or(detail: &Node, field: &str, key: &str) -> (text: String)
    ensures
        text@ == text_or_key(*detail, field@, key@),
{
    match detail.get_str(field) {
        Some(text) => text.to_owned(),
        None => key.to_owned(),
    }
}

/// The taxonomy entry that the authority's answer to a request for `key`
/// describes, with the identifier under which it is filed: the SPDX identifier
/// that the answer gives, or the request key where it gives none. An answer
/// that is no JSON document describes nothing.
pub fn license_from_detail(key: &str, body: &str) -> (entry: Option<(String, License)>)
    ensures
        match entry {
            Some((id, license)) => json_document(body@) is Some && describes(
                json_document(body@)->0,
                key@,
                license,
            ) && id@ == license.spdx_id@,
            None => json_document(body@) is None,
        },
{
    match parse_json(body) {
        Some(detail) => {
            let license = License {
                title: text_or(&detail, "name", key),
                spdx_id: text_or(&detail, "spdx_id", key),
                permissions: tags(&detail, "permissions"),
                conditions: tags(&detail, "conditions"),
                limitations: tags(&detail, "limitations"),
            };
            let id = license.spdx_id.clone();
            Some((id, license))
        },
        None => None,
    }
}

/// Where the authority lists the licenses that it knows.
pub const LICENSE_LIST_URL: &'static str = "https://api.github.com/licenses";

/// How the fetcher names itself to the authority.
pub const USER_AGENT: &'static str = "feluda-license-checker/1.0";

/// How many seconds the fetcher waits for an answer.
pub const REQUEST_TIMEOUT_SECS: u64 = 30;

/// How many milliseconds the fetcher pauses before it asks for a detail, so
/// as not to strain the authority.
pub const REQUEST_PAUSE_MILLIS: u64 = 100;

/// Where the authority describes the license with this key.
pub open spec fn detail_address(key: Seq<char>) -> Seq<char> {
    "https://api.github.com/licenses/"@ + key
}

/// Where the authority describes the license with this key.
pub fn license_detail_url(key: &str) -> (url: String)
    ensures
        url@ == detail_address(key@),
{
    let mut url: Vec<char> = Vec::new();
    push_str(&mut url, "https://api.github.com/licenses/");
    push_str(&mut url, key);
    assert(url@ =~= detail_address(key@));
    string_from_chars(&url)
}

/// Where a fetch stands.
#[derive(Debug, Clone, Copy, PartialEq, Eq, Structural)]
pub enum FetchPhase {
    /// Nothing has been asked yet.
    Start,
    /// The list of license keys has been asked for.
    AwaitingList,
    /// The detail of one license has been asked for.
    AwaitingDetail,
    /// Nothing more will be asked.
    Done,
}

/// What the caller is to do next.
#[derive(Debug)]
pub enum FetchAction {
    /// Ask the authority for the list of license keys.
    RequestList,
    /// Ask the authority for the detail of the license with this key.
    RequestDetail(String),
    /// Stop: the taxonomy is complete as far as it could be had.
    Finish,
}

/// A fetch of the taxonomy in progress: the keys that the authority named, how
/// far down that list the fetch has come, and the entries gathered so far.
pub struct Fetch {
    phase: FetchPhase,
    keys: Vec<String>,
    index: usize,
    found: Taxonomy,
}

/// What an answer to a request for the detail of `key` adds to the entries
/// gathered before: the entry that it describes, filed under its SPDX
/// identifier, where the answer came and is a JSON document; nothing otherwise.
pub open spec fn absorbed(
    before: Map<Seq<char>, License>,
    key: Seq<char>,
    reply: Option<String>,
    after: Map<Seq<char>, License>,
) -> bool {
    match reply {
        Some(body) if json_document(body@) is Some => exists|license: License|
            #[trigger] describes(json_document(body@)->0, key, license) && after == before.insert(
                license.spdx_id@,
                license,
            ),
        _ => after == before,
    }
}

/// The keys that an answer to the request for the list names; none where no
/// answer came or the answer is no list.
pub open spec fn keys_named(reply: Option<String>) -> Seq<Seq<char>> {
    match reply {
        Some(body) => match keys_in_list(body@) {
            Some(keys) => keys,
            None => Seq::empty(),
        },
        None => Seq::empty(),
    }
}

impl Fetch {
    #[verifier::type_invariant]
    closed spec fn well_formed(&self) -> bool {
        &&& self.phase == FetchPhase::AwaitingDetail ==> self.index < self.keys.len()
        &&& self.phase == FetchPhase::Start || self.phase == FetchPhase::AwaitingList
            ==> self.found@ == Map::<Seq<char>, License>::empty()
    }

    /// Where the fetch stands.
    pub closed spec fn phase(&self) -> FetchPhase {
        self.phase
    }

    /// The license keys that the authority named.
    pub closed spec fn keys(&self) -> Seq<Seq<char>> {
        texts(self.keys@)
    }

    /// Position, among the keys, of the license whose detail is awaited.
    pub closed spec fn index(&self) -> nat {
        self.index as nat
    }

    /// The entries gathered so far.
    pub closed spec fn found(&self) -> Map<Seq<char>, License> {
        self.found@
    }

    /// How many more steps the fetch can take at most, phase by phase: a step
    /// either moves on to a later phase or leaves fewer keys to ask for.
    pub open spec fn steps_left(&self) -> (nat, nat) {
        match self.phase() {
            FetchPhase::Start => (3, 0),
            FetchPhase::AwaitingList => (2, 0),
            FetchPhase::AwaitingDetail => (1, (self.keys().len() - self.index()) as nat),
            FetchPhase::Done => (0, 0),
        }
    }

    /// A fetch that has not asked for anything yet.
    pub fn new() -> (fetch: Fetch)
        ensures
            fetch.phase() == FetchPhase::Start,
            fetch.found() == Map::<Seq<char>, License>::empty(),
    {
        Fetch { phase: FetchPhase::Start, keys: Vec::new(), index: 0, found: Taxonomy::new() }
    }

    /// Whether nothing more will be asked.
    pub fn is_done(&self) -> (done: bool)
        ensures
            done == (self.phase() == FetchPhase::Done),
    {
        self.phase == FetchPhase::Done
    }

    /// The entries gathered.
    pub fn into_licenses(self) -> (licenses: Taxonomy)
        ensures
            licenses@ == self.found(),
    {
        self.found
    }

    /// Takes the answer to what was asked last and says what to do next.
    /// `reply` is the body of the authority's answer, or `None` where the
    /// request failed or was answered with an error status; before anything
    /// was asked, and after the end, it is not looked at.
    ///
    /// A failed request for the list ends the fetch with nothing found. A
    /// failed request for a detail leaves that license out and goes on.
    pub fn step(self, reply: Option<String>) -> (next: (Fetch, FetchAction))
        ensures
            match self.phase() {
                FetchPhase::Start => {
                    &&& next.0.phase() == FetchPhase::AwaitingList
                    &&& next.0.found() == Map::<Seq<char>, License>::empty()
                    &&& next.1 is RequestList
                },
                FetchPhase::AwaitingList => if keys_named(reply).len() > 0 {
                    &&& next.0.phase() == FetchPhase::AwaitingDetail
                    &&& next.0.keys() == keys_named(reply)
                    &&& next.0.index() == 0
                    &&& next.0.found() == Map::<Seq<char>, License>::empty()
                    &&& next.1 matches FetchAction::RequestDetail(key) && key@ == keys_named(
                        reply,
                    )[0]
                } else {
                    &&& next.0.phase() == FetchPhase::Done
                    &&& next.0.found() == Map::<Seq<char>, License>::empty()
                    &&& next.1 is Finish
                },
                FetchPhase::AwaitingDetail => {
                    &&& self.index() < self.keys().len()
                    &&& absorbed(
                        self.found(),
                        self.keys()[self.index() as int],
                        reply,
                        next.0.found(),
                    )
                    &&& if self.index() + 1 < self.keys().len() {
                        &&& next.0.phase() == FetchPhase::AwaitingDetail
                        &&& next.0.keys() == self.keys()
                        &&& next.0.index() == self.index() + 1
                        &&& next.1 matches FetchAction::RequestDetail(key) && key@
                            == self.keys()[self.index() as int + 1]
                    } else {
                        &&& next.0.phase() == FetchPhase::Done
                        &&& next.1 is Finish
                    }
                },
                FetchPhase::Done => {
                    &&& next.0.phase() == FetchPhase::Done
                    &&& next.0.found() == self.found()
                    &&& next.1 is Finish
                },
            },
            self.phase() != FetchPhase::Done ==> next.0.steps_left().0 < self.steps_left().0 || (
            next.0.steps_left().0 == self.steps_left().0 && next.0.steps_left().1
                < self.steps_left().1),
    {
        proof {
            use_type_invariant(&self);
        }
        let Fetch { phase, keys, index, found } = self;
        match phase {
            FetchPhase::Start => (
                Fetch { phase: FetchPhase::AwaitingList, keys, index, found },
                FetchAction::RequestList,
            ),
            FetchPhase::AwaitingList => {
                let named = match &reply {
                    Some(body) => match license_keys(body.as_str()) {
                        Some(named) => named,
                        None => Vec::new(),
                    },
                    None => Vec::new(),
                };
                assert(texts(named@) =~= keys_named(reply));
                if named.len() > 0 {
                    let first = named[0].clone();
                    (
                        Fetch { phase: FetchPhase::AwaitingDetail, keys: named, index: 0, found },
                        FetchAction::RequestDetail(first),
                    )
                } else {
                    (
                        Fetch { phase: FetchPhase::Done, keys: named, index: 0, found },
                        FetchAction::Finish,
                    )
                }
            },
            FetchPhase::AwaitingDetail => {
                let mut found = found;
                let ghost before = found@;
                match &reply {
                    Some(body) => match license_from_detail(keys[index].as_str(), body.as_str()) {
                        Some((id, license)) => {
                            found.insert(id, license);
                            assert(describes(
                                json_document(body@)->0,
                                texts(keys@)[index as int],
                                license,
                            ));
                        },
                        None => {},
                    },
                    None => {},
                }
                assert(absorbed(before, texts(keys@)[index as int], reply, found@));
                if index + 1 < keys.len() {
                    let following = keys[index + 1].clone();
                    (
                        Fetch { phase: FetchPhase::AwaitingDetail, keys, index: index + 1, found },
                        FetchAction::RequestDetail(following),
                    )
                } else {
                    (Fetch { phase: FetchPhase::Done, keys, index, found }, FetchAction::Finish)
                }
            },
            FetchPhase::Done => (
                Fetch { phase: FetchPhase::Done, keys, index, found },
                FetchAction::Finish,
            ),
        }
    }
}

} // verus!
