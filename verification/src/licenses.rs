//! Dependency records, the license taxonomy, and the three decisions taken on
//! them: canonical spelling, restrictiveness, and compatibility with the
//! project's own license.
use crate::text::{
    chars_eq_str, chars_of, contains, contains_str, to_uppercase, trim, trimmed, uppercase,
};
use vstd::prelude::*;

verus! {

/// Verdict on whether a dependency's license may be included in the project.
#[derive(Debug, Clone, Copy, PartialEq, Eq, Structural)]
pub enum LicenseCompatibility {
    Compatible,
    Incompatible,
    Unknown,
}

impl LicenseCompatibility {
    /// The verdict's display text.
    pub open spec fn text(self) -> Seq<char> {
        match self {
            LicenseCompatibility::Compatible => "Compatible"@,
            LicenseCompatibility::Incompatible => "Incompatible"@,
            LicenseCompatibility::Unknown => "Unknown"@,
        }
    }

    /// The verdict as text: the variant's name.
    pub fn to_string(&self) -> (s: String)
        ensures
            s@ == self.text(),
    {
        match self {
            LicenseCompatibility::Compatible => "Compatible".to_owned(),
            LicenseCompatibility::Incompatible => "Incompatible".to_owned(),
            LicenseCompatibility::Unknown => "Unknown".to_owned(),
        }
    }
}

/// What is known of one dependency once it has been classified.
#[derive(Debug, Clone)]
pub struct LicenseInfo {
    /// Name of the package.
    pub name: String,
    /// Version of the package, as its ecosystem spells it.
    pub version: String,
    /// Declared license, if one was found.
    pub license: Option<String>,
    /// Whether the license is restrictive.
    pub is_restrictive: bool,
    /// Compatibility with the project's license.
    pub compatibility: LicenseCompatibility,
}

impl LicenseInfo {
    /// The license as shown to the user: the declared one, or `No License`.
    pub open spec fn license_text(&self) -> Seq<char> {
        match self.license {
            Some(declared) => declared@,
            None => "No License"@,
        }
    }

    /// The license as shown to the user.
    pub fn get_license(&self) -> (text: String)
        ensures
            text@ == self.license_text(),
    {
        match &self.license {
            Some(declared) => declared.clone(),
            None => "No License".to_owned(),
        }
    }

    /// Name of the package.
    pub fn name(&self) -> (name: &str)
        ensures
            name@ == self.name@,
    {
        self.name.as_str()
    }

    /// Version of the package.
    pub fn version(&self) -> (version: &str)
        ensures
            version@ == self.version@,
    {
        self.version.as_str()
    }

    /// Whether the license is restrictive.
    pub fn is_restrictive(&self) -> (flag: &bool)
        ensures
            *flag == self.is_restrictive,
    {
        &self.is_restrictive
    }

    /// Compatibility with the project's license.
    pub fn compatibility(&self) -> (verdict: &LicenseCompatibility)
        ensures
            *verdict == self.compatibility,
    {
        &self.compatibility
    }
}

/// One entry of the license taxonomy.
#[derive(Debug, Clone)]
pub struct License {
    /// Full name of the license.
    pub title: String,
    /// SPDX identifier of the license.
    pub spdx_id: String,
    /// What the license permits.
    pub permissions: Vec<String>,
    /// What the license demands.
    pub conditions: Vec<String>,
    /// What the license excludes.
    pub limitations: Vec<String>,
}

/// One stored entry of the taxonomy, under the key it was stored with.
struct TaxonomyEntry {
    key: String,
    license: License,
}

/// The license taxonomy: for each SPDX identifier, what is known of that license.
/// The keys are pairwise distinct; an insertion under a key already present
/// replaces the entry.
pub struct Taxonomy {
    entries: Vec<TaxonomyEntry>,
}

impl View for Taxonomy {
    type V = Map<Seq<char>, License>;

    /// The taxonomy as a map from identifier to entry.
    closed spec fn view(&self) -> Map<Seq<char>, License> {
        Map::new(
            |key: Seq<char>| self.position(key) is Some,
            |key: Seq<char>| self.entries[self.position(key)->0].license,
        )
    }
}

impl Taxonomy {
    #[verifier::type_invariant]
    closed spec fn well_formed(&self) -> bool {
        forall|i: int, j: int|
            0 <= i < j < self.entries.len() ==> self.entries[i].key@ != self.entries[j].key@
    }

    /// Where `key` stands among the keys, if it does.
    closed spec fn position(&self, key: Seq<char>) -> Option<int> {
        if exists|i: int| 0 <= i < self.entries.len() && self.entries[i].key@ == key {
            Some(choose|i: int| 0 <= i < self.entries.len() && self.entries[i].key@ == key)
        } else {
            None
        }
    }

    /// The keys in the order in which they were first inserted.
    pub closed spec fn key_order(&self) -> Seq<Seq<char>> {
        Seq::new(self.entries@.len(), |i: int| self.entries[i].key@)
    }

    /// With pairwise distinct keys, the position of a key is the one place where it stands.
    proof fn lemma_position(&self, key: Seq<char>, at: int)
        requires
            self.well_formed(),
            0 <= at < self.entries.len(),
            self.entries[at].key@ == key,
        ensures
            self.position(key) == Some(at),
    {
        let chosen = choose|i: int| 0 <= i < self.entries.len() && self.entries[i].key@ == key;
        assert(chosen == at) by {
            if chosen < at {
                assert(self.entries[chosen].key@ != self.entries[at].key@);
            } else if at < chosen {
                assert(self.entries[at].key@ != self.entries[chosen].key@);
            }
        }
    }

    /// The key order lists every key of the map exactly once.
    proof fn lemma_key_order(&self)
        requires
            self.well_formed(),
        ensures
            self.key_order().no_duplicates(),
            self.key_order().to_set() == self@.dom(),
            self@.dom().finite(),
            self@.dom().len() == self.key_order().len(),
    {
        let order = self.key_order();
        assert forall|key: Seq<char>| order.to_set().contains(key) == self@.dom().contains(
            key,
        ) by {
            if order.to_set().contains(key) {
                let i = choose|i: int| 0 <= i < order.len() && order[i] == key;
                assert(self.entries[i].key@ == key);
            }
            if self@.dom().contains(key) {
                let i = self.position(key)->0;
                assert(order[i] == key);
            }
        }
        assert(order.to_set() =~= self@.dom());
        order.unique_seq_to_set();
    }

    /// The empty taxonomy: nothing is known, and the key order lists no key.
    pub fn new() -> (taxonomy: Taxonomy)
        ensures
            taxonomy@ == Map::<Seq<char>, License>::empty(),
            taxonomy.key_order() == Seq::<Seq<char>>::empty(),
    {
        let taxonomy = Taxonomy { entries: Vec::new() };
        assert(taxonomy@ =~= Map::<Seq<char>, License>::empty());
        assert(taxonomy.key_order() =~= Seq::<Seq<char>>::empty());
        taxonomy
    }

    fn find_key(&self, key: &String) -> (at: Option<usize>)
        ensures
            match at {
                Some(i) => i < self.entries.len() && self.entries[i as int].key@ == key@
                    && self.position(key@) == Some(i as int),
                None => self.position(key@) is None,
            },
    {
        proof {
            use_type_invariant(self);
        }
        let mut i: usize = 0;
        while i < self.entries.len()
            invariant
                self.well_formed(),
                i <= self.entries.len(),
                forall|j: int| 0 <= j < i ==> self.entries[j].key@ != key@,
            decreases self.entries.len() - i,
        {
            if self.entries[i].key == *key {
                proof {
                    self.lemma_position(key@, i as int);
                }
                return Some(i);
            }
            i += 1;
        }
        None
    }

    /// The entry stored under `key`, if there is one.
    pub fn get(&self, key: &str) -> (entry: Option<&License>)
        ensures
            match entry {
                Some(license) => self@.contains_key(key@) && *license == self@[key@],
                None => !self@.contains_key(key@),
            },
    {
        let owned = key.to_owned();
        match self.find_key(&owned) {
            Some(i) => Some(&self.entries[i].license),
            None => None,
        }
    }

    /// Whether an entry is stored under `key`.
    pub fn contains_key(&self, key: &str) -> (present: bool)
        ensures
            present == self@.contains_key(key@),
    {
        self.get(key).is_some()
    }

    /// Stores `license` under `key`, in place of what was stored there before.
    /// A key that is new comes last in the key order; the order of the others
    /// never changes.
    pub fn insert(&mut self, key: String, license: License)
        ensures
            final(self)@ == old(self)@.insert(key@, license),
            final(self).key_order() == (if old(self)@.contains_key(key@) {
                old(self).key_order()
            } else {
                old(self).key_order().push(key@)
            }),
    {
        proof {
            use_type_invariant(&*self);
        }
        let ghost before = *self;
        let ghost key_view = key@;
        match self.find_key(&key) {
            Some(i) => {
                let mut entries: Vec<TaxonomyEntry> = Vec::new();
                std::mem::swap(&mut self.entries, &mut entries);
                entries[i] = TaxonomyEntry { key, license };
                assert forall|a: int, b: int| 0 <= a < b < entries.len() implies entries[a].key@
                    != entries[b].key@ by {
                    assert(before.entries[a].key@ == entries[a].key@);
                    assert(before.entries[b].key@ == entries[b].key@);
                }
                std::mem::swap(&mut self.entries, &mut entries);
                proof {
                    let after = *self;
                    assert forall|k: Seq<char>| after.position(k) is Some <==> before.position(
                        k,
                    ) is Some || k == key_view by {
                        if before.position(k) is Some {
                            let j = before.position(k)->0;
                            assert(after.entries[j].key@ == k);
                        }
                        if after.position(k) is Some {
                            let j = after.position(k)->0;
                            assert(before.entries[j].key@ == k);
                        }
                    }
                    assert forall|k: Seq<char>| after.position(k) is Some implies after@[k] == (
                    if k == key_view {
                        license
                    } else {
                        before@[k]
                    }) by {
                        let j = after.position(k)->0;
                        assert(before.entries[j].key@ == k);
                        before.lemma_position(k, j);
                    }
                    assert(after@ =~= before@.insert(key_view, license));
                    assert(before@.contains_key(key_view));
                    assert(after.key_order() =~= before.key_order());
                }
            },
            None => {
                let mut entries: Vec<TaxonomyEntry> = Vec::new();
                std::mem::swap(&mut self.entries, &mut entries);
                entries.push(TaxonomyEntry { key, license });
                let ghost last = before.entries.len() as int;
                assert forall|i: int, j: int| 0 <= i < j < entries.len() implies entries[i].key@
                    != entries[j].key@ by {
                    if j == last {
                        assert(before.entries[i].key@ == entries[i].key@);
                    }
                }
                std::mem::swap(&mut self.entries, &mut entries);
                proof {
                    let after = *self;
                    assert forall|k: Seq<char>| after.position(k) is Some <==> before.position(
                        k,
                    ) is Some || k == key_view by {
                        if before.position(k) is Some {
                            let j = before.position(k)->0;
                            assert(after.entries[j].key@ == k);
                        }
                        if k == key_view {
                            assert(after.entries[last].key@ == k);
                        }
                        if after.position(k) is Some {
                            let j = after.position(k)->0;
                            if j < last {
                                assert(before.entries[j].key@ == k);
                            }
                        }
                    }
                    assert forall|k: Seq<char>| after.position(k) is Some implies after@[k] == (
                    if k == key_view {
                        license
                    } else {
                        before@[k]
                    }) by {
                        let j = after.position(k)->0;
                        if j < last {
                            assert(before.entries[j].key@ == k);
                            before.lemma_position(k, j);
                        } else {
                            after.lemma_position(key_view, last);
                        }
                    }
                    assert(after@ =~= before@.insert(key_view, license));
                    assert(!before@.contains_key(key_view));
                    assert(after.key_order() =~= before.key_order().push(key_view));
                }
            },
        }
    }

    /// Number of entries. The key order lists every key exactly once.
    pub fn len(&self) -> (count: usize)
        ensures
            self@.dom().finite(),
            count == self@.dom().len(),
            count == self.key_order().len(),
            self.key_order().no_duplicates(),
            self.key_order().to_set() == self@.dom(),
    {
        proof {
            use_type_invariant(self);
            self.lemma_key_order();
        }
        self.entries.len()
    }

    /// Whether nothing is known.
    pub fn is_empty(&self) -> (empty: bool)
        ensures
            empty == (self@.dom().len() == 0),
    {
        self.len() == 0
    }

    /// The key of the entry at position `index` of the key order.
    pub fn key_at(&self, index: usize) -> (key: &str)
        requires
            index < self.key_order().len(),
        ensures
            key@ == self.key_order()[index as int],
            self@.contains_key(key@),
    {
        proof {
            use_type_invariant(self);
            self.lemma_position(self.entries[index as int].key@, index as int);
        }
        self.entries[index].key.as_str()
    }

    /// The entry at position `index` of the key order.
    pub fn license_at(&self, index: usize) -> (license: &License)
        requires
            index < self.key_order().len(),
        ensures
            self@.contains_key(self.key_order()[index as int]),
            *license == self@[self.key_order()[index as int]],
    {
        proof {
            use_type_invariant(self);
            self.lemma_position(self.entries[index as int].key@, index as int);
        }
        &self.entries[index].license
    }
}

/// Canonical identifier of an upper-cased spelling that is a known alias.
pub open spec fn alias_of(upper: Seq<char>) -> Option<Seq<char>> {
    if upper == "MIT"@ || upper == "MIT LICENSE"@ {
        Some("MIT"@)
    } else if upper == "ISC"@ || upper == "ISC LICENSE"@ {
        Some("ISC"@)
    } else if upper == "0BSD"@ || upper == "BSD-ZERO-CLAUSE"@ || upper == "BSD ZERO CLAUSE"@ {
        Some("0BSD"@)
    } else if upper == "UNLICENSE"@ || upper == "THE UNLICENSE"@ {
        Some("Unlicense"@)
    } else if upper == "WTFPL"@ || upper == "DO WHAT THE FUCK YOU WANT TO PUBLIC LICENSE"@ {
        Some("WTFPL"@)
    } else if upper == "ZLIB"@ || upper == "ZLIB LICENSE"@ {
        Some("Zlib"@)
    } else {
        None
    }
}

/// Canonical identifier of an upper-cased spelling that names a versioned
/// family. The rules are tried in this order and the first that applies wins;
/// the bare `GPL` rules exclude `LGPL`, and version 3 is looked for before
/// version 2.
pub open spec fn family_of(upper: Seq<char>) -> Option<Seq<char>> {
    if contains(upper, "APACHE"@) && (contains(upper, "2.0"@) || contains(upper, "2"@)) {
        Some("Apache-2.0"@)
    } else if contains(upper, "GPL"@) && contains(upper, "3"@) && !contains(upper, "LGPL"@) {
        Some("GPL-3.0"@)
    } else if contains(upper, "GPL"@) && contains(upper, "2"@) && !contains(upper, "LGPL"@) {
        Some("GPL-2.0"@)
    } else if contains(upper, "LGPL"@) && contains(upper, "3"@) {
        Some("LGPL-3.0"@)
    } else if contains(upper, "LGPL"@) && contains(upper, "2.1"@) {
        Some("LGPL-2.1"@)
    } else if contains(upper, "LGPL"@) && contains(upper, "2"@) && !contains(upper, "2.1"@) {
        Some("LGPL-2.1"@)
    } else if contains(upper, "MPL"@) && contains(upper, "2.0"@) {
        Some("MPL-2.0"@)
    } else if contains(upper, "BSD"@) && (contains(upper, "3"@) || contains(upper, "THREE"@)) {
        Some("BSD-3-Clause"@)
    } else if contains(upper, "BSD"@) && (contains(upper, "2"@) || contains(upper, "TWO"@)) {
        Some("BSD-2-Clause"@)
    } else {
        None
    }
}

/// Canonical identifier of an upper-cased, trimmed spelling, if it is recognised.
pub open spec fn canonical_of(upper: Seq<char>) -> Option<Seq<char>> {
    match alias_of(upper) {
        Some(id) => Some(id),
        None => family_of(upper),
    }
}

/// The canonical form of a raw license string: the identifier of the first
/// rule that recognises its trimmed, upper-cased spelling, and the raw string
/// itself, untouched, when none does.
pub open spec fn normalized(raw: Seq<char>) -> Seq<char> {
    match canonical_of(uppercase(trimmed(raw))) {
        Some(id) => id,
        None => raw,
    }
}

fn alias_for(upper: &Vec<char>) -> (id: Option<&'static str>)
    ensures
        match id {
            Some(s) => alias_of(upper@) == Some(s@),
            None => alias_of(upper@) is None,
        },
{
    if chars_eq_str(upper, "MIT") || chars_eq_str(upper, "MIT LICENSE") {
        Some("MIT")
    } else if chars_eq_str(upper, "ISC") || chars_eq_str(upper, "ISC LICENSE") {
        Some("ISC")
    } else if chars_eq_str(upper, "0BSD") || chars_eq_str(upper, "BSD-ZERO-CLAUSE")
        || chars_eq_str(upper, "BSD ZERO CLAUSE") {
        Some("0BSD")
    } else if chars_eq_str(upper, "UNLICENSE") || chars_eq_str(upper, "THE UNLICENSE") {
        Some("Unlicense")
    } else if chars_eq_str(upper, "WTFPL") || chars_eq_str(
        upper,
        "DO WHAT THE FUCK YOU WANT TO PUBLIC LICENSE",
    ) {
        Some("WTFPL")
    } else if chars_eq_str(upper, "ZLIB") || chars_eq_str(upper, "ZLIB LICENSE") {
        Some("Zlib")
    } else {
        None
    }
}

fn family_for(upper: &Vec<char>) -> (id: Option<&'static str>)
    ensures
        match id {
            Some(s) => family_of(upper@) == Some(s@),
            None => family_of(upper@) is None,
        },
{
    let lgpl = contains_str(upper, "LGPL");
    let gpl = contains_str(upper, "GPL");
    let bsd = contains_str(upper, "BSD");
    let two = contains_str(upper, "2");
    let three = contains_str(upper, "3");
    let two_zero = contains_str(upper, "2.0");
    let two_one = contains_str(upper, "2.1");
    if contains_str(upper, "APACHE") && (two_zero || two) {
        Some("Apache-2.0")
    } else if gpl && three && !lgpl {
        Some("GPL-3.0")
    } else if gpl && two && !lgpl {
        Some("GPL-2.0")
    } else if lgpl && three {
        Some("LGPL-3.0")
    } else if lgpl && two_one {
        Some("LGPL-2.1")
    } else if lgpl && two && !two_one {
        Some("LGPL-2.1")
    } else if contains_str(upper, "MPL") && two_zero {
        Some("MPL-2.0")
    } else if bsd && (three || contains_str(upper, "THREE")) {
        Some("BSD-3-Clause")
    } else if bsd && (two || contains_str(upper, "TWO")) {
        Some("BSD-2-Clause")
    } else {
        None
    }
}

/// Brings a license identifier into its canonical spelling. Spellings that no
/// rule recognises are handed back exactly as they came, untrimmed.
pub fn normalize_license_id(license_id: &str) -> (id: String)
    ensures
        id@ == normalized(license_id@),
{
    let raw = chars_of(license_id);
    let upper = to_uppercase(&trim(&raw));
    match alias_for(&upper) {
        Some(canonical) => canonical.to_owned(),
        None => match family_for(&upper) {
            Some(canonical) => canonical.to_owned(),
            None => license_id.to_owned(),
        },
    }
}

/// Whether a license's conditions demand that source be disclosed, on
/// distribution or on use over a network.
pub open spec fn demands_disclosure(conditions: Seq<String>) -> bool {
    exists|i: int|
        0 <= i < conditions.len() && (#[trigger] conditions[i]@ == "source-disclosure"@
            || conditions[i]@ == "network-use-disclosure"@)
}

/// Whether one of the configured patterns occurs in the license string. The
/// match is by plain containment and is sensitive to case.
pub open spec fn matches_pattern(license: Seq<char>, patterns: Seq<String>) -> bool {
    exists|i: int| 0 <= i < patterns.len() && contains(license, #[trigger] patterns[i]@)
}

/// Whether a declared license counts as restrictive. The sentinel `No License`
/// always does; an identifier that the taxonomy knows does when its conditions
/// demand disclosure; any other string does when a configured pattern occurs
/// in it; and where nothing was declared at all the answer is no.
pub open spec fn restrictive(
    license: Option<Seq<char>>,
    known: Map<Seq<char>, License>,
    patterns: Seq<String>,
) -> bool {
    match license {
        None => false,
        Some(id) => if id == "No License"@ {
            true
        } else if known.contains_key(id) {
            demands_disclosure(known[id].conditions@)
        } else {
            matches_pattern(id, patterns)
        },
    }
}

/// The declared license as a character sequence, if one was declared.
pub open spec fn declared(license: Option<String>) -> Option<Seq<char>> {
    match license {
        Some(id) => Some(id@),
        None => None,
    }
}

fn has_disclosure_condition(conditions: &Vec<String>) -> (found: bool)
    ensures
        found == demands_disclosure(conditions@),
{
    let mut i: usize = 0;
    while i < conditions.len()
        invariant
            i <= conditions.len(),
            forall|j: int|
                0 <= j < i ==> !(#[trigger] conditions[j]@ == "source-disclosure"@
                    || conditions[j]@ == "network-use-disclosure"@),
        decreases conditions.len() - i,
    {
        let condition = chars_of(conditions[i].as_str());
        if chars_eq_str(&condition, "source-disclosure") || chars_eq_str(
            &condition,
            "network-use-disclosure",
        ) {
            return true;
        }
        i += 1;
    }
    false
}

fn has_matching_pattern(license: &Vec<char>, patterns: &Vec<String>) -> (found: bool)
    ensures
        found == matches_pattern(license@, patterns@),
{
    let mut i: usize = 0;
    while i < patterns.len()
        invariant
            i <= patterns.len(),
            forall|j: int| 0 <= j < i ==> !contains(license@, #[trigger] patterns[j]@),
        decreases patterns.len() - i,
    {
        if contains_str(license, patterns[i].as_str()) {
            return true;
        }
        i += 1;
    }
    false
}

/// Decides whether a dependency's declared license is restrictive, given the
/// taxonomy and the configured list of restrictive patterns.
pub fn is_license_restrictive(
    license: &Option<String>,
    known_licenses: &Taxonomy,
    restrictive_patterns: &Vec<String>,
) -> (verdict: bool)
    ensures
        verdict == restrictive(declared(*license), known_licenses@, restrictive_patterns@),
{
    match license {
        None => false,
        Some(id) => {
            let raw = chars_of(id.as_str());
            if chars_eq_str(&raw, "No License") {
                true
            } else {
                match known_licenses.get(id.as_str()) {
                    Some(entry) => has_disclosure_condition(&entry.conditions),
                    None => has_matching_pattern(&raw, restrictive_patterns),
                }
            }
        },
    }
}

/// The compatibility relation: for each project license it lists the
/// dependency licenses that such a project may include. The relation is
/// directed; nothing is implied by symmetry or transitivity.
pub open spec fn allowed_dependencies(project: Seq<char>) -> Option<Seq<Seq<char>>> {
    if project == "MIT"@ || project == "Apache-2.0"@ {
        Some(
            seq![
                "MIT"@,
                "BSD-2-Clause"@,
                "BSD-3-Clause"@,
                "Apache-2.0"@,
                "ISC"@,
                "0BSD"@,
                "Zlib"@,
                "Unlicense"@,
                "WTFPL"@,
            ],
        )
    } else if project == "GPL-3.0"@ {
        Some(
            seq![
                "MIT"@,
                "BSD-2-Clause"@,
                "BSD-3-Clause"@,
                "Apache-2.0"@,
                "LGPL-2.1"@,
                "LGPL-3.0"@,
                "GPL-2.0"@,
                "GPL-3.0"@,
                "ISC"@,
                "0BSD"@,
                "Zlib"@,
                "Unlicense"@,
                "WTFPL"@,
            ],
        )
    } else if project == "GPL-2.0"@ {
        Some(
            seq![
                "MIT"@,
                "BSD-2-Clause"@,
                "BSD-3-Clause"@,
                "LGPL-2.1"@,
                "GPL-2.0"@,
                "ISC"@,
                "0BSD"@,
                "Zlib"@,
                "Unlicense"@,
                "WTFPL"@,
            ],
        )
    } else if project == "LGPL-3.0"@ {
        Some(
            seq![
                "MIT"@,
                "BSD-2-Clause"@,
                "BSD-3-Clause"@,
                "Apache-2.0"@,
                "LGPL-2.1"@,
                "LGPL-3.0"@,
                "ISC"@,
                "0BSD"@,
            ],
        )
    } else if project == "LGPL-2.1"@ {
        Some(seq!["MIT"@, "BSD-2-Clause"@, "BSD-3-Clause"@, "LGPL-2.1"@, "ISC"@, "0BSD"@])
    } else if project == "MPL-2.0"@ {
        Some(seq!["MIT"@, "BSD-2-Clause"@, "BSD-3-Clause"@, "MPL-2.0"@, "ISC"@, "0BSD"@])
    } else if project == "BSD-3-Clause"@ {
        Some(seq!["MIT"@, "BSD-2-Clause"@, "BSD-3-Clause"@, "ISC"@, "0BSD"@])
    } else if project == "BSD-2-Clause"@ {
        Some(seq!["MIT"@, "BSD-2-Clause"@, "ISC"@, "0BSD"@])
    } else if project == "ISC"@ {
        Some(seq!["MIT"@, "ISC"@, "0BSD"@])
    } else if project == "0BSD"@ {
        Some(seq!["0BSD"@])
    } else if project == "Unlicense"@ {
        Some(seq!["Unlicense"@, "0BSD"@])
    } else if project == "WTFPL"@ {
        Some(seq!["WTFPL"@, "0BSD"@, "Unlicense"@])
    } else {
        None
    }
}

/// The verdict for a dependency license under a project license, both already
/// in canonical form: unknown where the relation has no row for the project,
/// compatible where the row lists the dependency, incompatible otherwise.
pub open spec fn verdict_for(dependency: Seq<char>, project: Seq<char>) -> LicenseCompatibility {
    match allowed_dependencies(project) {
        None => LicenseCompatibility::Unknown,
        Some(allowed) => if allowed.contains(dependency) {
            LicenseCompatibility::Compatible
        } else {
            LicenseCompatibility::Incompatible
        },
    }
}

/// The verdict for a dependency license under a project license, as declared:
/// both are normalized first.
pub open spec fn compatibility_of(dependency: Seq<char>, project: Seq<char>) -> LicenseCompatibility {
    verdict_for(normalized(dependency), normalized(project))
}

/// The views of a list of texts.
pub open spec fn views(list: Seq<&'static str>) -> Seq<Seq<char>> {
    Seq::new(list.len(), |i: int| list[i]@)
}

fn allowed_for(project: &Vec<char>) -> (row: Option<Vec<&'static str>>)
    ensures
        match row {
            Some(list) => allowed_dependencies(project@) == Some(views(list@)),
            None => allowed_dependencies(project@) is None,
        },
{
    let row = if chars_eq_str(project, "MIT") || chars_eq_str(project, "Apache-2.0") {
        vec![
            "MIT",
            "BSD-2-Clause",
            "BSD-3-Clause",
            "Apache-2.0",
            "ISC",
            "0BSD",
            "Zlib",
            "Unlicense",
            "WTFPL",
        ]
    } else if chars_eq_str(project, "GPL-3.0") {
        vec![
            "MIT",
            "BSD-2-Clause",
            "BSD-3-Clause",
            "Apache-2.0",
            "LGPL-2.1",
            "LGPL-3.0",
            "GPL-2.0",
            "GPL-3.0",
            "ISC",
            "0BSD",
            "Zlib",
            "Unlicense",
            "WTFPL",
        ]
    } else if chars_eq_str(project, "GPL-2.0") {
        vec![
            "MIT",
            "BSD-2-Clause",
            "BSD-3-Clause",
            "LGPL-2.1",
            "GPL-2.0",
            "ISC",
            "0BSD",
            "Zlib",
            "Unlicense",
            "WTFPL",
        ]
    } else if chars_eq_str(project, "LGPL-3.0") {
        vec![
            "MIT",
            "BSD-2-Clause",
            "BSD-3-Clause",
            "Apache-2.0",
            "LGPL-2.1",
            "LGPL-3.0",
            "ISC",
            "0BSD",
        ]
    } else if chars_eq_str(project, "LGPL-2.1") {
        vec!["MIT", "BSD-2-Clause", "BSD-3-Clause", "LGPL-2.1", "ISC", "0BSD"]
    } else if chars_eq_str(project, "MPL-2.0") {
        vec!["MIT", "BSD-2-Clause", "BSD-3-Clause", "MPL-2.0", "ISC", "0BSD"]
    } else if chars_eq_str(project, "BSD-3-Clause") {
        vec!["MIT", "BSD-2-Clause", "BSD-3-Clause", "ISC", "0BSD"]
    } else if chars_eq_str(project, "BSD-2-Clause") {
        vec!["MIT", "BSD-2-Clause", "ISC", "0BSD"]
    } else if chars_eq_str(project, "ISC") {
        vec!["MIT", "ISC", "0BSD"]
    } else if chars_eq_str(project, "0BSD") {
        vec!["0BSD"]
    } else if chars_eq_str(project, "Unlicense") {
        vec!["Unlicense", "0BSD"]
    } else if chars_eq_str(project, "WTFPL") {
        vec!["WTFPL", "0BSD", "Unlicense"]
    } else {
        return None;
    };
    assert(allowed_dependencies(project@)->0 =~= views(row@));
    Some(row)
}

/// Decides whether a project under `project_license` may include a dependency
/// under `dependency_license`. An unlisted project license yields `Unknown`,
/// never `Incompatible`.
pub fn is_license_compatible(dependency_license: &str, project_license: &str) -> (verdict:
    LicenseCompatibility)
    ensures
        verdict == compatibility_of(dependency_license@, project_license@),
{
    let dependency = normalize_license_id(dependency_license);
    let project = normalize_license_id(project_license);
    let dependency_chars = chars_of(dependency.as_str());
    let project_chars = chars_of(project.as_str());
    match allowed_for(&project_chars) {
        None => LicenseCompatibility::Unknown,
        Some(row) => {
            let ghost allowed = views(row@);
            let mut i: usize = 0;
            while i < row.len()
                invariant
                    i <= row.len(),
                    allowed == views(row@),
                    allowed_dependencies(project_chars@) == Some(allowed),
                    project_chars@ == normalized(project_license@),
                    dependency_chars@ == normalized(dependency_license@),
                    forall|j: int| 0 <= j < i ==> allowed[j] != dependency_chars@,
                decreases row.len() - i,
            {
                if chars_eq_str(&dependency_chars, row[i]) {
                    assert(allowed[i as int] == dependency_chars@);
                    return LicenseCompatibility::Compatible;
                }
                i += 1;
            }
            LicenseCompatibility::Incompatible
        },
    }
}

} // verus!
