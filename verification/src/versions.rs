//! The order of version strings: semantic versions by their precedence, other
//! strings as texts, and the two kinds kept apart.
use crate::order::{order_of_texts, text_order, Order};
use crate::text::{chars_of, slice_chars, string_from_chars};
use vstd::prelude::*;

verus! {

/// Whether `semver` reads the text as a semantic version.
pub uninterp spec fn is_semver(text: Seq<char>) -> bool;

/// Where the semantic version that `semver` reads from `a` stands relative to
/// the one that it reads from `b`.
pub uninterp spec fn semver_order(a: Seq<char>, b: Seq<char>) -> Order;

/// `semver::Version::parse`: whether the text is a semantic version.
#[verifier::external_body]
fn semver_parses(text: &str) -> (ok: bool)
    ensures
        ok == is_semver(text@),
{
    semver::Version::parse(text).is_ok()
}

/// `Ord::cmp` on two `semver::Version`s, each parsed from its text. The order
/// is total, so that seen from the other version it is reversed.
#[verifier::external_body]
fn semver_compare(a: &str, b: &str) -> (r: Order)
    requires
        is_semver(a@),
        is_semver(b@),
    ensures
        r == semver_order(a@, b@),
        semver_order(b@, a@) == r.reversed(),
{
    match (semver::Version::parse(a), semver::Version::parse(b)) {
        (Ok(x), Ok(y)) => match x.cmp(&y) {
            std::cmp::Ordering::Less => Order::Before,
            std::cmp::Ordering::Equal => Order::Same,
            std::cmp::Ordering::Greater => Order::After,
        },
        _ => Order::Same,
    }
}

/// A version string without the `v`s that it begins with.
pub open spec fn without_v(version: Seq<char>) -> Seq<char>
    decreases version.len(),
{
    if version.len() > 0 && version[0] == 'v' {
        without_v(version.drop_first())
    } else {
        version
    }
}

/// The order of two version strings. Leading `v`s are ignored. Two semantic
/// versions are ordered by precedence, two other strings as texts, both
/// whatever the direction of the sort; a semantic version and a string that is
/// none are kept apart, the semantic version first when sorting upwards and
/// last when sorting downwards.
pub open spec fn version_order(a: Seq<char>, b: Seq<char>, ascending: bool) -> Order {
    let x = without_v(a);
    let y = without_v(b);
    if is_semver(x) && is_semver(y) {
        semver_order(x, y)
    } else if is_semver(x) {
        if ascending {
            Order::Before
        } else {
            Order::After
        }
    } else if is_semver(y) {
        if ascending {
            Order::After
        } else {
            Order::Before
        }
    } else {
        text_order(x, y)
    }
}

/// Dropping `k` leading `v`s one at a time is dropping them at once.
proof fn lemma_without_v(version: Seq<char>, k: int)
    requires
        0 <= k <= version.len(),
        forall|j: int| 0 <= j < k ==> #[trigger] version[j] == 'v',
        k == version.len() || version[k] != 'v',
    ensures
        without_v(version) == version.subrange(k, version.len() as int),
    decreases k,
{
    if k > 0 {
        let rest = version.drop_first();
        assert forall|j: int| 0 <= j < k - 1 implies #[trigger] rest[j] == 'v' by {
            assert(rest[j] == version[j + 1]);
        }
        lemma_without_v(rest, k - 1);
        assert(rest.subrange(k - 1, rest.len() as int) =~= version.subrange(
            k,
            version.len() as int,
        ));
    } else {
        assert(version.subrange(0, version.len() as int) =~= version);
    }
}

/// A version string without the `v`s that it begins with.
fn strip_v(version: &str) -> (stripped: Vec<char>)
    ensures
        stripped@ == without_v(version@),
{
    let chars = chars_of(version);
    let mut k: usize = 0;
    while k < chars.len() && chars[k] == 'v'
        invariant
            k <= chars.len(),
            forall|j: int| 0 <= j < k ==> #[trigger] chars@[j] == 'v',
        decreases chars.len() - k,
    {
        k += 1;
    }
    proof {
        lemma_without_v(chars@, k as int);
    }
    slice_chars(&chars, k, chars.len())
}

/// Compares two version strings for sorting in the given direction.
pub fn compare_versions(a: &str, b: &str, ascending: bool) -> (r: Order)
    ensures
        r == version_order(a@, b@, ascending),
        version_order(b@, a@, ascending) == r.reversed(),
{
    let x = strip_v(a);
    let y = strip_v(b);
    let x_text = string_from_chars(&x);
    let y_text = string_from_chars(&y);
    let x_is_semver = semver_parses(x_text.as_str());
    let y_is_semver = semver_parses(y_text.as_str());
    if x_is_semver && y_is_semver {
        semver_compare(x_text.as_str(), y_text.as_str())
    } else if x_is_semver {
        if ascending {
            Order::Before
        } else {
            Order::After
        }
    } else if y_is_semver {
        if ascending {
            Order::After
        } else {
            Order::Before
        }
    } else {
        order_of_texts(&x, &y)
    }
}

} // verus!
