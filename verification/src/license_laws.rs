//! Laws of the license decisions. Every canonical identifier is a fixed point
//! of the normalizer, hence normalizing twice is normalizing once; the
//! sentinel for a missing license is always restrictive, an undeclared license
//! never; and a project license without a row in the compatibility relation
//! yields no verdict but `Unknown`.
use crate::licenses::{
    alias_of, allowed_dependencies, canonical_of, compatibility_of, normalized, restrictive,
    License, LicenseCompatibility,
};
use crate::text::{ascii_upper, contains, is_ascii, is_space, leading_spaces, occurs_at, trailing_spaces, trimmed, uppercase};
use vstd::prelude::*;

verus! {

/// The identifiers that the normalizer can produce.
pub open spec fn is_canonical_id(id: Seq<char>) -> bool {
    ||| id == "MIT"@
    ||| id == "ISC"@
    ||| id == "0BSD"@
    ||| id == "Unlicense"@
    ||| id == "WTFPL"@
    ||| id == "Zlib"@
    ||| id == "Apache-2.0"@
    ||| id == "GPL-3.0"@
    ||| id == "GPL-2.0"@
    ||| id == "LGPL-3.0"@
    ||| id == "LGPL-2.1"@
    ||| id == "MPL-2.0"@
    ||| id == "BSD-3-Clause"@
    ||| id == "BSD-2-Clause"@
}

/// A text that neither begins nor ends with white space is its own trimmed form.
pub proof fn lemma_trimmed_fixed(s: Seq<char>)
    requires
        s.len() > 0,
        !is_space(s[0]),
        !is_space(s.last()),
    ensures
        trimmed(s) == s,
{
    assert(leading_spaces(s) == 0);
    assert(trailing_spaces(s) == 0);
    assert(s.subrange(0, s.len() as int) =~= s);
}

/// Where `needle` occurs at `i`, its `k`-th character stands at `i + k`.
pub proof fn lemma_occurrence_char(hay: Seq<char>, needle: Seq<char>, i: int, k: int)
    requires
        occurs_at(hay, needle, i),
        0 <= k < needle.len(),
    ensures
        hay[i + k] == needle[k],
{
    assert(hay.subrange(i, i + needle.len())[k] == hay[i + k]);
}

/// A pattern whose first two characters never stand side by side in `hay`
/// (or whose first character never stands in it) does not occur in `hay`.
pub proof fn lemma_absent(hay: Seq<char>, needle: Seq<char>)
    requires
        needle.len() >= 1,
        forall|i: int|
            0 <= i && i + needle.len() <= hay.len() ==> #[trigger] hay[i] != needle[0] || (
            needle.len() >= 2 && hay[i + 1] != needle[1]),
    ensures
        !contains(hay, needle),
{
    assert forall|i: int| !occurs_at(hay, needle, i) by {
        if occurs_at(hay, needle, i) {
            lemma_occurrence_char(hay, needle, i, 0);
            if needle.len() >= 2 {
                lemma_occurrence_char(hay, needle, i, 1);
            }
        }
    }
}

/// A pattern whose characters stand in `hay` from position `at` on occurs in `hay`.
pub proof fn lemma_present(hay: Seq<char>, needle: Seq<char>, at: int)
    requires
        0 <= at,
        at + needle.len() <= hay.len(),
        forall|k: int| 0 <= k < needle.len() ==> hay[at + k] == #[trigger] needle[k],
    ensures
        contains(hay, needle),
{
    assert(hay.subrange(at, at + needle.len()) =~= needle);
    assert(occurs_at(hay, needle, at));
}

/// Every alias has one of a few lengths; the only one of twelve characters
/// begins with `Z`.
proof fn lemma_alias_shape(upper: Seq<char>)
    requires
        alias_of(upper) is Some,
    ensures
        upper.len() == 3 || upper.len() == 4 || upper.len() == 5 || upper.len() == 9
            || upper.len() == 11 || upper.len() == 13 || upper.len() == 15 || upper.len() == 43
            || (upper.len() == 12 && upper[0] == 'Z'),
{
    reveal_strlit("MIT");
    reveal_strlit("MIT LICENSE");
    reveal_strlit("ISC");
    reveal_strlit("ISC LICENSE");
    reveal_strlit("0BSD");
    reveal_strlit("BSD-ZERO-CLAUSE");
    reveal_strlit("BSD ZERO CLAUSE");
    reveal_strlit("UNLICENSE");
    reveal_strlit("THE UNLICENSE");
    reveal_strlit("WTFPL");
    reveal_strlit("DO WHAT THE FUCK YOU WANT TO PUBLIC LICENSE");
    reveal_strlit("ZLIB");
    reveal_strlit("ZLIB LICENSE");
    assert("MIT"@.len() == 3);
    assert("MIT LICENSE"@.len() == 11);
    assert("ISC"@.len() == 3);
    assert("ISC LICENSE"@.len() == 11);
    assert("0BSD"@.len() == 4);
    assert("BSD-ZERO-CLAUSE"@.len() == 15);
    assert("BSD ZERO CLAUSE"@.len() == 15);
    assert("UNLICENSE"@.len() == 9);
    assert("THE UNLICENSE"@.len() == 13);
    assert("WTFPL"@.len() == 5);
    assert("DO WHAT THE FUCK YOU WANT TO PUBLIC LICENSE"@.len() == 43);
    assert("ZLIB"@.len() == 4);
    assert("ZLIB LICENSE"@.len() == 12);
    assert("ZLIB LICENSE"@[0] == 'Z');
}

/// The six short aliases are recognised as themselves.
proof fn lemma_alias_table()
    ensures
        alias_of("MIT"@) == Some("MIT"@),
        alias_of("ISC"@) == Some("ISC"@),
        alias_of("0BSD"@) == Some("0BSD"@),
        alias_of("UNLICENSE"@) == Some("Unlicense"@),
        alias_of("WTFPL"@) == Some("WTFPL"@),
        alias_of("ZLIB"@) == Some("Zlib"@),
{
    reveal_strlit("MIT");
    reveal_strlit("MIT LICENSE");
    reveal_strlit("ISC");
    reveal_strlit("ISC LICENSE");
    reveal_strlit("0BSD");
    reveal_strlit("BSD-ZERO-CLAUSE");
    reveal_strlit("BSD ZERO CLAUSE");
    reveal_strlit("UNLICENSE");
    reveal_strlit("THE UNLICENSE");
    reveal_strlit("WTFPL");
    reveal_strlit("DO WHAT THE FUCK YOU WANT TO PUBLIC LICENSE");
    reveal_strlit("ZLIB");
    assert("MIT"@.len() == 3 && "MIT"@[0] == 'M');
    assert("MIT LICENSE"@.len() == 11);
    assert("ISC"@.len() == 3 && "ISC"@[0] == 'I');
    assert("ISC LICENSE"@.len() == 11);
    assert("0BSD"@.len() == 4 && "0BSD"@[0] == '0');
    assert("BSD-ZERO-CLAUSE"@.len() == 15);
    assert("BSD ZERO CLAUSE"@.len() == 15);
    assert("UNLICENSE"@.len() == 9);
    assert("THE UNLICENSE"@.len() == 13);
    assert("WTFPL"@.len() == 5);
    assert("DO WHAT THE FUCK YOU WANT TO PUBLIC LICENSE"@.len() == 43);
    assert("ZLIB"@.len() == 4 && "ZLIB"@[0] == 'Z');
}

/// An identifier of ASCII characters without white space at either end, whose
/// upper-case spelling is recognised as that identifier, is a fixed point.
proof fn lemma_fixed_point(id: Seq<char>, upper: Seq<char>)
    requires
        id.len() > 0,
        id.len() == upper.len(),
        forall|i: int|
            0 <= i < id.len() ==> #[trigger] id[i] <= '\u{7f}' && !is_space(id[i]) && upper[i]
                == ascii_upper(id[i]),
        canonical_of(upper) == Some(id),
    ensures
        normalized(id) == id,
{
    lemma_trimmed_fixed(id);
    assert(is_ascii(id));
    assert(uppercase(id) =~= upper);
}

proof fn lemma_aliases_fixed()
    ensures
        normalized("MIT"@) == "MIT"@,
        normalized("ISC"@) == "ISC"@,
        normalized("0BSD"@) == "0BSD"@,
        normalized("Unlicense"@) == "Unlicense"@,
        normalized("WTFPL"@) == "WTFPL"@,
        normalized("Zlib"@) == "Zlib"@,
{
    lemma_alias_table();
    reveal_strlit("MIT");
    reveal_strlit("ISC");
    reveal_strlit("0BSD");
    reveal_strlit("WTFPL");
    reveal_strlit("Unlicense");
    reveal_strlit("UNLICENSE");
    reveal_strlit("Zlib");
    reveal_strlit("ZLIB");
    lemma_fixed_point("MIT"@, "MIT"@);
    lemma_fixed_point("ISC"@, "ISC"@);
    lemma_fixed_point("0BSD"@, "0BSD"@);
    lemma_fixed_point("Unlicense"@, "UNLICENSE"@);
    lemma_fixed_point("WTFPL"@, "WTFPL"@);
    lemma_fixed_point("Zlib"@, "ZLIB"@);
}

proof fn lemma_apache_fixed()
    ensures
        normalized("Apache-2.0"@) == "Apache-2.0"@,
{
    reveal_strlit("Apache-2.0");
    reveal_strlit("APACHE-2.0");
    reveal_strlit("APACHE");
    reveal_strlit("2.0");
    let upper = "APACHE-2.0"@;
    if alias_of(upper) is Some {
        lemma_alias_shape(upper);
    }
    lemma_present(upper, "APACHE"@, 0);
    lemma_present(upper, "2.0"@, 7);
    lemma_fixed_point("Apache-2.0"@, upper);
}

proof fn lemma_gpl3_fixed()
    ensures
        normalized("GPL-3.0"@) == "GPL-3.0"@,
{
    reveal_strlit("GPL-3.0");
    reveal_strlit("APACHE");
    reveal_strlit("GPL");
    reveal_strlit("LGPL");
    reveal_strlit("3");
    let upper = "GPL-3.0"@;
    if alias_of(upper) is Some {
        lemma_alias_shape(upper);
    }
    lemma_absent(upper, "APACHE"@);
    lemma_absent(upper, "LGPL"@);
    lemma_present(upper, "GPL"@, 0);
    lemma_present(upper, "3"@, 4);
    lemma_fixed_point(upper, upper);
}

proof fn lemma_gpl2_fixed()
    ensures
        normalized("GPL-2.0"@) == "GPL-2.0"@,
{
    reveal_strlit("GPL-2.0");
    reveal_strlit("APACHE");
    reveal_strlit("GPL");
    reveal_strlit("LGPL");
    reveal_strlit("3");
    reveal_strlit("2");
    let upper = "GPL-2.0"@;
    if alias_of(upper) is Some {
        lemma_alias_shape(upper);
    }
    lemma_absent(upper, "APACHE"@);
    lemma_absent(upper, "LGPL"@);
    lemma_absent(upper, "3"@);
    lemma_present(upper, "GPL"@, 0);
    lemma_present(upper, "2"@, 4);
    lemma_fixed_point(upper, upper);
}

proof fn lemma_lgpl3_fixed()
    ensures
        normalized("LGPL-3.0"@) == "LGPL-3.0"@,
{
    reveal_strlit("LGPL-3.0");
    reveal_strlit("APACHE");
    reveal_strlit("LGPL");
    reveal_strlit("3");
    let upper = "LGPL-3.0"@;
    if alias_of(upper) is Some {
        lemma_alias_shape(upper);
    }
    lemma_absent(upper, "APACHE"@);
    lemma_present(upper, "LGPL"@, 0);
    lemma_present(upper, "3"@, 5);
    lemma_fixed_point(upper, upper);
}

proof fn lemma_lgpl21_fixed()
    ensures
        normalized("LGPL-2.1"@) == "LGPL-2.1"@,
{
    reveal_strlit("LGPL-2.1");
    reveal_strlit("APACHE");
    reveal_strlit("LGPL");
    reveal_strlit("3");
    reveal_strlit("2.1");
    let upper = "LGPL-2.1"@;
    if alias_of(upper) is Some {
        lemma_alias_shape(upper);
    }
    lemma_absent(upper, "APACHE"@);
    lemma_absent(upper, "3"@);
    lemma_present(upper, "LGPL"@, 0);
    lemma_present(upper, "2.1"@, 5);
    lemma_fixed_point(upper, upper);
}

proof fn lemma_mpl_fixed()
    ensures
        normalized("MPL-2.0"@) == "MPL-2.0"@,
{
    reveal_strlit("MPL-2.0");
    reveal_strlit("APACHE");
    reveal_strlit("GPL");
    reveal_strlit("LGPL");
    reveal_strlit("MPL");
    reveal_strlit("2.0");
    let upper = "MPL-2.0"@;
    if alias_of(upper) is Some {
        lemma_alias_shape(upper);
    }
    lemma_absent(upper, "APACHE"@);
    lemma_absent(upper, "GPL"@);
    lemma_absent(upper, "LGPL"@);
    lemma_present(upper, "MPL"@, 0);
    lemma_present(upper, "2.0"@, 4);
    lemma_fixed_point(upper, upper);
}

proof fn lemma_bsd3_fixed()
    ensures
        normalized("BSD-3-Clause"@) == "BSD-3-Clause"@,
{
    reveal_strlit("BSD-3-Clause");
    reveal_strlit("BSD-3-CLAUSE");
    reveal_strlit("APACHE");
    reveal_strlit("GPL");
    reveal_strlit("LGPL");
    reveal_strlit("MPL");
    reveal_strlit("BSD");
    reveal_strlit("3");
    let upper = "BSD-3-CLAUSE"@;
    if alias_of(upper) is Some {
        lemma_alias_shape(upper);
    }
    lemma_absent(upper, "APACHE"@);
    lemma_absent(upper, "GPL"@);
    lemma_absent(upper, "LGPL"@);
    lemma_absent(upper, "MPL"@);
    lemma_present(upper, "BSD"@, 0);
    lemma_present(upper, "3"@, 4);
    lemma_fixed_point("BSD-3-Clause"@, upper);
}

proof fn lemma_bsd2_fixed()
    ensures
        normalized("BSD-2-Clause"@) == "BSD-2-Clause"@,
{
    reveal_strlit("BSD-2-Clause");
    reveal_strlit("BSD-2-CLAUSE");
    reveal_strlit("APACHE");
    reveal_strlit("GPL");
    reveal_strlit("LGPL");
    reveal_strlit("MPL");
    reveal_strlit("BSD");
    reveal_strlit("3");
    reveal_strlit("THREE");
    reveal_strlit("2");
    let upper = "BSD-2-CLAUSE"@;
    if alias_of(upper) is Some {
        lemma_alias_shape(upper);
    }
    lemma_absent(upper, "APACHE"@);
    lemma_absent(upper, "GPL"@);
    lemma_absent(upper, "LGPL"@);
    lemma_absent(upper, "MPL"@);
    lemma_absent(upper, "3"@);
    lemma_absent(upper, "THREE"@);
    lemma_present(upper, "BSD"@, 0);
    lemma_present(upper, "2"@, 4);
    lemma_fixed_point("BSD-2-Clause"@, upper);
}

/// Recognised spellings are mapped to canonical identifiers, and to nothing else.
pub proof fn lemma_normalized_is_canonical_or_raw(raw: Seq<char>)
    ensures
        is_canonical_id(normalized(raw)) || normalized(raw) == raw,
{
}

/// Every canonical identifier is normalized to itself.
pub proof fn lemma_canonical_ids_are_fixed(id: Seq<char>)
    requires
        is_canonical_id(id),
    ensures
        normalized(id) == id,
{
    lemma_aliases_fixed();
    lemma_apache_fixed();
    lemma_gpl3_fixed();
    lemma_gpl2_fixed();
    lemma_lgpl3_fixed();
    lemma_lgpl21_fixed();
    lemma_mpl_fixed();
    lemma_bsd3_fixed();
    lemma_bsd2_fixed();
}

/// Normalizing is idempotent: a normalized identifier is normalized to itself,
/// whatever the raw string was.
pub proof fn lemma_normalize_idempotent(raw: Seq<char>)
    ensures
        normalized(normalized(raw)) == normalized(raw),
{
    lemma_normalized_is_canonical_or_raw(raw);
    if is_canonical_id(normalized(raw)) {
        lemma_canonical_ids_are_fixed(normalized(raw));
    }
}

/// The sentinel `No License` is restrictive whatever the taxonomy and the
/// configured patterns; a license that was not declared at all never is.
pub proof fn lemma_sentinel_and_undeclared(known: Map<Seq<char>, License>, patterns: Seq<String>)
    ensures
        restrictive(Some("No License"@), known, patterns),
        !restrictive(None, known, patterns),
{
}

/// The verdict is `Unknown` exactly when the compatibility relation has no row
/// for the project's license; with a row, it is `Compatible` or `Incompatible`
/// as the row lists the dependency's license or does not.
pub proof fn lemma_unknown_iff_unlisted(dependency: Seq<char>, project: Seq<char>)
    ensures
        compatibility_of(dependency, project) == LicenseCompatibility::Unknown
            <==> allowed_dependencies(normalized(project)) is None,
        compatibility_of(dependency, project) == LicenseCompatibility::Compatible
            <==> allowed_dependencies(normalized(project)) is Some && allowed_dependencies(
            normalized(project),
        )->0.contains(normalized(dependency)),
{
}

/// The verdict depends on the two licenses only through their canonical forms.
pub proof fn lemma_verdict_of_normalized(dependency: Seq<char>, project: Seq<char>)
    ensures
        compatibility_of(normalized(dependency), normalized(project)) == compatibility_of(
            dependency,
            project,
        ),
{
    lemma_normalize_idempotent(dependency);
    lemma_normalize_idempotent(project);
}

} // verus!
