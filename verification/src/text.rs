//! Character-sequence vocabulary shared by the whole crate: what it means for a
//! text to contain another, to be trimmed, to be upper-cased, and the executable
//! helpers that realise those notions on vectors of characters.
use vstd::prelude::*;

verus! {

/// Whether a character outside the ASCII range has the Unicode `White_Space` property.
pub uninterp spec fn unicode_white_space(c: char) -> bool;

/// The upper-case form that the standard library gives a text holding at least
/// one character outside the ASCII range.
pub uninterp spec fn unicode_uppercase(s: Seq<char>) -> Seq<char>;

/// `needle` occurs in `hay` starting at position `i`.
pub open spec fn occurs_at(hay: Seq<char>, needle: Seq<char>, i: int) -> bool {
    0 <= i && i + needle.len() <= hay.len() && hay.subrange(i, i + needle.len()) == needle
}

/// `needle` occurs in `hay` as a contiguous run of characters.
pub open spec fn contains(hay: Seq<char>, needle: Seq<char>) -> bool {
    exists|i: int| occurs_at(hay, needle, i)
}

/// `prefix` is an initial segment of `s`.
pub open spec fn starts_with(s: Seq<char>, prefix: Seq<char>) -> bool {
    occurs_at(s, prefix, 0)
}

/// Every character lies in the ASCII range.
pub open spec fn is_ascii(s: Seq<char>) -> bool {
    forall|i: int| 0 <= i < s.len() ==> #[trigger] s[i] <= '\u{7f}'
}

/// White space as `char::is_whitespace` defines it: within ASCII the space
/// and the controls from tab to carriage return, beyond ASCII the Unicode property.
pub open spec fn is_space(c: char) -> bool {
    if c <= '\u{7f}' {
        c == ' ' || ('\u{9}' <= c && c <= '\u{d}')
    } else {
        unicode_white_space(c)
    }
}

/// Upper-case form of one ASCII character; other characters are left alone.
pub open spec fn ascii_upper(c: char) -> char {
    if 'a' <= c && c <= 'z' {
        ((c as u32) - 32) as char
    } else {
        c
    }
}

/// Upper-case form of a text: character by character within ASCII, and what
/// Unicode prescribes as soon as one character lies outside it.
pub open spec fn uppercase(s: Seq<char>) -> Seq<char> {
    if is_ascii(s) {
        Seq::new(s.len(), |i: int| ascii_upper(s[i]))
    } else {
        unicode_uppercase(s)
    }
}

/// Number of white-space characters at the front of `s`.
pub open spec fn leading_spaces(s: Seq<char>) -> nat
    decreases s.len(),
{
    if s.len() > 0 && is_space(s[0]) {
        1 + leading_spaces(s.drop_first())
    } else {
        0
    }
}

/// Number of white-space characters at the back of `s`.
pub open spec fn trailing_spaces(s: Seq<char>) -> nat
    decreases s.len(),
{
    if s.len() > 0 && is_space(s.last()) {
        1 + trailing_spaces(s.drop_last())
    } else {
        0
    }
}

/// `s` without its leading and trailing white space.
pub open spec fn trimmed(s: Seq<char>) -> Seq<char> {
    let front = leading_spaces(s);
    if front >= s.len() {
        Seq::empty()
    } else {
        s.subrange(front as int, s.len() - trailing_spaces(s))
    }
}

/// `char::is_whitespace`: within ASCII true of the space and of the controls
/// from tab to carriage return only; beyond ASCII the answer is only named.
#[verifier::external_body]
pub(crate) fn char_is_whitespace(c: char) -> (white: bool)
    ensures
        white == is_space(c),
        c > '\u{7f}' ==> white == unicode_white_space(c),
{
    c.is_whitespace()
}

/// `str::to_uppercase`: on ASCII text each lower-case letter is replaced by its
/// capital and nothing else changes; on other text the result is only named.
#[verifier::external_body]
pub(crate) fn str_to_uppercase(s: &str) -> (u: String)
    ensures
        u@ == uppercase(s@),
        !is_ascii(s@) ==> u@ == unicode_uppercase(s@),
{
    s.to_uppercase()
}

/// `String::from_iter` over characters: the string that holds exactly these characters.
#[verifier::external_body]
pub(crate) fn string_from_chars(chars: &Vec<char>) -> (s: String)
    ensures
        s@ == chars@,
{
    chars.iter().collect()
}

/// The characters of a string, in order.
pub fn chars_of(s: &str) -> (chars: Vec<char>)
    ensures
        chars@ == s@,
{
    let mut chars: Vec<char> = Vec::new();
    for c in it: s.chars()
        invariant
            it.seq() == s@,
            chars@ == s@.take(it.index() as int),
    {
        chars.push(c);
    }
    chars
}

/// The upper-case form of a text.
pub fn to_uppercase(s: &Vec<char>) -> (u: Vec<char>)
    ensures
        u@ == uppercase(s@),
{
    let text = string_from_chars(s);
    let upper = str_to_uppercase(text.as_str());
    chars_of(upper.as_str())
}

/// Whether two texts hold the same characters.
pub fn chars_eq(a: &Vec<char>, b: &Vec<char>) -> (same: bool)
    ensures
        same == (a@ == b@),
{
    if a.len() != b.len() {
        return false;
    }
    let mut i: usize = 0;
    while i < a.len()
        invariant
            a.len() == b.len(),
            i <= a.len(),
            a@.take(i as int) == b@.take(i as int),
        decreases a.len() - i,
    {
        if a[i] != b[i] {
            return false;
        }
        assert(a@.take(i + 1) =~= a@.take(i as int).push(a@[i as int]));
        assert(b@.take(i + 1) =~= b@.take(i as int).push(b@[i as int]));
        i += 1;
    }
    assert(a@ =~= a@.take(i as int));
    assert(b@ =~= b@.take(i as int));
    true
}

/// Whether a string holds exactly the characters of `chars`.
pub fn chars_eq_str(chars: &Vec<char>, s: &str) -> (same: bool)
    ensures
        same == (chars@ == s@),
{
    let other = chars_of(s);
    chars_eq(chars, &other)
}

/// Whether `needle` occurs in `hay` at position `at`.
pub fn occurs_here(hay: &Vec<char>, needle: &Vec<char>, at: usize) -> (here: bool)
    ensures
        here == occurs_at(hay@, needle@, at as int),
{
    if at > hay.len() || needle.len() > hay.len() - at {
        return false;
    }
    let mut k: usize = 0;
    while k < needle.len()
        invariant
            at + needle.len() <= hay.len(),
            k <= needle.len(),
            hay@.subrange(at as int, at + k) == needle@.take(k as int),
        decreases needle.len() - k,
    {
        if hay[at + k] != needle[k] {
            assert(hay@.subrange(at as int, at + needle.len())[k as int] != needle@[k as int]);
            return false;
        }
        assert(hay@.subrange(at as int, at + k + 1) =~= hay@.subrange(at as int, at + k).push(
            hay@[at + k],
        ));
        assert(needle@.take(k + 1) =~= needle@.take(k as int).push(needle@[k as int]));
        k += 1;
    }
    assert(needle@ =~= needle@.take(k as int));
    true
}

/// Position of the first occurrence of `needle` in `hay` at or after `from`.
pub fn find_from(hay: &Vec<char>, needle: &Vec<char>, from: usize) -> (found: Option<usize>)
    ensures
        match found {
            Some(i) => from <= i && occurs_at(hay@, needle@, i as int) && forall|j: int|
                from <= j < i ==> !occurs_at(hay@, needle@, j),
            None => forall|j: int| from <= j ==> !occurs_at(hay@, needle@, j),
        },
{
    let mut i: usize = from;
    while i < hay.len()
        invariant
            from <= i,
            forall|j: int| from <= j < i ==> !occurs_at(hay@, needle@, j),
        decreases hay.len() - i,
    {
        if occurs_here(hay, needle, i) {
            return Some(i);
        }
        i += 1;
    }
    if i == hay.len() && occurs_here(hay, needle, i) {
        Some(i)
    } else {
        None
    }
}

/// Position of the first occurrence of `needle` in `hay`.
pub fn find(hay: &Vec<char>, needle: &Vec<char>) -> (found: Option<usize>)
    ensures
        found is Some == contains(hay@, needle@),
        match found {
            Some(i) => occurs_at(hay@, needle@, i as int) && forall|j: int|
                0 <= j < i ==> !occurs_at(hay@, needle@, j),
            None => true,
        },
{
    find_from(hay, needle, 0)
}

/// Whether `needle` occurs somewhere in `hay`.
pub fn contains_chars(hay: &Vec<char>, needle: &Vec<char>) -> (found: bool)
    ensures
        found == contains(hay@, needle@),
{
    find(hay, needle).is_some()
}

/// Whether the text `needle` occurs somewhere in `hay`.
pub fn contains_str(hay: &Vec<char>, needle: &str) -> (found: bool)
    ensures
        found == contains(hay@, needle@),
{
    let pattern = chars_of(needle);
    contains_chars(hay, &pattern)
}

/// The characters of `s` from position `from` up to, not including, position `to`.
pub fn slice_chars(s: &Vec<char>, from: usize, to: usize) -> (part: Vec<char>)
    requires
        from <= to <= s.len(),
    ensures
        part@ == s@.subrange(from as int, to as int),
{
    let mut part: Vec<char> = Vec::new();
    let mut i: usize = from;
    while i < to
        invariant
            from <= i <= to <= s.len(),
            part@ == s@.subrange(from as int, i as int),
        decreases to - i,
    {
        part.push(s[i]);
        assert(s@.subrange(from as int, i + 1) =~= s@.subrange(from as int, i as int).push(
            s@[i as int],
        ));
        i += 1;
    }
    part
}

/// Dropping `k` leading white-space characters one at a time is dropping them at once.
pub proof fn lemma_leading_spaces(s: Seq<char>, k: int)
    requires
        0 <= k <= s.len(),
        forall|j: int| 0 <= j < k ==> is_space(#[trigger] s[j]),
        k == s.len() || !is_space(s[k]),
    ensures
        leading_spaces(s) == k,
    decreases k,
{
    if k > 0 {
        let rest = s.drop_first();
        assert forall|j: int| 0 <= j < k - 1 implies is_space(#[trigger] rest[j]) by {
            assert(rest[j] == s[j + 1]);
        }
        lemma_leading_spaces(rest, k - 1);
    }
}

/// The mirror image of `lemma_leading_spaces` for the back of the text.
pub proof fn lemma_trailing_spaces(s: Seq<char>, k: int)
    requires
        0 <= k <= s.len(),
        forall|j: int| s.len() - k <= j < s.len() ==> is_space(#[trigger] s[j]),
        k == s.len() || !is_space(s[s.len() - k - 1]),
    ensures
        trailing_spaces(s) == k,
    decreases k,
{
    if k > 0 {
        let rest = s.drop_last();
        assert forall|j: int| rest.len() - (k - 1) <= j < rest.len() implies is_space(
            #[trigger] rest[j],
        ) by {
            assert(rest[j] == s[j]);
        }
        lemma_trailing_spaces(rest, k - 1);
    }
}

/// `s` without its leading and trailing white space.
pub fn trim(s: &Vec<char>) -> (t: Vec<char>)
    ensures
        t@ == trimmed(s@),
{
    let mut front: usize = 0;
    while front < s.len() && char_is_whitespace(s[front])
        invariant
            front <= s.len(),
            forall|j: int| 0 <= j < front ==> is_space(#[trigger] s@[j]),
        decreases s.len() - front,
    {
        front += 1;
    }
    proof {
        lemma_leading_spaces(s@, front as int);
    }
    if front == s.len() {
        return Vec::new();
    }
    let mut back: usize = s.len();
    while back > front && char_is_whitespace(s[back - 1])
        invariant
            front <= back <= s.len(),
            front < s.len(),
            !is_space(s@[front as int]),
            forall|j: int| back <= j < s.len() ==> is_space(#[trigger] s@[j]),
        decreases back,
    {
        back -= 1;
    }
    proof {
        lemma_trailing_spaces(s@, s.len() - back);
    }
    slice_chars(s, front, back)
}

/// The character sequences of a list of strings.
pub open spec fn texts(strings: Seq<String>) -> Seq<Seq<char>> {
    Seq::new(strings.len(), |i: int| strings[i]@)
}

/// The character that writes the decimal digit `d`.
pub open spec fn digit_char(d: int) -> char
    recommends
        0 <= d < 10,
{
    ((d + 48) as u8) as char
}

/// The decimal numeral of `n`, without sign or leading zeros.
pub open spec fn decimal(n: nat) -> Seq<char>
    decreases n,
{
    if n < 10 {
        seq![digit_char(n as int)]
    } else {
        decimal(n / 10).push(digit_char((n % 10) as int))
    }
}

/// Appends the characters of `s` to `text`.
pub fn push_str(text: &mut Vec<char>, s: &str)
    ensures
        final(text)@ == old(text)@ + s@,
{
    let extra = chars_of(s);
    push_chars(text, &extra);
}

/// Appends `extra` to `text`.
pub fn push_chars(text: &mut Vec<char>, extra: &Vec<char>)
    ensures
        final(text)@ == old(text)@ + extra@,
{
    let mut i: usize = 0;
    while i < extra.len()
        invariant
            i <= extra.len(),
            text@ == old(text)@ + extra@.take(i as int),
        decreases extra.len() - i,
    {
        text.push(extra[i]);
        assert(extra@.take(i + 1) =~= extra@.take(i as int).push(extra@[i as int]));
        i += 1;
    }
    assert(extra@.take(i as int) =~= extra@);
}

/// Appends the decimal numeral of `n` to `text`.
pub fn push_decimal(text: &mut Vec<char>, n: u128)
    ensures
        final(text)@ == old(text)@ + decimal(n as nat),
    decreases n,
{
    if n >= 10 {
        push_decimal(text, n / 10);
    }
    let digit: u8 = (n % 10) as u8;
    text.push((digit + 48) as char);
    assert(text@ =~= old(text)@ + decimal(n as nat));
}

/// Position of the first `c` in `s` at or after `from`, and the length of `s`
/// where there is none.
pub open spec fn position_of(s: Seq<char>, c: char, from: int) -> int
    decreases s.len() - from,
{
    if from < 0 || from >= s.len() {
        s.len() as int
    } else if s[from] == c {
        from
    } else {
        position_of(s, c, from + 1)
    }
}

/// The part of `s` before the first `c`; all of `s` where there is no `c`.
pub open spec fn before_char(s: Seq<char>, c: char) -> Seq<char> {
    s.take(position_of(s, c, 0))
}

/// The part of `s` behind the first `c`; nothing where there is no `c`.
pub open spec fn after_char(s: Seq<char>, c: char) -> Seq<char> {
    if position_of(s, c, 0) < s.len() {
        s.skip(position_of(s, c, 0) + 1)
    } else {
        Seq::empty()
    }
}

/// The position of a character lies between the start of the search and the
/// end of the text, and no such character stands before it.
pub proof fn lemma_position_of(s: Seq<char>, c: char, from: int)
    requires
        0 <= from <= s.len(),
    ensures
        from <= position_of(s, c, from) <= s.len(),
        position_of(s, c, from) < s.len() ==> s[position_of(s, c, from)] == c,
        forall|i: int| from <= i < position_of(s, c, from) ==> s[i] != c,
    decreases s.len() - from,
{
    if from < s.len() && s[from] != c {
        lemma_position_of(s, c, from + 1);
    }
}

/// Position of the first `c` in `s` at or after `from`; the length of `s`
/// where there is none.
pub fn find_char(s: &Vec<char>, c: char, from: usize) -> (at: usize)
    requires
        from <= s.len(),
    ensures
        at == position_of(s@, c, from as int),
        from <= at <= s.len(),
{
    let mut at: usize = from;
    while at < s.len() && s[at] != c
        invariant
            from <= at <= s.len(),
            position_of(s@, c, from as int) == position_of(s@, c, at as int),
        decreases s.len() - at,
    {
        at += 1;
    }
    at
}

/// The lines of `s` from position `from` on. A line ends at a line feed, or at
/// the end of the text; the line feed does not belong to the line, nor does a
/// carriage return that stands right before it. What follows the last line
/// feed is a line only if it is not empty.
pub open spec fn lines_from(s: Seq<char>, from: int) -> Seq<Seq<char>>
    decreases s.len() - from,
{
    if from < 0 || from >= s.len() {
        Seq::empty()
    } else {
        let end = position_of(s, '\n', from);
        if end < from || end >= s.len() {
            seq![s.subrange(from, s.len() as int)]
        } else if end > from && s[end - 1] == '\r' {
            seq![s.subrange(from, end - 1)] + lines_from(s, end + 1)
        } else {
            seq![s.subrange(from, end)] + lines_from(s, end + 1)
        }
    }
}

/// The lines of `s`.
pub open spec fn lines_of(s: Seq<char>) -> Seq<Seq<char>> {
    lines_from(s, 0)
}

/// The character sequences of a list of texts.
pub open spec fn char_lists(list: Seq<Vec<char>>) -> Seq<Seq<char>> {
    Seq::new(list.len(), |i: int| list[i]@)
}

/// Splits a text into its lines.
pub fn split_lines(s: &Vec<char>) -> (lines: Vec<Vec<char>>)
    ensures
        char_lists(lines@) == lines_of(s@),
{
    let mut lines: Vec<Vec<char>> = Vec::new();
    let mut from: usize = 0;
    assert(char_lists(lines@) + lines_from(s@, 0) =~= lines_of(s@));
    while from < s.len()
        invariant
            from <= s.len(),
            char_lists(lines@) + lines_from(s@, from as int) == lines_of(s@),
        decreases s.len() - from,
    {
        let ghost before = char_lists(lines@);
        let end = find_char(s, '\n', from);
        proof {
            lemma_position_of(s@, '\n', from as int);
        }
        if end >= s.len() {
            lines.push(slice_chars(s, from, s.len()));
            assert(char_lists(lines@) =~= before + seq![s@.subrange(from as int, s@.len() as int)]);
            assert(lines_from(s@, s@.len() as int) =~= Seq::<Seq<char>>::empty());
            from = s.len();
        } else {
            let stop = if end > from && s[end - 1] == '\r' {
                end - 1
            } else {
                end
            };
            lines.push(slice_chars(s, from, stop));
            assert(char_lists(lines@) =~= before + seq![s@.subrange(from as int, stop as int)]);
            assert(before + lines_from(s@, from as int) =~= char_lists(lines@) + lines_from(
                s@,
                end + 1,
            ));
            from = end + 1;
        }
    }
    assert(lines_from(s@, from as int) =~= Seq::<Seq<char>>::empty());
    assert(char_lists(lines@) + Seq::<Seq<char>>::empty() =~= char_lists(lines@));
    lines
}

/// Whether `s` begins with the text `prefix`.
pub fn starts_with_str(s: &Vec<char>, prefix: &str) -> (yes: bool)
    ensures
        yes == starts_with(s@, prefix@),
{
    let pattern = chars_of(prefix);
    occurs_here(s, &pattern, 0)
}

/// The first run of characters in `s` that holds no white space; nothing where
/// `s` is all white space.
pub open spec fn first_word(s: Seq<char>) -> Seq<char> {
    let start = leading_spaces(s) as int;
    s.subrange(start, word_end(s, start))
}

/// Where the run of characters without white space that begins at `from` ends.
pub open spec fn word_end(s: Seq<char>, from: int) -> int
    decreases s.len() - from,
{
    if from < 0 || from >= s.len() {
        s.len() as int
    } else if is_space(s[from]) {
        from
    } else {
        word_end(s, from + 1)
    }
}

/// The first run of characters in `s` that holds no white space.
pub fn first_word_of(s: &Vec<char>) -> (word: Vec<char>)
    ensures
        word@ == first_word(s@),
{
    let mut start: usize = 0;
    while start < s.len() && char_is_whitespace(s[start])
        invariant
            start <= s.len(),
            forall|j: int| 0 <= j < start ==> is_space(#[trigger] s@[j]),
        decreases s.len() - start,
    {
        start += 1;
    }
    proof {
        lemma_leading_spaces(s@, start as int);
    }
    let mut end: usize = start;
    while end < s.len() && !char_is_whitespace(s[end])
        invariant
            start <= end <= s.len(),
            word_end(s@, start as int) == word_end(s@, end as int),
        decreases s.len() - end,
    {
        end += 1;
    }
    slice_chars(s, start, end)
}

/// The number that the first `n` characters of `text` write in decimal digits;
/// nothing where one of them is no digit.
pub open spec fn digits_value(text: Seq<char>, n: int) -> Option<nat>
    decreases n,
{
    if n <= 0 || n > text.len() {
        Some(0)
    } else {
        match digits_value(text, n - 1) {
            Some(value) if '0' <= text[n - 1] && text[n - 1] <= '9' => Some(
                (value * 10 + (text[n - 1] as u32 - 48)) as nat,
            ),
            _ => None,
        }
    }
}

/// The number that `text` writes in decimal digits; nothing where it is empty
/// or holds anything but digits.
pub open spec fn decimal_value(text: Seq<char>) -> Option<nat> {
    if text.len() == 0 {
        None
    } else {
        digits_value(text, text.len() as int)
    }
}

/// Reads a number written in decimal digits, as far as sixty-four bits hold it.
pub fn parse_decimal(text: &str) -> (number: Option<u64>)
    ensures
        match number {
            Some(n) => decimal_value(text@) == Some(n as nat),
            None => decimal_value(text@) is None || decimal_value(text@)->0 > u64::MAX,
        },
{
    let chars = chars_of(text);
    if chars.len() == 0 {
        return None;
    }
    let mut value: u128 = 0;
    let mut i: usize = 0;
    while i < chars.len()
        invariant
            i <= chars.len(),
            chars@ == text@,
            value <= 0x1_0000_0000_0000_0000,
            digits_value(chars@, i as int) is Some,
            value < 0x1_0000_0000_0000_0000 ==> digits_value(chars@, i as int) == Some(
                value as nat,
            ),
            value == 0x1_0000_0000_0000_0000 ==> digits_value(chars@, i as int)->0 > u64::MAX,
        decreases chars.len() - i,
    {
        let c = chars[i];
        if !('0' <= c && c <= '9') {
            assert(digits_value(chars@, i + 1) is None);
            assert(decimal_value(text@) is None) by {
                lemma_digits_value_fails(chars@, i + 1, chars@.len() as int);
            }
            return None;
        }
        let digit: u128 = (c as u32 - 48) as u128;
        let next = value * 10 + digit;
        value = if next > 0xffff_ffff_ffff_ffff {
            0x1_0000_0000_0000_0000
        } else {
            next
        };
        i += 1;
    }
    if value > 0xffff_ffff_ffff_ffff {
        None
    } else {
        Some(value as u64)
    }
}

/// Once the digits fail to give a value, they fail for every longer prefix.
proof fn lemma_digits_value_fails(text: Seq<char>, m: int, n: int)
    requires
        0 <= m <= n <= text.len(),
        digits_value(text, m) is None,
    ensures
        digits_value(text, n) is None,
    decreases n - m,
{
    if m < n {
        lemma_digits_value_fails(text, m, n - 1);
    }
}

/// The digits that write a number give that number back.
pub proof fn lemma_decimal_value_of_decimal(n: nat)
    ensures
        decimal_value(decimal(n)) == Some(n),
        decimal(n).len() > 0,
        digits_value(decimal(n), decimal(n).len() as int) == Some(n),
    decreases n,
{
    if n < 10 {
        assert(decimal(n) =~= seq![digit_char(n as int)]);
        assert(digits_value(decimal(n), 0) == Some(0nat));
    } else {
        lemma_decimal_value_of_decimal(n / 10);
        let front = decimal(n / 10);
        let all = decimal(n);
        assert(all =~= front.push(digit_char((n % 10) as int)));
        lemma_digits_value_prefix(front, all, front.len() as int);
    }
}

/// The value of a prefix does not depend on what follows it.
proof fn lemma_digits_value_prefix(a: Seq<char>, b: Seq<char>, n: int)
    requires
        0 <= n <= a.len() <= b.len(),
        forall|i: int| 0 <= i < n ==> a[i] == b[i],
    ensures
        digits_value(a, n) == digits_value(b, n),
    decreases n,
{
    if n > 0 {
        lemma_digits_value_prefix(a, b, n - 1);
    }
}

} // verus!
