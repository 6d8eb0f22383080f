use feluda::order::{order_of_texts, Order};
use feluda::text::{
    chars_eq, chars_eq_str, chars_of, contains_chars, contains_str, find, find_char, find_from,
    first_word_of, occurs_here, push_chars, push_decimal, push_str, slice_chars, split_lines,
    starts_with_str, trim,
};

fn chars(s: &str) -> Vec<char> {
    s.chars().collect()
}

fn text(v: &[char]) -> String {
    v.iter().collect()
}

#[test]
fn characters_of_a_string_and_back() {
    assert_eq!(chars_of("añ🎉"), vec!['a', 'ñ', '🎉']);
    assert_eq!(chars_of(""), Vec::<char>::new());
    assert!(chars_eq(&chars("abc"), &chars("abc")));
    assert!(!chars_eq(&chars("abc"), &chars("abd")));
    assert!(!chars_eq(&chars("abc"), &chars("ab")));
    assert!(chars_eq_str(&chars("é"), "é"));
    assert!(!chars_eq_str(&chars("e"), "é"));
}

#[test]
fn search_agrees_with_the_standard_library() {
    let hays = ["", "a", "abcabc", "aaa", "LGPL-2.1", "ñandú ñ", "xyz"];
    let needles = ["", "a", "abc", "bc", "aa", "GPL", "ñ", "z", "abcabcd"];
    for hay in hays {
        for needle in needles {
            let h = chars(hay);
            let n = chars(needle);
            assert_eq!(contains_chars(&h, &n), hay.contains(needle), "{hay:?} {needle:?}");
            assert_eq!(contains_str(&h, needle), hay.contains(needle));
            let expected = hay.find(needle).map(|b| hay[..b].chars().count());
            assert_eq!(find(&h, &n), expected);
            assert_eq!(starts_with_str(&h, needle), hay.starts_with(needle));
        }
    }
    assert_eq!(find_from(&chars("abcabc"), &chars("bc"), 2), Some(4));
    assert_eq!(find_from(&chars("abcabc"), &chars("bc"), 5), None);
    assert_eq!(find_from(&chars("abc"), &chars(""), 3), Some(3));
    assert_eq!(find_from(&chars("abc"), &chars(""), 4), None);
    assert!(occurs_here(&chars("abc"), &chars("bc"), 1));
    assert!(!occurs_here(&chars("abc"), &chars("bc"), 2));
    assert!(!occurs_here(&chars("abc"), &chars(""), 4));
    assert_eq!(find_char(&chars("a/b/c"), '/', 0), 1);
    assert_eq!(find_char(&chars("a/b/c"), '/', 2), 3);
    assert_eq!(find_char(&chars("a/b/c"), '@', 0), 5);
}

#[test]
fn trim_agrees_with_the_standard_library() {
    for s in ["", " ", "  a  ", "\t\n x y \r\n", "\u{a0}x\u{2003}", "\u{b}v\u{c}", "a", " \u{85}é ", "\u{200b}z"] {
        assert_eq!(text(&trim(&chars(s))), s.trim(), "{s:?}");
    }
}

#[test]
fn lines_agree_with_the_standard_library() {
    for s in ["", "a", "a\n", "a\nb", "a\r\nb\r\n", "\n", "\n\n", "a\r", "a\r\n\rb", "\r\n", "x\n\r\ny\r"] {
        let ours: Vec<String> = split_lines(&chars(s)).iter().map(|l| text(l)).collect();
        let theirs: Vec<String> = s.lines().map(|l| l.to_string()).collect();
        assert_eq!(ours, theirs, "{s:?}");
    }
}

#[test]
fn first_word_agrees_with_the_standard_library() {
    for s in ["", "  ", "a", " ab  cd", "\tx\ny", "1.70 REQUIRED", "\u{a0}w\u{a0}v"] {
        assert_eq!(
            text(&first_word_of(&chars(s))),
            s.split_whitespace().next().unwrap_or(""),
            "{s:?}"
        );
    }
}

#[test]
fn building_texts() {
    let mut out = chars("n=");
    push_decimal(&mut out, 0);
    push_str(&mut out, ", ");
    push_decimal(&mut out, 9);
    push_chars(&mut out, &chars(", "));
    push_decimal(&mut out, 10);
    push_str(&mut out, ", ");
    push_decimal(&mut out, u128::MAX);
    assert_eq!(text(&out), format!("n=0, 9, 10, {}", u128::MAX));
    assert_eq!(text(&slice_chars(&chars("abcdef"), 2, 4)), "cd");
    assert_eq!(text(&slice_chars(&chars("abcdef"), 3, 3)), "");
}

#[test]
fn order_of_texts_agrees_with_the_standard_library() {
    let samples = ["", "a", "b", "ab", "abc", "abd", "B", "é", "z", "10", "9", "🎉"];
    for a in samples {
        for b in samples {
            let expected = match a.cmp(b) {
                std::cmp::Ordering::Less => Order::Before,
                std::cmp::Ordering::Equal => Order::Same,
                std::cmp::Ordering::Greater => Order::After,
            };
            assert_eq!(order_of_texts(&chars(a), &chars(b)), expected, "{a:?} {b:?}");
            assert_eq!(order_of_texts(&chars(b), &chars(a)), expected.reverse());
            assert_eq!(expected.orient(false), expected.reverse());
            assert_eq!(expected.orient(true), expected);
        }
    }
}
