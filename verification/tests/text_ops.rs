use bewegung::text::{
    chars_of, join_chars, replace_all, split_chars, split_once_chars, strip_prefix_chars,
    trim_chars, chars_blank, string_of,
};

fn s(v: &[char]) -> String {
    v.iter().collect()
}

#[test]
fn replace_all_agrees_with_str_replace() {
    let cases: Vec<(&str, &str, &str)> = vec![
        ("", "", "x"),
        ("ab", "", "x"),
        ("aaa", "aa", "b"),
        ("a1=1b1=1", "1=1", "X"),
        ("/* c */ q", "/*", ""),
        ("it's", "'", "''"),
        ("''", "''", "'"),
        ("héllo wörld", "ö", "oe"),
        ("abc", "abcd", "z"),
        ("abcabc", "abc", ""),
    ];
    for (a, p, r) in cases {
        assert_eq!(replace_all(a, p, r), a.replace(p, r), "{a:?} {p:?} {r:?}");
    }
}

#[test]
fn split_agrees_with_str_split() {
    for (a, c) in [("", ','), (",", ','), ("a,b", ','), ("a,,b,", ','), ("abc", ';'), ("ä;ö", ';')] {
        let got: Vec<String> = split_chars(&chars_of(a), c).iter().map(|v| s(v)).collect();
        let want: Vec<String> = a.split(c).map(|x| x.to_string()).collect();
        assert_eq!(got, want);
    }
}

#[test]
fn split_once_agrees_with_splitn() {
    for a in ["", ":", "a", "a:b", "a:b:c", "::x"] {
        let (x, y) = split_once_chars(&chars_of(a), ':');
        let mut it = a.splitn(2, ':');
        assert_eq!(Some(s(&x)), it.next().map(|t| t.to_string()));
        assert_eq!(y.map(|v| s(&v)), it.next().map(|t| t.to_string()));
    }
}

#[test]
fn join_prefix_trim_and_blank() {
    let parts = vec![chars_of("a"), chars_of(""), chars_of("b")];
    assert_eq!(s(&join_chars(&parts, &chars_of(", "))), "a, , b");
    assert_eq!(strip_prefix_chars(&chars_of("trip:42"), &chars_of("trip:")).map(|v| s(&v)), Some("42".to_string()));
    assert_eq!(strip_prefix_chars(&chars_of("tri"), &chars_of("trip:")), None);
    for a in ["", "  ", " a b \t\n", "\u{3000}x\u{a0}", "x"] {
        assert_eq!(s(&trim_chars(&chars_of(a))), a.trim());
        assert_eq!(chars_blank(&chars_of(a)), a.trim().is_empty());
    }
    assert_eq!(string_of(&['h', 'i']), "hi");
}
