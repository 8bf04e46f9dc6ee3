use anomaly_launcher::text::{chars_of, has_prefix, has_suffix, is_whitespace, join_chars, split_lines, split_tokens, string_of};

fn cs(s: &str) -> Vec<char> {
    s.chars().collect()
}

fn strs(v: Vec<Vec<char>>) -> Vec<String> {
    v.into_iter().map(|l| l.into_iter().collect()).collect()
}

#[test]
fn tokens_split_at_any_unicode_whitespace() {
    assert_eq!(strs(split_tokens(&cs("  a b\t c  "))), vec!["a", "b", "c"]);
    assert_eq!(strs(split_tokens(&cs("\u{3000}x\u{85}y\u{a0}"))), vec!["x", "y"]);
    assert!(split_tokens(&cs("   ")).is_empty());
    assert!(split_tokens(&cs("")).is_empty());
    assert_eq!(strs(split_tokens(&cs("one"))), vec!["one"]);
}

#[test]
fn whitespace_matches_std() {
    for u in 0u32..0x3100 {
        if let Some(c) = char::from_u32(u) {
            assert_eq!(is_whitespace(c), c.is_whitespace(), "code point {:x}", u);
        }
    }
}

#[test]
fn lines_follow_str_lines() {
    let samples = ["foo\r\nbar\n\nbaz\r", "a\n", "", "\n", "\r\n\r\n", "x\r\r\ny", "no newline"];
    for s in samples {
        let expected: Vec<String> = s.lines().map(|l| l.to_string()).collect();
        assert_eq!(strs(split_lines(&cs(s))), expected, "text {:?}", s);
    }
    assert_eq!(strs(split_lines(&cs("foo\r\nbar\n\nbaz\r"))), vec!["foo", "bar", "", "baz\r"]);
}

#[test]
fn join_puts_separator_between() {
    let parts = vec![cs("a"), cs(""), cs("bc")];
    assert_eq!(join_chars(&parts, &cs(", ")).into_iter().collect::<String>(), "a, , bc");
    assert!(join_chars(&Vec::new(), &cs("\n")).is_empty());
    assert_eq!(join_chars(&vec![cs("x")], &cs("\n")), cs("x"));
}

#[test]
fn prefixes_and_suffixes() {
    assert!(has_prefix(&cs("rs_fullscreen on"), &cs("rs_fullscreen")));
    assert!(!has_prefix(&cs("rs_full"), &cs("rs_fullscreen")));
    assert!(has_prefix(&cs("abc"), &cs("")));
    assert!(has_suffix(&cs("gamedata\\configs\\axr_options.ltx"), &cs("axr_options.ltx")));
    assert!(!has_suffix(&cs("axr_options.ltx.bak"), &cs("axr_options.ltx")));
}

#[test]
fn chars_and_strings_round_trip() {
    let s = "Проверить\nустановку";
    assert_eq!(chars_of(s), cs(s));
    assert_eq!(string_of(&cs(s)), s);
    assert_eq!(string_of(&[]), "");
}

#[test]
fn joined_lines_split_back() {
    let ls = vec![cs("first"), cs(""), cs("third\tx"), cs("last")];
    let joined = join_chars(&ls, &cs("\n"));
    assert_eq!(split_lines(&joined), ls);
}
