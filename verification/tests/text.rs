use bjourn::text::{decimal_text, is_whitespace_char, replace_text, same_text, trim_text};

#[test]
fn whitespace_is_what_the_standard_library_calls_whitespace() {
    let mut count = 0;
    for u in 0..=0x10FFFFu32 {
        if let Some(c) = char::from_u32(u) {
            assert_eq!(is_whitespace_char(c), c.is_whitespace(), "U+{:04X}", u);
            if is_whitespace_char(c) {
                count += 1;
            }
        }
    }
    assert_eq!(count, 25);
}

#[test]
fn trimming_removes_both_ends_only() {
    assert_eq!(trim_text("  a b \n"), "a b");
    assert_eq!(trim_text("a"), "a");
    assert_eq!(trim_text(""), "");
    assert_eq!(trim_text(" \t\r\n"), "");
    assert_eq!(trim_text("\u{3000}é \u{a0}x\u{2028}"), "é \u{a0}x");
    assert_eq!(trim_text("\u{200b}x"), "\u{200b}x");
    for s in ["", " ", " x", "x ", " x y ", "\n\nx\ty\n", "\u{85}q\u{1680}"] {
        assert_eq!(trim_text(s), s.trim());
    }
}

#[test]
fn replacing_goes_left_to_right_without_overlap() {
    assert_eq!(replace_text("aaaa", "aa", "b"), "bb");
    assert_eq!(replace_text("aaa", "aa", "b"), "ba");
    assert_eq!(replace_text("{x}{x}", "{x}", "{x}{x}"), "{x}{x}{x}{x}");
    assert_eq!(replace_text("abc", "abcd", "!"), "abc");
    assert_eq!(replace_text("abc", "abc", ""), "");
    assert_eq!(replace_text("", "a", "b"), "");
    assert_eq!(replace_text("héllo wörld", "ö", "oe"), "héllo woerld");
    assert_eq!(replace_text("abc", "", "-"), "abc");
    for (s, from, to) in [
        ("one two one", "one", "1"),
        ("xxxyxx", "xx", "z"),
        ("no match", "q", "r"),
        ("tail{d}", "{d}", "05"),
        ("{d}head", "{d}", ""),
    ] {
        assert_eq!(replace_text(s, from, to), s.replace(from, to));
    }
}

#[test]
fn numbers_in_decimal() {
    assert_eq!(decimal_text(0), "0");
    assert_eq!(decimal_text(7), "7");
    assert_eq!(decimal_text(10), "10");
    assert_eq!(decimal_text(409), "409");
    assert_eq!(decimal_text(usize::MAX), usize::MAX.to_string());
}

#[test]
fn same_text_compares_characters() {
    assert!(same_text("", ""));
    assert!(same_text("md", "md"));
    assert!(!same_text("md", "m"));
    assert!(!same_text("md", "mD"));
    assert!(!same_text("", "x"));
}
