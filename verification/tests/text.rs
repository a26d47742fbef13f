use brun::text::{
    chars_of, decimal_text, digit_text, find_first, find_last, has_prefix, has_suffix,
    is_whitespace, join_text, slice_text, trim_text,
};

#[test]
fn digit_text_covers_all_digits() {
    let expected = ["0", "1", "2", "3", "4", "5", "6", "7", "8", "9"];
    for d in 0u8..10 {
        assert_eq!(digit_text(d), expected[d as usize]);
    }
    assert_eq!(digit_text(10), "9");
    assert_eq!(digit_text(255), "9");
}

#[test]
fn decimal_text_of_small_numbers() {
    assert_eq!(decimal_text(0), "0");
    assert_eq!(decimal_text(7), "7");
    assert_eq!(decimal_text(10), "10");
    assert_eq!(decimal_text(128), "128");
    assert_eq!(decimal_text(401), "401");
}

#[test]
fn decimal_text_of_negative_numbers() {
    assert_eq!(decimal_text(-1), "-1");
    assert_eq!(decimal_text(-17), "-17");
    assert_eq!(decimal_text(-100), "-100");
}

#[test]
fn decimal_text_at_the_limits() {
    assert_eq!(decimal_text(i32::MAX), "2147483647");
    assert_eq!(decimal_text(i32::MIN), "-2147483648");
}

#[test]
fn decimal_text_agrees_with_display() {
    let mut n: i32 = -50_000;
    while n <= 50_000 {
        assert_eq!(decimal_text(n), n.to_string());
        n += 7;
    }
}

#[test]
fn is_whitespace_agrees_with_std_on_every_char() {
    for code in 0u32..=0x10FFFF {
        if let Some(c) = char::from_u32(code) {
            assert_eq!(is_whitespace(c), c.is_whitespace(), "U+{:04X}", code);
        }
    }
}

#[test]
fn trim_text_removes_both_ends() {
    assert_eq!(trim_text("  main\n"), "main");
    assert_eq!(trim_text("main"), "main");
    assert_eq!(trim_text("\tmain"), "main");
    assert_eq!(trim_text("main \r\n"), "main");
}

#[test]
fn trim_text_keeps_inner_space() {
    assert_eq!(trim_text(" a b \n"), "a b");
}

#[test]
fn trim_text_of_empty_and_blank() {
    assert_eq!(trim_text(""), "");
    assert_eq!(trim_text(" \t\r\n"), "");
}

#[test]
fn trim_text_knows_unicode_space() {
    assert_eq!(trim_text("\u{00A0}x\u{3000}"), "x");
    assert_eq!(trim_text("\u{2003}é\u{2028}"), "é");
    assert_eq!(trim_text("\u{200B}x"), "\u{200B}x");
}

#[test]
fn trim_text_agrees_with_std() {
    let samples = [
        "",
        " ",
        "origin/main\n",
        "\n\n  https://host.tld/owner/repo.git  \n",
        "\u{0085}a\u{1680}b\u{205F}",
        "no-space",
        " \u{FFFD} ",
    ];
    for s in samples {
        assert_eq!(trim_text(s), s.trim());
    }
}

#[test]
fn chars_of_counts_characters_not_bytes() {
    assert_eq!(chars_of("aé/ü"), vec!['a', 'é', '/', 'ü']);
    assert_eq!(chars_of(""), Vec::<char>::new());
}

#[test]
fn slice_text_cuts_by_character() {
    assert_eq!(slice_text("aé/ü", 1, 3), "é/");
    assert_eq!(slice_text("abc", 0, 3), "abc");
    assert_eq!(slice_text("abc", 2, 2), "");
}

#[test]
fn find_first_and_last_in_a_window() {
    let chars = chars_of("a/b/c");
    assert_eq!(find_first(&chars, 0, 5, '/'), Some(1));
    assert_eq!(find_last(&chars, 0, 5, '/'), Some(3));
    assert_eq!(find_first(&chars, 2, 5, '/'), Some(3));
    assert_eq!(find_last(&chars, 0, 3, '/'), Some(1));
    assert_eq!(find_first(&chars, 2, 3, '/'), None);
    assert_eq!(find_last(&chars, 4, 5, '/'), None);
    assert_eq!(find_first(&chars, 0, 0, '/'), None);
}

#[test]
fn has_prefix_and_suffix_in_a_window() {
    let chars = chars_of("git@host:repo.git");
    let n = chars.len();
    assert!(has_prefix(&chars, 0, n, "git@"));
    assert!(!has_prefix(&chars, 0, n, "http"));
    assert!(!has_prefix(&chars, 0, 3, "git@"));
    assert!(has_prefix(&chars, 4, n, "host"));
    assert!(has_suffix(&chars, 0, n, ".git"));
    assert!(!has_suffix(&chars, 0, n - 1, ".git"));
    assert!(has_suffix(&chars, 0, 3, "git"));
    assert!(has_prefix(&chars, 0, n, ""));
    assert!(has_suffix(&chars, 5, 5, ""));
    assert!(!has_suffix(&chars, n - 3, n, ".git"));
}

#[test]
fn join_text_puts_the_separator_between() {
    let tokens = vec!["echo".to_string(), "hi".to_string(), "there".to_string()];
    assert_eq!(join_text(&tokens, " "), "echo hi there");
}

#[test]
fn join_text_of_none_and_one() {
    assert_eq!(join_text(&Vec::new(), " "), "");
    assert_eq!(join_text(&vec!["make".to_string()], " "), "make");
}

#[test]
fn join_text_keeps_empty_tokens() {
    let tokens = vec!["".to_string(), "a".to_string(), "".to_string()];
    assert_eq!(join_text(&tokens, " "), " a ");
    assert_eq!(join_text(&tokens, " "), tokens.join(" "));
}
