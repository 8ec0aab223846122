use stock_monitor::text::{
    can_cut, chars_of, contains, cut, decimal, ends_with, find_first, find_last, first_char, joined,
    list_copy, list_position, pad_two, remove_all, same, skip_chars, split, starts_with, string_of,
    trim,
};

fn strings(list: &[&str]) -> Vec<String> {
    list.iter().map(|s| s.to_string()).collect()
}

#[test]
fn white_space_is_the_listed_characters() {
    for n in 0..=0x10ffff_u32 {
        if let Some(c) = char::from_u32(n) {
            let listed = matches!(
                n,
                0x9..=0xd
                    | 0x20
                    | 0x85
                    | 0xa0
                    | 0x1680
                    | 0x2000..=0x200a
                    | 0x2028
                    | 0x2029
                    | 0x202f
                    | 0x205f
                    | 0x3000
            );
            assert_eq!(c.is_whitespace(), listed, "{:x}", n);
        }
    }
}

#[test]
fn lower_case_of_ascii_changes_letters_only() {
    for n in 0..128_u8 {
        let c = n as char;
        let expected = if n >= b'A' && n <= b'Z' { (n + 32) as char } else { c };
        assert_eq!(c.to_string().to_lowercase(), expected.to_string());
    }
    assert_eq!("SH600519xY".to_lowercase(), "sh600519xy");
}

#[test]
fn push_appends_a_character() {
    let mut s = String::from("ab");
    s.push('股');
    assert_eq!(s, "ab股");
}

#[test]
fn trim_takes_white_space_off_both_ends() {
    assert_eq!(trim("  a b\t\n"), "a b");
    assert_eq!(trim("\u{3000}股票\u{a0}"), "股票");
    assert_eq!(trim(" \n "), "");
    assert_eq!(trim(""), "");
    assert_eq!(trim("x"), "x");
}

#[test]
fn split_gives_one_piece_more_than_separators() {
    assert_eq!(split("a,b,,c", ','), strings(&["a", "b", "", "c"]));
    assert_eq!(split("", ','), strings(&[""]));
    assert_eq!(split(",", ','), strings(&["", ""]));
    assert_eq!(split("abc", ','), strings(&["abc"]));
}

#[test]
fn split_pieces_join_to_the_text() {
    for text in ["a,b,,c", "", ",", ",,x,", "名,字"] {
        assert_eq!(split(text, ',').join(","), text);
    }
}

#[test]
fn prefixes_and_suffixes() {
    assert!(starts_with("sh600519", "sh"));
    assert!(!starts_with("s", "sh"));
    assert!(starts_with("x", ""));
    assert!(ends_with("http://x/chat/completions", "/chat/completions"));
    assert!(!ends_with("completions", "/chat/completions"));
    assert!(ends_with("", ""));
}

#[test]
fn occurrences_are_found_and_removed() {
    assert!(contains("x[BULLISH]y", "[BULLISH]"));
    assert!(contains("[BULLISH]", "[BULLISH]"));
    assert!(!contains("[BULLISH", "[BULLISH]"));
    assert!(contains("", ""));
    assert_eq!(remove_all("aXbXXc", "X"), "abc");
    assert_eq!(remove_all("aaa", "aa"), "a");
    assert_eq!(remove_all("[BUL[BULLISH]LISH]", "[BULLISH]"), "[BULLISH]");
    assert_eq!(remove_all("abc", "X"), "abc");
}

#[test]
fn first_and_last_places() {
    let v = chars_of("a{b}{c}d");
    assert_eq!(find_first(&v, '{'), 1);
    assert_eq!(find_last(&v, '}'), 7);
    assert_eq!(find_first(&v, 'x'), 8);
    assert_eq!(find_last(&v, 'x'), 0);
    assert_eq!(string_of(&v, 1, 7), "{b}{c}");
}

#[test]
fn cutting_after_bytes() {
    assert_eq!(cut("09:31:00", 5), "09:31");
    assert_eq!(cut("9:31", 5), "9:31");
    assert!(can_cut("09:31", 5));
    assert!(can_cut("9", 5));
    assert!(!can_cut("上午9点", 5));
    assert!(can_cut("上午", 6));
    assert!(can_cut("上午9", 3));
    assert_eq!(cut("上午9", 3), "上");
}

#[test]
fn numbers_as_text() {
    assert_eq!(decimal(0), "0");
    assert_eq!(decimal(90), "90");
    assert_eq!(decimal(u64::MAX), "18446744073709551615");
    assert_eq!(pad_two(5), "05");
    assert_eq!(pad_two(31), "31");
    assert_eq!(pad_two(-5), "-5");
    assert_eq!(pad_two(-31), "-31");
}

#[test]
fn small_helpers() {
    assert!(same("股", "股"));
    assert!(!same("股", "票"));
    assert!(!same("a", "ab"));
    assert_eq!(joined("a", "b"), "ab");
    assert_eq!(first_char("股票"), Some('股'));
    assert_eq!(first_char(""), None);
    assert_eq!(skip_chars("sh600519", 2), "600519");
    let list = strings(&["a", "b", "a"]);
    assert_eq!(list_position(&list, "a"), Some(0));
    assert_eq!(list_position(&list, "b"), Some(1));
    assert_eq!(list_position(&list, "c"), None);
    assert_eq!(list_copy(&list), list);
}
