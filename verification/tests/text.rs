use memspark::order::{descending_order, distinct_ascending, distinct_texts, tally};
use memspark::text::{
    contains_text, cut_text, decimal_text, hex_text, hundredths_text, join_texts, lower_text,
    parse_number, push_left_aligned, push_right_aligned, replace_text, same_text, split_lines,
    split_text, stands_before, starts_with, tenths_text, trim_text, unquote_text, white_space,
};

#[test]
fn numerals_are_written_as_std_writes_them() {
    for n in [0u128, 7, 10, 99, 100, 12345, u64::MAX as u128, u128::MAX] {
        assert_eq!(decimal_text(n), n.to_string());
    }
    assert_ne!(decimal_text(12), decimal_text(21));
    assert_eq!(tenths_text(0), "0.0");
    assert_eq!(tenths_text(1234), "123.4");
    assert_eq!(hundredths_text(5), "0.05");
    assert_eq!(hundredths_text(12345), "123.45");
    assert_eq!(hex_text(0xc0000061, 8), "C0000061");
    assert_eq!(hex_text(0xff, 8), "000000FF");
}

#[test]
fn numbers_are_read_as_std_reads_them() {
    for s in ["", "+", "-1", "0", "007", "+12", "1 ", "1a", "18446744073709551615", "18446744073709551616"] {
        assert_eq!(parse_number(s, u64::MAX), s.parse::<u64>().ok(), "{s:?}");
        assert_eq!(
            parse_number(s, u32::MAX as u64),
            s.parse::<u32>().ok().map(u64::from),
            "{s:?}"
        );
    }
}

#[test]
fn white_space_is_what_std_holds_for_it() {
    for n in 0..0x3100u32 {
        if let Some(c) = char::from_u32(n) {
            assert_eq!(white_space(c), c.is_whitespace(), "{n:x}");
        }
    }
    for s in ["", "  ", " a b ", "\t\nx\u{3000}", "y"] {
        assert_eq!(trim_text(s), s.trim());
    }
    assert_eq!(unquote_text("\"\"a\"b\"", '"'), "a\"b");
    assert_eq!(unquote_text("\"\"", '"'), "");
    assert_eq!(lower_text("ÄbC-Z"), "ÄbC-Z".to_ascii_lowercase());
}

#[test]
fn searching_and_replacing_go_from_left_to_right() {
    assert!(contains_text("abcabc", "ca"));
    assert!(contains_text("", ""));
    assert!(!contains_text("abc", "abcd"));
    assert!(starts_with("OpenProcess(trim)", "OpenProcess"));
    assert!(!starts_with("Open", "OpenProcess"));
    for (s, from, to) in [("aaaa", "aa", "b"), ("abab", "ab", ""), ("x", "y", "z"), ("甲；乙", "；", "; ")] {
        assert_eq!(replace_text(s, from, to), s.replace(from, to));
    }
    assert!(same_text("甲", "甲"));
    assert!(!same_text("a", "b"));
}

#[test]
fn splitting_agrees_with_std() {
    for s in ["", "a", "a|b", "|a||", "x\ny\r\nz", "\n", "a\r", "a\r\n", "\r\n\r\n"] {
        let parts: Vec<&str> = s.split('|').collect();
        assert_eq!(split_text(s, '|'), parts, "{s:?}");
        let lines: Vec<&str> = s.lines().collect();
        assert_eq!(split_lines(s), lines, "{s:?}");
    }
    assert_eq!(cut_text("a=b=c", '='), Some(("a".to_owned(), "b=c".to_owned())));
    assert_eq!(cut_text("abc", '='), None);
    let words = vec!["a".to_owned(), "b".to_owned(), "c".to_owned()];
    assert_eq!(join_texts(&words, ", "), "a, b, c");
    assert_eq!(join_texts(&Vec::new(), ", "), "");
}

#[test]
fn texts_are_aligned_by_characters() {
    for s in ["", "ab", "内存", "longer than eight"] {
        let mut left = String::from(">");
        push_left_aligned(&mut left, s, 8);
        assert_eq!(left, format!(">{s:<8}"));
        let mut right = String::from(">");
        push_right_aligned(&mut right, s, 8);
        assert_eq!(right, format!(">{s:>8}"));
    }
    for (a, b) in [("a", "b"), ("a", "ab"), ("", "x"), ("内", "存"), ("b", "a"), ("q", "q")] {
        assert_eq!(stands_before(a, b), a < b);
    }
}

#[test]
fn sorting_is_stable_and_descending() {
    let keys = vec![3u128, 9, 3, 1, 9];
    assert_eq!(descending_order(&keys), [1, 4, 0, 2, 3]);
    assert!(descending_order(&Vec::new()).is_empty());
}

#[test]
fn tallies_count_in_the_order_of_texts() {
    let labels: Vec<String> = ["b", "a", "b", "c", "a", "b"].iter().map(|s| s.to_string()).collect();
    let table = tally(&labels);
    let rows: Vec<(&str, usize, usize)> =
        table.iter().map(|e| (e.label.as_str(), e.count, e.first)).collect();
    assert_eq!(rows, [("a", 2, 1), ("b", 3, 0), ("c", 1, 3)]);
    assert_eq!(distinct_texts(&labels), ["a", "b", "c"]);
    assert_eq!(distinct_ascending(&vec![5u32, 1, 5, 3]), [1, 3, 5]);
}
