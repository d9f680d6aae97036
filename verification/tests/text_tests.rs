use testing::number::{i32_to_string, parse_i32};
use testing::text::{contains_text, count_matches, first_line_of, same_text, split_text};

#[test]
fn split_on_newline_keeps_empty_pieces() {
    assert_eq!(split_text("a\nb\n", "\n"), vec!["a", "b", ""]);
    assert_eq!(split_text("", "\n"), vec![""]);
    assert_eq!(split_text("no separator", "\n"), vec!["no separator"]);
}

#[test]
fn split_on_longer_separator_resumes_after_match() {
    assert_eq!(split_text("aaa", "aa"), vec!["", "a"]);
    assert_eq!(
        split_text("x\nHeight: 12\nTotal\nHeight: 7", "\nHeight: "),
        vec!["x", "12\nTotal", "7"]
    );
}

#[test]
fn split_agrees_with_std() {
    let cases = [
        ("one two  three ", " "),
        ("abcabcab", "ab"),
        ("ééé", "é"),
        ("\n\n", "\n"),
    ];
    for (text, sep) in cases {
        let expected: Vec<String> = text.split(sep).map(|s| s.to_string()).collect();
        assert_eq!(split_text(text, sep), expected);
    }
}

#[test]
fn split_then_join_gives_back_text() {
    let text = "line one\nline two\n\nlast";
    assert_eq!(split_text(text, "\n").join("\n"), text);
}

#[test]
fn split_yields_one_more_piece_than_matches() {
    let text = "Sent Tx | Sent Tx | Received Tx";
    assert_eq!(split_text(text, "Sent Tx").len(), count_matches(text, "Sent Tx") + 1);
}

#[test]
fn count_matches_does_not_overlap() {
    assert_eq!(count_matches("aaaa", "aa"), 2);
    assert_eq!(count_matches("Unspent Spent Spent", "Spent"), 2);
    assert_eq!(count_matches("", "x"), 0);
}

#[test]
fn contains_iff_counted() {
    assert!(contains_text("scan completed successfully", "successfully"));
    assert!(!contains_text("scan failed", "successfully"));
    assert_eq!(count_matches("scan failed", "successfully"), 0);
}

#[test]
fn first_line_stops_at_newline() {
    assert_eq!(first_line_of("123\nrest"), "123");
    assert_eq!(first_line_of("only"), "only");
    assert_eq!(first_line_of("\nsecond"), "");
}

#[test]
fn same_text_compares_characters() {
    assert!(same_text("floo", "floo"));
    assert!(!same_text("floo", "floonet"));
    assert!(!same_text("main", "mein"));
}

#[test]
fn parse_i32_agrees_with_std() {
    let cases = [
        "0", "42", "+42", "-42", "-", "+", "", " 1", "1 ", "2147483647", "2147483648",
        "-2147483648", "-2147483649", "99999999999999999999", "12a", "007", "--1",
    ];
    for case in cases {
        assert_eq!(parse_i32(case), case.parse::<i32>().ok(), "input {:?}", case);
    }
}

#[test]
fn i32_to_string_agrees_with_std() {
    for v in [0, 7, 10, 1234, -1, -10, i32::MAX, i32::MIN] {
        assert_eq!(i32_to_string(v), v.to_string());
    }
}

#[test]
fn decimal_round_trip() {
    for v in [0, 5, -5, 999, i32::MAX, i32::MIN] {
        assert_eq!(parse_i32(&i32_to_string(v)), Some(v));
    }
}
