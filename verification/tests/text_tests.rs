use s2_cli::text::{
    chars_of, contains, decimal, last_segment_of, pad_end, pad_start, same_text, split_lines,
    strip_prefix, text_of,
};

#[test]
fn padding_matches_format_widths() {
    assert_eq!(pad_end("name", 8), format!("{:<8}", "name"));
    assert_eq!(pad_start("80", 6), format!("{:>6}", "80"));
    assert_eq!(pad_end("toolongvalue", 4), "toolongvalue");
    assert_eq!(pad_start("toolongvalue", 4), "toolongvalue");
    assert_eq!(pad_end("é—", 4), "é—  ");
    assert_eq!(pad_end("", 0), "");
}

#[test]
fn decimal_rendering() {
    assert_eq!(decimal(0), "0");
    assert_eq!(decimal(7), "7");
    assert_eq!(decimal(8080), "8080");
    assert_eq!(decimal(u64::MAX), u64::MAX.to_string());
}

#[test]
fn text_comparison_and_search() {
    assert!(same_text("abc", "abc"));
    assert!(!same_text("abc", "abd"));
    assert!(!same_text("abc", "ab"));
    assert!(contains("coach-broker", "coach"));
    assert!(contains("coach-broker", "broker"));
    assert!(contains("coach-broker", ""));
    assert!(!contains("coach", "coach-broker"));
    assert!(!contains("fleet", "book"));
    assert!(contains("internal-only (mTLS)", "internal-only"));
}

#[test]
fn prefix_stripping() {
    assert_eq!(strip_prefix("worktree /a/b", "worktree "), Some("/a/b".to_string()));
    assert_eq!(strip_prefix("HEAD abc", "worktree "), None);
    assert_eq!(strip_prefix("work", "worktree "), None);
    assert_eq!(strip_prefix("x", ""), Some("x".to_string()));
}

#[test]
fn last_segments() {
    assert_eq!(last_segment_of("generation/text-runtime", '/'), "text-runtime");
    assert_eq!(last_segment_of("plain", '/'), "plain");
    assert_eq!(last_segment_of("trailing/", '/'), "");
    assert_eq!(last_segment_of("", '/'), "");
}

#[test]
fn lines_match_std() {
    for s in ["", "\n", "a", "a\n", "a\r\nb", "a\n\nb\n", "x\r", "\r\n\r\n", "one\ntwo\r\nthree"] {
        let expected: Vec<String> = s.lines().map(|l| l.to_string()).collect();
        assert_eq!(split_lines(s), expected, "input {:?}", s);
    }
}

#[test]
fn chars_round_trip() {
    let cs = chars_of("héllo");
    assert_eq!(cs.len(), 5);
    assert_eq!(text_of(&cs, 1, 4), "éll");
}
