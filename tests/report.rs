use runtests::filter::{should_ignore_message, IgnoreList};
use runtests::model::{
    bucket_of, Bucket, Entry, EntryType, Event, ReportError, Test, TestPass, TestResult,
};
use runtests::render::{
    push_test_lines, render_report, plain_text, summary_line, test_header, Color, Segment,
};
use runtests::sort::{normalize, sort_tests};
use runtests::text::{bytes_less, push_decimal, same_text, utf_from_bytes};

fn entry(kind: EntryType, message: &str, filename: &str, line: i32) -> Entry {
    Entry {
        event: Event {
            entry_type: kind,
            message: message.to_string(),
            context: String::new(),
            artifact: String::new(),
        },
        filename: filename.to_string(),
        line_number: line,
        timestamp: "2024.01.01-00.00.00".to_string(),
    }
}

fn test(path: &str, name: &str, state: TestResult, entries: Vec<Entry>) -> Test {
    Test {
        test_display_name: name.to_string(),
        full_test_path: path.to_string(),
        state,
        entries,
        warnings: 0,
        errors: 0,
        artifacts: Vec::new(),
    }
}

fn pass(succeeded: i32, failed: i32, not_run: i32, with_warnings: i32, tests: Vec<Test>) -> TestPass {
    TestPass {
        devices: None,
        report_created_on: "today".to_string(),
        succeeded,
        succeeded_with_warnings: with_warnings,
        failed,
        not_run,
        in_process: None,
        comparison_exported: false,
        comparison_export_directory: String::new(),
        tests,
    }
}

fn patterns(ps: &[&str]) -> IgnoreList {
    let v: Vec<String> = ps.iter().map(|p| p.to_string()).collect();
    match IgnoreList::compile(&v) {
        Ok(l) => l,
        Err(e) => panic!("pattern list refused: {:?}", e),
    }
}

fn plain_lines(lines: &Vec<Vec<Segment>>) -> Vec<String> {
    lines.iter().map(|l| plain_text(l)).collect()
}

fn colors(line: &Vec<Segment>) -> Vec<Color> {
    line.iter().map(|s| s.color).collect()
}

#[test]
fn sort_orders_by_path_and_keeps_ties() {
    let mut tests = vec![
        test("B.Test", "b", TestResult::Success, Vec::new()),
        test("A.Test", "first", TestResult::Success, Vec::new()),
        test("A.Sub.Test", "sub", TestResult::Fail, Vec::new()),
        test("A.Test", "second", TestResult::NotRun, Vec::new()),
        test("a.Test", "lower", TestResult::Success, Vec::new()),
    ];
    sort_tests(&mut tests);
    let got: Vec<(&str, &str)> = tests
        .iter()
        .map(|t| (t.full_test_path.as_str(), t.test_display_name.as_str()))
        .collect();
    assert_eq!(
        got,
        vec![
            ("A.Sub.Test", "sub"),
            ("A.Test", "first"),
            ("A.Test", "second"),
            ("B.Test", "b"),
            ("a.Test", "lower"),
        ]
    );
}

#[test]
fn sort_of_empty_and_single() {
    let mut none: Vec<Test> = Vec::new();
    sort_tests(&mut none);
    assert!(none.is_empty());
    let mut one = vec![test("Only", "only", TestResult::Success, Vec::new())];
    sort_tests(&mut one);
    assert_eq!(one[0].full_test_path, "Only");
}

#[test]
fn normalize_sorts_and_keeps_counts() {
    let mut r = pass(
        3,
        4,
        5,
        6,
        vec![
            test("Z", "z", TestResult::Success, Vec::new()),
            test("M", "m", TestResult::Fail, Vec::new()),
        ],
    );
    normalize(&mut r);
    assert_eq!(r.tests[0].full_test_path, "M");
    assert_eq!(r.tests[1].full_test_path, "Z");
    assert_eq!((r.succeeded, r.failed, r.not_run, r.succeeded_with_warnings), (3, 4, 5, 6));
}

#[test]
fn ordinal_comparison_of_bytes() {
    assert!(bytes_less(b"A", b"B"));
    assert!(bytes_less(b"A", b"AB"));
    assert!(!bytes_less(b"AB", b"A"));
    assert!(!bytes_less(b"A", b"A"));
    assert!(bytes_less(b"Z", b"a"));
    assert!(bytes_less(b"", b"a"));
}

#[test]
fn text_equality() {
    assert!(same_text("Fail", "Fail"));
    assert!(!same_text("Fail", "fail"));
    assert!(!same_text("Fail", "Failed"));
}

#[test]
fn bom_is_stripped() {
    let with_bom = b"\xEF\xBB\xBF{\"a\": 1}".to_vec();
    assert_eq!(utf_from_bytes(&with_bom), "{\"a\": 1}");
}

#[test]
fn bom_idempotence() {
    let rest = b"{\"tests\": []}".to_vec();
    let mut with_bom = vec![0xEFu8, 0xBB, 0xBF];
    with_bom.extend_from_slice(&rest);
    assert_eq!(utf_from_bytes(&with_bom), utf_from_bytes(&rest));
}

#[test]
fn decoding_without_bom_keeps_text() {
    assert_eq!(utf_from_bytes("héllo".as_bytes()), "héllo");
    assert_eq!(utf_from_bytes(b""), "");
}

#[test]
fn invalid_bytes_are_replaced() {
    assert_eq!(utf_from_bytes(b"ab\xFFcd"), "ab\u{FFFD}cd");
}

#[test]
fn decimal_formatting() {
    let mut s = String::from("n=");
    push_decimal(&mut s, 0);
    assert_eq!(s, "n=0");
    let mut s = String::new();
    push_decimal(&mut s, 1234567);
    assert_eq!(s, "1234567");
    let mut s = String::new();
    push_decimal(&mut s, -42);
    assert_eq!(s, "-42");
    let mut s = String::new();
    push_decimal(&mut s, i64::MIN);
    assert_eq!(s, "-9223372036854775808");
}

#[test]
fn literals_decode() {
    assert_eq!(TestResult::from_literal("NotRun"), Ok(TestResult::NotRun));
    assert_eq!(TestResult::from_literal("InProcess"), Ok(TestResult::InProcess));
    assert_eq!(TestResult::from_literal("Fail"), Ok(TestResult::Fail));
    assert_eq!(TestResult::from_literal("Success"), Ok(TestResult::Success));
    assert_eq!(
        TestResult::from_literal("NotEnoughParticipants"),
        Ok(TestResult::NotEnoughParticipants)
    );
    assert_eq!(EntryType::from_literal("Info"), Ok(EntryType::Info));
    assert_eq!(EntryType::from_literal("Warning"), Ok(EntryType::Warning));
    assert_eq!(EntryType::from_literal("Error"), Ok(EntryType::Error));
    assert_eq!(EntryType::from_literal("Fatal"), Err(ReportError::MalformedReport));
}

#[test]
fn unknown_state_is_malformed() {
    let json = r#"{"fullTestPath": "A.Test", "state": "Unknown"}"#;
    let v: serde_json::Value = serde_json::from_str(json).unwrap();
    let state = v.get("state").and_then(|s| s.as_str()).unwrap();
    assert_eq!(TestResult::from_literal(state), Err(ReportError::MalformedReport));
}

#[test]
fn buckets() {
    assert_eq!(bucket_of(TestResult::Success), Bucket::Pass);
    assert_eq!(bucket_of(TestResult::Fail), Bucket::Fail);
    assert_eq!(bucket_of(TestResult::NotRun), Bucket::Other);
    assert_eq!(bucket_of(TestResult::InProcess), Bucket::Other);
    assert_eq!(bucket_of(TestResult::NotEnoughParticipants), Bucket::Other);
}

#[test]
fn invalid_pattern_is_reported_by_position() {
    let v = vec!["^ok$".to_string(), "foo(bar".to_string(), "(".to_string()];
    assert!(matches!(
        IgnoreList::compile(&v),
        Err(ReportError::InvalidIgnorePattern(1))
    ));
}

#[test]
fn ignore_pattern_suppression() {
    let ignore = patterns(&["^Retry"]);
    assert!(should_ignore_message("Retry attempt 1", &ignore));
    assert!(!should_ignore_message("Deprecated API", &ignore));
    assert!(!should_ignore_message("Will Retry", &ignore));
    assert!(!should_ignore_message("anything", &IgnoreList::empty()));
}

#[test]
fn ignore_matches_anywhere() {
    let ignore = patterns(&["nomatch", "leak"]);
    assert!(should_ignore_message("memory leak detected", &ignore));
}

#[test]
fn suppressed_in_every_bucket() {
    let ignore = patterns(&["^Retry"]);
    for state in [TestResult::Success, TestResult::Fail, TestResult::NotRun] {
        let t = test(
            "A.Test",
            "a",
            state,
            vec![
                entry(EntryType::Error, "Retry attempt 1", "f.cpp", 1),
                entry(EntryType::Info, "Retry attempt 2", "f.cpp", 2),
            ],
        );
        let mut out = Vec::new();
        push_test_lines(&mut out, &t, &ignore);
        assert_eq!(out.len(), 1);
    }
}

#[test]
fn pass_bucket_hides_info() {
    let t = test(
        "A.Test",
        "a",
        TestResult::Success,
        vec![
            entry(EntryType::Info, "hello", "f.cpp", 1),
            entry(EntryType::Warning, "careful", "f.cpp", 2),
        ],
    );
    let mut out = Vec::new();
    push_test_lines(&mut out, &t, &IgnoreList::empty());
    assert_eq!(
        plain_lines(&out),
        vec![
            "     Success A.Test".to_string(),
            "                  Warning careful".to_string(),
            "                          f.cpp:2".to_string(),
        ]
    );
}

#[test]
fn fail_bucket_shows_info_without_location() {
    let t = test(
        "B.Test",
        "b",
        TestResult::Fail,
        vec![entry(EntryType::Info, "note", "f.cpp", 7)],
    );
    let mut out = Vec::new();
    push_test_lines(&mut out, &t, &IgnoreList::empty());
    assert_eq!(
        plain_lines(&out),
        vec!["        Fail B.Test".to_string(), "                     Info note".to_string()]
    );
    assert_eq!(colors(&out[1]), vec![Color::Plain, Color::White, Color::Plain]);
}

#[test]
fn other_bucket_shows_no_entries() {
    for state in [TestResult::NotRun, TestResult::InProcess, TestResult::NotEnoughParticipants] {
        let t = test(
            "C.Test",
            "c",
            state,
            vec![
                entry(EntryType::Error, "boom", "f.cpp", 1),
                entry(EntryType::Warning, "hmm", "f.cpp", 2),
            ],
        );
        let mut out = Vec::new();
        push_test_lines(&mut out, &t, &IgnoreList::empty());
        assert_eq!(plain_lines(&out), vec!["     Warning C.Test".to_string()]);
        assert_eq!(colors(&out[0]), vec![Color::Yellow, Color::Yellow]);
    }
}

#[test]
fn header_colors() {
    let t = test("A.Test", "a", TestResult::Success, Vec::new());
    assert_eq!(colors(&test_header(&t)), vec![Color::BrightGreen, Color::White]);
    let t = test("B.Test", "b", TestResult::Fail, Vec::new());
    assert_eq!(colors(&test_header(&t)), vec![Color::Red, Color::White]);
}

#[test]
fn negative_line_number_location() {
    let t = test(
        "A.Test",
        "a",
        TestResult::Fail,
        vec![entry(EntryType::Error, "bad", "unknown", -1)],
    );
    let mut out = Vec::new();
    push_test_lines(&mut out, &t, &IgnoreList::empty());
    assert_eq!(plain_text(&out[2]), "                          unknown:-1");
}

#[test]
fn summary_reads_report_counts() {
    let r = pass(7, 0, 2, 3, Vec::new());
    let line = summary_line(&r);
    assert_eq!(plain_text(&line), "7 passed, 0 failed, 5 other");
    let r = pass(1, 0, 0, 0, vec![test("X", "x", TestResult::Fail, Vec::new())]);
    assert_eq!(plain_text(&summary_line(&r)), "1 passed, 0 failed, 0 other");
}

#[test]
fn summary_colors_and_text() {
    let red = summary_line(&pass(2, 1, 0, 0, Vec::new()));
    assert_eq!(plain_text(&red), "2 passed, 1 failed, 0 other");
    assert_eq!(colors(&red), vec![Color::Red]);
    let yellow = summary_line(&pass(2, 0, 1, 0, Vec::new()));
    assert_eq!(plain_text(&yellow), "2 passed, 0 failed, 1 other");
    assert_eq!(colors(&yellow), vec![Color::Yellow]);
    let yellow2 = summary_line(&pass(2, 0, 0, 4, Vec::new()));
    assert_eq!(plain_text(&yellow2), "2 passed, 0 failed, 4 other");
    assert_eq!(colors(&yellow2), vec![Color::Yellow]);
    let green = summary_line(&pass(2, 0, 0, 0, Vec::new()));
    assert_eq!(plain_text(&green), "2 passed, 0 failed, 0 other");
    assert_eq!(colors(&green), vec![Color::BrightGreen]);
}

#[test]
fn summary_other_does_not_overflow() {
    let r = pass(0, 0, i32::MAX, i32::MAX, Vec::new());
    assert_eq!(plain_text(&summary_line(&r)), "0 passed, 0 failed, 4294967294 other");
}

#[test]
fn two_test_scenario() {
    let mut r = pass(
        2,
        1,
        0,
        0,
        vec![
            test(
                "B.Test",
                "B",
                TestResult::Fail,
                vec![entry(EntryType::Error, "crashed", "file.cpp", 42)],
            ),
            test(
                "A.Test",
                "A",
                TestResult::Success,
                vec![entry(EntryType::Warning, "slow", "file.cpp", 10)],
            ),
        ],
    );
    normalize(&mut r);
    let out = render_report(&r, &IgnoreList::empty());
    assert_eq!(
        plain_lines(&out),
        vec![
            "     Success A.Test".to_string(),
            "                  Warning slow".to_string(),
            "                          file.cpp:10".to_string(),
            "        Fail B.Test".to_string(),
            "                    Error crashed".to_string(),
            "                          file.cpp:42".to_string(),
            "2 passed, 1 failed, 0 other".to_string(),
        ]
    );
    assert_eq!(colors(&out[1]), vec![Color::Plain, Color::Yellow, Color::Plain]);
    assert_eq!(colors(&out[4]), vec![Color::Plain, Color::Red, Color::Plain]);
    assert_eq!(colors(&out[6]), vec![Color::Red]);
}
