use foxguard::rules::common::{get_source_line, make_finding_from_offsets};
use foxguard::Severity;

#[test]
fn get_source_line_basic() {
    let src = "line one\nline two\nline three";
    assert_eq!(get_source_line(src, 0), "line one");
    assert_eq!(get_source_line(src, 9), "line two");
    assert_eq!(get_source_line(src, 18), "line three");
}

#[test]
fn get_source_line_empty_source() {
    assert_eq!(get_source_line("", 0), "");
}

#[test]
fn get_source_line_out_of_bounds() {
    assert_eq!(get_source_line("hello", 100), "");
}

#[test]
fn get_source_line_at_line_end_returns_that_line() {
    let src = "ab\ncd";
    assert_eq!(get_source_line(src, 2), "ab");
    assert_eq!(get_source_line(src, 5), "cd");
}

#[test]
fn finding_from_offsets_counts_lines_and_characters() {
    let src = "first\nsecond é line\nthird";
    // "é" is two bytes; "line" starts at character column 10 of line 2.
    let start = src.find("line").unwrap();
    let f = make_finding_from_offsets("x/rule", Severity::Low, Some("CWE-1"), "msg", src, start, start + 4);
    assert_eq!(f.line, 2);
    assert_eq!(f.column, 10);
    assert_eq!(f.end_line, 2);
    assert_eq!(f.end_column, 14);
    assert_eq!(f.snippet, "second é line");
    assert_eq!(f.cwe.as_deref(), Some("CWE-1"));
}

#[test]
fn finding_from_offsets_clamps_past_the_end() {
    let src = "abc";
    let f = make_finding_from_offsets("x/rule", Severity::Low, None, "msg", src, 10, 20);
    assert_eq!(f.line, 1);
    assert_eq!(f.column, 4);
    assert_eq!(f.end_column, 4);
}

#[test]
fn offsets_count_characters_and_keep_the_line_text() {
    let r = make_finding_from_offsets("r", foxguard::Severity::High, None, "d", "é=x", 3, 4);
    assert_eq!((r.line, r.column, r.end_line, r.end_column), (1, 3, 1, 4));
    assert_eq!(r.snippet, "é=x");
}

#[test]
fn offsets_past_the_end_are_clamped() {
    let r = make_finding_from_offsets("r", foxguard::Severity::Medium, None, "d", "ab\ncd", 99, 99);
    assert_eq!((r.line, r.column, r.end_line, r.end_column), (2, 3, 2, 3));
    assert_eq!(r.snippet, "cd");
}

#[test]
fn source_line_of_multibyte_text() {
    assert_eq!(get_source_line("naïve\nçà\n", 7), "çà");
}
