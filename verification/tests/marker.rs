use gsr::marker::{find_marker, settle, Marker};

#[test]
fn patterns_are_the_bracketed_words() {
    assert_eq!(Marker::Ahead.regex(), r"\[.*ahead.*\]");
    assert_eq!(Marker::Behind.regex(), r"\[.*behind.*\]");
}

#[test]
fn patterns_compile() {
    assert!(regex::Regex::new(Marker::Ahead.regex()).is_ok());
    assert!(regex::Regex::new(Marker::Behind.regex()).is_ok());
}

#[test]
fn ahead_marker_alone() {
    let report = "## master...origin/master [ahead 1]\n M src/main.rs\n";
    assert_eq!(find_marker(Marker::Ahead, report), Some(true));
    assert_eq!(find_marker(Marker::Behind, report), Some(false));
}

#[test]
fn behind_marker_alone() {
    let report = "## master...origin/master [behind 3]\n";
    assert_eq!(find_marker(Marker::Ahead, report), Some(false));
    assert_eq!(find_marker(Marker::Behind, report), Some(true));
}

#[test]
fn both_markers_on_a_diverged_branch() {
    let report = "## dev...origin/dev [ahead 2, behind 5]\n?? notes.txt\n";
    assert_eq!(find_marker(Marker::Ahead, report), Some(true));
    assert_eq!(find_marker(Marker::Behind, report), Some(true));
}

#[test]
fn no_marker_when_in_step_with_upstream() {
    let report = "## master...origin/master\n";
    assert_eq!(find_marker(Marker::Ahead, report), Some(false));
    assert_eq!(find_marker(Marker::Behind, report), Some(false));
}

#[test]
fn no_marker_without_upstream() {
    let report = "## topic\n M a.txt\n";
    assert_eq!(find_marker(Marker::Ahead, report), Some(false));
    assert_eq!(find_marker(Marker::Behind, report), Some(false));
}

#[test]
fn no_marker_in_an_empty_report() {
    assert_eq!(find_marker(Marker::Ahead, ""), Some(false));
    assert_eq!(find_marker(Marker::Behind, ""), Some(false));
}

#[test]
fn gone_upstream_is_no_marker() {
    let report = "## topic...origin/topic [gone]\n";
    assert_eq!(find_marker(Marker::Ahead, report), Some(false));
    assert_eq!(find_marker(Marker::Behind, report), Some(false));
}

#[test]
fn file_lines_cause_no_false_match() {
    let report = "## master...origin/master\n M docs/[ahead 1].md\n?? [behind]\n";
    assert_eq!(find_marker(Marker::Ahead, report), Some(false));
    assert_eq!(find_marker(Marker::Behind, report), Some(false));
}

#[test]
fn file_lines_hide_no_marker() {
    let report = "## master...origin/master [behind 1]\n M [ahead].txt\n";
    assert_eq!(find_marker(Marker::Ahead, report), Some(false));
    assert_eq!(find_marker(Marker::Behind, report), Some(true));
}

#[test]
fn marker_word_needs_its_brackets() {
    assert_eq!(find_marker(Marker::Ahead, "## go-ahead...origin/go-ahead\n"), Some(false));
    assert_eq!(find_marker(Marker::Behind, "## behind\n"), Some(false));
    assert_eq!(find_marker(Marker::Ahead, "## x ahead]\n"), Some(false));
    assert_eq!(find_marker(Marker::Ahead, "## x [ahead\n"), Some(false));
    assert_eq!(find_marker(Marker::Ahead, "## x ]ahead[\n"), Some(false));
}

#[test]
fn marker_in_a_report_without_line_feed() {
    assert_eq!(find_marker(Marker::Ahead, "## m...o/m [ahead 12]"), Some(true));
}

#[test]
fn settle_hands_on_the_answer_of_a_search() {
    assert_eq!(settle(Ok(true)), Some(true));
    assert_eq!(settle(Ok(false)), Some(false));
}

#[test]
fn settle_has_no_answer_for_a_refused_pattern() {
    let unclosed = regex::Regex::new("(").unwrap_err();
    assert_eq!(settle(Err(unclosed)), None);
    let too_big = regex::Regex::new(r"\w{1000}").unwrap_err();
    assert_eq!(settle(Err(too_big)), None);
}
