use gsr::text::{first_line, trim_end};

#[test]
fn first_line_stops_at_the_first_line_feed() {
    assert_eq!(first_line("## master\n M a.txt\n?? b.txt\n"), "## master");
}

#[test]
fn first_line_of_a_text_without_line_feed_is_the_text() {
    assert_eq!(first_line("## master...origin/master"), "## master...origin/master");
}

#[test]
fn first_line_of_an_empty_text_is_empty() {
    assert_eq!(first_line(""), "");
}

#[test]
fn first_line_of_a_text_that_starts_with_a_line_feed_is_empty() {
    assert_eq!(first_line("\n## master\n"), "");
}

#[test]
fn first_line_keeps_a_carriage_return() {
    assert_eq!(first_line("## master\r\n M a\r\n"), "## master\r");
}

#[test]
fn first_line_counts_characters_not_bytes() {
    assert_eq!(first_line("## b\u{e4}r\u{2026}\u{1f600}x\nrest"), "## b\u{e4}r\u{2026}\u{1f600}x");
}

#[test]
fn trim_end_cuts_the_line_feed_after_a_path() {
    assert_eq!(trim_end("/home/me/src\n"), "/home/me/src");
}

#[test]
fn trim_end_cuts_every_kind_of_white_space() {
    assert_eq!(trim_end("a \t\r\n\u{a0}\u{2003}"), "a");
}

#[test]
fn trim_end_keeps_white_space_inside_and_in_front() {
    assert_eq!(trim_end("  my repos/src  "), "  my repos/src");
}

#[test]
fn trim_end_of_white_space_alone_is_empty() {
    assert_eq!(trim_end(" \n\t"), "");
    assert_eq!(trim_end(""), "");
}

#[test]
fn trim_end_leaves_a_text_without_trailing_white_space() {
    assert_eq!(trim_end("\u{1f600}/\u{e4}"), "\u{1f600}/\u{e4}");
}

#[test]
fn trim_end_agrees_with_the_standard_library() {
    let samples = vec!["", " ", "a", "a ", " a", "a\n\n", "a b \u{3000}", "\u{feff}x\u{200b} ", "x\u{85}"];
    for sample in samples {
        assert_eq!(trim_end(sample), sample.trim_end());
    }
}
