//! The markers that the branch line of a status report carries when the
//! branch and its upstream have moved apart.

use regex::Regex;
use vstd::prelude::*;

use crate::text::{first_line, leading_line, lemma_leading_line_ignores_rest};

verus! {

/// `regex::Error`, the error of a pattern that does not compile. It is
/// handed on unread.
#[verifier::external_type_specification]
#[verifier::external_body]
pub struct ExRegexError(regex::Error);

/// One of the two markers of a branch line.
#[derive(Clone, Copy, Debug, PartialEq, Eq, Structural)]
pub enum Marker {
    /// The branch has commits that its upstream lacks.
    Ahead,
    /// The upstream has commits that the branch lacks.
    Behind,
}

impl Marker {
    /// The regular expression that finds the marker: its word between square
    /// brackets, with anything but a line feed around it.
    pub open spec fn pattern(self) -> Seq<char> {
        match self {
            Marker::Ahead => "\\[.*ahead.*\\]"@,
            Marker::Behind => "\\[.*behind.*\\]"@,
        }
    }

    /// The regular expression of the marker, as text.
    pub fn regex(self) -> (pattern: &'static str)
        ensures
            pattern@ == self.pattern(),
    {
        match self {
            Marker::Ahead => "\\[.*ahead.*\\]",
            Marker::Behind => "\\[.*behind.*\\]",
        }
    }
}

/// Whether `regex::Regex::new` accepts `pattern`: whether it is well formed
/// and what it compiles to is within the engine's size limit.
pub uninterp spec fn regex_compiles(pattern: Seq<char>) -> bool;

/// Whether the regular expression `pattern`, once compiled, has a match
/// somewhere in `text`.
pub uninterp spec fn regex_is_match(pattern: Seq<char>, text: Seq<char>) -> bool;

/// Compiles `pattern` with `regex::Regex::new` and searches `text` with
/// `regex::Regex::is_match`. The error is the one of the compilation; the
/// search itself cannot fail. What is claimed: whether the pattern compiles
/// depends on the pattern alone, and the answer of the search on the pattern
/// and the text alone. Nothing is claimed of which patterns compile, nor of
/// what any pattern matches.
#[verifier::external_body]
fn search(pattern: &str, text: &str) -> (found: Result<bool, regex::Error>)
    ensures
        found is Ok <==> regex_compiles(pattern@),
        found matches Ok(hit) ==> hit == regex_is_match(pattern@, text@),
{
    match Regex::new(pattern) {
        Ok(compiled) => Ok(compiled.is_match(text)),
        Err(refused) => Err(refused),
    }
}

/// Whether a status report carries the marker: whether the marker's regular
/// expression matches in the branch line, which is the leading line of the
/// report.
pub open spec fn has_marker(marker: Marker, status_text: Seq<char>) -> bool {
    regex_is_match(marker.pattern(), leading_line(status_text))
}

/// Looks for the marker in the branch line of a status report. `None` says
/// that the regular expression engine refused the marker's pattern.
pub fn find_marker(marker: Marker, status_text: &str) -> (found: Option<bool>)
    ensures
        found == (if regex_compiles(marker.pattern()) {
            Some(has_marker(marker, status_text@))
        } else {
            None::<bool>
        }),
{
    settle(search(marker.regex(), first_line(status_text)))
}

/// What a search comes to: its answer, or nothing where the pattern was
/// refused.
pub open spec fn settled(searched: Result<bool, regex::Error>) -> Option<bool> {
    match searched {
        Ok(hit) => Some(hit),
        Err(_) => None,
    }
}

/// Takes in what the regular expression engine said of a search: the answer
/// of a search that was made, and `None` for a pattern that was refused.
pub fn settle(searched: Result<bool, regex::Error>) -> (found: Option<bool>)
    ensures
        found == settled(searched),
{
    match searched {
        Ok(hit) => Some(hit),
        Err(_) => None,
    }
}

/// The lines that follow the branch line, one for each changed file, neither
/// add a marker to a report nor take one from it.
pub proof fn lemma_file_lines_carry_no_marker(
    marker: Marker,
    branch_line: Seq<char>,
    file_lines: Seq<char>,
)
    requires
        !branch_line.contains('\n'),
    ensures
        has_marker(marker, branch_line + seq!['\n'] + file_lines) == has_marker(
            marker,
            branch_line,
        ),
{
    lemma_leading_line_ignores_rest(branch_line, file_lines);
}

} // verus!
