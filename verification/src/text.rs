//! Lines and white space in the texts that the tools write.

use vstd::prelude::*;
use vstd::std_specs::iter::IteratorSpec;
use vstd::string::*;

verus! {

/// The texts of a sequence of strings.
pub open spec fn texts(strings: Seq<String>) -> Seq<Seq<char>> {
    strings.map_values(|s: String| s@)
}

/// The leading line of a text: what stands before its first line feed, or
/// all of it where it has none.
pub open spec fn leading_line(text: Seq<char>) -> Seq<char> {
    match text.index_of_first('\n') {
        Some(end) => text.take(end),
        None => text,
    }
}

/// The leading line is a prefix of the text without a line feed, and the text
/// either ends with it or goes on with a line feed.
pub proof fn lemma_leading_line(text: Seq<char>)
    ensures
        leading_line(text).is_prefix_of(text),
        !leading_line(text).contains('\n'),
        leading_line(text).len() < text.len() ==> text[leading_line(text).len() as int] == '\n',
{
    text.index_of_first_ensures('\n');
    let line = leading_line(text);
    if line.contains('\n') {
        let at = choose|i: int| 0 <= i < line.len() && line[i] == '\n';
        assert(text[at] == '\n');
    }
}

/// What follows the first line feed does not matter: a line without a line
/// feed is the leading line of every text that starts with it and goes on
/// with a line feed, and of itself.
pub proof fn lemma_leading_line_ignores_rest(line: Seq<char>, rest: Seq<char>)
    requires
        !line.contains('\n'),
    ensures
        leading_line(line + seq!['\n'] + rest) == line,
        leading_line(line) == line,
{
    let text = line + seq!['\n'] + rest;
    text.index_of_first_ensures('\n');
    line.index_of_first_ensures('\n');
    assert(text[line.len() as int] == '\n');
    let end = text.index_of_first('\n')->0;
    if end < line.len() {
        assert(line[end] == '\n');
    }
    assert(text.take(end) =~= line);
}

/// The leading line of a text.
pub fn first_line(text: &str) -> (line: &str)
    ensures
        line@ == leading_line(text@),
{
    broadcast use vstd::string::group_string_axioms;

    let n: usize = text.unicode_len();
    let mut rest = text.chars();
    let mut end: usize = 0;
    loop
        invariant_except_break
            rest.remaining() == text@.skip(end as int),
        invariant
            n == text@.len(),
            end <= n,
            forall|j: int| 0 <= j < end ==> text@[j] != '\n',
        ensures
            end == n || text@[end as int] == '\n',
        decreases n - end,
    {
        match rest.next() {
            Some(c) => {
                if c == '\n' {
                    break;
                }
                end += 1;
            },
            None => {
                break;
            },
        }
    }
    proof {
        text@.index_of_first_ensures('\n');
    }
    text.substring_char(0, end)
}

/// Whether a character has the Unicode property `White_Space`.
pub uninterp spec fn is_whitespace(c: char) -> bool;

/// Asks `char::is_whitespace` of the standard library, which by its
/// documentation says whether the character has the property `White_Space`.
/// What is claimed: the answer is that property of the character.
#[verifier::external_body]
fn whitespace(c: char) -> (blank: bool)
    ensures
        blank == is_whitespace(c),
{
    c.is_whitespace()
}

/// A text without the white space at its end.
pub open spec fn trimmed_end(text: Seq<char>) -> Seq<char>
    decreases text.len(),
{
    if text.len() > 0 && is_whitespace(text.last()) {
        trimmed_end(text.drop_last())
    } else {
        text
    }
}

/// A prefix of a text that does not end in white space, and after which the
/// text holds white space only, is the text without the white space at its
/// end.
pub proof fn lemma_trimmed_end(text: Seq<char>, kept: int)
    requires
        0 <= kept <= text.len(),
        kept > 0 ==> !is_whitespace(text[kept - 1]),
        forall|i: int| kept <= i < text.len() ==> is_whitespace(text[i]),
    ensures
        trimmed_end(text) == text.take(kept),
    decreases text.len(),
{
    if kept < text.len() {
        let shorter = text.drop_last();
        lemma_trimmed_end(shorter, kept);
        assert(shorter.take(kept) =~= text.take(kept));
    } else {
        assert(text.take(kept) =~= text);
    }
}

/// Cuts the white space off the end of a text.
pub fn trim_end(text: &str) -> (kept: &str)
    ensures
        kept@ == trimmed_end(text@),
{
    broadcast use vstd::string::group_string_axioms;

    let n: usize = text.unicode_len();
    let mut rest = text.chars();
    let mut at: usize = 0;
    let mut kept: usize = 0;
    loop
        invariant_except_break
            rest.remaining() == text@.skip(at as int),
        invariant
            n == text@.len(),
            kept <= at <= n,
            kept > 0 ==> !is_whitespace(text@[kept - 1]),
            forall|i: int| kept <= i < at ==> is_whitespace(text@[i]),
        ensures
            at == n,
        decreases n - at,
    {
        match rest.next() {
            Some(c) => {
                at += 1;
                if !whitespace(c) {
                    kept = at;
                }
            },
            None => {
                break;
            },
        }
    }
    proof {
        lemma_trimmed_end(text@, kept as int);
    }
    text.substring_char(0, kept)
}

} // verus!
