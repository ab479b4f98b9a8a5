//! Searching a text for the lines that hold a query.

use vstd::prelude::*;

verus! {

/// The position of the first line feed of a text, or its length where it has none.
pub open spec fn first_line_feed(text: Seq<char>) -> int
    decreases text.len(),
{
    if text.len() == 0 || text[0] == '\n' {
        0
    } else {
        1 + first_line_feed(text.drop_first())
    }
}

/// The lines of a text, in order. A line ends at a line feed; the line feed,
/// and a carriage return just before it, do not belong to the line. What
/// follows the last line feed is a line of its own unless it is empty.
pub open spec fn text_lines(text: Seq<char>) -> Seq<Seq<char>>
    decreases text.len(),
{
    let end = first_line_feed(text);
    if text.len() == 0 {
        Seq::empty()
    } else if end < 0 || end >= text.len() {
        seq![text]
    } else {
        let line = text.subrange(0, end);
        let line = if line.len() > 0 && line.last() == '\r' {
            line.drop_last()
        } else {
            line
        };
        seq![line] + text_lines(text.subrange(end + 1, text.len() as int))
    }
}

/// Whether `needle` occurs in `text` as a run of consecutive characters.
pub open spec fn occurs_in(needle: Seq<char>, text: Seq<char>) -> bool {
    exists|start: int|
        0 <= start && start + needle.len() <= text.len() && #[trigger] text.subrange(
            start,
            start + needle.len(),
        ) == needle
}

/// The texts that a vector of string slices holds.
pub open spec fn texts_of(lines: Seq<&str>) -> Seq<Seq<char>> {
    Seq::new(lines.len(), |i: int| lines[i]@)
}

/// Calls `str::lines` and collects what it yields. Trusted: the slices are
/// the lines of the text as `text_lines` states them: split at line feeds,
/// without the line feed and a carriage return before it, and without an
/// empty line after the last line feed.
#[verifier::external_body]
fn split_lines<'a>(contents: &'a str) -> (lines: Vec<&'a str>)
    ensures
        texts_of(lines@) == text_lines(contents@),
{
    contents.lines().collect()
}

/// Calls `str::contains` with a string pattern. Trusted: the answer says
/// whether the pattern occurs in the text.
#[verifier::external_body]
fn contains_text(text: &str, pattern: &str) -> (found: bool)
    ensures
        found == occurs_in(pattern@, text@),
{
    text.contains(pattern)
}

/// Those of `lines` in which `query` occurs, in their order.
pub fn matching_lines<'a>(query: &str, lines: &Vec<&'a str>) -> (results: Vec<&'a str>)
    ensures
        texts_of(results@) == texts_of(lines@).filter(
            |line: Seq<char>| occurs_in(query@, line),
        ),
{
    let mut results: Vec<&'a str> = Vec::new();
    let ghost holds = |line: Seq<char>| occurs_in(query@, line);
    let mut i: usize = 0;
    proof {
        reveal(Seq::filter);
    }
    while i < lines.len()
        invariant
            i <= lines.len(),
            holds == (|line: Seq<char>| occurs_in(query@, line)),
            texts_of(results@) == texts_of(lines@).take(i as int).filter(holds),
        decreases lines.len() - i,
    {
        let line = lines[i];
        let ghost seen = texts_of(lines@).take(i as int);
        if contains_text(line, query) {
            results.push(line);
        }
        proof {
            reveal(Seq::filter);
            assert(texts_of(lines@).take(i + 1) =~= seen.push(line@));
            assert(seen.push(line@).drop_last() =~= seen);
        }
        i += 1;
    }
    assert(texts_of(lines@).take(lines.len() as int) =~= texts_of(lines@));
    results
}

/// The lines of `contents` in which `query` occurs, in their order.
pub fn search<'a>(query: &str, contents: &'a str) -> (results: Vec<&'a str>)
    ensures
        texts_of(results@) == text_lines(contents@).filter(
            |line: Seq<char>| occurs_in(query@, line),
        ),
{
    let lines = split_lines(contents);
    matching_lines(query, &lines)
}

} // verus!
