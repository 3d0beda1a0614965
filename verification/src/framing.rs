//! How commands and responses are framed on the pipes of the process.
//!
//! The process gives no sign of its own that a response is complete. So every
//! command is followed by a sentinel statement whose only output is a line
//! holding the end marker. The lines read before that line are the response.

use vstd::prelude::*;
use vstd::string::*;
use crate::text::{chars_of, contains, has_substring, lemma_no_occurrence_across, occurs_at};

verus! {

/// The text whose appearance in a line of output ends a response. It is
/// reserved: a command whose own output holds it cannot be framed, so no
/// command may hold it (see [`is_sendable`]).
pub const MARKER: &'static str = "MARKER_END";

/// The sentinel statement, sent after every command.
pub const MARKER_STATEMENT: &'static str = "SELECT 'MARKER_END';";

/// What a line holds when the process repeats the sentinel statement.
pub const MARKER_ECHO: &'static str = "SELECT 'MARKER_END'";

/// The directive that asks the process to leave.
pub const EXIT_DIRECTIVE: &'static str = ".exit";

/// What a line of output is to the framing.
#[derive(Clone, Copy, Debug, PartialEq, Eq, Structural)]
pub enum LineKind {
    /// The process repeating the sentinel statement: dropped.
    Echo,
    /// The end marker: the response is complete, the line is dropped.
    Marker,
    /// Part of the response.
    Output,
}

/// `text` followed by a line terminator.
pub open spec fn line_of(text: Seq<char>) -> Seq<char> {
    text.push('\n')
}

/// A line that repeats the sentinel statement.
pub open spec fn is_echo(line: Seq<char>) -> bool {
    has_substring(line, MARKER_ECHO@)
}

/// A line that holds the end marker and is no echo of the sentinel statement.
pub open spec fn is_marker(line: Seq<char>) -> bool {
    !is_echo(line) && has_substring(line, MARKER@)
}

/// What `line` is to the framing. An echo of the sentinel statement holds
/// the end marker too, so a line is an echo before it is anything else.
pub open spec fn line_kind(line: Seq<char>) -> LineKind {
    if is_echo(line) {
        LineKind::Echo
    } else if is_marker(line) {
        LineKind::Marker
    } else {
        LineKind::Output
    }
}

/// A line that is part of the response.
pub open spec fn is_output(line: Seq<char>) -> bool {
    line_kind(line) == LineKind::Output
}

/// The test by which the lines of a response are chosen.
pub open spec fn output_lines() -> spec_fn(Seq<char>) -> bool {
    |line: Seq<char>| is_output(line)
}

/// The response that `lines` amount to: the output lines among them, joined
/// in the order in which they came.
pub open spec fn response_text(lines: Seq<Seq<char>>) -> Seq<char> {
    lines.filter(output_lines()).flatten()
}

/// None of `lines` is the end marker.
pub open spec fn no_marker_among(lines: Seq<Seq<char>>) -> bool {
    forall|i: int| 0 <= i < lines.len() ==> line_kind(#[trigger] lines[i]) != LineKind::Marker
}

/// A line that ends with a line terminator.
pub open spec fn ends_line(line: Seq<char>) -> bool {
    line.len() > 0 && line.last() == '\n'
}

/// The output lines among `lines` all end with a line terminator.
pub open spec fn whole_output(lines: Seq<Seq<char>>) -> bool {
    forall|i: int| 0 <= i < lines.len() && is_output(#[trigger] lines[i]) ==> ends_line(lines[i])
}

/// A command that may be sent: the end marker is reserved, so a command must
/// not hold it.
pub open spec fn is_sendable(command: Seq<char>) -> bool {
    !has_substring(command, MARKER@)
}

/// No lines, no response.
pub proof fn lemma_response_text_empty()
    ensures
        response_text(Seq::empty()) == Seq::<char>::empty(),
{
    reveal(Seq::filter);
}

/// One more line adds itself to the response if it is output, and nothing
/// if it is not.
pub proof fn lemma_response_text_push(lines: Seq<Seq<char>>, line: Seq<char>)
    ensures
        response_text(lines.push(line)) == if is_output(line) {
            response_text(lines) + line
        } else {
            response_text(lines)
        },
{
    lines.lemma_filter_push(line, output_lines());
    lines.filter(output_lines()).lemma_flatten_push(line);
}

/// Where every line is output, the response is all of them, joined.
pub proof fn lemma_response_text_of_output(lines: Seq<Seq<char>>)
    requires
        forall|i: int| 0 <= i < lines.len() ==> is_output(#[trigger] lines[i]),
    ensures
        response_text(lines) == lines.flatten(),
    decreases lines.len(),
{
    if lines.len() == 0 {
        lemma_response_text_empty();
    } else {
        let before = lines.drop_last();
        assert(lines =~= before.push(lines.last()));
        lemma_response_text_of_output(before);
        lemma_response_text_push(before, lines.last());
        before.lemma_flatten_push(lines.last());
    }
}

/// Every echo of the sentinel statement holds the end marker.
pub proof fn lemma_echo_holds_marker(line: Seq<char>)
    requires
        is_echo(line),
    ensures
        has_substring(line, MARKER@),
{
    reveal_strlit("MARKER_END");
    reveal_strlit("SELECT 'MARKER_END'");
    let at = choose|at: int| occurs_at(line, MARKER_ECHO@, at);
    let echo = line.subrange(at, at + MARKER_ECHO@.len());
    assert(line.subrange(at + 8, at + 8 + MARKER@.len()) =~= echo.subrange(8, 18));
    assert(MARKER_ECHO@.subrange(8, 18) =~= MARKER@);
    assert(occurs_at(line, MARKER@, at + 8));
}

/// The end marker never shows in a response: where every output line ends
/// with a line terminator, the joined lines hold the marker nowhere, not even
/// across the end of a line; and the response ends with a line terminator,
/// unless it is empty.
pub proof fn lemma_response_holds_no_marker(lines: Seq<Seq<char>>)
    requires
        whole_output(lines),
    ensures
        !has_substring(response_text(lines), MARKER@),
        response_text(lines).len() > 0 ==> response_text(lines).last() == '\n',
    decreases lines.len(),
{
    reveal_strlit("MARKER_END");
    if lines.len() == 0 {
        lemma_response_text_empty();
    } else {
        let before = lines.drop_last();
        let line = lines.last();
        assert(lines =~= before.push(line));
        lemma_response_holds_no_marker(before);
        lemma_response_text_push(before, line);
        if is_output(line) {
            lemma_no_occurrence_across(response_text(before), line, MARKER@, '\n');
        }
    }
}

/// `text` as one line of input for the process.
pub fn terminated(text: &str) -> (line: String)
    ensures
        line@ == line_of(text@),
{
    let mut line = String::from_str(text);
    line.push('\n');
    line
}

/// Whether `line` ends with a line terminator.
pub fn is_whole_line(line: &str) -> (whole: bool)
    ensures
        whole == ends_line(line@),
{
    let chars = chars_of(line);
    chars.len() > 0 && chars[chars.len() - 1] == '\n'
}

/// Whether `command` may be sent: it must not hold the end marker.
pub fn check_sendable(command: &str) -> (sendable: bool)
    ensures
        sendable == is_sendable(command@),
{
    !contains(command, MARKER)
}

/// Tells what a line read from the process is.
pub fn classify_line(line: &str) -> (kind: LineKind)
    ensures
        kind == line_kind(line@),
{
    if contains(line, MARKER_ECHO) {
        LineKind::Echo
    } else if contains(line, MARKER) {
        LineKind::Marker
    } else {
        LineKind::Output
    }
}

} // verus!
