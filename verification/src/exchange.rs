//! One command and its response, as a state machine.
//!
//! The machine never touches a pipe. It tells its driver what to do next (a
//! [`Request`]), the driver does it and reports what happened (an [`Event`]).
//! The types take the type of text as a parameter: `String` in running code,
//! `Seq<char>` in contracts.

use vstd::prelude::*;
use vstd::string::*;
use crate::framing::{
    classify_line, ends_line, is_output, is_sendable, is_whole_line, lemma_response_text_empty,
    lemma_response_text_of_output, lemma_response_text_push, line_kind, line_of, no_marker_among,
    response_text, terminated, whole_output, LineKind, MARKER, MARKER_STATEMENT,
};
use crate::text::{has_substring, lemma_no_occurrence_across, occurs_at};

verus! {

/// Why a command got no response.
#[derive(Debug, PartialEq, Eq)]
pub enum ExecError<S> {
    /// The input pipe of the process is no longer held.
    StdinUnavailable,
    /// The output pipe of the process is no longer held.
    StdoutUnavailable,
    /// Writing the command failed, for the cause given.
    Write(S),
    /// Flushing the input pipe failed, for the cause given.
    Flush(S),
    /// Writing the sentinel statement failed, for the cause given.
    WriteMarker(S),
    /// Reading a line of output failed, for the cause given.
    Read(S),
    /// The output ended before the end marker came.
    IncompleteOutput,
}

/// What the driver is to do next.
#[derive(Debug, PartialEq, Eq)]
pub enum Request<S> {
    /// Write the text to the input pipe, then report `Written` or `Failed`.
    Write(S),
    /// Flush the input pipe, then report `Flushed` or `Failed`.
    Flush,
    /// Read one line from the output pipe, then report `Line`, `EndOfStream`
    /// or `Failed`.
    ReadLine,
    /// Nothing more: the exchange has ended with this result.
    Finish(Result<S, ExecError<S>>),
}

/// What the driver reports.
#[derive(Debug, PartialEq, Eq)]
pub enum Event<S> {
    Written,
    Flushed,
    /// What one read gave: a line of output with its terminator, or, where
    /// the output ended in the middle of a line, what was left of it.
    Line(S),
    /// The output pipe is at its end.
    EndOfStream,
    /// The request failed, for the cause given.
    Failed(S),
}

/// The state of an exchange.
#[derive(Debug, PartialEq, Eq)]
pub enum Exchange<S> {
    /// The command is to be written.
    SendCommand(S),
    FlushCommand,
    SendMarker,
    FlushMarker,
    /// Output is read; the field holds the response so far.
    Receive(S),
    Finished(Result<S, ExecError<S>>),
}

pub open spec fn outcome_view(outcome: Result<String, ExecError<String>>) -> Result<
    Seq<char>,
    ExecError<Seq<char>>,
> {
    match outcome {
        Ok(text) => Ok(text@),
        Err(error) => Err(error@),
    }
}

impl View for ExecError<String> {
    type V = ExecError<Seq<char>>;

    open spec fn view(&self) -> ExecError<Seq<char>> {
        match *self {
            ExecError::StdinUnavailable => ExecError::StdinUnavailable,
            ExecError::StdoutUnavailable => ExecError::StdoutUnavailable,
            ExecError::Write(cause) => ExecError::Write(cause@),
            ExecError::Flush(cause) => ExecError::Flush(cause@),
            ExecError::WriteMarker(cause) => ExecError::WriteMarker(cause@),
            ExecError::Read(cause) => ExecError::Read(cause@),
            ExecError::IncompleteOutput => ExecError::IncompleteOutput,
        }
    }
}

impl View for Request<String> {
    type V = Request<Seq<char>>;

    open spec fn view(&self) -> Request<Seq<char>> {
        match *self {
            Request::Write(text) => Request::Write(text@),
            Request::Flush => Request::Flush,
            Request::ReadLine => Request::ReadLine,
            Request::Finish(outcome) => Request::Finish(outcome_view(outcome)),
        }
    }
}

impl View for Event<String> {
    type V = Event<Seq<char>>;

    open spec fn view(&self) -> Event<Seq<char>> {
        match *self {
            Event::Written => Event::Written,
            Event::Flushed => Event::Flushed,
            Event::Line(line) => Event::Line(line@),
            Event::EndOfStream => Event::EndOfStream,
            Event::Failed(cause) => Event::Failed(cause@),
        }
    }
}

impl View for Exchange<String> {
    type V = Exchange<Seq<char>>;

    open spec fn view(&self) -> Exchange<Seq<char>> {
        match *self {
            Exchange::SendCommand(command) => Exchange::SendCommand(command@),
            Exchange::FlushCommand => Exchange::FlushCommand,
            Exchange::SendMarker => Exchange::SendMarker,
            Exchange::FlushMarker => Exchange::FlushMarker,
            Exchange::Receive(output) => Exchange::Receive(output@),
            Exchange::Finished(outcome) => Exchange::Finished(outcome_view(outcome)),
        }
    }
}

/// The state in which an exchange begins. A command needs both pipes: with
/// one of them gone the exchange has failed before it began.
pub open spec fn started(command: Seq<char>, stdin_held: bool, stdout_held: bool) -> Exchange<
    Seq<char>,
> {
    if !stdin_held {
        Exchange::Finished(Err(ExecError::StdinUnavailable))
    } else if !stdout_held {
        Exchange::Finished(Err(ExecError::StdoutUnavailable))
    } else {
        Exchange::SendCommand(command)
    }
}

/// What a state asks of the driver.
pub open spec fn pending(state: Exchange<Seq<char>>) -> Request<Seq<char>> {
    match state {
        Exchange::SendCommand(command) => Request::Write(line_of(command)),
        Exchange::FlushCommand => Request::Flush,
        Exchange::SendMarker => Request::Write(line_of(MARKER_STATEMENT@)),
        Exchange::FlushMarker => Request::Flush,
        Exchange::Receive(_) => Request::ReadLine,
        Exchange::Finished(outcome) => Request::Finish(outcome),
    }
}

/// The state after a line of output came. Output without a line terminator
/// is the last that the process wrote: the output has ended before the end
/// marker came.
pub open spec fn after_line(output: Seq<char>, line: Seq<char>) -> Exchange<Seq<char>> {
    match line_kind(line) {
        LineKind::Echo => Exchange::Receive(output),
        LineKind::Marker => Exchange::Finished(Ok(output)),
        LineKind::Output => if ends_line(line) {
            Exchange::Receive(output + line)
        } else {
            Exchange::Finished(Err(ExecError::IncompleteOutput))
        },
    }
}

/// The state that follows `state` on `event`. An event that does not answer
/// the pending request changes nothing.
pub open spec fn next(state: Exchange<Seq<char>>, event: Event<Seq<char>>) -> Exchange<Seq<char>> {
    match (state, event) {
        (Exchange::SendCommand(_), Event::Written) => Exchange::FlushCommand,
        (Exchange::SendCommand(_), Event::Failed(cause)) => Exchange::Finished(
            Err(ExecError::Write(cause)),
        ),
        (Exchange::FlushCommand, Event::Flushed) => Exchange::SendMarker,
        (Exchange::FlushCommand, Event::Failed(cause)) => Exchange::Finished(
            Err(ExecError::Flush(cause)),
        ),
        (Exchange::SendMarker, Event::Written) => Exchange::FlushMarker,
        (Exchange::SendMarker, Event::Failed(cause)) => Exchange::Finished(
            Err(ExecError::WriteMarker(cause)),
        ),
        (Exchange::FlushMarker, Event::Flushed) => Exchange::Receive(Seq::empty()),
        (Exchange::FlushMarker, Event::Failed(cause)) => Exchange::Finished(
            Err(ExecError::Flush(cause)),
        ),
        (Exchange::Receive(output), Event::Line(line)) => after_line(output, line),
        (Exchange::Receive(_), Event::EndOfStream) => Exchange::Finished(
            Err(ExecError::IncompleteOutput),
        ),
        (Exchange::Receive(_), Event::Failed(cause)) => Exchange::Finished(
            Err(ExecError::Read(cause)),
        ),
        _ => state,
    }
}

impl Exchange<String> {
    /// Begins the exchange for `command`. The end marker is reserved: a
    /// command must not hold it.
    pub fn start(command: &str, stdin_held: bool, stdout_held: bool) -> (exchange: Self)
        requires
            is_sendable(command@),
        ensures
            exchange@ == started(command@, stdin_held, stdout_held),
    {
        if !stdin_held {
            Exchange::Finished(Err(ExecError::StdinUnavailable))
        } else if !stdout_held {
            Exchange::Finished(Err(ExecError::StdoutUnavailable))
        } else {
            Exchange::SendCommand(String::from_str(command))
        }
    }

    /// What the driver is to do now.
    pub fn request(&self) -> (request: Request<String>)
        ensures
            request@ == pending(self@),
    {
        match self {
            Exchange::SendCommand(command) => Request::Write(terminated(command.as_str())),
            Exchange::FlushCommand => Request::Flush,
            Exchange::SendMarker => Request::Write(terminated(MARKER_STATEMENT)),
            Exchange::FlushMarker => Request::Flush,
            Exchange::Receive(_) => Request::ReadLine,
            Exchange::Finished(outcome) => Request::Finish(copy_outcome(outcome)),
        }
    }

    /// Takes what the driver reports and moves on.
    pub fn advance(self, event: Event<String>) -> (exchange: Self)
        ensures
            exchange@ == next(self@, event@),
    {
        match self {
            Exchange::SendCommand(command) => match event {
                Event::Written => Exchange::FlushCommand,
                Event::Failed(cause) => Exchange::Finished(Err(ExecError::Write(cause))),
                _ => Exchange::SendCommand(command),
            },
            Exchange::FlushCommand => match event {
                Event::Flushed => Exchange::SendMarker,
                Event::Failed(cause) => Exchange::Finished(Err(ExecError::Flush(cause))),
                _ => Exchange::FlushCommand,
            },
            Exchange::SendMarker => match event {
                Event::Written => Exchange::FlushMarker,
                Event::Failed(cause) => Exchange::Finished(Err(ExecError::WriteMarker(cause))),
                _ => Exchange::SendMarker,
            },
            Exchange::FlushMarker => match event {
                Event::Flushed => Exchange::Receive(String::new()),
                Event::Failed(cause) => Exchange::Finished(Err(ExecError::Flush(cause))),
                _ => Exchange::FlushMarker,
            },
            Exchange::Receive(output) => match event {
                Event::Line(line) => match classify_line(line.as_str()) {
                    LineKind::Echo => Exchange::Receive(output),
                    LineKind::Marker => Exchange::Finished(Ok(output)),
                    LineKind::Output => {
                        if is_whole_line(line.as_str()) {
                            let mut output = output;
                            output.append(line.as_str());
                            Exchange::Receive(output)
                        } else {
                            Exchange::Finished(Err(ExecError::IncompleteOutput))
                        }
                    },
                },
                Event::EndOfStream => Exchange::Finished(Err(ExecError::IncompleteOutput)),
                Event::Failed(cause) => Exchange::Finished(Err(ExecError::Read(cause))),
                _ => Exchange::Receive(output),
            },
            Exchange::Finished(outcome) => Exchange::Finished(outcome),
        }
    }
}

/// What an error says to a reader.
pub open spec fn error_text(error: ExecError<Seq<char>>) -> Seq<char> {
    match error {
        ExecError::StdinUnavailable => "stdin is not available"@,
        ExecError::StdoutUnavailable => "stdout is not available"@,
        ExecError::Write(cause) => "Failed to write: "@ + cause,
        ExecError::Flush(cause) => "Failed to flush: "@ + cause,
        ExecError::WriteMarker(cause) => "Failed to write marker: "@ + cause,
        ExecError::Read(cause) => "Failed to read: "@ + cause,
        ExecError::IncompleteOutput => "Failed to read complete output"@,
    }
}

impl ExecError<String> {
    /// The error as a sentence, with its cause where it has one.
    pub fn message(&self) -> (text: String)
        ensures
            text@ == error_text(self@),
    {
        match self {
            ExecError::StdinUnavailable => String::from_str("stdin is not available"),
            ExecError::StdoutUnavailable => String::from_str("stdout is not available"),
            ExecError::Write(cause) => String::from_str("Failed to write: ").concat(cause.as_str()),
            ExecError::Flush(cause) => String::from_str("Failed to flush: ").concat(cause.as_str()),
            ExecError::WriteMarker(cause) => String::from_str("Failed to write marker: ").concat(
                cause.as_str(),
            ),
            ExecError::Read(cause) => String::from_str("Failed to read: ").concat(cause.as_str()),
            ExecError::IncompleteOutput => String::from_str("Failed to read complete output"),
        }
    }
}

/// A copy of the result of an exchange.
fn copy_outcome(outcome: &Result<String, ExecError<String>>) -> (copy: Result<
    String,
    ExecError<String>,
>)
    ensures
        outcome_view(copy) == outcome_view(*outcome),
{
    match outcome {
        Ok(text) => Ok(text.clone()),
        Err(ExecError::StdinUnavailable) => Err(ExecError::StdinUnavailable),
        Err(ExecError::StdoutUnavailable) => Err(ExecError::StdoutUnavailable),
        Err(ExecError::Write(cause)) => Err(ExecError::Write(cause.clone())),
        Err(ExecError::Flush(cause)) => Err(ExecError::Flush(cause.clone())),
        Err(ExecError::WriteMarker(cause)) => Err(ExecError::WriteMarker(cause.clone())),
        Err(ExecError::Read(cause)) => Err(ExecError::Read(cause.clone())),
        Err(ExecError::IncompleteOutput) => Err(ExecError::IncompleteOutput),
    }
}

/// The state reached from `state` when `events` come one after the other.
pub open spec fn run(state: Exchange<Seq<char>>, events: Seq<Event<Seq<char>>>) -> Exchange<
    Seq<char>,
>
    decreases events.len(),
{
    if events.len() == 0 {
        state
    } else {
        next(run(state, events.drop_last()), events.last())
    }
}

/// The events of a driver whose writes and flushes all succeed.
pub open spec fn sent() -> Seq<Event<Seq<char>>> {
    seq![Event::Written, Event::Flushed, Event::Written, Event::Flushed]
}

/// The events of a driver that reads `lines`, one after the other.
pub open spec fn lines_read(lines: Seq<Seq<char>>) -> Seq<Event<Seq<char>>> {
    Seq::new(lines.len(), |i: int| Event::Line(lines[i]))
}

/// Events that come after others continue the run where those left it.
pub proof fn lemma_run_split(
    state: Exchange<Seq<char>>,
    first: Seq<Event<Seq<char>>>,
    second: Seq<Event<Seq<char>>>,
)
    ensures
        run(state, first + second) == run(run(state, first), second),
    decreases second.len(),
{
    if second.len() > 0 {
        assert((first + second).drop_last() =~= first + second.drop_last());
        lemma_run_split(state, first, second.drop_last());
    }
}

/// A finished exchange stays as it is, whatever is reported to it.
pub proof fn lemma_finished_is_final(
    outcome: Result<Seq<char>, ExecError<Seq<char>>>,
    events: Seq<Event<Seq<char>>>,
)
    ensures
        run(Exchange::Finished(outcome), events) == Exchange::Finished(outcome),
    decreases events.len(),
{
    if events.len() > 0 {
        lemma_finished_is_final(outcome, events.drop_last());
    }
}

/// How many steps of sending lie behind a state that is still sending.
spec fn steps_sent(state: Exchange<Seq<char>>) -> nat {
    match state {
        Exchange::SendCommand(_) => 0,
        Exchange::FlushCommand => 1,
        Exchange::SendMarker => 2,
        Exchange::FlushMarker => 3,
        Exchange::Receive(_) => 4,
        Exchange::Finished(_) => 0,
    }
}

/// Every event takes the sending one step further at most.
proof fn lemma_one_step_at_a_time(command: Seq<char>, events: Seq<Event<Seq<char>>>)
    ensures
        steps_sent(run(Exchange::SendCommand(command), events)) <= events.len(),
    decreases events.len(),
{
    if events.len() > 0 {
        lemma_one_step_at_a_time(command, events.drop_last());
    }
}

/// The exchange is half-duplex: nothing is read before the command and the
/// sentinel statement are both written and flushed, whatever is reported.
pub proof fn lemma_no_read_before_all_is_sent(command: Seq<char>, events: Seq<Event<Seq<char>>>)
    requires
        events.len() < 4,
    ensures
        pending(run(started(command, true, true), events)) != Request::<Seq<char>>::ReadLine,
{
    lemma_one_step_at_a_time(command, events);
}

/// With both pipes held and no failure, the four steps of sending lead to
/// reading, with nothing received yet.
pub proof fn lemma_sent_leads_to_receive(command: Seq<char>)
    ensures
        run(started(command, true, true), sent()) == Exchange::Receive(Seq::<char>::empty()),
{
    let state = started(command, true, true);
    let one = seq![Event::<Seq<char>>::Written];
    let two = one.push(Event::Flushed);
    let three = two.push(Event::Written);
    assert(run(state, one.drop_last()) == state);
    assert(run(state, one) == Exchange::<Seq<char>>::FlushCommand);
    assert(two.drop_last() =~= one);
    assert(run(state, two) == Exchange::<Seq<char>>::SendMarker);
    assert(three.drop_last() =~= two);
    assert(run(state, three) == Exchange::<Seq<char>>::FlushMarker);
    assert(sent().drop_last() =~= three);
}

/// While no end marker comes and the output comes in whole lines, reading
/// goes on and the response grows by the output lines, in their order.
pub proof fn lemma_lines_accumulate(output: Seq<char>, lines: Seq<Seq<char>>)
    requires
        no_marker_among(lines),
        whole_output(lines),
    ensures
        run(Exchange::Receive(output), lines_read(lines)) == Exchange::Receive(
            output + response_text(lines),
        ),
    decreases lines.len(),
{
    if lines.len() == 0 {
        lemma_response_text_empty();
    } else {
        let before = lines.drop_last();
        assert(lines =~= before.push(lines.last()));
        assert(lines_read(lines).drop_last() =~= lines_read(before));
        lemma_lines_accumulate(output, before);
        lemma_response_text_push(before, lines.last());
        if is_output(lines.last()) {
            assert(output + response_text(lines) =~= (output + response_text(before))
                + lines.last());
        }
    }
}

/// A command whose writes and flushes succeed, and whose output is `lines`
/// followed by the end marker, returns the output lines among `lines`, joined
/// in their order: the marker line and every echo of the sentinel statement
/// are left out, and nothing else is.
pub proof fn lemma_response_is_output(
    command: Seq<char>,
    lines: Seq<Seq<char>>,
    marker: Seq<char>,
)
    requires
        no_marker_among(lines),
        whole_output(lines),
        line_kind(marker) == LineKind::Marker,
    ensures
        run(started(command, true, true), sent() + lines_read(lines.push(marker)))
            == Exchange::Finished(Ok(response_text(lines))),
{
    let state = started(command, true, true);
    let reads = lines_read(lines.push(marker));
    lemma_run_split(state, sent(), reads);
    lemma_sent_leads_to_receive(command);
    assert(reads.drop_last() =~= lines_read(lines));
    lemma_lines_accumulate(Seq::empty(), lines);
}

/// A command whose writes and flushes succeed, and whose output is the
/// whole lines `lines`, none of them holding the end marker, followed by the
/// end marker, returns exactly `lines`, joined in their order.
pub proof fn lemma_response_is_exactly_the_output(
    command: Seq<char>,
    lines: Seq<Seq<char>>,
    marker: Seq<char>,
)
    requires
        forall|i: int| 0 <= i < lines.len() ==> is_output(#[trigger] lines[i]),
        forall|i: int| 0 <= i < lines.len() ==> ends_line(#[trigger] lines[i]),
        line_kind(marker) == LineKind::Marker,
    ensures
        run(started(command, true, true), sent() + lines_read(lines.push(marker)))
            == Exchange::Finished(Ok(lines.flatten())),
{
    lemma_response_is_output(command, lines, marker);
    lemma_response_text_of_output(lines);
}

/// While no end marker comes, the exchange reads on or has ended because
/// the output was incomplete.
proof fn lemma_reading_or_incomplete(output: Seq<char>, lines: Seq<Seq<char>>)
    requires
        no_marker_among(lines),
    ensures
        run(Exchange::Receive(output), lines_read(lines)) is Receive || run(
            Exchange::Receive(output),
            lines_read(lines),
        ) == Exchange::<Seq<char>>::Finished(Err(ExecError::IncompleteOutput)),
    decreases lines.len(),
{
    if lines.len() > 0 {
        let before = lines.drop_last();
        assert(lines_read(lines).drop_last() =~= lines_read(before));
        lemma_reading_or_incomplete(output, before);
    }
}

/// Output that ends before the end marker came is an error, whatever was
/// read until then.
pub proof fn lemma_incomplete_output(command: Seq<char>, lines: Seq<Seq<char>>)
    requires
        no_marker_among(lines),
    ensures
        run(
            started(command, true, true),
            sent() + lines_read(lines).push(Event::EndOfStream),
        ) == Exchange::<Seq<char>>::Finished(Err(ExecError::IncompleteOutput)),
{
    let state = started(command, true, true);
    let reads = lines_read(lines).push(Event::EndOfStream);
    lemma_run_split(state, sent(), reads);
    lemma_sent_leads_to_receive(command);
    assert(reads.drop_last() =~= lines_read(lines));
    lemma_reading_or_incomplete(Seq::empty(), lines);
}

/// A response that holds the end marker nowhere and ends with a line
/// terminator, unless it is empty.
pub open spec fn is_clean(output: Seq<char>) -> bool {
    &&& !has_substring(output, MARKER@)
    &&& output.len() > 0 ==> output.last() == '\n'
}

/// What has been received, and what is returned, is clean in every state.
pub open spec fn holds_clean_output(state: Exchange<Seq<char>>) -> bool {
    match state {
        Exchange::Receive(output) => is_clean(output),
        Exchange::Finished(Ok(output)) => is_clean(output),
        _ => true,
    }
}

/// No event takes a state with clean output to one without.
pub proof fn lemma_step_keeps_output_clean(state: Exchange<Seq<char>>, event: Event<Seq<char>>)
    requires
        holds_clean_output(state),
    ensures
        holds_clean_output(next(state, event)),
{
    reveal_strlit("MARKER_END");
    match (state, event) {
        (Exchange::FlushMarker, Event::Flushed) => {
            assert forall|at: int| !occurs_at(Seq::<char>::empty(), MARKER@, at) by {}
        },
        (Exchange::Receive(output), Event::Line(line)) => {
            if is_output(line) && ends_line(line) {
                lemma_no_occurrence_across(output, line, MARKER@, '\n');
            }
        },
        _ => {},
    }
}

/// Whatever the driver reports, in whatever order: a response that is
/// returned holds the end marker nowhere, and it is empty or ends with a line
/// terminator. It is made of whole lines of output, and of nothing else.
pub proof fn lemma_every_response_is_clean(
    command: Seq<char>,
    stdin_held: bool,
    stdout_held: bool,
    events: Seq<Event<Seq<char>>>,
)
    ensures
        holds_clean_output(run(started(command, stdin_held, stdout_held), events)),
    decreases events.len(),
{
    if events.len() > 0 {
        lemma_every_response_is_clean(command, stdin_held, stdout_held, events.drop_last());
        lemma_step_keeps_output_clean(
            run(started(command, stdin_held, stdout_held), events.drop_last()),
            events.last(),
        );
    }
}

} // verus!
