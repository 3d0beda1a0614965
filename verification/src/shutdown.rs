//! The end of a session, as a state machine.
//!
//! The process is asked to leave, its diagnostic output is read to the end,
//! and its exit is awaited for a bounded time. A process that outstays the
//! bound is killed, and the sequence aborts. The machine decides; its driver
//! holds the pipes, the process and the clock.

use std::time::Duration;
use vstd::prelude::*;
use vstd::string::*;
use crate::framing::{line_of, terminated, EXIT_DIRECTIVE};

verus! {

/// How long the exit of the process is awaited, in seconds.
pub const CEILING_SECS: u64 = 60;

/// How long the driver sleeps between two looks at the process, in
/// milliseconds.
pub const POLL_INTERVAL_MILLIS: u64 = 100;

/// The length of a span of time, in nanoseconds.
pub uninterp spec fn nanos_of(span: Duration) -> nat;

/// `Duration::as_nanos` gives the whole length of the span in nanoseconds.
pub assume_specification[ Duration::as_nanos ](span: &Duration) -> (nanos: u128)
    ensures
        nanos == nanos_of(*span),
;

/// `Duration::from_secs` gives a span of that many whole seconds.
pub assume_specification[ Duration::from_secs ](secs: u64) -> (span: Duration)
    ensures
        nanos_of(span) == secs * 1_000_000_000,
;

/// The text that a run of bytes stands for, where every stretch of bytes
/// that is no UTF-8 has become the replacement character.
pub uninterp spec fn lossy_text(bytes: Seq<u8>) -> Seq<char>;

/// `String::from_utf8_lossy` turns bytes into text and never fails: what is
/// no UTF-8 is replaced. The text depends on the bytes alone.
#[verifier::external_body]
fn decode_lossy(bytes: &[u8]) -> (text: String)
    ensures
        text@ == lossy_text(bytes@),
{
    String::from_utf8_lossy(bytes).into_owned()
}

/// Whether the time that has passed exceeds the time allowed. A wait that has
/// lasted exactly as long as allowed has not timed out.
pub fn is_timed_out(elapsed: Duration, timeout: Duration) -> (timed_out: bool)
    ensures
        timed_out == (nanos_of(elapsed) > nanos_of(timeout)),
{
    elapsed.as_nanos() > timeout.as_nanos()
}

/// Whether the exit of the process deserves a warning: only a failed exit
/// that left diagnostic output behind does.
pub fn should_log_error(success: bool, stderr_empty: bool) -> (log: bool)
    ensures
        log == (!success && !stderr_empty),
{
    !success && !stderr_empty
}

/// What the driver is to do next.
#[derive(Debug, PartialEq, Eq)]
pub enum Directive<S> {
    /// Write the text to the input pipe and flush it, whatever fails; then
    /// report `ExitSent`.
    SendExit(S),
    /// Read the diagnostic pipe to its end, whatever fails; then report
    /// what was read, as [`Report::drained`] gives it.
    Drain,
    /// Start to measure time; then ask whether the process has left, without
    /// waiting for it, and report the answer.
    Poll,
    /// Sleep for so many milliseconds; then ask again and report the answer,
    /// with the time measured since `Poll`.
    Sleep(u64),
    /// Nothing more.
    Return,
    /// Log the two lines as a warning. Nothing more.
    WarnAndReturn { headline: S, detail: S },
    /// Log the line and kill the process. Nothing more.
    KillAndReturn { headline: S },
    /// Log the two lines, kill the process and abort with the message.
    KillAndAbort { headline: S, detail: S, message: S },
}

/// What the driver reports.
#[derive(Debug, PartialEq, Eq)]
pub enum Report<S> {
    ExitSent,
    /// The diagnostic output of the process.
    Drained(S),
    /// The process has left. `status` describes how, for a reader.
    Exited { success: bool, status: S },
    /// The process has not left yet, so long after the first look at it.
    Running { elapsed: Duration },
    /// Whether the process has left could not be asked, for the cause given.
    QueryFailed(S),
}

/// The state of a shutdown. The last four states are final.
#[derive(Debug, PartialEq, Eq)]
pub enum Shutdown<S> {
    /// The process is asked to leave. `drain` and `wait` tell whether the
    /// diagnostic pipe and the process are held.
    SendingExit { drain: bool, wait: bool, db_path: S },
    /// The diagnostic output is read.
    Draining { wait: bool, db_path: S },
    /// The exit of the process is awaited. `polled` tells whether the
    /// process has been looked at before.
    Waiting { polled: bool, diagnostics: S, db_path: S },
    /// No process was held: there was nothing to wait for.
    Detached,
    /// The process has left by itself.
    Exited { success: bool, status: S, diagnostics: S },
    /// The process outstayed the ceiling and was killed.
    Killed { db_path: S },
    /// The process could not be asked and was killed.
    QueryFailed { cause: S },
}

impl View for Directive<String> {
    type V = Directive<Seq<char>>;

    open spec fn view(&self) -> Directive<Seq<char>> {
        match *self {
            Directive::SendExit(text) => Directive::SendExit(text@),
            Directive::Drain => Directive::Drain,
            Directive::Poll => Directive::Poll,
            Directive::Sleep(millis) => Directive::Sleep(millis),
            Directive::Return => Directive::Return,
            Directive::WarnAndReturn { headline, detail } => Directive::WarnAndReturn {
                headline: headline@,
                detail: detail@,
            },
            Directive::KillAndReturn { headline } => Directive::KillAndReturn {
                headline: headline@,
            },
            Directive::KillAndAbort { headline, detail, message } => Directive::KillAndAbort {
                headline: headline@,
                detail: detail@,
                message: message@,
            },
        }
    }
}

impl View for Report<String> {
    type V = Report<Seq<char>>;

    open spec fn view(&self) -> Report<Seq<char>> {
        match *self {
            Report::ExitSent => Report::ExitSent,
            Report::Drained(text) => Report::Drained(text@),
            Report::Exited { success, status } => Report::Exited { success, status: status@ },
            Report::Running { elapsed } => Report::Running { elapsed },
            Report::QueryFailed(cause) => Report::QueryFailed(cause@),
        }
    }
}

impl View for Shutdown<String> {
    type V = Shutdown<Seq<char>>;

    open spec fn view(&self) -> Shutdown<Seq<char>> {
        match *self {
            Shutdown::SendingExit { drain, wait, db_path } => Shutdown::SendingExit {
                drain,
                wait,
                db_path: db_path@,
            },
            Shutdown::Draining { wait, db_path } => Shutdown::Draining { wait, db_path: db_path@ },
            Shutdown::Waiting { polled, diagnostics, db_path } => Shutdown::Waiting {
                polled,
                diagnostics: diagnostics@,
                db_path: db_path@,
            },
            Shutdown::Detached => Shutdown::Detached,
            Shutdown::Exited { success, status, diagnostics } => Shutdown::Exited {
                success,
                status: status@,
                diagnostics: diagnostics@,
            },
            Shutdown::Killed { db_path } => Shutdown::Killed { db_path: db_path@ },
            Shutdown::QueryFailed { cause } => Shutdown::QueryFailed { cause: cause@ },
        }
    }
}

impl Report<String> {
    /// The report of diagnostic output that was read as `bytes`. Bytes that
    /// are no text do not fail the shutdown: they are replaced.
    pub fn drained(bytes: &[u8]) -> (report: Self)
        ensures
            report@ == Report::Drained(lossy_text(bytes@)),
    {
        Report::Drained(decode_lossy(bytes))
    }
}

/// The wait has lasted longer than the ceiling allows.
pub open spec fn past_ceiling(elapsed: Duration) -> bool {
    nanos_of(elapsed) > CEILING_SECS * 1_000_000_000
}

/// The state after the process was asked to leave, or at once where the
/// input pipe is not held.
pub open spec fn after_exit(drain: bool, wait: bool, db_path: Seq<char>) -> Shutdown<Seq<char>> {
    if drain {
        Shutdown::Draining { wait, db_path }
    } else {
        after_drain(wait, Seq::empty(), db_path)
    }
}

/// The state after the diagnostic output was read, or at once, with no
/// diagnostic output, where the diagnostic pipe is not held.
pub open spec fn after_drain(wait: bool, diagnostics: Seq<char>, db_path: Seq<char>) -> Shutdown<
    Seq<char>,
> {
    if wait {
        Shutdown::Waiting { polled: false, diagnostics, db_path }
    } else {
        Shutdown::Detached
    }
}

/// The state in which the shutdown of a session begins, from what the
/// session still holds.
pub open spec fn begun(stdin_held: bool, stderr_held: bool, child_held: bool, db_path: Seq<char>)
    -> Shutdown<Seq<char>> {
    if stdin_held {
        Shutdown::SendingExit { drain: stderr_held, wait: child_held, db_path }
    } else {
        after_exit(stderr_held, child_held, db_path)
    }
}

/// The state that follows `state` on `report`. A report that does not answer
/// the directive of the state changes nothing; so none changes a final state.
pub open spec fn next(state: Shutdown<Seq<char>>, report: Report<Seq<char>>) -> Shutdown<
    Seq<char>,
> {
    match (state, report) {
        (Shutdown::SendingExit { drain, wait, db_path }, Report::ExitSent) => after_exit(
            drain,
            wait,
            db_path,
        ),
        (Shutdown::Draining { wait, db_path }, Report::Drained(text)) => after_drain(
            wait,
            text,
            db_path,
        ),
        (Shutdown::Waiting { diagnostics, .. }, Report::Exited { success, status }) => {
            Shutdown::Exited { success, status, diagnostics }
        },
        (Shutdown::Waiting { diagnostics, db_path, .. }, Report::Running { elapsed }) => {
            if past_ceiling(elapsed) {
                Shutdown::Killed { db_path }
            } else {
                Shutdown::Waiting { polled: true, diagnostics, db_path }
            }
        },
        (Shutdown::Waiting { .. }, Report::QueryFailed(cause)) => Shutdown::QueryFailed { cause },
        _ => state,
    }
}

/// What a state asks of the driver.
pub open spec fn directive_of(state: Shutdown<Seq<char>>) -> Directive<Seq<char>> {
    match state {
        Shutdown::SendingExit { .. } => Directive::SendExit(line_of(EXIT_DIRECTIVE@)),
        Shutdown::Draining { .. } => Directive::Drain,
        Shutdown::Waiting { polled, .. } => if polled {
            Directive::Sleep(POLL_INTERVAL_MILLIS)
        } else {
            Directive::Poll
        },
        Shutdown::Detached => Directive::Return,
        Shutdown::Exited { success, status, diagnostics } => if !success && diagnostics.len() > 0 {
            Directive::WarnAndReturn {
                headline: "sqlite3 process exited with error: "@ + status,
                detail: "stderr: "@ + diagnostics,
            }
        } else {
            Directive::Return
        },
        Shutdown::Killed { db_path } => Directive::KillAndAbort {
            headline: "sqlite3 process failed to exit within 60 seconds!"@,
            detail: "Database path: "@ + db_path,
            message: "sqlite3 process hung for "@ + db_path,
        },
        Shutdown::QueryFailed { cause } => Directive::KillAndReturn {
            headline: "Error waiting for sqlite3: "@ + cause,
        },
    }
}

/// A state that no report changes.
pub open spec fn is_final(state: Shutdown<Seq<char>>) -> bool {
    match state {
        Shutdown::Detached => true,
        Shutdown::Exited { .. } => true,
        Shutdown::Killed { .. } => true,
        Shutdown::QueryFailed { .. } => true,
        _ => false,
    }
}

/// `prefix` followed by `text`.
fn prefixed(prefix: &str, text: &String) -> (line: String)
    ensures
        line@ == prefix@ + text@,
{
    String::from_str(prefix).concat(text.as_str())
}

impl Shutdown<String> {
    /// Begins the shutdown of a session that holds what the flags tell.
    pub fn begin(stdin_held: bool, stderr_held: bool, child_held: bool, db_path: &str) -> (shutdown:
        Self)
        ensures
            shutdown@ == begun(stdin_held, stderr_held, child_held, db_path@),
    {
        let db_path = String::from_str(db_path);
        if stdin_held {
            Shutdown::SendingExit { drain: stderr_held, wait: child_held, db_path }
        } else {
            Self::leave(stderr_held, child_held, db_path)
        }
    }

    fn leave(drain: bool, wait: bool, db_path: String) -> (shutdown: Self)
        ensures
            shutdown@ == after_exit(drain, wait, db_path@),
    {
        if drain {
            Shutdown::Draining { wait, db_path }
        } else {
            Self::watch(wait, String::new(), db_path)
        }
    }

    fn watch(wait: bool, diagnostics: String, db_path: String) -> (shutdown: Self)
        ensures
            shutdown@ == after_drain(wait, diagnostics@, db_path@),
    {
        if wait {
            Shutdown::Waiting { polled: false, diagnostics, db_path }
        } else {
            Shutdown::Detached
        }
    }

    /// What the driver is to do now.
    pub fn directive(&self) -> (directive: Directive<String>)
        ensures
            directive@ == directive_of(self@),
    {
        match self {
            Shutdown::SendingExit { .. } => Directive::SendExit(terminated(EXIT_DIRECTIVE)),
            Shutdown::Draining { .. } => Directive::Drain,
            Shutdown::Waiting { polled, .. } => if *polled {
                Directive::Sleep(POLL_INTERVAL_MILLIS)
            } else {
                Directive::Poll
            },
            Shutdown::Detached => Directive::Return,
            Shutdown::Exited { success, status, diagnostics } => {
                let silent = diagnostics.as_str().is_empty();
                if should_log_error(*success, silent) {
                    Directive::WarnAndReturn {
                        headline: prefixed("sqlite3 process exited with error: ", status),
                        detail: prefixed("stderr: ", diagnostics),
                    }
                } else {
                    Directive::Return
                }
            },
            Shutdown::Killed { db_path } => Directive::KillAndAbort {
                headline: String::from_str("sqlite3 process failed to exit within 60 seconds!"),
                detail: prefixed("Database path: ", db_path),
                message: prefixed("sqlite3 process hung for ", db_path),
            },
            Shutdown::QueryFailed { cause } => Directive::KillAndReturn {
                headline: prefixed("Error waiting for sqlite3: ", cause),
            },
        }
    }

    /// Takes what the driver reports and moves on.
    pub fn advance(self, report: Report<String>) -> (shutdown: Self)
        ensures
            shutdown@ == next(self@, report@),
    {
        match self {
            Shutdown::SendingExit { drain, wait, db_path } => match report {
                Report::ExitSent => Self::leave(drain, wait, db_path),
                _ => Shutdown::SendingExit { drain, wait, db_path },
            },
            Shutdown::Draining { wait, db_path } => match report {
                Report::Drained(text) => Self::watch(wait, text, db_path),
                _ => Shutdown::Draining { wait, db_path },
            },
            Shutdown::Waiting { polled, diagnostics, db_path } => match report {
                Report::Exited { success, status } => Shutdown::Exited {
                    success,
                    status,
                    diagnostics,
                },
                Report::Running { elapsed } => {
                    if is_timed_out(elapsed, Duration::from_secs(CEILING_SECS)) {
                        Shutdown::Killed { db_path }
                    } else {
                        Shutdown::Waiting { polled: true, diagnostics, db_path }
                    }
                },
                Report::QueryFailed(cause) => Shutdown::QueryFailed { cause },
                _ => Shutdown::Waiting { polled, diagnostics, db_path },
            },
            Shutdown::Detached => Shutdown::Detached,
            Shutdown::Exited { success, status, diagnostics } => Shutdown::Exited {
                success,
                status,
                diagnostics,
            },
            Shutdown::Killed { db_path } => Shutdown::Killed { db_path },
            Shutdown::QueryFailed { cause } => Shutdown::QueryFailed { cause },
        }
    }
}

/// The state reached from `state` when `reports` come one after the other.
pub open spec fn run(state: Shutdown<Seq<char>>, reports: Seq<Report<Seq<char>>>) -> Shutdown<
    Seq<char>,
>
    decreases reports.len(),
{
    if reports.len() == 0 {
        state
    } else {
        next(run(state, reports.drop_last()), reports.last())
    }
}

/// The reports of a driver that finds the process running, after each of
/// the times given.
pub open spec fn still_running(times: Seq<Duration>) -> Seq<Report<Seq<char>>> {
    Seq::new(times.len(), |i: int| Report::Running { elapsed: times[i] })
}

/// A warning is logged for a process that left, and only for one that
/// failed and left diagnostic output behind.
pub proof fn lemma_warning_only_for_failure_with_diagnostics(
    success: bool,
    status: Seq<char>,
    diagnostics: Seq<char>,
)
    ensures
        directive_of(Shutdown::Exited { success, status, diagnostics }) == if !success
            && diagnostics.len() > 0 {
            Directive::WarnAndReturn {
                headline: "sqlite3 process exited with error: "@ + status,
                detail: "stderr: "@ + diagnostics,
            }
        } else {
            Directive::Return
        },
{
}

/// The shutdown of a session that holds nothing has nothing to do: it kills
/// no process and aborts nothing.
pub proof fn lemma_nothing_held_nothing_done(db_path: Seq<char>)
    ensures
        begun(false, false, false, db_path) == Shutdown::<Seq<char>>::Detached,
        directive_of(begun(false, false, false, db_path)) == Directive::<Seq<char>>::Return,
{
}

/// A final state stays as it is, whatever is reported to it: the process is
/// killed at most once, and the sequence aborts at most once.
pub proof fn lemma_final_states_stay(state: Shutdown<Seq<char>>, reports: Seq<Report<Seq<char>>>)
    requires
        is_final(state),
    ensures
        run(state, reports) == state,
    decreases reports.len(),
{
    if reports.len() > 0 {
        lemma_final_states_stay(state, reports.drop_last());
    }
}

/// A process found running within the ceiling is left alone: the driver
/// sleeps for the polling interval and looks again.
pub proof fn lemma_patience_within_ceiling(
    polled: bool,
    diagnostics: Seq<char>,
    db_path: Seq<char>,
    elapsed: Duration,
)
    requires
        !past_ceiling(elapsed),
    ensures
        ({
            let state = next(
                Shutdown::Waiting { polled, diagnostics, db_path },
                Report::Running { elapsed },
            );
            &&& state == Shutdown::Waiting { polled: true, diagnostics, db_path }
            &&& directive_of(state) == Directive::<Seq<char>>::Sleep(POLL_INTERVAL_MILLIS)
        }),
{
}

/// A process found running past the ceiling is killed and the sequence
/// aborts, with a message that names the database: it never returns in
/// silence.
pub proof fn lemma_hang_is_fatal(
    polled: bool,
    diagnostics: Seq<char>,
    db_path: Seq<char>,
    elapsed: Duration,
)
    requires
        past_ceiling(elapsed),
    ensures
        ({
            let state = next(
                Shutdown::Waiting { polled, diagnostics, db_path },
                Report::Running { elapsed },
            );
            &&& state == Shutdown::Killed { db_path }
            &&& directive_of(state) matches Directive::KillAndAbort { message, .. }
            &&& message == "sqlite3 process hung for "@ + db_path
        }),
{
}

/// A process that never leaves is killed: however often it is found
/// running, once one of the times is past the ceiling the shutdown has ended
/// in `Killed`, and stays there.
pub proof fn lemma_process_that_never_exits_is_killed(
    polled: bool,
    diagnostics: Seq<char>,
    db_path: Seq<char>,
    times: Seq<Duration>,
)
    requires
        exists|i: int| 0 <= i < times.len() && past_ceiling(#[trigger] times[i]),
    ensures
        run(Shutdown::Waiting { polled, diagnostics, db_path }, still_running(times))
            == (Shutdown::Killed { db_path }),
    decreases times.len(),
{
    let earlier = times.drop_last();
    assert(still_running(times).drop_last() =~= still_running(earlier));
    if exists|i: int| 0 <= i < earlier.len() && past_ceiling(#[trigger] earlier[i]) {
        lemma_process_that_never_exits_is_killed(polled, diagnostics, db_path, earlier);
    } else {
        let i = choose|i: int| 0 <= i < times.len() && past_ceiling(#[trigger] times[i]);
        if i < earlier.len() {
            assert(earlier[i] == times[i]);
        }
        lemma_waits_while_within_ceiling(polled, diagnostics, db_path, earlier);
    }
}

/// While every time reported is within the ceiling, the shutdown goes on
/// waiting.
pub proof fn lemma_waits_while_within_ceiling(
    polled: bool,
    diagnostics: Seq<char>,
    db_path: Seq<char>,
    times: Seq<Duration>,
)
    requires
        forall|i: int| 0 <= i < times.len() ==> !past_ceiling(#[trigger] times[i]),
    ensures
        run(Shutdown::Waiting { polled, diagnostics, db_path }, still_running(times))
            == (Shutdown::Waiting { polled: polled || times.len() > 0, diagnostics, db_path }),
    decreases times.len(),
{
    if times.len() > 0 {
        let earlier = times.drop_last();
        assert(still_running(times).drop_last() =~= still_running(earlier));
        lemma_waits_while_within_ceiling(polled, diagnostics, db_path, earlier);
    }
}

/// A process that leaves while every time reported is within the ceiling
/// is not killed: the shutdown ends in `Exited`, with what the process left
/// behind.
pub proof fn lemma_exit_within_ceiling_is_not_killed(
    polled: bool,
    diagnostics: Seq<char>,
    db_path: Seq<char>,
    times: Seq<Duration>,
    success: bool,
    status: Seq<char>,
)
    requires
        forall|i: int| 0 <= i < times.len() ==> !past_ceiling(#[trigger] times[i]),
    ensures
        run(
            Shutdown::Waiting { polled, diagnostics, db_path },
            still_running(times).push(Report::Exited { success, status }),
        ) == (Shutdown::Exited { success, status, diagnostics }),
{
    let reports = still_running(times).push(Report::Exited { success, status });
    assert(reports.drop_last() =~= still_running(times));
    lemma_waits_while_within_ceiling(polled, diagnostics, db_path, times);
}

} // verus!
