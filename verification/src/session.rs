//! A session with an interactive `sqlite3` process, as its driver sees it.
//!
//! The driver owns the process and its three pipes. [`Sqlite3Process`] keeps
//! account of what the driver still holds, and turns every operation of the
//! session into a state machine for the driver to run.
//!
//! The operations that set up a fixture are fatal where they fail:
//! [`end_setup`] and [`Sqlite3Process::create_dummy_data`] take the outcome
//! of a command and tell the driver to go on or to abort.

use std::marker::PhantomData;
use vstd::prelude::*;
use vstd::string::*;
use crate::exchange::{
    error_text, next, outcome_view, pending, started, Event, Exchange, ExecError, Request,
};
use crate::framing::{is_sendable, MARKER};
use crate::shutdown::{begun, Shutdown};
use crate::text::{
    decimal_text, lemma_decimal_is_digits, lemma_missing_char_excludes, push_decimal,
};

verus! {

/// The program that a session talks to. It is launched with the path of the
/// database as its only argument, and with all three standard streams as
/// pipes.
pub const PROGRAM: &'static str = "sqlite3";

/// The statement that turns on write-ahead logging.
pub const WAL_MODE_STATEMENT: &'static str = "PRAGMA journal_mode=WAL;";

/// The statement that turns off automatic checkpoints.
pub const NO_CHECKPOINT_STATEMENT: &'static str = "PRAGMA wal_autocheckpoint=0;";

/// The statement that creates the table of dummy data.
pub const DUMMY_TABLE_STATEMENT: &'static str =
    "CREATE TABLE test (id INTEGER PRIMARY KEY, value TEXT);";

/// How many rows of dummy data there are.
pub const DUMMY_ROWS: u64 = 999;

/// The statement that adds the dummy row of the number given.
pub open spec fn dummy_row_statement(number: nat) -> Seq<char> {
    "INSERT INTO test (value) VALUES ('Hello, World! "@ + decimal_text(number) + "');"@
}

/// The commands that set up the dummy data, in their order: the table
/// first, then the rows, numbered from 1.
pub open spec fn dummy_command(index: nat) -> Seq<char> {
    if index == 0 {
        DUMMY_TABLE_STATEMENT@
    } else {
        dummy_row_statement(index)
    }
}

/// How an operation that sets up a fixture ends. A failure is fatal: where
/// the setup has failed, to go on would mean nothing.
#[derive(Debug, PartialEq, Eq)]
pub enum SetupEnd<S> {
    /// The command has run.
    Done,
    /// The command has failed: abort with the message.
    Abort(S),
}

/// What is next in setting up the dummy data.
#[derive(Debug, PartialEq, Eq)]
pub enum DummyStep<S> {
    /// Execute the command, then ask again.
    Send(S),
    /// All commands have run.
    Done,
    /// The last command has failed: abort with the message, and send
    /// nothing more.
    Abort(S),
}

impl View for SetupEnd<String> {
    type V = SetupEnd<Seq<char>>;

    open spec fn view(&self) -> SetupEnd<Seq<char>> {
        match *self {
            SetupEnd::Done => SetupEnd::Done,
            SetupEnd::Abort(message) => SetupEnd::Abort(message@),
        }
    }
}

impl View for DummyStep<String> {
    type V = DummyStep<Seq<char>>;

    open spec fn view(&self) -> DummyStep<Seq<char>> {
        match *self {
            DummyStep::Send(command) => DummyStep::Send(command@),
            DummyStep::Done => DummyStep::Done,
            DummyStep::Abort(message) => DummyStep::Abort(message@),
        }
    }
}

/// How a setup operation ends whose command had the outcome given: every
/// failure aborts, with what the error says; what the command printed does
/// not matter.
pub open spec fn setup_end(outcome: Result<Seq<char>, ExecError<Seq<char>>>) -> SetupEnd<
    Seq<char>,
> {
    match outcome {
        Ok(_) => SetupEnd::Done,
        Err(error) => SetupEnd::Abort(error_text(error)),
    }
}

/// What is next in setting up the dummy data when `issued` commands have
/// been executed and the last of them had the outcome `last`. The first
/// failure aborts the whole run; otherwise the commands go out one by one
/// until none is left.
pub open spec fn dummy_step(
    issued: nat,
    last: Option<Result<Seq<char>, ExecError<Seq<char>>>>,
) -> DummyStep<Seq<char>> {
    match last {
        Some(Err(error)) => DummyStep::Abort(error_text(error)),
        _ => if issued <= DUMMY_ROWS {
            DummyStep::Send(dummy_command(issued))
        } else {
            DummyStep::Done
        },
    }
}

/// The outcome of the last command, in contracts.
pub open spec fn last_view(last: Option<Result<String, ExecError<String>>>) -> Option<
    Result<Seq<char>, ExecError<Seq<char>>>,
> {
    match last {
        Some(outcome) => Some(outcome_view(outcome)),
        None => None,
    }
}

/// Decides how a setup operation ends, from the outcome of its command.
pub fn end_setup(outcome: Result<String, ExecError<String>>) -> (end: SetupEnd<String>)
    ensures
        end@ == setup_end(outcome_view(outcome)),
{
    match outcome {
        Ok(_) => SetupEnd::Done,
        Err(error) => SetupEnd::Abort(error.message()),
    }
}

/// The dummy command of the index given.
fn make_dummy_command(index: u64) -> (command: String)
    ensures
        command@ == dummy_command(index as nat),
{
    if index == 0 {
        String::from_str(DUMMY_TABLE_STATEMENT)
    } else {
        let mut command = String::from_str("INSERT INTO test (value) VALUES ('Hello, World! ");
        push_decimal(&mut command, index);
        command.append("');");
        command
    }
}

/// None of the commands that the session sends of its own holds the end
/// marker.
pub proof fn lemma_setup_commands_are_sendable(index: nat)
    ensures
        is_sendable(WAL_MODE_STATEMENT@),
        is_sendable(NO_CHECKPOINT_STATEMENT@),
        is_sendable(dummy_command(index)),
{
    reveal_strlit("MARKER_END");
    reveal_strlit("PRAGMA journal_mode=WAL;");
    reveal_strlit("PRAGMA wal_autocheckpoint=0;");
    reveal_strlit("CREATE TABLE test (id INTEGER PRIMARY KEY, value TEXT);");
    reveal_strlit("INSERT INTO test (value) VALUES ('Hello, World! ");
    reveal_strlit("');");
    assert(MARKER@[3] == 'K');
    assert(MARKER@[6] == '_');
    lemma_missing_char_excludes(WAL_MODE_STATEMENT@, MARKER@, 'K');
    lemma_missing_char_excludes(NO_CHECKPOINT_STATEMENT@, MARKER@, 'K');
    if index == 0 {
        lemma_missing_char_excludes(DUMMY_TABLE_STATEMENT@, MARKER@, '_');
    } else {
        lemma_decimal_is_digits(index);
        lemma_missing_char_excludes(dummy_row_statement(index), MARKER@, '_');
    }
}

/// A setup operation never passes over a failure: whatever the error of its
/// command, the operation aborts, and the message says what the error says.
pub proof fn lemma_setup_failure_is_fatal(error: ExecError<Seq<char>>)
    ensures
        setup_end(Err(error)) == SetupEnd::Abort(error_text(error)),
{
}

/// The first failure ends the setting up of the dummy data: however many
/// commands have been executed, after a failed one the run aborts and no
/// command is sent, not even a row after a table that could not be created.
pub proof fn lemma_failure_ends_the_dummy_run(issued: nat, error: ExecError<Seq<char>>)
    ensures
        dummy_step(issued, Some(Err(error))) == DummyStep::Abort(error_text(error)),
{
}

/// How the launch of the process went.
#[derive(Debug, PartialEq, Eq)]
pub enum Spawned<S> {
    /// The process could not be launched, for the cause given.
    Failed(S),
    /// The process runs. The flags tell which of its pipes could be taken.
    Launched { stdin: bool, stdout: bool, stderr: bool },
}

/// Why no session came about.
#[derive(Debug, PartialEq, Eq)]
pub enum SpawnError<S> {
    /// The process could not be launched, for the cause given.
    Launch(S),
    /// The input pipe of the process could not be taken.
    NoStdin,
    /// The output pipe of the process could not be taken.
    NoStdout,
    /// The diagnostic pipe of the process could not be taken.
    NoStderr,
}

impl View for Spawned<String> {
    type V = Spawned<Seq<char>>;

    open spec fn view(&self) -> Spawned<Seq<char>> {
        match *self {
            Spawned::Failed(cause) => Spawned::Failed(cause@),
            Spawned::Launched { stdin, stdout, stderr } => Spawned::Launched {
                stdin,
                stdout,
                stderr,
            },
        }
    }
}

impl View for SpawnError<String> {
    type V = SpawnError<Seq<char>>;

    open spec fn view(&self) -> SpawnError<Seq<char>> {
        match *self {
            SpawnError::Launch(cause) => SpawnError::Launch(cause@),
            SpawnError::NoStdin => SpawnError::NoStdin,
            SpawnError::NoStdout => SpawnError::NoStdout,
            SpawnError::NoStderr => SpawnError::NoStderr,
        }
    }
}

/// What stands in the way of a session after a launch that went as
/// `spawned` tells, if anything does. A session needs the process and all
/// three of its pipes.
pub open spec fn spawn_failure(spawned: Spawned<Seq<char>>) -> Option<SpawnError<Seq<char>>> {
    match spawned {
        Spawned::Failed(cause) => Some(SpawnError::Launch(cause)),
        Spawned::Launched { stdin, stdout, stderr } => if !stdin {
            Some(SpawnError::NoStdin)
        } else if !stdout {
            Some(SpawnError::NoStdout)
        } else if !stderr {
            Some(SpawnError::NoStderr)
        } else {
            None
        },
    }
}

/// What a spawn error says to a reader.
pub open spec fn spawn_error_text(error: SpawnError<Seq<char>>) -> Seq<char> {
    match error {
        SpawnError::Launch(cause) => "Failed to spawn sqlite3: "@ + cause,
        SpawnError::NoStdin => "Failed to get stdin handle"@,
        SpawnError::NoStdout => "Failed to get stdout handle"@,
        SpawnError::NoStderr => "Failed to get stderr handle"@,
    }
}

impl SpawnError<String> {
    /// The error as a sentence, with its cause where it has one.
    pub fn message(&self) -> (text: String)
        ensures
            text@ == spawn_error_text(self@),
    {
        match self {
            SpawnError::Launch(cause) => String::from_str("Failed to spawn sqlite3: ").concat(
                cause.as_str(),
            ),
            SpawnError::NoStdin => String::from_str("Failed to get stdin handle"),
            SpawnError::NoStdout => String::from_str("Failed to get stdout handle"),
            SpawnError::NoStderr => String::from_str("Failed to get stderr handle"),
        }
    }
}

/// What a session holds.
pub struct Holdings {
    pub stdin: bool,
    pub stdout: bool,
    pub stderr: bool,
    pub child: bool,
    pub db_path: Seq<char>,
}

/// The account of a session: which pipes its driver still holds, whether it
/// holds the process, and the path of the database, kept for messages.
#[derive(Debug)]
pub struct Sqlite3Process {
    stdin: bool,
    stdout: bool,
    stderr: bool,
    child: bool,
    db_path: String,
}

impl View for Sqlite3Process {
    type V = Holdings;

    closed spec fn view(&self) -> Holdings {
        Holdings {
            stdin: self.stdin,
            stdout: self.stdout,
            stderr: self.stderr,
            child: self.child,
            db_path: self.db_path@,
        }
    }
}

/// A command of a session that is under way. It borrows the session: while
/// it lives, no other command can begin and the session cannot be shut down.
#[derive(Debug)]
pub struct Command<'a> {
    exchange: Exchange<String>,
    session: PhantomData<&'a mut Sqlite3Process>,
}

impl<'a> View for Command<'a> {
    type V = Exchange<Seq<char>>;

    closed spec fn view(&self) -> Exchange<Seq<char>> {
        self.exchange@
    }
}

impl<'a> Command<'a> {
    /// What the driver is to do now.
    pub fn request(&self) -> (request: Request<String>)
        ensures
            request@ == pending(self@),
    {
        self.exchange.request()
    }

    /// Takes what the driver reports and moves on.
    pub fn advance(self, event: Event<String>) -> (command: Command<'a>)
        ensures
            command@ == next(self@, event@),
    {
        Command { exchange: self.exchange.advance(event), session: PhantomData }
    }
}

impl Sqlite3Process {
    /// The session on the database at `db_path`, after a launch of the
    /// process that went as `spawned` tells. A session comes about only
    /// whole: with the process and all three pipes.
    pub fn new(db_path: &str, spawned: Spawned<String>) -> (session: Result<
        Sqlite3Process,
        SpawnError<String>,
    >)
        ensures
            match session {
                Ok(session) => spawn_failure(spawned@) is None && session@ == (Holdings {
                    stdin: true,
                    stdout: true,
                    stderr: true,
                    child: true,
                    db_path: db_path@,
                }),
                Err(error) => spawn_failure(spawned@) == Some(error@),
            },
    {
        match spawned {
            Spawned::Failed(cause) => Err(SpawnError::Launch(cause)),
            Spawned::Launched { stdin, stdout, stderr } => {
                if !stdin {
                    Err(SpawnError::NoStdin)
                } else if !stdout {
                    Err(SpawnError::NoStdout)
                } else if !stderr {
                    Err(SpawnError::NoStderr)
                } else {
                    Ok(
                        Sqlite3Process {
                            stdin: true,
                            stdout: true,
                            stderr: true,
                            child: true,
                            db_path: String::from_str(db_path),
                        },
                    )
                }
            },
        }
    }

    /// Whether the input pipe is held.
    pub fn holds_stdin(&self) -> (held: bool)
        ensures
            held == self@.stdin,
    {
        self.stdin
    }

    /// Whether the output pipe is held.
    pub fn holds_stdout(&self) -> (held: bool)
        ensures
            held == self@.stdout,
    {
        self.stdout
    }

    /// Whether the diagnostic pipe is held.
    pub fn holds_stderr(&self) -> (held: bool)
        ensures
            held == self@.stderr,
    {
        self.stderr
    }

    /// Whether the process is held.
    pub fn holds_child(&self) -> (held: bool)
        ensures
            held == self@.child,
    {
        self.child
    }

    /// The path of the database.
    pub fn db_path(&self) -> (path: &str)
        ensures
            path@ == self@.db_path,
    {
        self.db_path.as_str()
    }

    /// Gives the input pipe away. Tells whether it was held.
    pub fn take_stdin(&mut self) -> (held: bool)
        ensures
            held == old(self)@.stdin,
            final(self)@ == (Holdings { stdin: false, ..old(self)@ }),
    {
        let held = self.stdin;
        self.stdin = false;
        held
    }

    /// Gives the output pipe away. Tells whether it was held.
    pub fn take_stdout(&mut self) -> (held: bool)
        ensures
            held == old(self)@.stdout,
            final(self)@ == (Holdings { stdout: false, ..old(self)@ }),
    {
        let held = self.stdout;
        self.stdout = false;
        held
    }

    /// Gives the diagnostic pipe away. Tells whether it was held.
    pub fn take_stderr(&mut self) -> (held: bool)
        ensures
            held == old(self)@.stderr,
            final(self)@ == (Holdings { stderr: false, ..old(self)@ }),
    {
        let held = self.stderr;
        self.stderr = false;
        held
    }

    /// Begins the exchange for one command. Without the input pipe or the
    /// output pipe the exchange has failed already. The session itself stays
    /// as it is. The end marker is reserved: a command must not hold it.
    pub fn execute<'a>(&'a mut self, sql: &str) -> (command: Command<'a>)
        requires
            is_sendable(sql@),
        ensures
            command@ == started(sql@, old(self)@.stdin, old(self)@.stdout),
            final(self)@ == old(self)@,
    {
        Command { exchange: Exchange::start(sql, self.stdin, self.stdout), session: PhantomData }
    }

    /// Begins the exchange that turns on write-ahead logging. The operation
    /// cannot fail and go on: it needs both pipes, and [`end_setup`] decides
    /// from the outcome of the exchange whether to abort.
    pub fn enable_wal_mode<'a>(&'a mut self) -> (command: Command<'a>)
        requires
            old(self)@.stdin,
            old(self)@.stdout,
        ensures
            command@ == Exchange::SendCommand(WAL_MODE_STATEMENT@),
            final(self)@ == old(self)@,
    {
        proof {
            lemma_setup_commands_are_sendable(0);
        }
        self.execute(WAL_MODE_STATEMENT)
    }

    /// Begins the exchange that turns off automatic checkpoints. The
    /// operation cannot fail and go on: it needs both pipes, and
    /// [`end_setup`] decides from the outcome of the exchange whether to
    /// abort.
    pub fn disable_wal_checkpointing<'a>(&'a mut self) -> (command: Command<'a>)
        requires
            old(self)@.stdin,
            old(self)@.stdout,
        ensures
            command@ == Exchange::SendCommand(NO_CHECKPOINT_STATEMENT@),
            final(self)@ == old(self)@,
    {
        proof {
            lemma_setup_commands_are_sendable(0);
        }
        self.execute(NO_CHECKPOINT_STATEMENT)
    }

    /// Decides what is next in creating the table `test` and filling it with
    /// [`DUMMY_ROWS`] rows, numbered from 1. `issued` counts the commands
    /// executed so far; `last` is the outcome of the last of them, or nothing
    /// before the first. The first failure is fatal: it aborts the run, and
    /// no command follows it.
    pub fn create_dummy_data(
        &self,
        issued: u64,
        last: Option<Result<String, ExecError<String>>>,
    ) -> (step: DummyStep<String>)
        ensures
            step@ == dummy_step(issued as nat, last_view(last)),
            step@ matches DummyStep::Send(command) ==> is_sendable(command),
    {
        proof {
            lemma_setup_commands_are_sendable(issued as nat);
        }
        match last {
            Some(Err(error)) => DummyStep::Abort(error.message()),
            _ => if issued <= DUMMY_ROWS {
                DummyStep::Send(make_dummy_command(issued))
            } else {
                DummyStep::Done
            },
        }
    }

    /// Begins the shutdown of the session, and lets go of everything the
    /// session held: there is nothing left for a second shutdown to do.
    pub fn shutdown(&mut self) -> (shutdown: Shutdown<String>)
        ensures
            shutdown@ == begun(
                old(self)@.stdin,
                old(self)@.stderr,
                old(self)@.child,
                old(self)@.db_path,
            ),
            final(self)@ == (Holdings {
                stdin: false,
                stdout: false,
                stderr: false,
                child: false,
                db_path: old(self)@.db_path,
            }),
    {
        let shutdown = Shutdown::begin(self.stdin, self.stderr, self.child, self.db_path.as_str());
        self.stdin = false;
        self.stdout = false;
        self.stderr = false;
        self.child = false;
        shutdown
    }
}

} // verus!
