use mock_instant::global::{Instant, MockClock};
use sqlite_test_utils::session::{Spawned, Sqlite3Process};
use sqlite_test_utils::shutdown::{
    is_timed_out, should_log_error, Directive, Report, Shutdown, CEILING_SECS,
    POLL_INTERVAL_MILLIS,
};
use std::time::Duration;

fn waiting(diagnostics: &str) -> Shutdown<String> {
    Shutdown::Waiting {
        polled: false,
        diagnostics: diagnostics.to_string(),
        db_path: "/tmp/test.db".to_string(),
    }
}

fn new_session() -> Sqlite3Process {
    let spawned = Spawned::Launched { stdin: true, stdout: true, stderr: true };
    Sqlite3Process::new("/tmp/test.db", spawned).unwrap()
}

#[test]
fn test_is_timed_out() {
    let timeout = Duration::from_secs(60);

    // Not timed out: before and exactly at timeout
    assert!(!is_timed_out(Duration::from_secs(0), timeout));
    assert!(!is_timed_out(Duration::from_secs(59), timeout));
    assert!(!is_timed_out(Duration::from_secs(60), timeout));

    // Timed out: just after timeout
    assert!(is_timed_out(Duration::from_millis(60_001), timeout));
    assert!(is_timed_out(Duration::from_secs(61), timeout));
}

#[test]
fn test_should_log_error() {
    // All four combinations of (success, stderr_empty)
    assert!(!should_log_error(true, true)); // success, no stderr
    assert!(!should_log_error(true, false)); // success, has stderr
    assert!(!should_log_error(false, true)); // failed, no stderr
    assert!(should_log_error(false, false)); // failed with stderr - only case that logs
}

#[test]
fn timeout_boundary_is_exclusive() {
    let ceiling = Duration::from_secs(60);
    assert!(!is_timed_out(ceiling - Duration::from_nanos(1), ceiling));
    assert!(!is_timed_out(ceiling, ceiling));
    assert!(is_timed_out(ceiling + Duration::from_nanos(1), ceiling));
    assert!(is_timed_out(ceiling + Duration::from_millis(1), ceiling));
    assert!(is_timed_out(ceiling + Duration::from_secs(1), ceiling));
    assert!(!is_timed_out(Duration::ZERO, Duration::ZERO));
    assert!(is_timed_out(Duration::MAX, Duration::from_secs(u64::MAX)));
    assert!(!is_timed_out(Duration::from_secs(u64::MAX), Duration::MAX));
}

#[test]
fn shutdown_constants() {
    assert_eq!(CEILING_SECS, 60);
    assert_eq!(POLL_INTERVAL_MILLIS, 100);
}

#[test]
fn shutdown_of_whole_session_exits_drains_and_polls() {
    let mut session = new_session();
    let shutdown = session.shutdown();
    assert_eq!(shutdown.directive(), Directive::SendExit(".exit\n".to_string()));
    let shutdown = shutdown.advance(Report::ExitSent);
    assert_eq!(shutdown.directive(), Directive::Drain);
    let shutdown = shutdown.advance(Report::drained(b""));
    assert_eq!(shutdown.directive(), Directive::Poll);
    let shutdown = shutdown.advance(Report::Running { elapsed: Duration::from_millis(1) });
    assert_eq!(shutdown.directive(), Directive::Sleep(100));
    let shutdown = shutdown.advance(Report::Running { elapsed: Duration::from_millis(101) });
    assert_eq!(shutdown.directive(), Directive::Sleep(100));
    let shutdown = shutdown.advance(Report::Exited {
        success: true,
        status: "exit status: 0".to_string(),
    });
    assert_eq!(shutdown.directive(), Directive::Return);
    assert_eq!(
        shutdown,
        Shutdown::Exited {
            success: true,
            status: "exit status: 0".to_string(),
            diagnostics: String::new(),
        }
    );
}

#[test]
fn shutdown_lets_go_of_every_handle() {
    let mut session = new_session();
    session.shutdown();
    assert!(!session.holds_stdin());
    assert!(!session.holds_stdout());
    assert!(!session.holds_stderr());
    assert!(!session.holds_child());
    assert_eq!(session.db_path(), "/tmp/test.db");
}

#[test]
fn second_shutdown_does_nothing() {
    let mut session = new_session();
    session.shutdown();
    let again = session.shutdown();
    assert_eq!(again, Shutdown::Detached);
    assert_eq!(again.directive(), Directive::Return);
}

#[test]
fn shutdown_without_stdin_sends_no_exit() {
    let mut session = new_session();
    assert!(session.take_stdin());
    let shutdown = session.shutdown();
    assert_eq!(shutdown.directive(), Directive::Drain);
}

#[test]
fn shutdown_without_stderr_reads_no_diagnostics() {
    let mut session = new_session();
    assert!(session.take_stderr());
    let shutdown = session.shutdown().advance(Report::ExitSent);
    assert_eq!(shutdown, waiting(""));
    let shutdown = shutdown.advance(Report::Exited {
        success: false,
        status: "exit status: 1".to_string(),
    });
    assert_eq!(shutdown.directive(), Directive::Return);
}

#[test]
fn shutdown_without_process_has_nothing_to_wait_for() {
    let shutdown = Shutdown::begin(true, true, false, "/tmp/test.db");
    let shutdown = shutdown.advance(Report::ExitSent);
    assert_eq!(shutdown.directive(), Directive::Drain);
    let shutdown = shutdown.advance(Report::drained(b"Error: near line 1\n"));
    assert_eq!(shutdown, Shutdown::Detached);
    assert_eq!(shutdown.directive(), Directive::Return);
    assert_eq!(Shutdown::begin(false, false, false, "x"), Shutdown::Detached);
    assert_eq!(
        Shutdown::begin(true, false, false, "x").advance(Report::ExitSent),
        Shutdown::Detached
    );
    assert_eq!(Shutdown::begin(false, false, true, "/tmp/test.db"), waiting(""));
}

#[test]
fn exit_is_logged_only_on_failure_with_diagnostics() {
    let exited = |success: bool, diagnostics: &str| {
        waiting(diagnostics)
            .advance(Report::Exited { success, status: "exit status: 1".to_string() })
            .directive()
    };
    assert_eq!(exited(true, ""), Directive::Return);
    assert_eq!(exited(true, "Error: no such table: t\n"), Directive::Return);
    assert_eq!(exited(false, ""), Directive::Return);
    assert_eq!(
        exited(false, "Error: no such table: t\n"),
        Directive::WarnAndReturn {
            headline: "sqlite3 process exited with error: exit status: 1".to_string(),
            detail: "stderr: Error: no such table: t\n".to_string(),
        }
    );
}

#[test]
fn process_within_ceiling_is_polled_again() {
    let at = |elapsed: Duration| waiting("").advance(Report::Running { elapsed }).directive();
    assert_eq!(at(Duration::ZERO), Directive::Sleep(100));
    assert_eq!(at(Duration::from_secs(59)), Directive::Sleep(100));
    assert_eq!(at(Duration::from_secs(60)), Directive::Sleep(100));
}

#[test]
fn process_past_ceiling_is_killed_and_shutdown_aborts() {
    let abort = Directive::KillAndAbort {
        headline: "sqlite3 process failed to exit within 60 seconds!".to_string(),
        detail: "Database path: /tmp/test.db".to_string(),
        message: "sqlite3 process hung for /tmp/test.db".to_string(),
    };
    let at = |elapsed: Duration| waiting("").advance(Report::Running { elapsed });
    assert_eq!(at(Duration::from_millis(60_001)).directive(), abort);
    assert_eq!(at(Duration::from_secs(61)).directive(), abort);
    assert_eq!(at(Duration::new(60, 1)).directive(), abort);
    assert_eq!(
        at(Duration::from_secs(61)),
        Shutdown::Killed { db_path: "/tmp/test.db".to_string() }
    );
}

#[test]
fn shutdown_of_hung_process_aborts_when_clock_passes_ceiling() {
    MockClock::set_time(Duration::from_secs(0));
    let mut session = new_session();
    // Without these two pipes the process is not asked to leave.
    assert!(session.take_stdin());
    assert!(session.take_stderr());
    let mut shutdown = session.shutdown();
    let mut start = Instant::now();
    let mut sleeps = 0;
    let end = loop {
        match shutdown.directive() {
            Directive::Poll => start = Instant::now(),
            Directive::Sleep(millis) => {
                sleeps += 1;
                MockClock::advance(Duration::from_millis(millis));
            }
            other => break other,
        }
        shutdown = shutdown.advance(Report::Running { elapsed: start.elapsed() });
    };
    assert_eq!(
        end,
        Directive::KillAndAbort {
            headline: "sqlite3 process failed to exit within 60 seconds!".to_string(),
            detail: "Database path: /tmp/test.db".to_string(),
            message: "sqlite3 process hung for /tmp/test.db".to_string(),
        }
    );
    assert_eq!(sleeps, 601);
    assert_eq!(MockClock::time(), Duration::from_millis(60_100));
}

#[test]
fn shutdown_aborts_after_one_jump_of_the_clock() {
    MockClock::set_time(Duration::from_secs(0));
    let shutdown = Shutdown::begin(false, false, true, "/tmp/test.db");
    assert_eq!(shutdown.directive(), Directive::Poll);
    let start = Instant::now();
    MockClock::advance(Duration::from_millis(50));
    let shutdown = shutdown.advance(Report::Running { elapsed: start.elapsed() });
    assert_eq!(shutdown.directive(), Directive::Sleep(100));
    MockClock::advance(Duration::from_millis(60_001));
    let shutdown = shutdown.advance(Report::Running { elapsed: start.elapsed() });
    assert!(matches!(shutdown.directive(), Directive::KillAndAbort { .. }));
}

#[test]
fn failed_query_kills_and_returns() {
    let shutdown = waiting("noise").advance(Report::QueryFailed("No child processes".to_string()));
    assert_eq!(
        shutdown.directive(),
        Directive::KillAndReturn {
            headline: "Error waiting for sqlite3: No child processes".to_string(),
        }
    );
    assert_eq!(shutdown, Shutdown::QueryFailed { cause: "No child processes".to_string() });
}

#[test]
fn final_states_of_shutdown_stay() {
    let reports = || {
        vec![
            Report::ExitSent,
            Report::drained(b"late"),
            Report::Exited { success: false, status: "exit status: 2".to_string() },
            Report::Running { elapsed: Duration::from_secs(100) },
            Report::QueryFailed("late".to_string()),
        ]
    };
    let finals = || {
        vec![
            Shutdown::Detached,
            Shutdown::Exited {
                success: true,
                status: "exit status: 0".to_string(),
                diagnostics: "x".to_string(),
            },
            Shutdown::Killed { db_path: "/tmp/test.db".to_string() },
            Shutdown::QueryFailed { cause: "gone".to_string() },
        ]
    };
    for (index, mut state) in finals().into_iter().enumerate() {
        for report in reports() {
            state = state.advance(report);
        }
        assert_eq!(state, finals().remove(index));
    }
}

#[test]
fn shutdown_ignores_reports_that_answer_no_directive() {
    let shutdown = Shutdown::begin(true, true, true, "/tmp/test.db");
    let shutdown = shutdown
        .advance(Report::drained(b"early"))
        .advance(Report::Running { elapsed: Duration::from_secs(100) })
        .advance(Report::QueryFailed("early".to_string()));
    assert_eq!(shutdown.directive(), Directive::SendExit(".exit\n".to_string()));
    let shutdown = shutdown.advance(Report::ExitSent).advance(Report::ExitSent);
    assert_eq!(shutdown.directive(), Directive::Drain);
    let shutdown = shutdown.advance(Report::drained(b"")).advance(Report::ExitSent);
    assert_eq!(shutdown.directive(), Directive::Poll);
}

#[test]
fn diagnostics_are_decoded_with_replacement() {
    assert_eq!(Report::drained(b"Error: oops\n"), Report::Drained("Error: oops\n".to_string()));
    assert_eq!(Report::drained(b"o\xffps"), Report::Drained("o\u{fffd}ps".to_string()));
    assert_eq!(Report::drained(b""), Report::Drained(String::new()));
    let shutdown = Shutdown::begin(false, true, true, "/tmp/test.db")
        .advance(Report::drained(b"\xff"))
        .advance(Report::Exited { success: false, status: "signal: 9".to_string() });
    assert_eq!(
        shutdown.directive(),
        Directive::WarnAndReturn {
            headline: "sqlite3 process exited with error: signal: 9".to_string(),
            detail: "stderr: \u{fffd}".to_string(),
        }
    );
}

/// Ends a session as its owner does when the session goes out of scope,
/// with a process that never leaves. `sleep` stands for the sleep of the
/// thread.
fn drop_process(mut session: Sqlite3Process, mut sleep: impl FnMut(Duration)) {
    let mut shutdown = session.shutdown();
    let mut start = Instant::now();
    loop {
        match shutdown.directive() {
            Directive::SendExit(_) => {
                shutdown = shutdown.advance(Report::ExitSent);
                continue;
            }
            Directive::Drain => {
                shutdown = shutdown.advance(Report::drained(b""));
                continue;
            }
            Directive::Poll => start = Instant::now(),
            Directive::Sleep(millis) => sleep(Duration::from_millis(millis)),
            Directive::Return
            | Directive::WarnAndReturn { .. }
            | Directive::KillAndReturn { .. } => return,
            Directive::KillAndAbort { message, .. } => panic!("{message}"),
        }
        shutdown = shutdown.advance(Report::Running { elapsed: start.elapsed() });
    }
}

#[test]
#[should_panic(expected = "sqlite3 process hung")]
fn test_drop_timeout_panics() {
    let mut process = new_session();

    // Take stdin and stderr to prevent drop from exiting normally
    let _stdin = process.take_stdin();
    let _stderr = process.take_stderr();

    // Reset mock clock and advance past timeout while the drop sleeps
    MockClock::set_time(Duration::from_secs(0));
    drop_process(process, |_| {
        MockClock::advance(Duration::from_millis(50));
        MockClock::advance(Duration::from_millis(60_001));
    });
    panic!("Test completed without panic");
}

#[test]
fn drop_of_process_within_ceiling_keeps_waiting() {
    MockClock::set_time(Duration::from_secs(0));
    let mut sleeps = 0;
    let mut shutdown = new_session().shutdown();
    shutdown = shutdown.advance(Report::ExitSent).advance(Report::drained(b""));
    let start = Instant::now();
    while sleeps < 600 {
        shutdown = shutdown.advance(Report::Running { elapsed: start.elapsed() });
        assert_eq!(shutdown.directive(), Directive::Sleep(100));
        MockClock::advance(Duration::from_millis(100));
        sleeps += 1;
    }
    assert_eq!(start.elapsed(), Duration::from_secs(60));
    shutdown = shutdown.advance(Report::Running { elapsed: start.elapsed() });
    assert_eq!(shutdown.directive(), Directive::Sleep(100));
    shutdown = shutdown.advance(Report::Exited {
        success: true,
        status: "exit status: 0".to_string(),
    });
    assert_eq!(shutdown.directive(), Directive::Return);
}
