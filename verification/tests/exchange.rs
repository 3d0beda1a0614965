use sqlite_test_utils::exchange::{Event, Exchange, ExecError, Request};
use sqlite_test_utils::framing::{
    check_sendable, classify_line, is_whole_line, terminated, LineKind,
};

/// Runs an exchange against a process that answers every write and flush
/// with success and then hands out `lines`, one for each read.
fn run_exchange(command: &str, lines: &[&str]) -> Result<String, ExecError<String>> {
    let mut exchange = Exchange::start(command, true, true);
    let mut next_line = 0;
    let mut written: Vec<String> = Vec::new();
    loop {
        let event = match exchange.request() {
            Request::Write(text) => {
                written.push(text);
                Event::Written
            }
            Request::Flush => Event::Flushed,
            Request::ReadLine => {
                if next_line < lines.len() {
                    next_line += 1;
                    Event::Line(lines[next_line - 1].to_string())
                } else {
                    Event::EndOfStream
                }
            }
            Request::Finish(result) => {
                let sentinel = "SELECT 'MARKER_END';\n".to_string();
                assert_eq!(written, vec![format!("{command}\n"), sentinel]);
                return result;
            }
        };
        exchange = exchange.advance(event);
    }
}

#[test]
fn exchange_sends_command_then_sentinel() {
    let exchange = Exchange::start("SELECT 1 + 1;", true, true);
    assert_eq!(exchange.request(), Request::Write("SELECT 1 + 1;\n".to_string()));
    let exchange = exchange.advance(Event::Written);
    assert_eq!(exchange.request(), Request::Flush);
    let exchange = exchange.advance(Event::Flushed);
    assert_eq!(exchange.request(), Request::Write("SELECT 'MARKER_END';\n".to_string()));
    let exchange = exchange.advance(Event::Written);
    assert_eq!(exchange.request(), Request::Flush);
    let exchange = exchange.advance(Event::Flushed);
    assert_eq!(exchange.request(), Request::ReadLine);
    assert_eq!(exchange, Exchange::Receive(String::new()));
}

#[test]
fn exchange_returns_output_before_marker() {
    let result = run_exchange("SELECT 1 + 1;", &["2\n", "MARKER_END\n"]);
    assert_eq!(result, Ok("2\n".to_string()));
}

#[test]
fn exchange_keeps_lines_in_order() {
    let result = run_exchange(
        "SELECT value FROM test;",
        &[
            "Hello, World! 1\n",
            "\n",
            "Hello, World! 2\n",
            "Hello, World! 3\n",
            "MARKER_END\n",
            "late\n",
        ],
    );
    assert_eq!(
        result,
        Ok("Hello, World! 1\n\nHello, World! 2\nHello, World! 3\n".to_string())
    );
}

#[test]
fn exchange_with_no_output_returns_empty_text() {
    let result = run_exchange("CREATE TABLE t (x);", &["MARKER_END\n"]);
    assert_eq!(result, Ok(String::new()));
}

#[test]
fn exchange_drops_echo_of_sentinel_and_reads_on() {
    let result = run_exchange(
        "SELECT 'a';",
        &["a\n", "SELECT 'MARKER_END';\n", "b\n", "MARKER_END\n"],
    );
    assert_eq!(result, Ok("a\nb\n".to_string()));
    let result = run_exchange(
        "SELECT 'a';",
        &["sqlite> SELECT 'MARKER_END';\n", "a\n", "MARKER_END\n"],
    );
    assert_eq!(result, Ok("a\n".to_string()));
}

#[test]
fn exchange_ends_at_first_line_that_holds_marker() {
    let result = run_exchange("SELECT 1;", &["1\n", "xxMARKER_ENDyy\n", "2\n", "MARKER_END\n"]);
    assert_eq!(result, Ok("1\n".to_string()));
    let result = run_exchange("SELECT 1;", &["1\n", "MARKER_END"]);
    assert_eq!(result, Ok("1\n".to_string()));
}

#[test]
fn exchange_output_holds_no_marker() {
    let result = run_exchange(
        "SELECT 1;",
        &["MARKER\n", "_END\n", "SELECT 'MARKER_END'\n", "MARKER_EN\n", "MARKER_END\n"],
    );
    let output = result.unwrap();
    assert_eq!(output, "MARKER\n_END\nMARKER_EN\n");
    assert!(!output.contains("MARKER_END"));
}

#[test]
fn exchange_fails_when_output_ends_before_marker() {
    let result = run_exchange("SELECT 1;", &["1\n", "2\n"]);
    assert_eq!(result, Err(ExecError::IncompleteOutput));
    let result = run_exchange("SELECT 1;", &[]);
    assert_eq!(result, Err(ExecError::IncompleteOutput));
    let result = run_exchange("SELECT 1;", &["SELECT 'MARKER_END';\n"]);
    assert_eq!(result, Err(ExecError::IncompleteOutput));
}

#[test]
fn exchange_fails_without_stdin() {
    let exchange = Exchange::start("SELECT 1;", false, true);
    assert_eq!(exchange.request(), Request::Finish(Err(ExecError::StdinUnavailable)));
    let exchange = Exchange::start("SELECT 1;", false, false);
    assert_eq!(exchange.request(), Request::Finish(Err(ExecError::StdinUnavailable)));
}

#[test]
fn exchange_fails_without_stdout() {
    let exchange = Exchange::start("SELECT 1;", true, false);
    assert_eq!(exchange.request(), Request::Finish(Err(ExecError::StdoutUnavailable)));
}

#[test]
fn exchange_fails_when_write_fails() {
    let exchange = Exchange::start("SELECT 1;", true, true);
    let exchange = exchange.advance(Event::Failed("Broken pipe".to_string()));
    assert_eq!(
        exchange.request(),
        Request::Finish(Err(ExecError::Write("Broken pipe".to_string())))
    );
}

#[test]
fn exchange_fails_when_flush_fails() {
    let exchange = Exchange::start("SELECT 1;", true, true).advance(Event::Written);
    let exchange = exchange.advance(Event::Failed("Broken pipe".to_string()));
    assert_eq!(
        exchange.request(),
        Request::Finish(Err(ExecError::Flush("Broken pipe".to_string())))
    );
    let exchange = Exchange::start("SELECT 1;", true, true)
        .advance(Event::Written)
        .advance(Event::Flushed)
        .advance(Event::Written)
        .advance(Event::Failed("gone".to_string()));
    assert_eq!(exchange, Exchange::Finished(Err(ExecError::Flush("gone".to_string()))));
}

#[test]
fn exchange_fails_when_marker_write_fails() {
    let exchange = Exchange::start("SELECT 1;", true, true)
        .advance(Event::Written)
        .advance(Event::Flushed)
        .advance(Event::Failed("Broken pipe".to_string()));
    assert_eq!(
        exchange.request(),
        Request::Finish(Err(ExecError::WriteMarker("Broken pipe".to_string())))
    );
}

#[test]
fn exchange_fails_when_read_fails_and_drops_partial_output() {
    let exchange = Exchange::start("SELECT 1;", true, true)
        .advance(Event::Written)
        .advance(Event::Flushed)
        .advance(Event::Written)
        .advance(Event::Flushed)
        .advance(Event::Line("1\n".to_string()))
        .advance(Event::Failed("stream did not contain valid UTF-8".to_string()));
    assert_eq!(
        exchange.request(),
        Request::Finish(Err(ExecError::Read("stream did not contain valid UTF-8".to_string())))
    );
}

#[test]
fn exchange_ignores_events_that_answer_no_request() {
    let exchange = Exchange::start("SELECT 1;", true, true);
    let exchange = exchange.advance(Event::Flushed);
    let exchange = exchange.advance(Event::Line("1\n".to_string()));
    let exchange = exchange.advance(Event::EndOfStream);
    assert_eq!(exchange, Exchange::SendCommand("SELECT 1;".to_string()));
    let exchange = exchange.advance(Event::Written).advance(Event::Written);
    assert_eq!(exchange, Exchange::FlushCommand);
    let exchange = exchange
        .advance(Event::Flushed)
        .advance(Event::Written)
        .advance(Event::Flushed)
        .advance(Event::Written)
        .advance(Event::Flushed);
    assert_eq!(exchange, Exchange::Receive(String::new()));
}

#[test]
fn finished_exchange_stays_finished() {
    let exchange = Exchange::Finished(Ok("1\n".to_string()));
    let exchange = exchange
        .advance(Event::Line("2\n".to_string()))
        .advance(Event::Failed("late".to_string()))
        .advance(Event::EndOfStream)
        .advance(Event::Written)
        .advance(Event::Flushed);
    assert_eq!(exchange.request(), Request::Finish(Ok("1\n".to_string())));
    let exchange: Exchange<String> = Exchange::Finished(Err(ExecError::IncompleteOutput));
    let exchange = exchange.advance(Event::Line("MARKER_END\n".to_string()));
    assert_eq!(exchange, Exchange::Finished(Err(ExecError::IncompleteOutput)));
}

#[test]
fn exec_error_messages() {
    let cause = || "Broken pipe (os error 32)".to_string();
    assert_eq!(ExecError::<String>::StdinUnavailable.message(), "stdin is not available");
    assert_eq!(ExecError::<String>::StdoutUnavailable.message(), "stdout is not available");
    assert_eq!(
        ExecError::Write(cause()).message(),
        "Failed to write: Broken pipe (os error 32)"
    );
    assert_eq!(
        ExecError::Flush(cause()).message(),
        "Failed to flush: Broken pipe (os error 32)"
    );
    assert_eq!(
        ExecError::WriteMarker(cause()).message(),
        "Failed to write marker: Broken pipe (os error 32)"
    );
    assert_eq!(
        ExecError::Read(cause()).message(),
        "Failed to read: Broken pipe (os error 32)"
    );
    assert_eq!(
        ExecError::<String>::IncompleteOutput.message(),
        "Failed to read complete output"
    );
}

#[test]
fn lines_are_classified() {
    assert_eq!(classify_line("MARKER_END\n"), LineKind::Marker);
    assert_eq!(classify_line("MARKER_END"), LineKind::Marker);
    assert_eq!(classify_line("  MARKER_END|1\n"), LineKind::Marker);
    assert_eq!(classify_line("SELECT 'MARKER_END';\n"), LineKind::Echo);
    assert_eq!(classify_line("sqlite> SELECT 'MARKER_END';\n"), LineKind::Echo);
    assert_eq!(classify_line("SELECT 'MARKER_END'"), LineKind::Echo);
    assert_eq!(classify_line("2\n"), LineKind::Output);
    assert_eq!(classify_line(""), LineKind::Output);
    assert_eq!(classify_line("\n"), LineKind::Output);
    assert_eq!(classify_line("MARKER_EN\n"), LineKind::Output);
    assert_eq!(classify_line("marker_end\n"), LineKind::Output);
    assert_eq!(classify_line("MARKER END\n"), LineKind::Output);
    assert_eq!(classify_line("h\u{e9}llo MARKER_END w\u{f6}rld\n"), LineKind::Marker);
}

#[test]
fn terminated_adds_line_terminator() {
    assert_eq!(terminated("SELECT 1;"), "SELECT 1;\n");
    assert_eq!(terminated(""), "\n");
    assert_eq!(terminated(".exit"), ".exit\n");
}

#[test]
fn output_that_ends_in_the_middle_of_a_line_is_incomplete() {
    let result = run_exchange("SELECT 1;", &["1\n", "2"]);
    assert_eq!(result, Err(ExecError::IncompleteOutput));
    let exchange = Exchange::Receive("1\n".to_string()).advance(Event::Line("2".to_string()));
    assert_eq!(exchange, Exchange::Finished(Err(ExecError::IncompleteOutput)));
    let exchange = Exchange::Receive(String::new()).advance(Event::Line(String::new()));
    assert_eq!(exchange, Exchange::Finished(Err(ExecError::IncompleteOutput)));
    // What comes after the end of the output counts for nothing.
    let result = run_exchange("SELECT 1;", &["MARKER", "_END\n", "MARKER_END\n"]);
    assert_eq!(result, Err(ExecError::IncompleteOutput));
    // An echo cut short is dropped like every echo.
    let result = run_exchange("SELECT 1;", &["1\n", "SELECT 'MARKER_END'", "MARKER_END\n"]);
    assert_eq!(result, Ok("1\n".to_string()));
}

#[test]
fn every_response_is_made_of_whole_lines_without_marker() {
    let lines = [
        "x\n",
        "MARKER\n",
        "_END\n",
        "MARKER",
        "_END",
        "SELECT 'MARKER_END';\n",
        "MARKER_END\n",
    ];
    let mut responses = 0;
    let mut runs = vec![Vec::<usize>::new()];
    for _ in 0..5 {
        let mut longer = Vec::new();
        for run in &runs {
            for next in 0..lines.len() {
                let mut run = run.clone();
                run.push(next);
                longer.push(run);
            }
        }
        for run in &longer {
            let mut exchange = Exchange::Receive(String::new());
            for &line in run {
                exchange = exchange.advance(Event::Line(lines[line].to_string()));
            }
            if let Exchange::Finished(Ok(output)) = exchange {
                responses += 1;
                assert!(!output.contains("MARKER_END"), "{run:?}");
                assert!(output.is_empty() || output.ends_with('\n'), "{run:?}");
            }
        }
        runs = longer;
    }
    assert!(responses > 1000);
}

#[test]
fn whole_lines_end_with_a_terminator() {
    assert!(is_whole_line("\n"));
    assert!(is_whole_line("2\n"));
    assert!(is_whole_line("a\nb\n"));
    assert!(!is_whole_line(""));
    assert!(!is_whole_line("2"));
    assert!(!is_whole_line("2\n "));
    assert!(!is_whole_line("2\r"));
}

#[test]
fn commands_that_hold_the_marker_are_not_sendable() {
    assert!(check_sendable("SELECT 1;"));
    assert!(check_sendable(""));
    assert!(check_sendable("SELECT 'MARKER_EN';"));
    assert!(check_sendable("SELECT 'marker_end';"));
    assert!(!check_sendable("SELECT 'MARKER_END';"));
    assert!(!check_sendable("MARKER_END"));
    assert!(!check_sendable("SELECT 'xMARKER_ENDx';"));
}
