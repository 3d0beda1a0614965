//! Test utilities for SQLite: the decisions, without the I/O.
//!
//! The crate drives an interactive `sqlite3` process as a service that takes
//! one command at a time and answers with exactly what the command printed,
//! and it says which statements fill and change a test database. It never
//! touches a pipe, a process, a clock or a connection itself: every operation
//! is a value that tells its driver what to do next and takes what the driver
//! reports.
//!
//! - [`session`]: what a session holds, and its operations.
//! - [`exchange`]: one command and its response.
//! - [`framing`]: how the end of a response is told.
//! - [`shutdown`]: the bounded wait for the process at the end of a session.
//! - [`fixture`] and [`notes`]: statements and random text for test databases.
//! - [`text`]: searching and writing text.

pub mod exchange;
pub mod fixture;
pub mod framing;
pub mod notes;
pub mod session;
pub mod shutdown;
pub mod text;

pub use fixture::{init_test_db, insert_test_db, read_row, set_journal_mode, update_test_db};
pub use session::Sqlite3Process;
