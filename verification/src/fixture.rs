//! Statements that fill and change a test database.
//!
//! Nothing here touches a database. Each function says which statements are
//! to run, with which values bound to them; whoever holds the connection
//! runs them, in their order, and stops at the first that fails.

use vstd::prelude::*;
use vstd::string::*;
use crate::notes::{create_note, is_note, seed_generator};
use crate::text::{lower_text, to_lower};

verus! {

/// The setting that holds the journal mode of a schema.
pub const JOURNAL_MODE_PRAGMA: &'static str = "journal_mode";

/// A value bound to a placeholder of a statement.
#[derive(Debug, PartialEq, Eq)]
pub enum Param<S> {
    Text(S),
    Integer(i64),
}

impl View for Param<String> {
    type V = Param<Seq<char>>;

    open spec fn view(&self) -> Param<Seq<char>> {
        match *self {
            Param::Text(text) => Param::Text(text@),
            Param::Integer(n) => Param::Integer(n),
        }
    }
}

/// What a statement is, in contracts.
pub struct StatementView {
    pub sql: Seq<char>,
    pub params: Seq<Param<Seq<char>>>,
    pub query: bool,
}

/// A statement, the values bound to its placeholders in their order, and
/// whether it answers with a row of one column.
#[derive(Debug, PartialEq, Eq)]
pub struct Statement {
    pub sql: String,
    pub params: Vec<Param<String>>,
    pub query: bool,
}

impl View for Statement {
    type V = StatementView;

    open spec fn view(&self) -> StatementView {
        StatementView {
            sql: self.sql@,
            params: self.params@.map_values(|param: Param<String>| param@),
            query: self.query,
        }
    }
}

/// A statement without placeholders that answers with nothing.
pub open spec fn plain(sql: Seq<char>) -> StatementView {
    StatementView { sql, params: Seq::empty(), query: false }
}

/// The statement that creates the table of notes in `schema`.
pub open spec fn create_table_sql(schema: Seq<char>) -> Seq<char> {
    "CREATE TABLE "@ + schema + ".notes (id INTEGER PRIMARY KEY, text TEXT NOT NULL)"@
}

/// The statement that adds a note while the table is filled.
pub open spec fn fill_sql(schema: Seq<char>) -> Seq<char> {
    "INSERT INTO "@ + schema + ".notes (text) VALUES (?)"@
}

/// The query for the number of notes in `schema`.
pub open spec fn count_sql(schema: Seq<char>) -> Seq<char> {
    "SELECT COUNT(*) FROM "@ + schema + ".notes"@
}

/// The statement that puts a note in place of that of a row.
pub open spec fn update_sql(schema: Seq<char>) -> Seq<char> {
    "UPDATE "@ + schema + ".notes SET text = ? WHERE id = ?"@
}

/// The statement that adds a row with a note.
pub open spec fn insert_sql(schema: Seq<char>) -> Seq<char> {
    "INSERT INTO "@ + schema + ".notes (text) values (?)"@
}

/// The query for the note of a row.
pub open spec fn read_sql(schema: Seq<char>) -> Seq<char> {
    "SELECT text FROM "@ + schema + ".notes WHERE id = ?1"@
}

/// `statement` binds one note of fewer than `word_count` words to `sql`, and
/// answers with nothing.
pub open spec fn binds_note(statement: StatementView, sql: Seq<char>, word_count: usize) -> bool {
    &&& statement.sql == sql
    &&& statement.params.len() == 1
    &&& statement.params[0] matches Param::Text(note)
    &&& is_note(note, word_count)
    &&& !statement.query
}

/// `plan` creates the table of notes in `schema` and fills it with
/// `row_count` notes in one transaction, then counts the rows.
pub open spec fn is_init_plan(
    plan: Seq<StatementView>,
    schema: Seq<char>,
    row_count: usize,
    word_count: usize,
) -> bool {
    &&& plan.len() == row_count + 4
    &&& plan[0] == plain(create_table_sql(schema))
    &&& plan[1] == plain("BEGIN"@)
    &&& forall|i: int|
        2 <= i < row_count + 2 ==> binds_note(#[trigger] plan[i], fill_sql(schema), word_count)
    &&& plan[row_count + 2] == plain("COMMIT"@)
    &&& plan[row_count + 3] == (StatementView {
        sql: count_sql(schema),
        params: Seq::empty(),
        query: true,
    })
}

/// The views of the statements of a plan.
pub open spec fn plan_view(plan: Seq<Statement>) -> Seq<StatementView> {
    plan.map_values(|statement: Statement| statement@)
}

/// `schema` between two pieces of a statement.
fn around(before: &str, schema: &str, after: &str) -> (sql: String)
    ensures
        sql@ == before@ + schema@ + after@,
{
    String::from_str(before).concat(schema).concat(after)
}

/// A statement without placeholders.
fn fixed(sql: String, query: bool) -> (statement: Statement)
    ensures
        statement@ == (StatementView { sql: sql@, params: Seq::empty(), query }),
{
    let statement = Statement { sql, params: Vec::new(), query };
    assert(statement@.params =~= Seq::empty());
    statement
}

/// A statement that binds a random note of fewer than `word_count` words.
fn with_note(sql: String, word_count: usize) -> (statement: Statement)
    requires
        word_count > 0,
    ensures
        binds_note(statement@, sql@, word_count),
        statement.params@.len() == 1,
{
    let note = create_note(word_count);
    let mut params: Vec<Param<String>> = Vec::new();
    params.push(Param::Text(note));
    Statement { sql, params, query: false }
}

/// The statements that set up a test database: they create the table
/// `notes` in `schema` and fill it with `row_count` random notes of fewer
/// than `note_word_count` words each, in one transaction; the last one counts
/// the rows. The generator of the thread is started afresh from `seed`
/// before the first note is drawn.
pub fn init_test_db(schema: &str, seed: u64, row_count: usize, note_word_count: usize) -> (plan:
    Vec<Statement>)
    requires
        row_count > 0 ==> note_word_count > 0,
    ensures
        is_init_plan(plan_view(plan@), schema@, row_count, note_word_count),
{
    seed_generator(seed);
    let mut plan: Vec<Statement> = Vec::new();
    let create = around(
        "CREATE TABLE ",
        schema,
        ".notes (id INTEGER PRIMARY KEY, text TEXT NOT NULL)",
    );
    plan.push(fixed(create, false));
    plan.push(fixed(String::from_str("BEGIN"), false));
    let mut row: usize = 0;
    while row < row_count
        invariant
            row <= row_count,
            row_count > 0 ==> note_word_count > 0,
            plan@.len() == row + 2,
            plan@[0]@ == plain(create_table_sql(schema@)),
            plan@[1]@ == plain("BEGIN"@),
            forall|i: int|
                2 <= i < row + 2 ==> binds_note(
                    #[trigger] plan@[i]@,
                    fill_sql(schema@),
                    note_word_count,
                ),
        decreases row_count - row,
    {
        let sql = around("INSERT INTO ", schema, ".notes (text) VALUES (?)");
        plan.push(with_note(sql, note_word_count));
        row += 1;
    }
    plan.push(fixed(String::from_str("COMMIT"), false));
    plan.push(fixed(around("SELECT COUNT(*) FROM ", schema, ".notes"), true));
    plan
}

/// The statement that puts a new random note of fewer than `word_count`
/// words in place of the note in row `row_id`.
pub fn update_test_db(schema: &str, row_id: i64, word_count: usize) -> (statement: Statement)
    requires
        word_count > 0,
    ensures
        statement@.sql == update_sql(schema@),
        statement@.params.len() == 2,
        statement@.params[0] matches Param::Text(note) && is_note(note, word_count),
        statement@.params[1] == Param::<Seq<char>>::Integer(row_id),
        !statement@.query,
{
    let note = create_note(word_count);
    let mut params: Vec<Param<String>> = Vec::new();
    params.push(Param::Text(note));
    params.push(Param::Integer(row_id));
    let sql = around("UPDATE ", schema, ".notes SET text = ? WHERE id = ?");
    Statement { sql, params, query: false }
}

/// The statement that adds a row with a random note of fewer than
/// `word_count` words. The connection tells the id of the new row.
pub fn insert_test_db(schema: &str, word_count: usize) -> (statement: Statement)
    requires
        word_count > 0,
    ensures
        binds_note(statement@, insert_sql(schema@), word_count),
{
    with_note(around("INSERT INTO ", schema, ".notes (text) values (?)"), word_count)
}

/// The statement that reads the note in row `row_id`.
pub fn read_row(schema: &str, row_id: i64) -> (statement: Statement)
    ensures
        statement@ == (StatementView {
            sql: read_sql(schema@),
            params: seq![Param::Integer(row_id)],
            query: true,
        }),
{
    let mut params: Vec<Param<String>> = Vec::new();
    params.push(Param::Integer(row_id));
    let statement = Statement {
        sql: around("SELECT text FROM ", schema, ".notes WHERE id = ?1"),
        params,
        query: true,
    };
    assert(statement@.params =~= seq![Param::Integer(row_id)]);
    statement
}

/// A change of journal mode that is to be made and confirmed.
#[derive(Debug, PartialEq, Eq)]
pub struct JournalModeChange {
    /// The schema whose journal mode changes.
    pub schema: String,
    /// The mode asked for, in lower case.
    pub mode: String,
}

/// What is said where the journal mode did not change as asked.
pub open spec fn mode_not_set_text(schema: Seq<char>, mode: Seq<char>) -> Seq<char> {
    "Could not set journal mode for "@ + schema + " to "@ + mode
}

/// The change of the journal mode of `schema` to `mode`, whose case does
/// not matter. The change is made by setting [`JOURNAL_MODE_PRAGMA`] of the
/// schema to the mode in lower case; the mode that the database then reports
/// goes to [`JournalModeChange::confirm`].
pub fn set_journal_mode(mode: &str, schema: &str) -> (change: JournalModeChange)
    ensures
        change.schema@ == schema@,
        change.mode@ == lower_text(mode@),
{
    JournalModeChange { schema: String::from_str(schema), mode: to_lower(mode) }
}

impl JournalModeChange {
    /// Whether the mode that the database reports is the one asked for,
    /// whatever its case; if it is not, what to say.
    pub fn confirm(&self, reported: &str) -> (outcome: Result<(), String>)
        ensures
            outcome is Ok <==> lower_text(reported@) == self.mode@,
            outcome matches Err(message) ==> message@ == mode_not_set_text(
                self.schema@,
                self.mode@,
            ),
    {
        let journal_mode = to_lower(reported);
        if journal_mode == self.mode {
            Ok(())
        } else {
            Err(
                String::from_str("Could not set journal mode for ").concat(
                    self.schema.as_str(),
                ).concat(" to ").concat(self.mode.as_str()),
            )
        }
    }
}

} // verus!
