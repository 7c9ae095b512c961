use vstd::prelude::*;
use crate::codec::text_views;
use crate::error::{ErrorKind, StoreError};
use crate::query::{all_well_formed, param_views, Param, Statement};

verus! {

/// `rusqlite::Connection`, an open store. Nothing is stated of what it
/// holds: that is in the file, which other handles may change.
#[verifier::external_type_specification]
#[verifier::external_body]
pub struct ExConnection(rusqlite::Connection);

/// `rusqlite::Transaction`, which borrows the connection it runs on.
#[verifier::external_type_specification]
#[verifier::external_body]
pub struct ExTransaction<'a>(rusqlite::Transaction<'a>);

/// `rusqlite::Error`, of which the message and two causes are read; they go
/// by `sqlite_failure`.
#[verifier::external_type_specification]
#[verifier::external_body]
pub struct ExSqliteError(rusqlite::Error);

/// `std::path::PathBuf`, the place of a store's file. It is handed to the
/// engine as it is and never read.
#[verifier::external_type_specification]
#[verifier::external_body]
pub struct ExPathBuf(std::path::PathBuf);

/// What the store reads of an engine's error.
pub struct Failure {
    /// The engine refused a statement because it would break a constraint
    /// of the table.
    pub breaks_constraint: bool,
    /// A query for one row found none.
    pub found_no_row: bool,
    /// The error's message.
    pub message: Seq<char>,
}

/// What a `rusqlite::Error` holds of that.
pub uninterp spec fn sqlite_failure(e: rusqlite::Error) -> Failure;

/// `rusqlite::types::Value`, a value as it is bound to a placeholder.
#[verifier::external_type_specification]
#[verifier::external_body]
pub struct ExSqlValue(rusqlite::types::Value);

/// `rusqlite::Connection::open`. Whether the file opens is for the system to
/// say.
#[verifier::external_body]
pub(crate) fn open_connection(path: &std::path::PathBuf) -> (r: Result<
    rusqlite::Connection,
    rusqlite::Error,
>)
{
    rusqlite::Connection::open(path)
}

/// The `rusqlite::types::Value` for a parameter: text as text, an integer as
/// an integer, any other number as the float that `serde_json::Value::as_f64`
/// gives for it. (`serde_json` is built without `arbitrary_precision`, so
/// that it gives one for every number.)
#[verifier::external_body]
pub(crate) fn bind(p: &Param) -> (v: rusqlite::types::Value)
    requires
        p@.well_formed(),
{
    match p {
        Param::Text(s) => rusqlite::types::Value::Text(s.clone()),
        Param::Integer(n) => rusqlite::types::Value::Integer(*n),
        Param::Real(x) => rusqlite::types::Value::Real(x.as_f64().unwrap_or_default()),
    }
}

/// `rusqlite::Connection::execute` with the values bound in order. What comes
/// back depends on what the store holds.
#[verifier::external_body]
pub(crate) fn execute(
    conn: &rusqlite::Connection,
    sql: &str,
    bound: Vec<rusqlite::types::Value>,
) -> (r: Result<usize, rusqlite::Error>)
{
    conn.execute(sql, rusqlite::params_from_iter(bound))
}

/// `rusqlite::Connection::prepare` and `rusqlite::Statement::query_map`: the
/// first column of each row that the statement yields, read as text, with a
/// row that cannot be read so in its place as an error.
#[verifier::external_body]
pub(crate) fn query_texts(
    conn: &rusqlite::Connection,
    sql: &str,
    bound: Vec<rusqlite::types::Value>,
) -> (r: Result<Vec<Result<String, rusqlite::Error>>, rusqlite::Error>)
{
    let mut stmt = conn.prepare(sql)?;
    let rows = stmt.query_map(rusqlite::params_from_iter(bound), |row| row.get::<_, String>(0))?;
    Ok(rows.collect())
}

/// `rusqlite::Connection::query_row`: the first column of the one row that
/// the statement yields, read as text.
#[verifier::external_body]
pub(crate) fn query_text(
    conn: &rusqlite::Connection,
    sql: &str,
    bound: Vec<rusqlite::types::Value>,
) -> (r: Result<String, rusqlite::Error>)
{
    conn.query_row(sql, rusqlite::params_from_iter(bound), |row| row.get(0))
}

/// `rusqlite::Connection::transaction`. A transaction that is dropped
/// without `commit` is rolled back.
#[verifier::external_body]
pub(crate) fn begin<'a>(conn: &'a mut rusqlite::Connection) -> (r: Result<
    rusqlite::Transaction<'a>,
    rusqlite::Error,
>)
{
    conn.transaction()
}

/// The connection that a transaction runs on (`Deref` of
/// `rusqlite::Transaction`).
#[verifier::external_body]
pub(crate) fn connection_of<'a, 'b>(tx: &'b rusqlite::Transaction<'a>) -> (conn:
    &'b rusqlite::Connection)
{
    tx
}

/// `rusqlite::Transaction::commit`.
#[verifier::external_body]
pub(crate) fn commit<'a>(tx: rusqlite::Transaction<'a>) -> (r: Result<(), rusqlite::Error>)
{
    tx.commit()
}

/// Whether the engine refused a statement because it would break a
/// constraint of the table (`rusqlite::Error::sqlite_error_code`).
#[verifier::external_body]
pub(crate) fn breaks_constraint(e: &rusqlite::Error) -> (r: bool)
    ensures
        r == sqlite_failure(*e).breaks_constraint,
{
    e.sqlite_error_code() == Some(rusqlite::ErrorCode::ConstraintViolation)
}

/// Whether the error is `rusqlite::Error::QueryReturnedNoRows`.
#[verifier::external_body]
pub(crate) fn found_no_row(e: &rusqlite::Error) -> (r: bool)
    ensures
        r == sqlite_failure(*e).found_no_row,
{
    matches!(e, rusqlite::Error::QueryReturnedNoRows)
}

/// The message of a `rusqlite::Error`, as its `Display` writes it.
#[verifier::external_body]
pub(crate) fn sqlite_error_text(e: &rusqlite::Error) -> (text: String)
    ensures
        text@ == sqlite_failure(*e).message,
{
    e.to_string()
}

/// The values of a statement, ready to be bound.
fn bind_all(params: &Vec<Param>) -> (bound: Vec<rusqlite::types::Value>)
    requires
        all_well_formed(param_views(params@)),
    ensures
        bound.len() == params.len(),
{
    let mut bound: Vec<rusqlite::types::Value> = Vec::new();
    let mut i: usize = 0;
    while i < params.len()
        invariant
            i <= params.len(),
            bound.len() == i,
            all_well_formed(param_views(params@)),
        decreases params.len() - i,
    {
        assert(param_views(params@)[i as int].well_formed());
        bound.push(bind(&params[i]));
        i = i + 1;
    }
    bound
}

/// Runs a statement that changes rows and tells how many it changed.
pub(crate) fn run(conn: &rusqlite::Connection, st: &Statement) -> (r: Result<
    usize,
    rusqlite::Error,
>)
    requires
        st.well_formed(),
{
    execute(conn, st.sql.as_str(), bind_all(&st.params))
}

/// Runs a statement that selects payloads.
pub(crate) fn select(conn: &rusqlite::Connection, st: &Statement) -> (r: Result<
    Vec<Result<String, rusqlite::Error>>,
    rusqlite::Error,
>)
    requires
        st.well_formed(),
{
    query_texts(conn, st.sql.as_str(), bind_all(&st.params))
}

/// Runs a statement that selects the payload of one row.
pub(crate) fn select_one(conn: &rusqlite::Connection, st: &Statement) -> (r: Result<
    String,
    rusqlite::Error,
>)
    requires
        st.well_formed(),
{
    query_text(conn, st.sql.as_str(), bind_all(&st.params))
}

/// The payloads among the rows of a result set, in the rows' order: a row
/// whose payload could not be read as text is left out.
pub open spec fn readable(rows: Seq<Result<String, rusqlite::Error>>) -> Seq<Seq<char>>
    decreases rows.len(),
{
    if rows.len() == 0 {
        Seq::empty()
    } else {
        match rows.last() {
            Ok(s) => readable(rows.drop_last()).push(s@),
            Err(_) => readable(rows.drop_last()),
        }
    }
}

/// Keeps the payloads that could be read.
pub fn keep_readable(rows: &Vec<Result<String, rusqlite::Error>>) -> (kept: Vec<String>)
    ensures
        text_views(kept@) == readable(rows@),
{
    let mut kept: Vec<String> = Vec::new();
    let mut i: usize = 0;
    proof {
        assert(rows@.take(0) =~= Seq::empty());
        assert(text_views(kept@) =~= readable(rows@.take(0)));
    }
    while i < rows.len()
        invariant
            i <= rows.len(),
            text_views(kept@) == readable(rows@.take(i as int)),
        decreases rows.len() - i,
    {
        let ghost before = text_views(kept@);
        proof {
            assert(rows@.take(i as int + 1).drop_last() =~= rows@.take(i as int));
            assert(rows@.take(i as int + 1).last() == rows@[i as int]);
        }
        match &rows[i] {
            Ok(s) => {
                kept.push(s.clone());
                proof {
                    assert(text_views(kept@) =~= before.push(s@));
                }
            },
            Err(_) => {},
        }
        i = i + 1;
    }
    proof {
        assert(rows@.take(i as int) =~= rows@);
    }
    kept
}

pub open spec fn file_suffix() -> Seq<char> {
    ".db"@
}

/// The name of the file that holds a collection.
pub fn db_file_name(collection: &str) -> (name: String)
    ensures
        name@ == collection@ + file_suffix(),
{
    let mut name = String::from_str(collection);
    name.append(".db");
    name
}

pub open spec fn create_table_text() -> Seq<char> {
    "CREATE TABLE IF NOT EXISTS documents (_id TEXT PRIMARY KEY, created_at TEXT NOT NULL, data TEXT NOT NULL)"@
}

/// The statement that makes the table of documents unless it is there.
pub fn create_table_statement() -> (st: Statement)
    ensures
        st.well_formed(),
        st.made_of(create_table_text(), Seq::empty()),
{
    let st = Statement {
        sql: String::from_str(
            "CREATE TABLE IF NOT EXISTS documents (_id TEXT PRIMARY KEY, created_at TEXT NOT NULL, data TEXT NOT NULL)",
        ),
        params: Vec::new(),
    };
    assert(param_views(st.params@) =~= Seq::empty());
    st
}

/// What the caller is told when the engine fails: a failure of the given
/// kind with the engine's own message.
pub fn engine_failure(kind: ErrorKind, e: &rusqlite::Error) -> (err: StoreError)
    ensures
        err.kind == kind,
        err.message@ == sqlite_failure(*e).message,
{
    StoreError::new(kind, sqlite_error_text(e))
}

/// Opens the store in the file at `path`, which is made if it is missing,
/// and sees to it that the table of documents exists. Every failure on the
/// way is a `StoreOpen`.
pub fn init_db(path: &std::path::PathBuf) -> (r: Result<rusqlite::Connection, StoreError>)
    ensures
        r matches Err(e) ==> e.kind == ErrorKind::StoreOpen,
{
    let conn = match open_connection(path) {
        Ok(conn) => conn,
        Err(e) => {
            return Err(engine_failure(ErrorKind::StoreOpen, &e));
        },
    };
    let made = run(&conn, &create_table_statement());
    match made {
        Ok(_) => Ok(conn),
        Err(e) => Err(engine_failure(ErrorKind::StoreOpen, &e)),
    }
}

} // verus!
