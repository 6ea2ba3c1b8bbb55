//! The calls into SQLite (through `rusqlite`) and into the SQL query
//! builder (`sea_query`, with its `rusqlite` binding) that the to-do store
//! makes. Every function here that makes a call is trusted: its contract is
//! taken from the outside crate's source and documentation, not proved. The
//! lemmas on how names are quoted are proved.
//!
//! The statement texts are stated in full: `SqliteQueryBuilder` writes each
//! identifier between double quotes with its double quotes doubled
//! (`QuotedBuilder::prepare_iden`, for identifiers given as owned strings),
//! each bound value as a `?` placeholder, and the keywords and separators as
//! the spec functions below spell them.
use vstd::prelude::*;
use rusqlite::Connection;
use rusqlite::Error as SqliteError;
use sea_query::{Expr, ExprTrait, Query, SqliteQueryBuilder};
use sea_query_rusqlite::{RusqliteBinder, RusqliteValues};

verus! {

/// `rusqlite::Connection`, a connection to an SQLite database, held opaque.
#[verifier::external_type_specification]
#[verifier::external_body]
pub struct ExConnection(Connection);

/// `rusqlite::Error`, held opaque.
#[verifier::external_type_specification]
#[verifier::external_body]
pub struct ExSqliteError(SqliteError);

/// `sea_query_rusqlite::RusqliteValues`, the values that a built statement
/// binds; what it holds is named by `bound_values`.
#[verifier::external_type_specification]
#[verifier::external_body]
pub struct ExRusqliteValues(RusqliteValues);

/// A value bound to a `?` placeholder of a prepared statement.
pub enum SqlValue {
    Text(Seq<char>),
    Bool(bool),
}

/// The values that a built statement binds to its placeholders, in order.
pub uninterp spec fn bound_values(values: RusqliteValues) -> Seq<SqlValue>;

/// A character of an identifier as `sea_query` writes it between double
/// quotes: a double quote is doubled.
pub open spec fn quoted_char(c: char) -> Seq<char> {
    if c == '"' {
        seq!['"', '"']
    } else {
        seq![c]
    }
}

/// The characters of `s`, each as `quoted_char` writes it.
pub open spec fn doubled_quotes(s: Seq<char>) -> Seq<char>
    decreases s.len(),
{
    if s.len() == 0 {
        Seq::empty()
    } else {
        doubled_quotes(s.drop_last()) + quoted_char(s.last())
    }
}

/// An identifier as the SQLite query builder writes it: between double
/// quotes, with its double quotes doubled.
pub open spec fn quoted(name: Seq<char>) -> Seq<char> {
    seq!['"'] + doubled_quotes(name) + seq!['"']
}

/// Doubling the double quotes loses nothing: two names that are written
/// alike are the same name.
pub proof fn lemma_doubled_quotes_injective(x: Seq<char>, y: Seq<char>)
    requires
        doubled_quotes(x) == doubled_quotes(y),
    ensures
        x == y,
    decreases x.len(),
{
    if x.len() == 0 {
        if y.len() != 0 {
            assert(doubled_quotes(y).len() >= 1);
        }
        assert(x =~= y);
    } else if y.len() == 0 {
        assert(doubled_quotes(x).len() >= 1);
    } else {
        let dx = doubled_quotes(x.drop_last());
        let dy = doubled_quotes(y.drop_last());
        let qx = quoted_char(x.last());
        let qy = quoted_char(y.last());
        let w = doubled_quotes(x);
        assert(w == dx + qx);
        assert(w == dy + qy);
        assert(w.last() == qx.last());
        assert(w.last() == qy.last());
        assert(qx.len() == qy.len() && x.last() == y.last()) by {
            if x.last() == '"' {
                assert(qx.last() == '"');
                if y.last() != '"' {
                    assert(qy.last() == y.last());
                }
            } else {
                assert(qx.last() == x.last());
                if y.last() == '"' {
                    assert(qy.last() == '"');
                }
            }
        }
        assert(dx =~= w.subrange(0, dx.len() as int));
        assert(dy =~= w.subrange(0, dy.len() as int));
        lemma_doubled_quotes_injective(x.drop_last(), y.drop_last());
        assert(x =~= x.drop_last().push(x.last()));
        assert(y =~= y.drop_last().push(y.last()));
    }
}

/// A statement that ends in a quoted name names it: after one and the same
/// beginning, two different names give two different texts.
pub proof fn lemma_quoted_after_names_it(prefix: Seq<char>, x: Seq<char>, y: Seq<char>)
    requires
        x != y,
    ensures
        prefix + quoted(x) != prefix + quoted(y),
{
    if prefix + quoted(x) == prefix + quoted(y) {
        let t = prefix + quoted(x);
        assert(quoted(x) =~= t.subrange(prefix.len() as int, t.len() as int));
        assert(quoted(y) =~= t.subrange(prefix.len() as int, t.len() as int));
        let q = quoted(x);
        assert(doubled_quotes(x) =~= q.subrange(1, q.len() - 1));
        assert(doubled_quotes(y) =~= q.subrange(1, q.len() - 1));
        lemma_doubled_quotes_injective(x, y);
    }
}

/// The parts joined, with `sep` between each two.
pub open spec fn joined(parts: Seq<Seq<char>>, sep: Seq<char>) -> Seq<char>
    decreases parts.len(),
{
    if parts.len() == 0 {
        Seq::empty()
    } else if parts.len() == 1 {
        parts[0]
    } else {
        joined(parts.drop_last(), sep) + sep + parts.last()
    }
}

/// The columns, quoted and joined by `, `.
pub open spec fn column_list(columns: Seq<Seq<char>>) -> Seq<char> {
    joined(columns.map_values(|c: Seq<char>| quoted(c)), ", "@)
}

/// The SQLite text of `INSERT INTO table (columns) VALUES (?, ..)`, one
/// placeholder per column, as `sea_query` renders it.
pub open spec fn sqlite_insert_sql(table: Seq<char>, columns: Seq<Seq<char>>) -> Seq<char> {
    "INSERT INTO "@ + quoted(table) + " ("@ + column_list(columns) + ") VALUES ("@ + joined(
        columns.map_values(|c: Seq<char>| "?"@),
        ", "@,
    ) + ")"@
}

/// The SQLite text of `SELECT columns FROM table`, as `sea_query` renders it.
pub open spec fn sqlite_select_sql(table: Seq<char>, columns: Seq<Seq<char>>) -> Seq<char> {
    "SELECT "@ + column_list(columns) + " FROM "@ + quoted(table)
}

/// The SQLite text of `SELECT columns FROM table WHERE key = ?`, as
/// `sea_query` renders it.
pub open spec fn sqlite_select_where_eq_sql(
    table: Seq<char>,
    columns: Seq<Seq<char>>,
    key: Seq<char>,
) -> Seq<char> {
    sqlite_select_sql(table, columns) + " WHERE "@ + quoted(key) + " = ?"@
}

/// The SQLite text of `UPDATE table SET c1 = ?, .. WHERE key = "other"`, where
/// the right side of the comparison is written as a quoted column name, as
/// `sea_query` renders it.
pub open spec fn sqlite_update_where_column_sql(
    table: Seq<char>,
    set_columns: Seq<Seq<char>>,
    key: Seq<char>,
    other: Seq<char>,
) -> Seq<char> {
    "UPDATE "@ + quoted(table) + " SET "@ + joined(
        set_columns.map_values(|c: Seq<char>| quoted(c) + " = ?"@),
        ", "@,
    ) + " WHERE "@ + quoted(key) + " = "@ + quoted(other)
}

/// The SQLite text of `DELETE FROM table WHERE key = "other"`, where the right
/// side of the comparison is written as a quoted column name, as `sea_query`
/// renders it.
pub open spec fn sqlite_delete_where_column_sql(
    table: Seq<char>,
    key: Seq<char>,
    other: Seq<char>,
) -> Seq<char> {
    "DELETE FROM "@ + quoted(table) + " WHERE "@ + quoted(key) + " = "@ + quoted(other)
}

/// An update compares the key column with the name it is given: two different
/// names give two different statements.
pub proof fn lemma_update_where_column_names_it(
    table: Seq<char>,
    set_columns: Seq<Seq<char>>,
    key: Seq<char>,
    x: Seq<char>,
    y: Seq<char>,
)
    requires
        x != y,
    ensures
        sqlite_update_where_column_sql(table, set_columns, key, x) != sqlite_update_where_column_sql(
            table,
            set_columns,
            key,
            y,
        ),
{
    let prefix = "UPDATE "@ + quoted(table) + " SET "@ + joined(
        set_columns.map_values(|c: Seq<char>| quoted(c) + " = ?"@),
        ", "@,
    ) + " WHERE "@ + quoted(key) + " = "@;
    assert(sqlite_update_where_column_sql(table, set_columns, key, x) == prefix + quoted(x));
    assert(sqlite_update_where_column_sql(table, set_columns, key, y) == prefix + quoted(y));
    lemma_quoted_after_names_it(prefix, x, y);
}

/// A deletion compares the key column with the name it is given: two
/// different names give two different statements.
pub proof fn lemma_delete_where_column_names_it(
    table: Seq<char>,
    key: Seq<char>,
    x: Seq<char>,
    y: Seq<char>,
)
    requires
        x != y,
    ensures
        sqlite_delete_where_column_sql(table, key, x) != sqlite_delete_where_column_sql(
            table,
            key,
            y,
        ),
{
    let prefix = "DELETE FROM "@ + quoted(table) + " WHERE "@ + quoted(key) + " = "@;
    lemma_quoted_after_names_it(prefix, x, y);
}

/// `Query::insert().into_table(..).columns(..).values_panic(..)` followed by
/// `build_rusqlite(SqliteQueryBuilder)`: one row of three values. The text
/// depends on the table and the columns only (each value becomes a `?`
/// placeholder); the values are bound in the order given. Three columns and
/// three values never make `values_panic` panic.
#[verifier::external_body]
pub(crate) fn build_insert(
    table: &str,
    columns: (&str, &str, &str),
    values: (String, String, bool),
) -> (res: (String, RusqliteValues))
    ensures
        res.0@ == sqlite_insert_sql(table@, seq![columns.0@, columns.1@, columns.2@]),
        bound_values(res.1) == seq![
            SqlValue::Text(values.0@),
            SqlValue::Text(values.1@),
            SqlValue::Bool(values.2),
        ],
{
    Query::insert()
        .into_table(table.to_string())
        .columns([columns.0.to_string(), columns.1.to_string(), columns.2.to_string()])
        .values_panic([values.0.into(), values.1.into(), values.2.into()])
        .build_rusqlite(SqliteQueryBuilder)
}

/// `Query::select().columns(..).from(..)` followed by
/// `build_rusqlite(SqliteQueryBuilder)`: a statement that binds no value.
#[verifier::external_body]
pub(crate) fn build_select(table: &str, columns: (&str, &str, &str)) -> (res: (
    String,
    RusqliteValues,
))
    ensures
        res.0@ == sqlite_select_sql(table@, seq![columns.0@, columns.1@, columns.2@]),
        bound_values(res.1) == Seq::<SqlValue>::empty(),
{
    Query::select()
        .columns([columns.0.to_string(), columns.1.to_string(), columns.2.to_string()])
        .from(table.to_string())
        .build_rusqlite(SqliteQueryBuilder)
}

/// `Query::select().columns(..).from(..).and_where(Expr::col(key).eq(value))`
/// followed by `build_rusqlite(SqliteQueryBuilder)`: the value is bound to the
/// one placeholder of the condition.
#[verifier::external_body]
pub(crate) fn build_select_where_eq(
    table: &str,
    columns: (&str, &str, &str),
    key: &str,
    value: String,
) -> (res: (String, RusqliteValues))
    ensures
        res.0@ == sqlite_select_where_eq_sql(
            table@,
            seq![columns.0@, columns.1@, columns.2@],
            key@,
        ),
        bound_values(res.1) == seq![SqlValue::Text(value@)],
{
    Query::select()
        .columns([columns.0.to_string(), columns.1.to_string(), columns.2.to_string()])
        .from(table.to_string())
        .and_where(Expr::col(key.to_string()).eq(value).into())
        .build_rusqlite(SqliteQueryBuilder)
}

/// `Query::update().table(..).value(c1, v1).value(c2, v2)` with
/// `.and_where(Expr::col(key).equals(other))`, followed by
/// `build_rusqlite(SqliteQueryBuilder)`. `equals` takes a column: `other` is
/// written into the text as a quoted name, not bound. The two values are
/// bound in order.
#[verifier::external_body]
pub(crate) fn build_update2_where_column(
    table: &str,
    columns: (&str, &str),
    values: (String, bool),
    key: &str,
    other: String,
) -> (res: (String, RusqliteValues))
    ensures
        res.0@ == sqlite_update_where_column_sql(
            table@,
            seq![columns.0@, columns.1@],
            key@,
            other@,
        ),
        bound_values(res.1) == seq![SqlValue::Text(values.0@), SqlValue::Bool(values.1)],
{
    Query::update()
        .table(table.to_string())
        .value(columns.0.to_string(), values.0)
        .value(columns.1.to_string(), values.1)
        .and_where(Expr::col(key.to_string()).equals(other))
        .build_rusqlite(SqliteQueryBuilder)
}

/// As `build_update2_where_column`, with one column set.
#[verifier::external_body]
pub(crate) fn build_update1_where_column(
    table: &str,
    column: &str,
    value: bool,
    key: &str,
    other: String,
) -> (res: (String, RusqliteValues))
    ensures
        res.0@ == sqlite_update_where_column_sql(table@, seq![column@], key@, other@),
        bound_values(res.1) == seq![SqlValue::Bool(value)],
{
    Query::update()
        .table(table.to_string())
        .value(column.to_string(), value)
        .and_where(Expr::col(key.to_string()).equals(other))
        .build_rusqlite(SqliteQueryBuilder)
}

/// `Query::delete().from_table(..).and_where(Expr::col(key).equals(other))`
/// followed by `build_rusqlite(SqliteQueryBuilder)`: `other` is written into
/// the text as a quoted name; nothing is bound.
#[verifier::external_body]
pub(crate) fn build_delete_where_column(table: &str, key: &str, other: String) -> (res: (
    String,
    RusqliteValues,
))
    ensures
        res.0@ == sqlite_delete_where_column_sql(table@, key@, other@),
        bound_values(res.1) == Seq::<SqlValue>::empty(),
{
    Query::delete()
        .from_table(table.to_string())
        .and_where(Expr::col(key.to_string()).equals(other))
        .build_rusqlite(SqliteQueryBuilder)
}

/// A row read from the table, as plain values: id, title, state.
pub open spec fn row_view(row: (String, String, bool)) -> RowView {
    (row.0@, row.1@, row.2)
}

/// Whether `opened` is an answer that SQLite gave to opening the database at
/// `path`. It depends on the file system: the same path may be answered either
/// way, and nothing else is stated of it. It records what was asked.
pub uninterp spec fn sqlite_open_answer(path: Seq<char>, opened: bool) -> bool;

/// A row read from the table, as plain values: id, title, state.
pub type RowView = (Seq<char>, Seq<char>, bool);

/// One exchange of the library with SQLite: what was handed over, and what
/// came back.
pub enum Exchange {
    /// A statement prepared with the text `sql` and executed with the bound
    /// `values`; `Some` of the number of rows that SQLite reported as changed,
    /// or `None` where it failed.
    Execute { sql: Seq<char>, values: Seq<SqlValue>, changed: Option<usize> },
    /// A query prepared with the text `sql` and run with the bound `values`;
    /// `Some` of every row it returned, in its order, each read as its first
    /// three columns, or `None` where it failed.
    Query { sql: Seq<char>, values: Seq<SqlValue>, rows: Option<Seq<RowView>> },
    /// A query prepared with the text `sql` and run with the bound `values`,
    /// of which the first row was read; `Some` of its first three columns, or
    /// `None` where it failed or returned no row.
    QueryRow { sql: Seq<char>, values: Seq<SqlValue>, row: Option<RowView> },
}

/// The exchanges that the library has had with SQLite over the connection,
/// in the order in which they happened. This is a record kept for the
/// contracts: rusqlite keeps no such list, and what SQLite answers depends on
/// the database, of which nothing is stated. The wrappers below only say that
/// each call adds its own exchange at the end.
pub uninterp spec fn exchanges(conn: Connection) -> Seq<Exchange>;

/// `rusqlite::Connection::open`. Whether it succeeds depends on the file
/// system; the contract records that the answer is one for `path`, and that a
/// new connection has had no exchange yet.
#[verifier::external_body]
pub(crate) fn open_connection(path: &str) -> (res: Result<Connection, SqliteError>)
    ensures
        sqlite_open_answer(path@, res is Ok),
        res matches Ok(conn) ==> exchanges(conn) == Seq::<Exchange>::empty(),
{
    Connection::open(path)
}

/// `Connection::prepare_cached(sql)` (the statement taken from the
/// connection's cache where it is there), then `Statement::execute` with the
/// bound values (`RusqliteValues::as_params`): the number of rows that the
/// statement changed, or SQLite's error from either step. The answer depends
/// on the database; the contract records the exchange.
#[verifier::external_body]
pub(crate) fn execute_statement(
    conn: &mut Connection,
    sql: &str,
    values: &RusqliteValues,
) -> (res: Result<usize, SqliteError>)
    ensures
        exchanges(*final(conn)) == exchanges(*old(conn)).push(
            Exchange::Execute {
                sql: sql@,
                values: bound_values(*values),
                changed: match res {
                    Ok(n) => Some(n),
                    Err(_) => None,
                },
            },
        ),
{
    conn.prepare_cached(sql)?.execute(&*values.as_params())
}

/// `Connection::prepare_cached(sql)`, then `Statement::query_map` with the
/// bound values, each row read as its first three columns (text, text,
/// boolean), collected in the order in which SQLite returns the rows. The
/// answer depends on the database; the contract records the exchange.
#[verifier::external_body]
pub(crate) fn query_rows(conn: &mut Connection, sql: &str, values: &RusqliteValues) -> (res:
    Result<Vec<(String, String, bool)>, SqliteError>)
    ensures
        exchanges(*final(conn)) == exchanges(*old(conn)).push(
            Exchange::Query {
                sql: sql@,
                values: bound_values(*values),
                rows: match res {
                    Ok(rows) => Some(rows@.map_values(|r: (String, String, bool)| row_view(r))),
                    Err(_) => None,
                },
            },
        ),
{
    let mut stmt = conn.prepare_cached(sql)?;
    let rows = stmt.query_map(&*values.as_params(), |row| Ok((row.get(0)?, row.get(1)?, row.get(2)?)))?;
    rows.collect()
}

/// `Connection::prepare_cached(sql)`, then `Statement::query_row` with the
/// bound values, the first row read as its first three columns (text, text,
/// boolean). It fails with `QueryReturnedNoRows` where there is no row. The
/// answer depends on the database; the contract records the exchange.
#[verifier::external_body]
pub(crate) fn query_one_row(conn: &mut Connection, sql: &str, values: &RusqliteValues) -> (res:
    Result<(String, String, bool), SqliteError>)
    ensures
        exchanges(*final(conn)) == exchanges(*old(conn)).push(
            Exchange::QueryRow {
                sql: sql@,
                values: bound_values(*values),
                row: match res {
                    Ok(row) => Some(row_view(row)),
                    Err(_) => None,
                },
            },
        ),
{
    conn.prepare_cached(sql)?.query_row(&*values.as_params(), |row| Ok((row.get(0)?, row.get(1)?, row.get(2)?)))
}

/// `ToString::to_string` of a `rusqlite::Error`, through its `Display` impl.
/// The text is not stated.
#[verifier::external_body]
pub(crate) fn sqlite_error_text(err: &SqliteError) -> (res: String) {
    err.to_string()
}

} // verus!
