//! The store of to-do items: a `todos` table in SQLite with the columns
//! `id`, `title` and `completed`.
//!
//! Each operation builds its statement with `sea_query` (the `*_statement`
//! functions, whose contracts fix the text and the bound values exactly) and
//! hands it to SQLite. What SQLite answers depends on the database: each
//! operation states which exchanges it adds, in order, to the record of the
//! connection (`crate::sqlite::exchanges`): the statements it handed over and
//! what came back, and how each answer becomes its result.
use vstd::prelude::*;
use rusqlite::Connection;
use sea_query_rusqlite::RusqliteValues;
use crate::err::{Error, ErrorSource, Result};
use crate::sqlite::{
    bound_values, build_delete_where_column, build_insert, build_select, build_select_where_eq,
    build_update1_where_column, build_update2_where_column, execute_statement, open_connection,
    exchanges, lemma_delete_where_column_names_it, lemma_update_where_column_names_it,
    query_one_row, query_rows, row_view, sqlite_delete_where_column_sql,
    sqlite_error_text, sqlite_insert_sql, sqlite_open_answer, sqlite_select_sql,
    sqlite_select_where_eq_sql, sqlite_update_where_column_sql, Exchange, RowView, SqlValue,
};

verus! {

/// A to-do item.
#[derive(Debug, Clone)]
pub struct Todo {
    pub id: String,
    pub title: String,
    pub completed: bool,
}

/// A to-do item as plain values.
pub struct TodoView {
    pub id: Seq<char>,
    pub title: Seq<char>,
    pub completed: bool,
}

impl View for Todo {
    type V = TodoView;

    open spec fn view(&self) -> TodoView {
        TodoView { id: self.id@, title: self.title@, completed: self.completed }
    }
}

/// The table that holds the to-do items.
pub open spec fn todo_table() -> Seq<char> {
    "todos"@
}

/// The columns of the table, in the order in which they are written and read.
pub open spec fn todo_columns() -> Seq<Seq<char>> {
    seq!["id"@, "title"@, "completed"@]
}

/// The values that store `item` in a row of the table, in column order.
pub open spec fn todo_values(item: TodoView) -> Seq<SqlValue> {
    seq![SqlValue::Text(item.id), SqlValue::Text(item.title), SqlValue::Bool(item.completed)]
}

/// The to-do item that a row read from the table holds.
pub open spec fn todo_of_row(row: (String, String, bool)) -> TodoView {
    TodoView { id: row.0@, title: row.1@, completed: row.2 }
}

/// Whether `err` is the error that a failed query becomes.
pub open spec fn is_query_error(err: Error) -> bool {
    err is DatabaseQuery
}

/// The to-do item that a row holds, the row given as plain values.
pub open spec fn todo_of_row_view(row: (Seq<char>, Seq<char>, bool)) -> TodoView {
    TodoView { id: row.0, title: row.1, completed: row.2 }
}

/// The items as plain values.
pub open spec fn views_of(todos: Seq<Todo>) -> Seq<TodoView> {
    todos.map_values(|t: Todo| t@)
}

/// Whether `res` is what a write of the store returns for the answer
/// `changed` of SQLite: the number of changed rows, or a query error.
pub open spec fn reports_count(changed: Option<usize>, res: Result<usize>) -> bool {
    match changed {
        Some(n) => res == Ok::<usize, Error>(n),
        None => res matches Err(e) && is_query_error(e),
    }
}

/// Whether `res` is what a read of every item returns for the answer `rows`
/// of SQLite: the items that the rows hold, in order, or a query error.
pub open spec fn reports_rows(
    rows: Option<Seq<(Seq<char>, Seq<char>, bool)>>,
    res: Result<Vec<Todo>>,
) -> bool {
    match rows {
        Some(rows) => res matches Ok(todos) && views_of(todos@) == rows.map_values(
            |r: (Seq<char>, Seq<char>, bool)| todo_of_row_view(r),
        ),
        None => res matches Err(e) && is_query_error(e),
    }
}

/// Whether `res` is what a read of one item returns for the answer `row` of
/// SQLite: the item that the row holds, or a query error.
pub open spec fn reports_row(row: Option<(Seq<char>, Seq<char>, bool)>, res: Result<Todo>) -> bool {
    match row {
        Some(row) => res matches Ok(todo) && todo@ == todo_of_row_view(row),
        None => res matches Err(e) && is_query_error(e),
    }
}

/// The text of the statement that reads every row.
pub open spec fn read_todos_sql() -> Seq<char> {
    sqlite_select_sql(todo_table(), todo_columns())
}

/// The text of the statement that reads the row of one id.
pub open spec fn read_todo_sql() -> Seq<char> {
    sqlite_select_where_eq_sql(todo_table(), todo_columns(), "id"@)
}

/// The text of the statement that deletes the row whose id is `todo_id`.
pub open spec fn delete_todo_sql(todo_id: Seq<char>) -> Seq<char> {
    sqlite_delete_where_column_sql(todo_table(), "id"@, todo_id)
}

/// The values that the toggle statement binds for a row read in the state
/// `completed`: the opposite state.
pub open spec fn toggled_values(completed: bool) -> Seq<SqlValue> {
    seq![SqlValue::Bool(!completed)]
}

/// The text of the statement that sets the state of the row whose id is
/// `todo_id`.
pub open spec fn toggle_todo_sql(todo_id: Seq<char>) -> Seq<char> {
    sqlite_update_where_column_sql(todo_table(), seq!["completed"@], "id"@, todo_id)
}

/// The text of the statement that writes the title and state of the row
/// whose id is `todo_id`.
pub open spec fn update_todo_sql(todo_id: Seq<char>) -> Seq<char> {
    sqlite_update_where_column_sql(todo_table(), seq!["title"@, "completed"@], "id"@, todo_id)
}

/// Toggling an item writes a statement that names that item alone: the
/// statements for two different ids differ, so the one for `x` is never the
/// one that would change the row of another id.
pub proof fn lemma_toggle_statement_names_its_item(x: Seq<char>, y: Seq<char>)
    requires
        x != y,
    ensures
        toggle_todo_sql(x) != toggle_todo_sql(y),
        toggle_exchange(x, false, None) != toggle_exchange(y, false, None),
{
    lemma_update_where_column_names_it(todo_table(), seq!["completed"@], "id"@, x, y);
}

/// Toggling writes one state, and never the one it read: an open item is
/// written finished and a finished one open.
pub proof fn lemma_toggle_writes_the_other_state(completed: bool)
    ensures
        toggled_values(completed).len() == 1,
        toggled_values(completed)[0] is Bool,
        toggled_values(completed)[0] != SqlValue::Bool(completed),
{
}

/// Saving an item writes a statement that names that item alone: the
/// statements for two different ids differ, whatever title and state they
/// write.
pub proof fn lemma_update_statement_names_its_item(a: TodoView, b: TodoView)
    requires
        a.id != b.id,
    ensures
        update_todo_sql(a.id) != update_todo_sql(b.id),
        update_exchange(a, None) != update_exchange(b, None),
{
    lemma_update_where_column_names_it(
        todo_table(),
        seq!["title"@, "completed"@],
        "id"@,
        a.id,
        b.id,
    );
}

/// Deleting an item writes a statement that names that item alone: the
/// statements for two different ids differ.
pub proof fn lemma_delete_statement_names_its_item(x: Seq<char>, y: Seq<char>)
    requires
        x != y,
    ensures
        delete_todo_sql(x) != delete_todo_sql(y),
        delete_exchange(x, None) != delete_exchange(y, None),
{
    lemma_delete_where_column_names_it(todo_table(), "id"@, x, y);
}

/// The exchange of reading the row of `todo_id`, answered with `row`.
pub open spec fn read_one_exchange(todo_id: Seq<char>, row: Option<RowView>) -> Exchange {
    Exchange::QueryRow { sql: read_todo_sql(), values: seq![SqlValue::Text(todo_id)], row }
}

/// The exchange of reading every row, answered with `rows`.
pub open spec fn read_all_exchange(rows: Option<Seq<RowView>>) -> Exchange {
    Exchange::Query { sql: read_todos_sql(), values: Seq::<SqlValue>::empty(), rows }
}

/// The exchange of writing the opposite of `completed` into the row of
/// `todo_id`, answered with `changed`.
pub open spec fn toggle_exchange(todo_id: Seq<char>, completed: bool, changed: Option<usize>) -> Exchange {
    Exchange::Execute { sql: toggle_todo_sql(todo_id), values: toggled_values(completed), changed }
}

/// The exchange of writing the title and state of `item` into the row of its
/// id, answered with `changed`.
pub open spec fn update_exchange(item: TodoView, changed: Option<usize>) -> Exchange {
    Exchange::Execute {
        sql: update_todo_sql(item.id),
        values: seq![SqlValue::Text(item.title), SqlValue::Bool(item.completed)],
        changed,
    }
}

/// The exchange of deleting the row of `todo_id`, answered with `changed`.
pub open spec fn delete_exchange(todo_id: Seq<char>, changed: Option<usize>) -> Exchange {
    Exchange::Execute { sql: delete_todo_sql(todo_id), values: Seq::<SqlValue>::empty(), changed }
}

/// Whether the exchanges went from `before` to `after` by one execution of
/// `sql` with `values`, and `res` is what the store returns for its answer.
pub open spec fn ran_write(
    before: Seq<Exchange>,
    after: Seq<Exchange>,
    sql: Seq<char>,
    values: Seq<SqlValue>,
    res: Result<usize>,
) -> bool {
    exists|changed: Option<usize>|
        after == before.push(Exchange::Execute { sql, values, changed }) && #[trigger] reports_count(
            changed,
            res,
        )
}

/// Whether the exchanges went from `before` to `after` by one read of every
/// row, and `res` is what the store returns for its answer.
pub open spec fn ran_read_all(
    before: Seq<Exchange>,
    after: Seq<Exchange>,
    res: Result<Vec<Todo>>,
) -> bool {
    exists|rows: Option<Seq<RowView>>|
        after == before.push(read_all_exchange(rows)) && #[trigger] reports_rows(rows, res)
}

/// Whether the exchanges went from `before` to `after` by one read of the row
/// of `todo_id`, and `res` is what the store returns for its answer.
pub open spec fn ran_read_one(
    before: Seq<Exchange>,
    after: Seq<Exchange>,
    todo_id: Seq<char>,
    res: Result<Todo>,
) -> bool {
    exists|row: Option<RowView>|
        after == before.push(read_one_exchange(todo_id, row)) && #[trigger] reports_row(row, res)
}

/// Whether the exchanges went from `before` to `after` by a toggle of the row
/// of `todo_id`: a read of the row, then, where there was one, the statement
/// that writes the opposite of the state read; and `res` is what the store
/// returns: a query error where there was no row, else the write's answer.
pub open spec fn ran_toggle(
    before: Seq<Exchange>,
    after: Seq<Exchange>,
    todo_id: Seq<char>,
    res: Result<usize>,
) -> bool {
    exists|row: Option<RowView>|
        #![trigger read_one_exchange(todo_id, row)]
        match row {
            None => after == before.push(read_one_exchange(todo_id, row)) && (res matches Err(e)
                && is_query_error(e)),
            Some(r) => ran_write(
                before.push(read_one_exchange(todo_id, row)),
                after,
                toggle_todo_sql(todo_id),
                toggled_values(r.2),
                res,
            ),
        }
}

/// Opens the SQLite database at `database_url`. A failure is reported as a
/// message that names the location and the database's own error, which it
/// keeps as its source (as a query error).
pub fn establish_connection(database_url: &str) -> (res: Result<Connection>)
    ensures
        exists|opened: bool|
            sqlite_open_answer(database_url@, opened) && (opened <==> res is Ok),
        res matches Ok(conn) ==> exchanges(conn) == Seq::<Exchange>::empty(),
        res matches Err(e) ==> e matches Error::Whatever {
            message,
            source: Some(ErrorSource::Sqlite(_)),
        } && exists|detail: Seq<char>|
            message@ == "Failed to connect to "@ + database_url@ + ": "@ + detail,
{
    let answer = open_connection(database_url);
    proof {
        let opened = answer is Ok;
        assert(sqlite_open_answer(database_url@, opened));
    }
    match answer {
        Ok(conn) => Ok(conn),
        Err(err) => {
            let detail = sqlite_error_text(&err);
            let message = "Failed to connect to ".to_owned().concat(database_url).concat(
                ": ",
            ).concat(detail.as_str());
            Err(Error::Whatever { message, source: Some(ErrorSource::Sqlite(err)) })
        },
    }
}

/// The name of the migration that creates the table of the store (the
/// server runs it with refinery at start).
pub const TODOS_MIGRATION_NAME: &'static str = "V1__create_todos";

/// The text of the migration that creates the table of the store.
pub const TODOS_MIGRATION_SQL: &'static str = "CREATE TABLE todos (id TEXT PRIMARY KEY NOT NULL, title TEXT NOT NULL, completed BOOLEAN NOT NULL);";

/// Hands the statement `sql` with `values` to SQLite; returns the number of
/// changed rows that it reports, or its failure as `Error::DatabaseQuery`.
fn write(conn: &mut Connection, sql: &String, values: &RusqliteValues) -> (res: Result<usize>)
    ensures
        ran_write(exchanges(*old(conn)), exchanges(*final(conn)), sql@, bound_values(*values), res),
{
    let answer = execute_statement(conn, sql.as_str(), values);
    match answer {
        Ok(n) => {
            let res: Result<usize> = Ok(n);
            proof {
                assert(reports_count(Some(n), res));
            }
            res
        },
        Err(e) => {
            let res: Result<usize> = Err(Error::DatabaseQuery { source: e });
            proof {
                assert(reports_count(None, res));
            }
            res
        },
    }
}

/// The statement that inserts `item` as a new row.
pub fn create_todo_statement(item: &Todo) -> (res: (String, RusqliteValues))
    ensures
        res.0@ == sqlite_insert_sql(todo_table(), todo_columns()),
        bound_values(res.1) == todo_values(item@),
{
    build_insert(
        "todos",
        ("id", "title", "completed"),
        (item.id.clone(), item.title.clone(), item.completed),
    )
}

/// Inserts `item` as a new row; returns the number of rows that SQLite
/// reports as inserted.
pub fn create_todo(conn: &mut Connection, item: &Todo) -> (res: Result<usize>)
    ensures
        ran_write(
            exchanges(*old(conn)),
            exchanges(*final(conn)),
            sqlite_insert_sql(todo_table(), todo_columns()),
            todo_values(item@),
            res,
        ),
{
    let (sql, values) = create_todo_statement(item);
    write(conn, &sql, &values)
}

/// The statement that reads every row.
pub fn read_todos_statement() -> (res: (String, RusqliteValues))
    ensures
        res.0@ == sqlite_select_sql(todo_table(), todo_columns()),
        bound_values(res.1) == Seq::<SqlValue>::empty(),
{
    build_select("todos", ("id", "title", "completed"))
}

/// The to-do items that the rows read from the table hold, in the same order.
pub fn todos_from_rows(rows: &Vec<(String, String, bool)>) -> (res: Vec<Todo>)
    ensures
        res@.len() == rows@.len(),
        forall|i: int| 0 <= i < rows@.len() ==> #[trigger] res@[i]@ == todo_of_row(rows@[i]),
{
    let mut res: Vec<Todo> = Vec::new();
    let mut i: usize = 0;
    while i < rows.len()
        invariant
            i <= rows@.len(),
            res@.len() == i,
            forall|j: int| 0 <= j < i ==> #[trigger] res@[j]@ == todo_of_row(rows@[j]),
        decreases rows@.len() - i,
    {
        let row = &rows[i];
        res.push(Todo { id: row.0.clone(), title: row.1.clone(), completed: row.2 });
        i = i + 1;
    }
    res
}

/// Reads every to-do item of the table, in the order in which SQLite
/// returns the rows.
pub fn read_todos(conn: &mut Connection) -> (res: Result<Vec<Todo>>)
    ensures
        ran_read_all(exchanges(*old(conn)), exchanges(*final(conn)), res),
{
    let (sql, values) = read_todos_statement();
    let answer = query_rows(conn, sql.as_str(), &values);
    match answer {
        Ok(rows) => {
            let todos = todos_from_rows(&rows);
            proof {
                let seen = rows@.map_values(|r: (String, String, bool)| row_view(r));
                assert(views_of(todos@) =~= seen.map_values(
                    |r: (Seq<char>, Seq<char>, bool)| todo_of_row_view(r),
                ));
            }
            let res: Result<Vec<Todo>> = Ok(todos);
            proof {
                let seen = rows@.map_values(|r: (String, String, bool)| row_view(r));
                assert(reports_rows(Some(seen), res));
            }
            res
        },
        Err(e) => {
            let res: Result<Vec<Todo>> = Err(Error::DatabaseQuery { source: e });
            proof {
                assert(reports_rows(None, res));
            }
            res
        },
    }
}

/// The statement that writes the title and the state of `item` into the row
/// whose id is `item.id`. The id stands in the text as a quoted name
/// (`Expr::equals` takes a column): SQLite reads a quoted name that is no
/// column as a string, so the row of that id is meant, but an id that is the
/// name of a column compares with that column instead.
pub fn update_todo_statement(item: &Todo) -> (res: (String, RusqliteValues))
    ensures
        res.0@ == sqlite_update_where_column_sql(
            todo_table(),
            seq!["title"@, "completed"@],
            "id"@,
            item.id@,
        ),
        bound_values(res.1) == seq![SqlValue::Text(item.title@), SqlValue::Bool(item.completed)],
{
    build_update2_where_column(
        "todos",
        ("title", "completed"),
        (item.title.clone(), item.completed),
        "id",
        item.id.clone(),
    )
}

/// Writes the title and the state of `item` into the row with its id;
/// returns the number of rows that SQLite reports as changed.
pub fn update_todo(conn: &mut Connection, item: &Todo) -> (res: Result<usize>)
    ensures
        ran_write(
            exchanges(*old(conn)),
            exchanges(*final(conn)),
            update_todo_sql(item@.id),
            seq![SqlValue::Text(item@.title), SqlValue::Bool(item@.completed)],
            res,
        ),
{
    let (sql, values) = update_todo_statement(item);
    write(conn, &sql, &values)
}

/// The statement that deletes the row whose id is `todo_id`, the id written
/// as a quoted name, as in `update_todo_statement`.
pub fn delete_todo_statement(todo_id: &str) -> (res: (String, RusqliteValues))
    ensures
        res.0@ == sqlite_delete_where_column_sql(todo_table(), "id"@, todo_id@),
        bound_values(res.1) == Seq::<SqlValue>::empty(),
{
    build_delete_where_column("todos", "id", todo_id.to_owned())
}

/// Deletes the row whose id is `todo_id`; returns the number of rows that
/// SQLite reports as deleted.
pub fn delete_todo(conn: &mut Connection, todo_id: &str) -> (res: Result<usize>)
    ensures
        ran_write(
            exchanges(*old(conn)),
            exchanges(*final(conn)),
            delete_todo_sql(todo_id@),
            Seq::<SqlValue>::empty(),
            res,
        ),
{
    let (sql, values) = delete_todo_statement(todo_id);
    write(conn, &sql, &values)
}

/// The statement that sets the state of the row whose id is `todo_id` to the
/// opposite of `completed`, the state that was read from it.
pub fn toggle_todo_statement(todo_id: &str, completed: bool) -> (res: (String, RusqliteValues))
    ensures
        res.0@ == sqlite_update_where_column_sql(
            todo_table(),
            seq!["completed"@],
            "id"@,
            todo_id@,
        ),
        bound_values(res.1) == seq![SqlValue::Bool(!completed)],
{
    build_update1_where_column("todos", "completed", !completed, "id", todo_id.to_owned())
}

/// Reads the item whose id is `item_id`, then writes the opposite of its
/// state into its row; returns the number of rows that SQLite reports as
/// changed. Fails, without writing, where the item cannot be read.
pub fn toggle_todo(conn: &mut Connection, item_id: &String) -> (res: Result<usize>)
    ensures
        ran_toggle(exchanges(*old(conn)), exchanges(*final(conn)), item_id@, res),
{
    let ghost before = exchanges(*conn);
    let found = read_todo(conn, item_id.as_str());
    let ghost mid = exchanges(*conn);
    let ghost read = choose|read: Option<RowView>|
        mid == before.push(read_one_exchange(item_id@, read)) && #[trigger] reports_row(read, found);
    match found {
        Ok(todo) => {
            let (sql, values) = toggle_todo_statement(item_id.as_str(), todo.completed);
            let res = write(conn, &sql, &values);
            proof {
                assert(read is Some);
                let row = read->0;
                assert(row.2 == todo.completed);
            }
            res
        },
        Err(e) => {
            proof {
                assert(read is None);
            }
            Err(e)
        },
    }
}

/// The statement that reads the row whose id is `todo_id`.
pub fn read_todo_statement(todo_id: &str) -> (res: (String, RusqliteValues))
    ensures
        res.0@ == sqlite_select_where_eq_sql(todo_table(), todo_columns(), "id"@),
        bound_values(res.1) == seq![SqlValue::Text(todo_id@)],
{
    build_select_where_eq("todos", ("id", "title", "completed"), "id", todo_id.to_owned())
}

/// Reads the item whose id is `todo_id`. Fails where there is no such row.
pub fn read_todo(conn: &mut Connection, todo_id: &str) -> (res: Result<Todo>)
    ensures
        ran_read_one(exchanges(*old(conn)), exchanges(*final(conn)), todo_id@, res),
{
    let (sql, values) = read_todo_statement(todo_id);
    let answer = query_one_row(conn, sql.as_str(), &values);
    match answer {
        Ok(row) => {
            let ghost seen = row_view(row);
            let res: Result<Todo> = Ok(Todo { id: row.0, title: row.1, completed: row.2 });
            proof {
                assert(reports_row(Some(seen), res));
            }
            res
        },
        Err(e) => {
            let res: Result<Todo> = Err(Error::DatabaseQuery { source: e });
            proof {
                assert(reports_row(None, res));
            }
            res
        },
    }
}

} // verus!
