//! The HTML pages and fragments of the application, and the page handlers
//! that read or change the to-do store before they render.
//!
//! Each fragment is stated exactly by a spec function; text that comes from
//! the user or the database is escaped (`html_escape`).
use vstd::prelude::*;
use rusqlite::Connection;
use uuid::Uuid;
use crate::db::{
    delete_exchange, delete_todo_sql, is_query_error, ran_write, read_all_exchange,
    read_one_exchange, reports_count, reports_row, reports_rows, todo_columns, todo_of_row_view,
    todo_table, todo_values, toggle_exchange, toggle_todo_sql, toggled_values, update_exchange,
    update_todo_sql, views_of, TodoView,
};
use crate::db::{create_todo, delete_todo, read_todo, read_todos, toggle_todo, update_todo, Todo};
use crate::sqlite::{exchanges, sqlite_insert_sql, Exchange, RowView, SqlValue};
use crate::err::{Error, ErrorSource, Result};
use crate::html::{
    html_escape, html_unescape, lemma_escape_concat, lemma_escaped_text_is_inert,
    lemma_unescape_escape, push_escaped,
};

verus! {

/// The states in which a to-do item can be shown.
pub enum TodoState {
    Default,
    Editing,
    Done,
}

/// A to-do item together with a copy that is being edited.
pub struct TodoWithTemp {
    pub data: Todo,
    pub data_temp: Todo,
}

/// The form that saves a new title.
pub struct TodoForm {
    pub title: String,
}

/// The title of a new item.
pub open spec fn new_item_title() -> Seq<char> {
    "New item"@
}

/// The `<head>` of every page, after the doctype, with the given title.
pub open spec fn header_html(title: Seq<char>) -> Seq<char> {
    "<!DOCTYPE html><head><meta charset=\"utf-8\"><title>"@ + html_escape(title)
        + "</title><script src=\"https://unpkg.com/htmx.org@2.0.4\"></script><script defer src=\"https://unpkg.com/alpinejs@3.14.8\"></script><link rel=\"stylesheet\" type=\"text/css\" href=\"./styles.css\"><link rel=\"apple-touch-icon\" sizes=\"180x180\" href=\"/apple-touch-icon.png\"><link rel=\"icon\" type=\"image/png\" sizes=\"32x32\" href=\"/favicon-32x32.png\"><link rel=\"icon\" type=\"image/png\" sizes=\"16x16\" href=\"/favicon-16x16.png\"><link rel=\"manifest\" href=\"/site.webmanifest\"></head>"@
}

/// The table row of an item: an open item can be finished, edited or
/// deleted; a finished one is struck through and can be reopened.
pub open spec fn todo_row_html(todo: TodoView) -> Seq<char> {
    if !todo.completed {
        "<tr><td>"@ + html_escape(todo.title) + "</td>"@
            + "<td class=\"flex gap-2\"><button class=\"btn btn-success\" hx-target=\"closest tr\" hx-post=\""@
            + html_escape("/toggle/"@ + todo.id)
            + "\" hx-swap=\"outerHTML\">Finish</button><button class=\"btn btn-primary\" hx-target=\"closest tr\" hx-post=\""@
            + html_escape("/edit/"@ + todo.id)
            + "\" hx-swap=\"outerHTML\">Edit</button><button class=\"btn\" hx-confirm=\"Are you sure?\" hx-delete=\""@
            + html_escape("/delete/"@ + todo.id)
            + "\" hx-swap=\"delete\" hx-target=\"closest tr\">Delete</button></td></tr>"@
    } else {
        "<tr><td class=\"line-through\">"@ + html_escape(todo.title) + "</td>"@
            + "<td class=\"flex gap-2\"><button class=\"btn btn-warning\" hx-target=\"closest tr\" hx-post=\""@
            + html_escape("/toggle/"@ + todo.id)
            + "\" hx-swap=\"outerHTML\">Reopen</button><button class=\"btn\">Delete</button></td></tr>"@
    }
}

/// The rows of the items, in order.
pub open spec fn todo_rows_html(todos: Seq<TodoView>) -> Seq<char>
    decreases todos.len(),
{
    if todos.len() == 0 {
        Seq::empty()
    } else {
        todo_rows_html(todos.drop_last()) + todo_row_html(todos.last())
    }
}

/// The beginning of the row of an item, up to the text of its title cell.
pub open spec fn title_cell_start(completed: bool) -> Seq<char> {
    if completed {
        "<tr><td class=\"line-through\">"@
    } else {
        "<tr><td>"@
    }
}

/// The texts one after the other, the first first.
pub open spec fn concat_all(parts: Seq<Seq<char>>) -> Seq<char>
    decreases parts.len(),
{
    if parts.len() == 0 {
        Seq::empty()
    } else {
        parts[0] + concat_all(parts.skip(1))
    }
}

/// Adding a text at the end of the list adds it at the end of the whole.
pub proof fn lemma_concat_all_push(parts: Seq<Seq<char>>, last: Seq<char>)
    ensures
        concat_all(parts.push(last)) == concat_all(parts) + last,
    decreases parts.len(),
{
    if parts.len() == 0 {
        assert(parts.push(last).skip(1) =~= Seq::<Seq<char>>::empty());
        assert(concat_all(Seq::<Seq<char>>::empty()) == Seq::<char>::empty());
        assert(concat_all(parts.push(last)) =~= last);
        assert(concat_all(parts) =~= Seq::<char>::empty());
    } else {
        lemma_concat_all_push(parts.skip(1), last);
        assert(parts.push(last).skip(1) =~= parts.skip(1).push(last));
        assert(parts.push(last)[0] == parts[0]);
        assert(concat_all(parts.push(last)) =~= concat_all(parts) + last);
    }
}

/// A row shows the title of its item escaped exactly once, whether the item
/// is open or finished: after the start of the row comes a cell text with no
/// `<` in it, which a browser shows as the title itself, and then `</td>`.
/// That cell text is the escaped title in both states.
pub proof fn lemma_row_shows_title_once(todo: TodoView)
    ensures
        (title_cell_start(todo.completed) + html_escape(todo.title) + "</td>"@).is_prefix_of(
            todo_row_html(todo),
        ),
        exists|cell: Seq<char>|
            #![trigger html_unescape(cell)]
            (title_cell_start(todo.completed) + cell + "</td>"@).is_prefix_of(todo_row_html(todo))
                && html_unescape(cell) == todo.title && (forall|i: int|
                0 <= i < cell.len() ==> cell[i] != '<'),
{
    let cell = html_escape(todo.title);
    let p = title_cell_start(todo.completed) + cell + "</td>"@;
    let row = todo_row_html(todo);
    assert(p =~= row.subrange(0, p.len() as int));
    lemma_unescape_escape(todo.title);
    lemma_escaped_text_is_inert(todo.title);
    assert forall|i: int| 0 <= i < cell.len() implies cell[i] != '<' by {
        assert(cell[i] == html_escape(todo.title)[i]);
    }
    assert(html_unescape(cell) == todo.title);
}

/// The rows of the home page are exactly the rows that `todo_row` shows of
/// its items, in order: the page for a list is the page for no items with
/// the row of each item, one after the other, in its body.
pub proof fn lemma_home_rows_are_item_rows(todos: Seq<TodoView>)
    ensures
        todo_rows_html(todos) == concat_all(todos.map_values(|t: TodoView| todo_row_html(t))),
        exists|pre: Seq<char>, post: Seq<char>|
            #![trigger pre + post]
            home_page_html(Seq::<TodoView>::empty()) == pre + post && home_page_html(todos) == pre
                + concat_all(todos.map_values(|t: TodoView| todo_row_html(t))) + post,
    decreases todos.len(),
{
    let rows = todos.map_values(|t: TodoView| todo_row_html(t));
    if todos.len() == 0 {
        assert(rows =~= Seq::<Seq<char>>::empty());
        assert(concat_all(rows) == Seq::<char>::empty());
    } else {
        lemma_home_rows_are_item_rows(todos.drop_last());
        let before = todos.drop_last().map_values(|t: TodoView| todo_row_html(t));
        assert(rows =~= before.push(todo_row_html(todos.last())));
        lemma_concat_all_push(before, todo_row_html(todos.last()));
    }
    let pre = header_html("TODO Home"@)
        + "<body><div class=\"container mx-auto p-4 flex flex-col gap-2\"><h1 class=\"text-3xl font-bold\">TODO Home</h1><table class=\"table w-full\"><thead><tr><th>Title</th><th>Actions</th></tr></thead><tbody>"@;
    let post = "<tr><td><button class=\"btn btn-success\" hx-post=\"/create\" hx-target=\"closest tr\" hx-swap=\"beforebegin\">Create</button></td></tr></tbody></table></div></body>"@;
    assert(todo_rows_html(Seq::<TodoView>::empty()) == Seq::<char>::empty());
    assert(home_page_html(Seq::<TodoView>::empty()) =~= pre + post);
    assert(home_page_html(todos) == pre + concat_all(rows) + post);
}

/// The items as plain values.
pub open spec fn todo_views(todos: Seq<Todo>) -> Seq<TodoView> {
    todos.map_values(|t: Todo| t@)
}

/// The home page: the table of all items, and a button that creates one.
pub open spec fn home_page_html(todos: Seq<TodoView>) -> Seq<char> {
    header_html("TODO Home"@)
        + "<body><div class=\"container mx-auto p-4 flex flex-col gap-2\"><h1 class=\"text-3xl font-bold\">TODO Home</h1><table class=\"table w-full\"><thead><tr><th>Title</th><th>Actions</th></tr></thead><tbody>"@
        + todo_rows_html(todos)
        + "<tr><td><button class=\"btn btn-success\" hx-post=\"/create\" hx-target=\"closest tr\" hx-swap=\"beforebegin\">Create</button></td></tr></tbody></table></div></body>"@
}

/// The row of an item whose title is being edited.
pub open spec fn edit_row_html(todo: TodoView) -> Seq<char> {
    "<tr><td><input class=\"input input-bordered\" type=\"text\" name=\"title\" value=\""@
        + html_escape(todo.title)
        + "\"></td><td class=\"flex gap-2\"><button class=\"btn btn-primary\" hx-post=\""@
        + html_escape("/save/"@ + todo.id)
        + "\" hx-include=\"input[name='title']\" hx-target=\"closest tr\" hx-swap=\"outerHTML\">Save</button><button class=\"btn\" hx-target=\"closest tr\" hx-post=\""@
        + html_escape("/default/"@ + todo.id) + "\" hx-swap=\"outerHTML\">Reset</button></td></tr>"@
}

/// The login page.
pub open spec fn login_page_html() -> Seq<char> {
    header_html("Login"@)
        + "<body><div class=\"container mx-auto p-4\"><h1 class=\"text-3xl font-bold mb-2\">Login</h1><form method=\"post\"><div class=\"flex flex-col w-80\"><label class=\"label\">Username</label><input class=\"input input-bordered\" type=\"text\" name=\"username\" placeholder=\"Username\"><label class=\"label\">Password</label><input class=\"input input-bordered\" type=\"password\" name=\"password\" placeholder=\"Password\"><div class=\"mt-4 flex flex-row-reverse\"><button class=\"btn btn-primary\" type=\"submit\">Login</button></div></div></form></div></body>"@
}

/// The page shown after a successful login.
pub open spec fn login_success_page_html() -> Seq<char> {
    header_html("Login Success"@)
        + "<body><div class=\"container mx-auto p-4\"><h1 class=\"text-3xl font-bold mb-2\">Login Success</h1><p>You are now logged in</p></div></body>"@
}

/// The page of a feature that is not there yet.
pub open spec fn unimplemented_page_html() -> Seq<char> {
    header_html("Unimplemented!!1"@)
        + "<body><div class=\"container mx-auto p-4\"><h1 class=\"text-3xl font-bold mb-2\">Unimplemented</h1><p>Please check again later</p></div></body>"@
}

/// The text shown where the shared state of the application cannot be had.
pub open spec fn lock_failed_html() -> Seq<char> {
    "Unable to get global state"@
}

/// Appends the escaping of `a` followed by `b`, as one text.
fn push_escaped_concat(out: &mut String, a: &str, b: &str)
    ensures
        final(out)@ == old(out)@ + html_escape(a@ + b@),
{
    push_escaped(out, a);
    push_escaped(out, b);
    proof {
        lemma_escape_concat(a@, b@);
    }
}

/// The `<head>` of a page with the given title.
pub fn header(page_title: &str) -> (res: String)
    ensures
        res@ == header_html(page_title@),
{
    let mut out = String::new();
    out.append("<!DOCTYPE html><head><meta charset=\"utf-8\"><title>");
    push_escaped(&mut out, page_title);
    out.append(
        "</title><script src=\"https://unpkg.com/htmx.org@2.0.4\"></script><script defer src=\"https://unpkg.com/alpinejs@3.14.8\"></script><link rel=\"stylesheet\" type=\"text/css\" href=\"./styles.css\"><link rel=\"apple-touch-icon\" sizes=\"180x180\" href=\"/apple-touch-icon.png\"><link rel=\"icon\" type=\"image/png\" sizes=\"32x32\" href=\"/favicon-32x32.png\"><link rel=\"icon\" type=\"image/png\" sizes=\"16x16\" href=\"/favicon-16x16.png\"><link rel=\"manifest\" href=\"/site.webmanifest\"></head>",
    );
    out
}

/// Appends the table row of `todo` to `out`.
fn push_todo_row(out: &mut String, todo: &Todo)
    ensures
        final(out)@ == old(out)@ + todo_row_html(todo@),
{
    if !todo.completed {
        out.append("<tr><td>");
        push_escaped(out, todo.title.as_str());
        out.append("</td>");
        out.append(
            "<td class=\"flex gap-2\"><button class=\"btn btn-success\" hx-target=\"closest tr\" hx-post=\"",
        );
        push_escaped_concat(out, "/toggle/", todo.id.as_str());
        out.append(
            "\" hx-swap=\"outerHTML\">Finish</button><button class=\"btn btn-primary\" hx-target=\"closest tr\" hx-post=\"",
        );
        push_escaped_concat(out, "/edit/", todo.id.as_str());
        out.append(
            "\" hx-swap=\"outerHTML\">Edit</button><button class=\"btn\" hx-confirm=\"Are you sure?\" hx-delete=\"",
        );
        push_escaped_concat(out, "/delete/", todo.id.as_str());
        out.append("\" hx-swap=\"delete\" hx-target=\"closest tr\">Delete</button></td></tr>");
    } else {
        out.append("<tr><td class=\"line-through\">");
        push_escaped(out, todo.title.as_str());
        out.append("</td>");
        out.append(
            "<td class=\"flex gap-2\"><button class=\"btn btn-warning\" hx-target=\"closest tr\" hx-post=\"",
        );
        push_escaped_concat(out, "/toggle/", todo.id.as_str());
        out.append(
            "\" hx-swap=\"outerHTML\">Reopen</button><button class=\"btn\">Delete</button></td></tr>",
        );
    }
}

/// The table row of `todo`.
pub fn todo_row(todo: &Todo) -> (res: String)
    ensures
        res@ == todo_row_html(todo@),
{
    let mut out = String::new();
    push_todo_row(&mut out, todo);
    out
}

/// The home page that lists `todos`.
pub fn home_page(todos: &Vec<Todo>) -> (res: String)
    ensures
        res@ == home_page_html(todo_views(todos@)),
{
    let ghost views = todo_views(todos@);
    let mut out = header("TODO Home");
    out.append(
        "<body><div class=\"container mx-auto p-4 flex flex-col gap-2\"><h1 class=\"text-3xl font-bold\">TODO Home</h1><table class=\"table w-full\"><thead><tr><th>Title</th><th>Actions</th></tr></thead><tbody>",
    );
    let ghost start = out@;
    let mut i: usize = 0;
    while i < todos.len()
        invariant
            i <= todos@.len(),
            views == todo_views(todos@),
            out@ == start + todo_rows_html(views.take(i as int)),
        decreases todos@.len() - i,
    {
        proof {
            assert(views.take(i + 1).drop_last() =~= views.take(i as int));
            assert(views.take(i + 1).last() == todos@[i as int]@);
        }
        push_todo_row(&mut out, &todos[i]);
        i = i + 1;
    }
    proof {
        assert(views.take(todos@.len() as int) =~= views);
    }
    out.append(
        "<tr><td><button class=\"btn btn-success\" hx-post=\"/create\" hx-target=\"closest tr\" hx-swap=\"beforebegin\">Create</button></td></tr></tbody></table></div></body>",
    );
    out
}

/// The row of `todo` with its title in an input, to be edited.
pub fn edit_row(todo: &Todo) -> (res: String)
    ensures
        res@ == edit_row_html(todo@),
{
    let mut out = String::new();
    out.append(
        "<tr><td><input class=\"input input-bordered\" type=\"text\" name=\"title\" value=\"",
    );
    push_escaped(&mut out, todo.title.as_str());
    out.append(
        "\"></td><td class=\"flex gap-2\"><button class=\"btn btn-primary\" hx-post=\"",
    );
    push_escaped_concat(&mut out, "/save/", todo.id.as_str());
    out.append(
        "\" hx-include=\"input[name='title']\" hx-target=\"closest tr\" hx-swap=\"outerHTML\">Save</button><button class=\"btn\" hx-target=\"closest tr\" hx-post=\"",
    );
    push_escaped_concat(&mut out, "/default/", todo.id.as_str());
    out.append("\" hx-swap=\"outerHTML\">Reset</button></td></tr>");
    out
}

/// The text shown where the shared state of the application cannot be had.
pub fn lock_failed() -> (res: String)
    ensures
        res@ == lock_failed_html(),
{
    "Unable to get global state".to_owned()
}

/// Whether `c` is a lowercase hexadecimal digit.
pub open spec fn is_lower_hex(c: char) -> bool {
    ('0' <= c && c <= '9') || ('a' <= c && c <= 'f')
}

/// Whether `s` is the hyphenated lowercase text of a random (version 4)
/// UUID: 36 characters, hyphens at 8, 13, 18 and 23, the version digit `4`
/// at 14, one of `8`, `9`, `a`, `b` at 19, lowercase hex digits elsewhere.
pub open spec fn is_v4_uuid_text(s: Seq<char>) -> bool {
    &&& s.len() == 36
    &&& forall|i: int|
        0 <= i < 36 ==> if i == 8 || i == 13 || i == 18 || i == 23 {
            #[trigger] s[i] == '-'
        } else {
            is_lower_hex(s[i])
        }
    &&& s[14] == '4'
    &&& (s[19] == '8' || s[19] == '9' || s[19] == 'a' || s[19] == 'b')
}

/// `Uuid::new_v4` rendered with `to_string`: a fresh random id. Which id
/// depends on chance; the source (`v4.rs`: the random bits masked with the
/// version 4 and the RFC variant; `fmt.rs`: `Display` is the hyphenated
/// lowercase form) fixes its form.
#[verifier::external_body]
fn new_todo_id() -> (res: String)
    ensures
        is_v4_uuid_text(res@),
{
    Uuid::new_v4().to_string()
}

/// The item that the create button adds, with the given id: titled "New
/// item", open.
pub fn new_item(id: String) -> (res: Todo)
    ensures
        res@ == (TodoView { id: id@, title: new_item_title(), completed: false }),
{
    Todo { id, title: "New item".to_owned(), completed: false }
}

/// Whether `res` shows, for the answer `row` of SQLite, the table row of the
/// item that `row` holds, or the query error where there was no row.
pub open spec fn shows_row(row: Option<RowView>, res: Result<String>) -> bool {
    match row {
        Some(row) => res matches Ok(html) && html@ == todo_row_html(todo_of_row_view(row)),
        None => res matches Err(e) && is_query_error(e),
    }
}

/// Whether `res` shows, for the answer `row` of SQLite, the editing row of
/// the item that `row` holds, or the query error where there was no row.
pub open spec fn shows_edit_row(row: Option<RowView>, res: Result<String>) -> bool {
    match row {
        Some(row) => res matches Ok(html) && html@ == edit_row_html(todo_of_row_view(row)),
        None => res matches Err(e) && is_query_error(e),
    }
}

/// The item that the create button adds with the id `id`.
pub open spec fn new_item_view(id: Seq<char>) -> TodoView {
    TodoView { id, title: new_item_title(), completed: false }
}

/// The exchange of inserting the new item `id`, answered with `changed`.
pub open spec fn create_exchange(id: Seq<char>, changed: Option<usize>) -> Exchange {
    Exchange::Execute {
        sql: sqlite_insert_sql(todo_table(), todo_columns()),
        values: todo_values(new_item_view(id)),
        changed,
    }
}

/// Whether the exchanges went from `before` to `after` by the insert of the
/// new item `id`, and `res` is its row where SQLite took it, else the query
/// error.
pub open spec fn ran_create(
    before: Seq<Exchange>,
    after: Seq<Exchange>,
    id: Seq<char>,
    res: Result<String>,
) -> bool {
    exists|changed: Option<usize>|
        #![trigger create_exchange(id, changed)]
        after == before.push(create_exchange(id, changed)) && match changed {
            Some(_) => res matches Ok(html) && html@ == todo_row_html(new_item_view(id)),
            None => res matches Err(e) && is_query_error(e),
        }
}

/// The home page, with every item of the store in the order in which SQLite
/// returns the rows. A failure to read the store is reported as a message
/// that keeps the query error as its source.
pub fn page_home(conn: &mut Connection) -> (res: Result<String>)
    ensures
        exists|rows: Option<Seq<RowView>>|
            #![trigger read_all_exchange(rows)]
            exchanges(*final(conn)) == exchanges(*old(conn)).push(read_all_exchange(rows))
                && match rows {
                Some(rows) => res matches Ok(html) && html@ == home_page_html(
                    rows.map_values(|r: RowView| todo_of_row_view(r)),
                ),
                None => res matches Err(
                    Error::Whatever { message, source: Some(ErrorSource::Inner(inner)) },
                ) && is_query_error(*inner) && exists|text: Seq<char>|
                    inner.describes(text) && message@ == "Failed to read todos: "@ + text,
            },
{
    let ghost before = exchanges(*conn);
    let read = read_todos(conn);
    let ghost rows = choose|rows: Option<Seq<RowView>>|
        exchanges(*conn) == before.push(read_all_exchange(rows)) && #[trigger] reports_rows(
            rows,
            read,
        );
    match read {
        Ok(todos) => {
            let html = home_page(&todos);
            proof {
                assert(todo_views(todos@) =~= views_of(todos@));
            }
            let res: Result<String> = Ok(html);
            proof {
                assert(rows is Some);
            }
            res
        },
        Err(err) => {
            let text = err.message();
            let message = "Failed to read todos: ".to_owned().concat(text.as_str());
            let res: Result<String> = Err(
                Error::Whatever { message, source: Some(ErrorSource::Inner(Box::new(err))) },
            );
            proof {
                assert(rows is None);
            }
            res
        },
    }
}

/// Switches the state of the item `todo_id` (`toggle_todo`), then reads it
/// again and renders its row as this last read gives it.
pub fn page_toggle_todo(conn: &mut Connection, todo_id: &String) -> (res: Result<String>)
    ensures
        exists|row: Option<RowView>|
            #![trigger read_one_exchange(todo_id@, row)]
            match row {
                None => exchanges(*final(conn)) == exchanges(*old(conn)).push(
                    read_one_exchange(todo_id@, row),
                ) && (res matches Err(e) && is_query_error(e)),
                Some(r) => exists|changed: Option<usize>|
                    #![trigger toggle_exchange(todo_id@, r.2, changed)]
                    match changed {
                        None => exchanges(*final(conn)) == exchanges(*old(conn)).push(
                            read_one_exchange(todo_id@, row),
                        ).push(toggle_exchange(todo_id@, r.2, changed)) && (res matches Err(e)
                            && is_query_error(e)),
                        Some(_) => exists|again: Option<RowView>|
                            #![trigger read_one_exchange(todo_id@, again)]
                            exchanges(*final(conn)) == exchanges(*old(conn)).push(
                                read_one_exchange(todo_id@, row),
                            ).push(toggle_exchange(todo_id@, r.2, changed)).push(
                                read_one_exchange(todo_id@, again),
                            ) && shows_row(again, res),
                    },
            },
{
    let ghost before = exchanges(*conn);
    let toggled = toggle_todo(conn, todo_id);
    let ghost mid = exchanges(*conn);
    let ghost row = choose|row: Option<RowView>|
        #![trigger read_one_exchange(todo_id@, row)]
        match row {
            None => mid == before.push(read_one_exchange(todo_id@, row)) && (toggled matches Err(e)
                && is_query_error(e)),
            Some(r) => ran_write(
                before.push(read_one_exchange(todo_id@, row)),
                mid,
                toggle_todo_sql(todo_id@),
                toggled_values(r.2),
                toggled,
            ),
        };
    match toggled {
        Err(e) => {
            let res: Result<String> = Err(e);
            proof {
                if row is Some {
                    let r = row->0;
                    let changed = choose|changed: Option<usize>|
                        mid == before.push(read_one_exchange(todo_id@, row)).push(
                            Exchange::Execute {
                                sql: toggle_todo_sql(todo_id@),
                                values: toggled_values(r.2),
                                changed,
                            },
                        ) && #[trigger] reports_count(changed, toggled);
                    assert(changed is None);
                    assert(toggle_exchange(todo_id@, r.2, changed) == Exchange::Execute {
                        sql: toggle_todo_sql(todo_id@),
                        values: toggled_values(r.2),
                        changed,
                    });
                }
            }
            res
        },
        Ok(_) => {
            let again = read_todo(conn, todo_id.as_str());
            let ghost again_row = choose|row: Option<RowView>|
                exchanges(*conn) == mid.push(read_one_exchange(todo_id@, row)) && #[trigger] reports_row(
                    row,
                    again,
                );
            let res: Result<String> = match again {
                Ok(todo) => Ok(todo_row(&todo)),
                Err(e) => Err(e),
            };
            proof {
                assert(shows_row(again_row, res));
                assert(row is Some);
                let r = row->0;
                let changed = choose|changed: Option<usize>|
                    mid == before.push(read_one_exchange(todo_id@, row)).push(
                        Exchange::Execute {
                            sql: toggle_todo_sql(todo_id@),
                            values: toggled_values(r.2),
                            changed,
                        },
                    ) && #[trigger] reports_count(changed, toggled);
                assert(changed is Some);
                assert(toggle_exchange(todo_id@, r.2, changed) == Exchange::Execute {
                    sql: toggle_todo_sql(todo_id@),
                    values: toggled_values(r.2),
                    changed,
                });
                assert(read_one_exchange(todo_id@, again_row) == read_one_exchange(
                    todo_id@,
                    again_row,
                ));
            }
            res
        },
    }
}

/// Renders the row of the item `todo_id`, as read, with its title in an
/// input.
pub fn page_edit_todo(conn: &mut Connection, todo_id: &String) -> (res: Result<String>)
    ensures
        exists|row: Option<RowView>|
            #![trigger read_one_exchange(todo_id@, row)]
            exchanges(*final(conn)) == exchanges(*old(conn)).push(read_one_exchange(todo_id@, row))
                && shows_edit_row(row, res),
{
    let ghost before = exchanges(*conn);
    let found = read_todo(conn, todo_id.as_str());
    let ghost row = choose|row: Option<RowView>|
        exchanges(*conn) == before.push(read_one_exchange(todo_id@, row)) && #[trigger] reports_row(
            row,
            found,
        );
    let res: Result<String> = match found {
        Ok(todo) => Ok(edit_row(&todo)),
        Err(e) => Err(e),
    };
    proof {
        assert(shows_edit_row(row, res));
    }
    res
}

/// Renders the row of the item `todo_id` as it reads, ending an edit.
pub fn page_default_todo(conn: &mut Connection, todo_id: &String) -> (res: Result<String>)
    ensures
        exists|row: Option<RowView>|
            #![trigger read_one_exchange(todo_id@, row)]
            exchanges(*final(conn)) == exchanges(*old(conn)).push(read_one_exchange(todo_id@, row))
                && shows_row(row, res),
{
    let ghost before = exchanges(*conn);
    let found = read_todo(conn, todo_id.as_str());
    let ghost row = choose|row: Option<RowView>|
        exchanges(*conn) == before.push(read_one_exchange(todo_id@, row)) && #[trigger] reports_row(
            row,
            found,
        );
    let res: Result<String> = match found {
        Ok(todo) => Ok(todo_row(&todo)),
        Err(e) => Err(e),
    };
    proof {
        assert(shows_row(row, res));
    }
    res
}

/// Reads the item `todo_id`, writes the title of the form into its row
/// (keeping the id and the state that were read), and renders its row with
/// the new title.
pub fn page_save_todo(conn: &mut Connection, todo_id: &String, todo_form: &TodoForm) -> (res:
    Result<String>)
    ensures
        exists|row: Option<RowView>|
            #![trigger read_one_exchange(todo_id@, row)]
            match row {
                None => exchanges(*final(conn)) == exchanges(*old(conn)).push(
                    read_one_exchange(todo_id@, row),
                ) && (res matches Err(e) && is_query_error(e)),
                Some(r) => exists|changed: Option<usize>|
                    #![trigger update_exchange(
                        TodoView { id: r.0, title: todo_form.title@, completed: r.2 },
                        changed,
                    )]
                    exchanges(*final(conn)) == exchanges(*old(conn)).push(
                        read_one_exchange(todo_id@, row),
                    ).push(
                        update_exchange(
                            TodoView { id: r.0, title: todo_form.title@, completed: r.2 },
                            changed,
                        ),
                    ) && match changed {
                        None => res matches Err(e) && is_query_error(e),
                        Some(_) => res matches Ok(html) && html@ == todo_row_html(
                            TodoView { id: r.0, title: todo_form.title@, completed: r.2 },
                        ),
                    },
            },
{
    let ghost before = exchanges(*conn);
    let found = read_todo(conn, todo_id.as_str());
    let ghost mid = exchanges(*conn);
    let ghost read = choose|row: Option<RowView>|
        mid == before.push(read_one_exchange(todo_id@, row)) && #[trigger] reports_row(row, found);
    match found {
        Err(e) => {
            let res: Result<String> = Err(e);
            proof {
                assert(read is None);
            }
            res
        },
        Ok(todo) => {
            let mut todo = todo;
            todo.title = todo_form.title.clone();
            let written = update_todo(conn, &todo);
            let ghost changed = choose|changed: Option<usize>|
                exchanges(*conn) == mid.push(
                    Exchange::Execute {
                        sql: update_todo_sql(todo@.id),
                        values: seq![SqlValue::Text(todo@.title), SqlValue::Bool(todo@.completed)],
                        changed,
                    },
                ) && #[trigger] reports_count(changed, written);
            let res: Result<String> = match written {
                Ok(_) => Ok(todo_row(&todo)),
                Err(e) => Err(e),
            };
            proof {
                assert(read is Some);
                let r = read->0;
                assert(todo@ == (TodoView { id: r.0, title: todo_form.title@, completed: r.2 }));
                assert(update_exchange(todo@, changed) == Exchange::Execute {
                    sql: update_todo_sql(todo@.id),
                    values: seq![SqlValue::Text(todo@.title), SqlValue::Bool(todo@.completed)],
                    changed,
                });
                assert(written is Ok <==> changed is Some);
            }
            res
        },
    }
}

/// Inserts the new item with the id `id` (titled "New item", open) and
/// renders its row.
pub fn create_new_item(conn: &mut Connection, id: String) -> (res: Result<String>)
    ensures
        ran_create(exchanges(*old(conn)), exchanges(*final(conn)), id@, res),
{
    let ghost before = exchanges(*conn);
    let todo_new = new_item(id);
    let created = create_todo(conn, &todo_new);
    let ghost changed = choose|changed: Option<usize>|
        exchanges(*conn) == before.push(
            Exchange::Execute {
                sql: sqlite_insert_sql(todo_table(), todo_columns()),
                values: todo_values(todo_new@),
                changed,
            },
        ) && #[trigger] reports_count(changed, created);
    let res: Result<String> = match created {
        Ok(_) => Ok(todo_row(&todo_new)),
        Err(e) => Err(e),
    };
    proof {
        assert(created is Ok <==> changed is Some);
        assert(create_exchange(id@, changed) == Exchange::Execute {
            sql: sqlite_insert_sql(todo_table(), todo_columns()),
            values: todo_values(todo_new@),
            changed,
        });
    }
    res
}

/// Adds an open item titled "New item" with a fresh random id, and renders
/// its row.
pub fn page_create_todo(conn: &mut Connection) -> (res: Result<String>)
    ensures
        exists|id: Seq<char>|
            #![trigger is_v4_uuid_text(id)]
            is_v4_uuid_text(id) && ran_create(exchanges(*old(conn)), exchanges(*final(conn)), id, res),
{
    let id = new_todo_id();
    let ghost drawn = id@;
    let res = create_new_item(conn, id);
    proof {
        assert(is_v4_uuid_text(drawn));
    }
    res
}

/// Deletes the item `todo_id`.
pub fn page_delete_todo(conn: &mut Connection, todo_id: &String) -> (res: Result<()>)
    ensures
        exists|changed: Option<usize>|
            #![trigger delete_exchange(todo_id@, changed)]
            exchanges(*final(conn)) == exchanges(*old(conn)).push(delete_exchange(todo_id@, changed))
                && match changed {
                Some(_) => res == Ok::<(), Error>(()),
                None => res matches Err(e) && is_query_error(e),
            },
{
    let ghost before = exchanges(*conn);
    let deleted = delete_todo(conn, todo_id.as_str());
    let ghost changed = choose|changed: Option<usize>|
        exchanges(*conn) == before.push(
            Exchange::Execute {
                sql: delete_todo_sql(todo_id@),
                values: Seq::<SqlValue>::empty(),
                changed,
            },
        ) && #[trigger] reports_count(changed, deleted);
    let res: Result<()> = match deleted {
        Ok(_) => Ok(()),
        Err(e) => Err(e),
    };
    proof {
        assert(deleted is Ok <==> changed is Some);
        assert(delete_exchange(todo_id@, changed) == Exchange::Execute {
            sql: delete_todo_sql(todo_id@),
            values: Seq::<SqlValue>::empty(),
            changed,
        });
    }
    res
}

/// The login page.
pub fn page_login() -> (res: String)
    ensures
        res@ == login_page_html(),
{
    let mut out = header("Login");
    out.append(
        "<body><div class=\"container mx-auto p-4\"><h1 class=\"text-3xl font-bold mb-2\">Login</h1><form method=\"post\"><div class=\"flex flex-col w-80\"><label class=\"label\">Username</label><input class=\"input input-bordered\" type=\"text\" name=\"username\" placeholder=\"Username\"><label class=\"label\">Password</label><input class=\"input input-bordered\" type=\"password\" name=\"password\" placeholder=\"Password\"><div class=\"mt-4 flex flex-row-reverse\"><button class=\"btn btn-primary\" type=\"submit\">Login</button></div></div></form></div></body>",
    );
    out
}

/// The page shown after a successful login.
pub fn page_login_success() -> (res: String)
    ensures
        res@ == login_success_page_html(),
{
    let mut out = header("Login Success");
    out.append(
        "<body><div class=\"container mx-auto p-4\"><h1 class=\"text-3xl font-bold mb-2\">Login Success</h1><p>You are now logged in</p></div></body>",
    );
    out
}

/// The page of a feature that is not there yet.
pub fn page_unimplemented() -> (res: String)
    ensures
        res@ == unimplemented_page_html(),
{
    let mut out = header("Unimplemented!!1");
    out.append(
        "<body><div class=\"container mx-auto p-4\"><h1 class=\"text-3xl font-bold mb-2\">Unimplemented</h1><p>Please check again later</p></div></body>",
    );
    out
}

} // verus!
