//! The data of the home page as the template engine takes it.
use vstd::prelude::*;
use rusqlite::Connection;
use crate::db::{
    is_query_error, read_all_exchange, read_todos, reports_rows, todo_of_row_view, views_of,
    Todo as StoredTodo, TodoView,
};
use crate::sqlite::{exchanges, RowView};
use crate::err::Result;

verus! {

/// A to-do item as the home page template shows it.
pub struct Todo {
    pub id: String,
    pub title: String,
    pub completed: bool,
}

impl View for Todo {
    type V = TodoView;

    open spec fn view(&self) -> TodoView {
        TodoView { id: self.id@, title: self.title@, completed: self.completed }
    }
}

/// The data of the home page: every item, in order.
pub struct HomeTemplate {
    todos: Vec<Todo>,
}

impl HomeTemplate {
    /// The items that the page lists, as plain values.
    pub closed spec fn items(&self) -> Seq<TodoView> {
        self.todos@.map_values(|t: Todo| t@)
    }

    /// The data of a page that lists `todos`.
    pub fn new(todos: Vec<Todo>) -> (res: HomeTemplate)
        ensures
            res.items() == todos@.map_values(|t: Todo| t@),
    {
        HomeTemplate { todos }
    }

    /// The items that the page lists.
    pub fn todos(&self) -> (res: &Vec<Todo>)
        ensures
            res@.map_values(|t: Todo| t@) == self.items(),
    {
        &self.todos
    }
}

/// The data of the home page for the stored items `todos`: each item copied,
/// in the same order.
pub fn home_template(todos: &Vec<StoredTodo>) -> (res: HomeTemplate)
    ensures
        res.items() == todos@.map_values(|t: StoredTodo| t@),
{
    let mut items: Vec<Todo> = Vec::new();
    let mut i: usize = 0;
    while i < todos.len()
        invariant
            i <= todos@.len(),
            items@.len() == i,
            forall|j: int| 0 <= j < i ==> #[trigger] items@[j]@ == todos@[j]@,
        decreases todos@.len() - i,
    {
        let todo = &todos[i];
        items.push(Todo { id: todo.id.clone(), title: todo.title.clone(), completed: todo.completed });
        i = i + 1;
    }
    let res = HomeTemplate { todos: items };
    assert(res.items() =~= todos@.map_values(|t: StoredTodo| t@));
    res
}

/// Reads every item of the store and makes the data of the home page.
pub fn home_handler(conn: &mut Connection) -> (res: Result<HomeTemplate>)
    ensures
        exists|rows: Option<Seq<RowView>>|
            #![trigger read_all_exchange(rows)]
            exchanges(*final(conn)) == exchanges(*old(conn)).push(read_all_exchange(rows))
                && match rows {
                Some(rows) => res matches Ok(page) && page.items() == rows.map_values(
                    |r: RowView| todo_of_row_view(r),
                ),
                None => res matches Err(e) && is_query_error(e),
            },
{
    let ghost before = exchanges(*conn);
    let read = read_todos(conn);
    let ghost rows = choose|rows: Option<Seq<RowView>>|
        exchanges(*conn) == before.push(read_all_exchange(rows)) && #[trigger] reports_rows(
            rows,
            read,
        );
    match read {
        Ok(todos) => {
            let page = home_template(&todos);
            proof {
                assert(page.items() =~= views_of(todos@));
            }
            let res: Result<HomeTemplate> = Ok(page);
            proof {
                assert(rows is Some);
            }
            res
        },
        Err(e) => {
            let res: Result<HomeTemplate> = Err(e);
            proof {
                assert(rows is None);
            }
            res
        },
    }
}

} // verus!
