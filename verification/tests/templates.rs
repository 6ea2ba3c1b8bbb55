use harm::db::{create_todo, read_todo, TODOS_MIGRATION_NAME, TODOS_MIGRATION_SQL, Todo};
use harm::err::{Error, ErrorSource};
use harm::templates::{
    create_new_item, edit_row, header, home_page, lock_failed, new_item, page_create_todo, page_default_todo,
    page_delete_todo, page_edit_todo, page_home, page_login, page_login_success,
    page_save_todo, page_toggle_todo, page_unimplemented, todo_row, TodoForm,
};

fn run_migrations(conn: &mut rusqlite::Connection) -> Result<(), refinery::Error> {
    let migration = refinery::Migration::unapplied(TODOS_MIGRATION_NAME, TODOS_MIGRATION_SQL)?;
    refinery::Runner::new(&[migration]).run(conn).map(|_| ())
}

const HEAD_TAIL: &str = r#"</title><script src="https://unpkg.com/htmx.org@2.0.4"></script><script defer src="https://unpkg.com/alpinejs@3.14.8"></script><link rel="stylesheet" type="text/css" href="./styles.css"><link rel="apple-touch-icon" sizes="180x180" href="/apple-touch-icon.png"><link rel="icon" type="image/png" sizes="32x32" href="/favicon-32x32.png"><link rel="icon" type="image/png" sizes="16x16" href="/favicon-16x16.png"><link rel="manifest" href="/site.webmanifest"></head>"#;

fn expected_header(title: &str) -> String {
    format!(r#"<!DOCTYPE html><head><meta charset="utf-8"><title>{}{}"#, title, HEAD_TAIL)
}

fn todo(id: &str, title: &str, completed: bool) -> Todo {
    Todo { id: id.to_string(), title: title.to_string(), completed }
}

fn open_row(id: &str, title: &str) -> String {
    format!(
        r#"<tr><td>{title}</td><td class="flex gap-2"><button class="btn btn-success" hx-target="closest tr" hx-post="/toggle/{id}" hx-swap="outerHTML">Finish</button><button class="btn btn-primary" hx-target="closest tr" hx-post="/edit/{id}" hx-swap="outerHTML">Edit</button><button class="btn" hx-confirm="Are you sure?" hx-delete="/delete/{id}" hx-swap="delete" hx-target="closest tr">Delete</button></td></tr>"#
    )
}

fn done_row(id: &str, title: &str) -> String {
    format!(
        r#"<tr><td class="line-through">{title}</td><td class="flex gap-2"><button class="btn btn-warning" hx-target="closest tr" hx-post="/toggle/{id}" hx-swap="outerHTML">Reopen</button><button class="btn">Delete</button></td></tr>"#
    )
}

fn setup() -> rusqlite::Connection {
    let mut conn = rusqlite::Connection::open_in_memory().unwrap();
    run_migrations(&mut conn).unwrap();
    conn
}

#[test]
fn header_holds_the_escaped_title() {
    assert_eq!(header("Login"), expected_header("Login"));
    assert_eq!(header("a<b & \"c\">"), expected_header("a&lt;b &amp; &quot;c&quot;&gt;"));
}

#[test]
fn open_item_row_offers_finish_edit_delete() {
    assert_eq!(todo_row(&todo("1", "Test", false)), open_row("1", "Test"));
}

#[test]
fn finished_item_row_is_struck_through() {
    assert_eq!(todo_row(&todo("1", "Test", true)), done_row("1", "Test"));
}

#[test]
fn row_escapes_title_and_id() {
    let row = todo_row(&todo("x\"y", "<script>&</script>", false));
    assert_eq!(row, open_row("x&quot;y", "&lt;script&gt;&amp;&lt;/script&gt;"));
    assert!(!row.contains("<script>"));
}

#[test]
fn edit_row_puts_the_title_in_an_input() {
    assert_eq!(
        edit_row(&todo("3", "Tea & cake", false)),
        r#"<tr><td><input class="input input-bordered" type="text" name="title" value="Tea &amp; cake"></td><td class="flex gap-2"><button class="btn btn-primary" hx-post="/save/3" hx-include="input[name='title']" hx-target="closest tr" hx-swap="outerHTML">Save</button><button class="btn" hx-target="closest tr" hx-post="/default/3" hx-swap="outerHTML">Reset</button></td></tr>"#
    );
}

fn expected_home(rows: &str) -> String {
    format!(
        r#"{}<body><div class="container mx-auto p-4 flex flex-col gap-2"><h1 class="text-3xl font-bold">TODO Home</h1><table class="table w-full"><thead><tr><th>Title</th><th>Actions</th></tr></thead><tbody>{}<tr><td><button class="btn btn-success" hx-post="/create" hx-target="closest tr" hx-swap="beforebegin">Create</button></td></tr></tbody></table></div></body>"#,
        expected_header("TODO Home"),
        rows
    )
}

#[test]
fn home_page_lists_rows_in_order() {
    assert_eq!(home_page(&vec![]), expected_home(""));
    let todos = vec![todo("1", "A", false), todo("2", "B", true)];
    assert_eq!(home_page(&todos), expected_home(&(open_row("1", "A") + &done_row("2", "B"))));
}

#[test]
fn static_pages() {
    assert_eq!(
        page_login(),
        expected_header("Login")
            + r#"<body><div class="container mx-auto p-4"><h1 class="text-3xl font-bold mb-2">Login</h1><form method="post"><div class="flex flex-col w-80"><label class="label">Username</label><input class="input input-bordered" type="text" name="username" placeholder="Username"><label class="label">Password</label><input class="input input-bordered" type="password" name="password" placeholder="Password"><div class="mt-4 flex flex-row-reverse"><button class="btn btn-primary" type="submit">Login</button></div></div></form></div></body>"#
    );
    assert_eq!(
        page_login_success(),
        expected_header("Login Success")
            + r#"<body><div class="container mx-auto p-4"><h1 class="text-3xl font-bold mb-2">Login Success</h1><p>You are now logged in</p></div></body>"#
    );
    assert_eq!(
        page_unimplemented(),
        expected_header("Unimplemented!!1")
            + r#"<body><div class="container mx-auto p-4"><h1 class="text-3xl font-bold mb-2">Unimplemented</h1><p>Please check again later</p></div></body>"#
    );
    assert_eq!(lock_failed(), "Unable to get global state");
}

#[test]
fn new_item_is_open_and_titled() {
    let item = new_item("abc".to_string());
    assert_eq!(item.id, "abc");
    assert_eq!(item.title, "New item");
    assert!(!item.completed);
}

#[test]
fn page_handlers_read_and_change_the_store() {
    let mut conn = setup();
    assert_eq!(page_home(&mut conn).unwrap(), expected_home(""));

    create_todo(&mut conn, &todo("1", "Test", false)).unwrap();
    assert_eq!(page_home(&mut conn).unwrap(), expected_home(&open_row("1", "Test")));

    let id = "1".to_string();
    assert_eq!(page_toggle_todo(&mut conn, &id).unwrap(), done_row("1", "Test"));
    assert_eq!(page_default_todo(&mut conn, &id).unwrap(), done_row("1", "Test"));
    assert_eq!(page_toggle_todo(&mut conn, &id).unwrap(), open_row("1", "Test"));
    assert!(page_edit_todo(&mut conn, &id).unwrap().contains(r#"value="Test""#));

    let form = TodoForm { title: "Renamed".to_string() };
    assert_eq!(page_save_todo(&mut conn, &id, &form).unwrap(), open_row("1", "Renamed"));
    assert_eq!(read_todo(&mut conn, "1").unwrap().title, "Renamed");

    page_delete_todo(&mut conn, &id).unwrap();
    assert_eq!(page_home(&mut conn).unwrap(), expected_home(""));
}

#[test]
fn page_create_todo_adds_a_new_open_item() {
    let mut conn = setup();
    let row = page_create_todo(&mut conn).unwrap();
    let todos = harm::db::read_todos(&mut conn).unwrap();
    assert_eq!(todos.len(), 1);
    assert_eq!(todos[0].title, "New item");
    assert!(!todos[0].completed);
    let id: Vec<char> = todos[0].id.chars().collect();
    assert_eq!(id.len(), 36);
    for (i, c) in id.iter().enumerate() {
        if [8, 13, 18, 23].contains(&i) {
            assert_eq!(*c, '-');
        } else {
            assert!(c.is_ascii_hexdigit() && !c.is_ascii_uppercase());
        }
    }
    assert_eq!(id[14], '4');
    assert!(['8', '9', 'a', 'b'].contains(&id[19]));
    assert_eq!(row, open_row(&todos[0].id, "New item"));
    let second = page_create_todo(&mut conn).unwrap();
    assert_ne!(row, second);
}

#[test]
fn page_handlers_report_missing_items() {
    let mut conn = setup();
    let id = "missing".to_string();
    assert!(matches!(page_toggle_todo(&mut conn, &id), Err(Error::DatabaseQuery { .. })));
    assert!(matches!(page_edit_todo(&mut conn, &id), Err(Error::DatabaseQuery { .. })));
    assert!(matches!(page_default_todo(&mut conn, &id), Err(Error::DatabaseQuery { .. })));
    let form = TodoForm { title: "x".to_string() };
    assert!(matches!(page_save_todo(&mut conn, &id, &form), Err(Error::DatabaseQuery { .. })));
}

#[test]
fn page_home_reports_an_unreadable_store_as_a_message() {
    let mut conn = rusqlite::Connection::open_in_memory().unwrap();
    match page_home(&mut conn) {
        Err(Error::Whatever { message, source }) => {
            assert!(message.starts_with("Failed to read todos: Database query error: "));
            assert!(message.contains("no such table"));
            let inner = match source {
                Some(ErrorSource::Inner(inner)) => inner,
                _ => panic!("the read error is kept"),
            };
            assert!(matches!(*inner, Error::DatabaseQuery { .. }));
            assert_eq!(message, format!("Failed to read todos: {}", inner.message()));
        }
        _ => panic!("expected a failure to read"),
    }
}

#[test]
fn create_new_item_inserts_and_renders_the_given_id() {
    let mut conn = setup();
    let row = create_new_item(&mut conn, "fixed-id".to_string()).unwrap();
    assert_eq!(row, open_row("fixed-id", "New item"));
    let stored = read_todo(&mut conn, "fixed-id").unwrap();
    assert_eq!(stored.title, "New item");
    assert!(!stored.completed);
    assert!(matches!(
        create_new_item(&mut conn, "fixed-id".to_string()),
        Err(Error::DatabaseQuery { .. })
    ));
}
