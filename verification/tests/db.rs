use harm::db::{
    create_todo, create_todo_statement, delete_todo, delete_todo_statement, establish_connection,
    read_todo, read_todo_statement, read_todos, read_todos_statement, TODOS_MIGRATION_NAME, TODOS_MIGRATION_SQL,
    todos_from_rows, toggle_todo, toggle_todo_statement, update_todo, update_todo_statement, Todo,
};
use harm::err::{Error, ErrorSource};
use sea_query::Value;

fn run_migrations(conn: &mut rusqlite::Connection) -> Result<(), refinery::Error> {
    let migration = refinery::Migration::unapplied(TODOS_MIGRATION_NAME, TODOS_MIGRATION_SQL)?;
    refinery::Runner::new(&[migration]).run(conn).map(|_| ())
}

fn setup() -> rusqlite::Connection {
    let mut conn = rusqlite::Connection::open_in_memory().unwrap();
    run_migrations(&mut conn).expect("should be able to run migration");
    conn
}

#[test]
fn test_create_todo() {
    let mut conn = setup();
    let new_todo = Todo {
        id: "1".to_string(),
        title: "Test".to_string(),
        completed: false,
    };
    create_todo(&mut conn, &new_todo).expect("should be able to create todo");
}

#[test]
fn test_read_todos() {
    let mut conn = setup();

    let todos = read_todos(&mut conn).expect("Should be able to read todos");
    assert_eq!(todos.len(), 0);

    let new_todo = Todo {
        id: "1".to_string(),
        title: "Test".to_string(),
        completed: false,
    };
    create_todo(&mut conn, &new_todo).expect("Should be able to create todo");

    let todos = read_todos(&mut conn).expect("Should be able to read todos");
    assert_eq!(todos.len(), 1);

    let todo = todos.first().expect("Should be able to get first todo");
    assert_eq!(todo.id, new_todo.id);
}

#[test]
fn test_update_todo() {
    let mut conn = setup();

    let new_todo = Todo {
        id: "1".to_string(),
        title: "Test".to_string(),
        completed: false,
    };
    create_todo(&mut conn, &new_todo).expect("Should be able to create todo");

    let updated_todo = Todo {
        id: "1".to_string(),
        title: "Updated".to_string(),
        completed: true,
    };
    let row_count =
        update_todo(&mut conn, &updated_todo).expect("Should be able to update todo");
    assert!(row_count > 0);

    let todos = read_todos(&mut conn).expect("Should be able to read todos");
    assert_eq!(todos.len(), 1);

    let todo = todos.first().expect("Should be able to get first todo");
    assert_eq!(todo.id, updated_todo.id);
    assert_eq!(todo.title, updated_todo.title);
    assert_eq!(todo.completed, updated_todo.completed);
}

#[test]
fn test_delete_todo() {
    let mut conn = setup();

    let new_todo = Todo {
        id: "1".to_string(),
        title: "Test".to_string(),
        completed: false,
    };
    create_todo(&mut conn, &new_todo).expect("Should be able to create todo");

    let todos = read_todos(&mut conn).expect("Should be able to read todos");
    assert_eq!(todos.len(), 1);

    delete_todo(&mut conn, &new_todo.id).expect("Should be able to delete todo");

    let todos = read_todos(&mut conn).expect("Should be able to read todos");
    assert_eq!(todos.len(), 0);
}

#[test]
fn test_toggle_todo() {
    let mut conn = setup();

    let new_todo = Todo {
        id: "1".to_string(),
        title: "Test".to_string(),
        completed: false,
    };
    create_todo(&mut conn, &new_todo).expect("Should be able to create todo");

    toggle_todo(&mut conn, &new_todo.id).expect("Should be able to toggle todo");

    let todos = read_todos(&mut conn).expect("Should be able to read todos");
    assert_eq!(todos.len(), 1);

    let todo = todos.first().expect("Should be able to get first todo");
    assert_eq!(todo.id, new_todo.id);
    assert_eq!(todo.title, new_todo.title);
    assert_eq!(todo.completed, !new_todo.completed);
}

fn todo(id: &str, title: &str, completed: bool) -> Todo {
    Todo { id: id.to_string(), title: title.to_string(), completed }
}

#[test]
fn create_statement_text_and_values() {
    let (sql, values) = create_todo_statement(&todo("a1", "Buy milk", true));
    assert_eq!(sql, r#"INSERT INTO "todos" ("id", "title", "completed") VALUES (?, ?, ?)"#);
    assert_eq!(values.0.len(), 3);
    assert_eq!(values.0[0].0, Value::String(Some("a1".to_string())));
    assert_eq!(values.0[1].0, Value::String(Some("Buy milk".to_string())));
    assert_eq!(values.0[2].0, Value::Bool(Some(true)));
}

#[test]
fn read_statements_text_and_values() {
    let (sql, values) = read_todos_statement();
    assert_eq!(sql, r#"SELECT "id", "title", "completed" FROM "todos""#);
    assert_eq!(values.0.len(), 0);

    let (sql, values) = read_todo_statement("x");
    assert_eq!(sql, r#"SELECT "id", "title", "completed" FROM "todos" WHERE "id" = ?"#);
    assert_eq!(values.0.len(), 1);
    assert_eq!(values.0[0].0, Value::String(Some("x".to_string())));
}

#[test]
fn update_and_delete_statements_name_the_id() {
    let (sql, values) = update_todo_statement(&todo("7", "New", false));
    assert_eq!(sql, r#"UPDATE "todos" SET "title" = ?, "completed" = ? WHERE "id" = "7""#);
    assert_eq!(values.0.len(), 2);
    assert_eq!(values.0[0].0, Value::String(Some("New".to_string())));
    assert_eq!(values.0[1].0, Value::Bool(Some(false)));

    let (sql, values) = delete_todo_statement("7");
    assert_eq!(sql, r#"DELETE FROM "todos" WHERE "id" = "7""#);
    assert_eq!(values.0.len(), 0);
}

#[test]
fn toggle_statement_binds_the_opposite_state() {
    let (sql, values) = toggle_todo_statement("7", false);
    assert_eq!(sql, r#"UPDATE "todos" SET "completed" = ? WHERE "id" = "7""#);
    assert_eq!(values.0.len(), 1);
    assert_eq!(values.0[0].0, Value::Bool(Some(true)));

    let (_, values) = toggle_todo_statement("7", true);
    assert_eq!(values.0[0].0, Value::Bool(Some(false)));
}

#[test]
fn toggling_twice_restores_the_state() {
    let mut conn = setup();
    create_todo(&mut conn, &todo("1", "Test", false)).unwrap();
    assert_eq!(toggle_todo(&mut conn, &"1".to_string()).unwrap(), 1);
    assert!(read_todo(&mut conn, "1").unwrap().completed);
    assert_eq!(toggle_todo(&mut conn, &"1".to_string()).unwrap(), 1);
    assert!(!read_todo(&mut conn, "1").unwrap().completed);
}

#[test]
fn read_todo_gives_back_what_was_written() {
    let mut conn = setup();
    create_todo(&mut conn, &todo("1", "First", false)).unwrap();
    create_todo(&mut conn, &todo("2", "Second", true)).unwrap();
    let second = read_todo(&mut conn, "2").unwrap();
    assert_eq!(second.id, "2");
    assert_eq!(second.title, "Second");
    assert!(second.completed);
    let all = read_todos(&mut conn).unwrap();
    assert_eq!(all.len(), 2);
}

#[test]
fn reading_a_missing_item_is_a_query_error() {
    let mut conn = setup();
    assert!(matches!(read_todo(&mut conn, "nope"), Err(Error::DatabaseQuery { .. })));
    assert!(matches!(toggle_todo(&mut conn, &"nope".to_string()), Err(Error::DatabaseQuery { .. })));
}

#[test]
fn writing_to_a_missing_item_changes_no_row() {
    let mut conn = setup();
    assert_eq!(update_todo(&mut conn, &todo("nope", "x", true)).unwrap(), 0);
    assert_eq!(delete_todo(&mut conn, "nope").unwrap(), 0);
}

#[test]
fn creating_a_duplicate_id_is_a_query_error() {
    let mut conn = setup();
    create_todo(&mut conn, &todo("1", "Test", false)).unwrap();
    assert!(matches!(create_todo(&mut conn, &todo("1", "Again", false)), Err(Error::DatabaseQuery { .. })));
}

#[test]
fn queries_without_the_table_fail() {
    let mut conn = rusqlite::Connection::open_in_memory().unwrap();
    assert!(matches!(read_todos(&mut conn), Err(Error::DatabaseQuery { .. })));
    assert!(matches!(create_todo(&mut conn, &todo("1", "x", false)), Err(Error::DatabaseQuery { .. })));
}

#[test]
fn migrations_apply_once() {
    let mut conn = setup();
    run_migrations(&mut conn).expect("a second run finds the migration applied");
    assert_eq!(read_todos(&mut conn).unwrap().len(), 0);
}

#[test]
fn rows_become_items_in_order() {
    let rows = vec![
        ("a".to_string(), "A".to_string(), true),
        ("b".to_string(), "B".to_string(), false),
    ];
    let todos = todos_from_rows(&rows);
    assert_eq!(todos.len(), 2);
    assert_eq!(todos[0].id, "a");
    assert_eq!(todos[0].title, "A");
    assert!(todos[0].completed);
    assert_eq!(todos[1].id, "b");
    assert!(!todos[1].completed);
}

#[test]
fn connecting_to_memory_succeeds() {
    let mut conn = establish_connection(":memory:").expect("in-memory database");
    run_migrations(&mut conn).unwrap();
}

#[test]
fn connecting_to_a_missing_directory_names_the_location() {
    match establish_connection("/nonexistent-dir/for/sure/db.sqlite") {
        Err(Error::Whatever { message, source }) => {
            assert!(message.starts_with("Failed to connect to /nonexistent-dir/for/sure/db.sqlite: "));
            assert!(message.len() > "Failed to connect to /nonexistent-dir/for/sure/db.sqlite: ".len());
            assert!(matches!(source, Some(ErrorSource::Sqlite(_))));
        }
        _ => panic!("expected a connection failure"),
    }
}
