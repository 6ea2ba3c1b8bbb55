use harm::db::{create_todo, TODOS_MIGRATION_NAME, TODOS_MIGRATION_SQL, Todo};
use harm::err::Error;
use harm::views::{home_handler, home_template};

fn run_migrations(conn: &mut rusqlite::Connection) -> Result<(), refinery::Error> {
    let migration = refinery::Migration::unapplied(TODOS_MIGRATION_NAME, TODOS_MIGRATION_SQL)?;
    refinery::Runner::new(&[migration]).run(conn).map(|_| ())
}

#[test]
fn error_messages_and_responses() {
    let e = Error::Whatever { message: "boom".to_string(), source: None };
    assert_eq!(e.message(), "boom");
    assert_eq!(e.into_response(), (500, "Something went wrong: boom".to_string()));
    let e = Error::DatabaseMigration {};
    assert_eq!(e.message(), "Database migration error");
    assert_eq!(e.into_response().1, "Something went wrong: Database migration error");
    let e = Error::from(rusqlite::Error::QueryReturnedNoRows);
    assert_eq!(e.message(), "Database query error: Query returned no rows");
    let (status, body) = e.into_response();
    assert_eq!(status, 500);
    assert_eq!(body, "Something went wrong: Database query error: Query returned no rows");
}

#[test]
fn home_template_copies_items_in_order() {
    let todos = vec![
        Todo { id: "1".to_string(), title: "A".to_string(), completed: true },
        Todo { id: "2".to_string(), title: "B".to_string(), completed: false },
    ];
    let template = home_template(&todos);
    let items = template.todos();
    assert_eq!(items.len(), 2);
    assert_eq!(items[0].id, "1");
    assert_eq!(items[0].title, "A");
    assert!(items[0].completed);
    assert_eq!(items[1].id, "2");
    assert!(!items[1].completed);
}

#[test]
fn home_handler_reads_the_store() {
    let mut conn = rusqlite::Connection::open_in_memory().unwrap();
    assert!(matches!(home_handler(&mut conn), Err(Error::DatabaseQuery { .. })));
    run_migrations(&mut conn).unwrap();
    create_todo(&mut conn, &Todo { id: "9".to_string(), title: "T".to_string(), completed: false })
        .unwrap();
    let template = home_handler(&mut conn).unwrap();
    assert_eq!(template.todos().len(), 1);
    assert_eq!(template.todos()[0].id, "9");
}

#[test]
fn io_and_environment_errors() {
    let io = std::io::Error::new(std::io::ErrorKind::Other, "disk gone");
    let e = Error::from(io);
    assert!(matches!(e, Error::Io { .. }));
    assert_eq!(e.message(), "I/O error: disk gone");
    assert_eq!(e.into_response(), (500, "Something went wrong: I/O error: disk gone".to_string()));
    let env = dotenvy::Error::LineParse("x".to_string(), 0);
    let e = Error::from(env);
    assert!(matches!(e, Error::EnvironmentVariables { .. }));
    assert!(e.message().starts_with("Environment variables error: "));
}
