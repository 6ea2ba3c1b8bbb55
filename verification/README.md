# harm

A to-do list web application (Axum, SQLite, htmx) whose logic is a
library verified with Verus.

- `src/` — the verified library:
  - `auth.rs`: the built-in user, the authentication backend's decisions and
    the decisions of the login form;
  - `db.rs`: the to-do store in SQLite: the statements it builds and how
    SQLite's answers become results;
  - `templates.rs`: the HTML pages and rows, stated exactly, and the page
    handlers that read or change the store;
  - `html.rs`: HTML escaping and its laws;
  - `views.rs`: the data of the template-rendered home page;
  - `err.rs`: the error type and its HTTP response;
  - `sqlite.rs`: the trusted calls into `rusqlite` and `sea_query`.
- `app/` — the server: routes, sessions, the shared connection, the schema
  migration (refinery) at start, and the
  trait impls that the web framework needs.
- `tests/` — tests of the library against a real in-memory SQLite database.
