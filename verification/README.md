# library

A small lending-library service: books can be looked up, listed, created by
librarians, borrowed for a while and returned; users are created with an access
level (user, librarian, admin), log in at `POST /session`, and are identified
by an access token. Borrowing a book and ending a borrow are guarded routes:
their requests pass the token check first.

The logic of the service is a verified library under `src/`:

- `entities/`: books, users, the request payloads, the access levels and the
  client-side request builders.
- `server/resources/`: each request handler as a state machine from a database
  reply to the next statement or the answer, with the rules it keeps proved
  (`book.rs`, `user.rs`), and models of the book and user tables in which
  borrowing, returning, listing, creating a user and checking its token are proved
  against each statement's effect (`table.rs`, `user_table.rs`).
- `server/`: the actor protocol, the token check of the guarded routes, the
  routes (which of them are guarded included), the
  database migrations and the start-up decisions (waiting for the database,
  reading the administrator's credentials, the log format).
- `sql.rs`, `http.rs`, `text.rs`, `logging.rs`, `codegen.rs`: rows and
  statements, status codes, string helpers, the log text of payloads, and the
  names that the actor code is built from.
- `standalone/`: the single-route variant of the service.
- `test_utils/`: test naming, paths, free ports and the spawn protocol.

`app/` is the program around it: the command line, the HTTP server, the
database connection, the actor threads and the HTTP client. It runs the state
machines of the library, performing each statement and handing back the reply.

`tests/` holds the tests; `tests/scenarios.rs` drives the handlers against an
in-memory table.
