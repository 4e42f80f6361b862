# backend_core

Verified decision logic for three small services:

- a user account HTTP API (`auth`, `models`, `handlers`, `error`, `reply`):
  Argon2 password hashes, signed login tokens and their claims, the
  `Authorization: Bearer` header, and the answer to every request
  from the outcome of its database query;
- a URL shortener (`shortener`): short links with random codes, and the lookup
  behind a short link as a state machine that asks the cache before the
  database and fills the cache from the database;
- a todo list (`todos`): ids, adding, completing, removing and counting todos.

`src/` is verified with Verus. `app/` holds the I/O around it: the axum
servers, the sqlx and redis calls, the environment (database, cache and
token secret), the clap command line, the
coloured terminal output and the JSON file of todos. `tests/` runs the library
on concrete values.
