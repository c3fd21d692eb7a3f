# lex_engine

Lex is a declarative engine: a module is described by a contract (`lex.json`)
with fields, constraints and hooks, and the engine validates records against
it, logs the hooks around a create, and plans the SQL that persists records.

- `src/` is the verified library (Verus):
  - `json`: the JSON model of records and constraint values;
  - `contract`: module contracts;
  - `sanitizer`: the SQL identifier guard;
  - `numeric`: `<` on doubles given by their bit patterns;
  - `pattern`: regular expressions, through the `regex` crate;
  - `validator`: record validation against a contract;
  - `engine`: the create pipeline and its log;
  - `registry`: loaded contracts keyed by module name;
  - `sql`: the statements for tables, inserts, updates, deletes and listings;
  - `api`: the status and body of each endpoint's replies;
  - `text`: text comparison and decimal rendering.
- `app/` is the HTTP server (axum), the PostgreSQL adapter (sqlx), the
  loading of contracts from disk and the serde forms of the contract types.
- `tests/` exercises the library on concrete contracts and records.
