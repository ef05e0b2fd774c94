# carparts

A car and part catalogue kept in PostgreSQL, served over HTTP.

- `src/` is the library, verified with Verus. It holds the models, the
  repositories and the application state. Each repository operation is
  given as the exact statement it sends: the SQL text and the values bound
  to `$1`, `$2`, ... The contracts state both, and proof functions relate the
  operations (an update writes the columns a create writes; a delete and a
  lookup by id select the row by the same key; a name search binds the name
  between two `%` wildcards).
- `app/` runs those statements on the sqlx pool, and holds the JSON models,
  the axum handlers and the router with its OpenAPI documentation.
- `tests/` exercises the library.
