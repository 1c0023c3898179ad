# rs-gate-server

The rules of the server live in `src/`, a library verified with Verus;
`app/` holds the executable that serves them.

- `errors`: the error kinds, the HTTP status and the text of each.
- `config`: the server and database sections of the configuration.
- `database`: the connection URL and the connection-pool settings.
- `password`: hashing and checking passwords with bcrypt.
- `auth`: reading the bearer token of an `Authorization` header.
- `validation`: the length rules of request bodies.
- `user`: login, creating, updating and deleting users, paging.
- `id`: the epoch of the id generator.

`app/` loads the configuration, connects to PostgreSQL, starts the id
generator and serves HTTP with axum.
