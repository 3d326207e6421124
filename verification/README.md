# laraxum

Backend API servers on Axum and SQLx, with the schema written once as Rust structs.

`src/` is the verified core, checked by Verus:

- `db`: the `db` macro's pipeline as plain data. Stage 1 reads the module as written,
  stage 2 checks each table and column and resolves its type, stage 3 resolves the schema
  against the whole database (joins, request fields, aggregates), stage 4 writes the SQL
  and the plan of each aggregate query: `CREATE TABLE`, the `SELECT` queries with their joins, filters, sorts and limits, the
  `INSERT`/`UPDATE`/`DELETE` statements and the migrations. `stage3::is_acyclic` decides
  whether reading a record with the records it refers to ends.
- `router`: the `router` macro's nested routes, flattened into full paths, the last route
  first (reversed, they are in declaration order), and the routes of a controller.
- `controller`, `model`, `request`, `error`, `env`: the decisions of the runtime: status
  codes, JSON web token claims and expiry, JSON content types, validation messages, how a
  `bool` is stored, defaults of the environment.
- `utils`: the model of Rust syntax that the macros read, collection helpers that gather
  every error rather than the first, and the fields and variant choice of an enum read from
  whichever of its fields are present.

`app/` is the unverified rest: reading Rust syntax with `syn` and `darling` into the core's
model, emitting the generated Rust code with `quote`, and the HTTP side on Axum (extractors,
responses, serving).
