# Postgres rows, cursors and values

A verified library for reading the results of Postgres queries: cursors
that hand out the rows of a result (all at once, or one result per row),
rows and their fields, raw values with their type oid, and the two
query-builder pieces that write their own SQL (`SelectClauseNotSet` and
`Nullable`).

- `src/` is the library; Verus proves every function in it against its
  contract. `result.rs` holds the result of one query as plain values,
  `cursor.rs` the two cursors, `row.rs` rows and fields, `value.rs` raw
  values, type oids and type-metadata lookup, `query_builder.rs` and
  `nullable.rs` the SQL pieces.
- `app/` is the part that talks to a connection: fetching results one by
  one, draining the results left when a row-by-row cursor is dropped,
  sharing the connection with values, and the `Iterator` interfaces.
- `tests/` runs the library on hand-built results.
