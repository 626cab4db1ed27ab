# sqlite_handbook

Verified building blocks for applications that keep their data in SQLite.

`src/` is a Verus library; every function in it is checked against its contract:

- `tuning`, `pragma`, `pool` — connection profiles, pool sizing and the PRAGMA
  statements that apply them, with the checks that read them back.
- `value`, `status`, `uuid_column`, `time_column`, `records` — how Rust values are
  stored in and read from columns.
- `index_advisor` — which columns an index for a query pattern gets, in which order.
- `functions` — the `REGEXP` and `LEN` SQL functions.
- `migration` — the steps of a schema migration run, as a state machine.
- `sql_text`, `seed` — statements assembled from names, and sample rows.

`app/` runs all of this against real databases with `rusqlite`, `r2d2` and
`rusqlite_migration`, and holds the serde-based serialization and the
floating-point computations.
