//! SQL text assembled from names, and decisions taken on values read back from SQLite.

use vstd::prelude::*;
use vstd::string::StringExecFns;

verus! {

/// The statement that asks SQLite how it would run `sql`.
pub fn explain_sql(sql: &str) -> (s: String)
    ensures
        s@ == "EXPLAIN QUERY PLAN "@ + sql@,
{
    let mut s = String::from_str("EXPLAIN QUERY PLAN ");
    s.append(sql);
    s
}

/// The indentation of a query-plan line: none for a top-level step (parent 0), two
/// spaces for a nested one.
pub fn plan_indent(parent: i32) -> (indent: &'static str)
    ensures
        indent == (if parent == 0 { "" } else { "  " }),
{
    if parent == 0 {
        ""
    } else {
        "  "
    }
}

/// The statement that lists the columns of `table`.
pub fn table_info_sql(table: &str) -> (s: String)
    ensures
        s@ == "PRAGMA table_info("@ + table@ + ")"@,
{
    let mut s = String::from_str("PRAGMA table_info(");
    s.append(table);
    s.append(")");
    s
}

/// The statement that counts the rows of `table`.
pub fn count_rows_sql(table: &str) -> (s: String)
    ensures
        s@ == "SELECT COUNT(*) FROM "@ + table@,
{
    let mut s = String::from_str("SELECT COUNT(*) FROM ");
    s.append(table);
    s
}

/// The statement that counts the distinct values of `column` in `table`.
pub fn count_distinct_sql(column: &str, table: &str) -> (s: String)
    ensures
        s@ == "SELECT COUNT(DISTINCT "@ + column@ + ") FROM "@ + table@,
{
    let mut s = String::from_str("SELECT COUNT(DISTINCT ");
    s.append(column);
    s.append(") FROM ");
    s.append(table);
    s
}

/// Whether a table exists, from the number of `sqlite_master` rows naming it.
pub fn table_exists_from_count(count: i64) -> (exists: bool)
    ensures
        exists == (count > 0),
{
    count > 0
}

/// The statement that adds the `age` column to `users`, unless the column already exists.
pub fn age_column_statement(exists: bool) -> (stmt: Option<&'static str>)
    ensures
        exists ==> stmt is None,
        !exists ==> stmt == Some("ALTER TABLE users ADD COLUMN age INTEGER DEFAULT 0"),
{
    if exists {
        None
    } else {
        Some("ALTER TABLE users ADD COLUMN age INTEGER DEFAULT 0")
    }
}

} // verus!
