//! PRAGMA settings as plain values, and the labels used when reporting them.

use vstd::prelude::*;

verus! {

/// The value handed to one `PRAGMA name = value` statement.
#[derive(Debug)]
pub enum PragmaValue {
    /// An integer setting (page counts, byte limits, enumeration codes).
    Integer(i64),
    /// A boolean setting; SQLite stores it as 1 or 0.
    Flag(bool),
    /// A keyword setting such as `WAL` or `NORMAL`.
    Text(String),
}

/// One `PRAGMA name = value` statement.
#[derive(Debug)]
pub struct PragmaUpdate {
    pub name: &'static str,
    pub value: PragmaValue,
}

impl PragmaValue {
    /// The integer SQLite records for this value, if it is numeric.
    pub open spec fn as_int(self) -> Option<int> {
        match self {
            PragmaValue::Integer(i) => Some(i as int),
            PragmaValue::Flag(b) => Some(if b { 1int } else { 0int }),
            PragmaValue::Text(_) => None,
        }
    }
}

/// An integer PRAGMA update.
pub fn integer_update(name: &'static str, value: i64) -> (u: PragmaUpdate)
    ensures
        u.name == name,
        u.value == PragmaValue::Integer(value),
{
    PragmaUpdate { name, value: PragmaValue::Integer(value) }
}

/// A boolean PRAGMA update.
pub fn flag_update(name: &'static str, value: bool) -> (u: PragmaUpdate)
    ensures
        u.name == name,
        u.value == PragmaValue::Flag(value),
{
    PragmaUpdate { name, value: PragmaValue::Flag(value) }
}

/// A keyword PRAGMA update.
pub fn text_update(name: &'static str, value: &str) -> (u: PragmaUpdate)
    ensures
        u.name == name,
        u.value matches PragmaValue::Text(s) && s@ == value@,
{
    PragmaUpdate { name, value: PragmaValue::Text(value.to_string()) }
}


/// The label under which reports show a `synchronous` level.
pub open spec fn synchronous_name(level: i32) -> &'static str {
    if level == 0 {
        "OFF"
    } else if level == 1 {
        "NORMAL"
    } else if level == 2 {
        "FULL"
    } else {
        "UNKNOWN"
    }
}

/// The label of a `synchronous` level: OFF, NORMAL, FULL, or UNKNOWN for any other value.
pub fn synchronous_label(level: i32) -> (label: &'static str)
    ensures
        label == synchronous_name(level),
{
    if level == 0 {
        "OFF"
    } else if level == 1 {
        "NORMAL"
    } else if level == 2 {
        "FULL"
    } else {
        "UNKNOWN"
    }
}

/// The label under which reports show a `temp_store` mode.
pub open spec fn temp_store_name(mode: i32) -> &'static str {
    if mode == 0 {
        "DEFAULT"
    } else if mode == 1 {
        "FILE"
    } else if mode == 2 {
        "MEMORY"
    } else {
        "UNKNOWN"
    }
}

/// The label of a `temp_store` mode: DEFAULT, FILE, MEMORY, or UNKNOWN for any other value.
pub fn temp_store_label(mode: i32) -> (label: &'static str)
    ensures
        label == temp_store_name(mode),
{
    if mode == 0 {
        "DEFAULT"
    } else if mode == 1 {
        "FILE"
    } else if mode == 2 {
        "MEMORY"
    } else {
        "UNKNOWN"
    }
}

/// The label of a boolean setting as read back: ON for 1, OFF for anything else.
pub fn switch_label(value: i32) -> (label: &'static str)
    ensures
        label == (if value == 1 { "ON" } else { "OFF" }),
{
    if value == 1 {
        "ON"
    } else {
        "OFF"
    }
}

/// A `journal_size_limit` in whole mebibytes; `None` for a negative limit, which SQLite
/// treats as no limit (its default is -1). A limit of 0 is a real limit: the journal is
/// truncated to nothing after each checkpoint.
pub fn journal_limit_megabytes(limit_bytes: i64) -> (mb: Option<i64>)
    ensures
        limit_bytes < 0 ==> mb is None,
        limit_bytes >= 0 ==> mb == Some((limit_bytes / 1048576) as i64),
{
    if limit_bytes < 0 {
        None
    } else {
        Some(limit_bytes / (1024 * 1024))
    }
}

/// Whether a `journal_mode` read back from SQLite names write-ahead logging.
pub fn journal_mode_is_wal(mode: &str) -> (wal: bool)
    ensures
        wal == (mode@ == "wal"@),
{
    let actual = mode.to_string();
    let expected = "wal".to_string();
    actual == expected
}

} // verus!
