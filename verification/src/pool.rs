//! Connection manager and pool sizing for a pooled SQLite database.

use vstd::prelude::*;
use crate::pragma::{PragmaUpdate, PragmaValue, integer_update, text_update};

verus! {

/// Opens connections to one SQLite database, file-backed or in memory.
#[derive(Clone)]
pub struct SqliteConnectionManager {
    db_path: String,
}

impl SqliteConnectionManager {
    /// The path this manager opens.
    pub closed spec fn path(&self) -> Seq<char> {
        self.db_path@
    }

    /// A manager for the database file at `db_path`.
    pub fn file(db_path: &str) -> (m: Self)
        ensures
            m.path() == db_path@,
    {
        SqliteConnectionManager { db_path: db_path.to_string() }
    }

    /// A manager for a private in-memory database.
    pub fn memory() -> (m: Self)
        ensures
            m.path() == ":memory:"@,
    {
        SqliteConnectionManager { db_path: ":memory:".to_string() }
    }

    /// The path handed to SQLite when a connection is opened.
    pub fn db_path(&self) -> (p: &str)
        ensures
            p@ == self.path(),
    {
        self.db_path.as_str()
    }

    /// The statements run on every new connection: write-ahead logging, NORMAL
    /// synchronisation and a 2000-page cache.
    pub fn connect_plan(&self) -> (plan: Vec<PragmaUpdate>)
        ensures
            plan@.len() == 3,
            plan@[0].name == "journal_mode",
            plan@[0].value matches PragmaValue::Text(s) && s@ == "WAL"@,
            plan@[1].name == "synchronous",
            plan@[1].value matches PragmaValue::Text(s) && s@ == "NORMAL"@,
            plan@[2].name == "cache_size",
            plan@[2].value == PragmaValue::Integer(2000),
    {
        let mut plan = Vec::new();
        plan.push(text_update("journal_mode", "WAL"));
        plan.push(text_update("synchronous", "NORMAL"));
        plan.push(integer_update("cache_size", 2000));
        plan
    }

    /// A pooled connection is never reported broken; a failing health check discards it instead.
    pub fn has_broken(&self) -> (broken: bool)
        ensures
            !broken,
    {
        false
    }
}

/// Sizing and timeouts of a connection pool.
#[derive(Debug, Clone)]
pub struct PoolConfig {
    pub max_size: u32,
    pub min_idle: u32,
    pub connection_timeout_secs: u64,
    pub idle_timeout_secs: u64,
    pub max_lifetime_secs: u64,
}

impl Default for PoolConfig {
    /// Ten connections, two kept idle, 5 s to connect, 300 s idle time, 1800 s lifetime.
    fn default() -> (c: Self)
        ensures
            c.max_size == 10,
            c.min_idle == 2,
            c.connection_timeout_secs == 5,
            c.idle_timeout_secs == 300,
            c.max_lifetime_secs == 1800,
    {
        PoolConfig {
            max_size: 10,
            min_idle: 2,
            connection_timeout_secs: 5,
            idle_timeout_secs: 300,
            max_lifetime_secs: 1800,
        }
    }
}

impl PoolConfig {
    /// Twenty connections, four kept idle, 3 s to connect, 600 s idle time, 3600 s lifetime.
    pub fn read_heavy() -> (c: Self)
        ensures
            c.max_size == 20,
            c.min_idle == 4,
            c.connection_timeout_secs == 3,
            c.idle_timeout_secs == 600,
            c.max_lifetime_secs == 3600,
    {
        PoolConfig {
            max_size: 20,
            min_idle: 4,
            connection_timeout_secs: 3,
            idle_timeout_secs: 600,
            max_lifetime_secs: 3600,
        }
    }

    /// Five connections, one kept idle, 5 s to connect, 120 s idle time, 1800 s lifetime.
    pub fn write_heavy() -> (c: Self)
        ensures
            c.max_size == 5,
            c.min_idle == 1,
            c.connection_timeout_secs == 5,
            c.idle_timeout_secs == 120,
            c.max_lifetime_secs == 1800,
    {
        PoolConfig {
            max_size: 5,
            min_idle: 1,
            connection_timeout_secs: 5,
            idle_timeout_secs: 120,
            max_lifetime_secs: 1800,
        }
    }
}

/// Connections of a pool that are handed out: all of them but the idle ones.
pub fn active_connections(connections: u32, idle_connections: u32) -> (active: u32)
    requires
        idle_connections <= connections,
    ensures
        active == connections - idle_connections,
{
    connections - idle_connections
}

} // verus!
