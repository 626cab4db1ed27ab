//! Tuning presets for a SQLite connection and the PRAGMA statements that apply them.

use vstd::prelude::*;
use crate::pragma::{PragmaUpdate, PragmaValue, integer_update, flag_update, text_update};

verus! {

/// Bytes in one mebibyte.
pub const MIB: u64 = 1048576;

/// Pages of 4096 bytes that `pct` percent of `total_memory_mb` mebibytes hold,
/// the percentage taken with integer division first.
pub open spec fn share_pages(total_memory_mb: int, pct: int) -> int {
    ((total_memory_mb * pct / 100) * 1048576) / 4096
}

/// The page computation does not leave `u64`.
pub open spec fn share_fits(total_memory_mb: int, pct: int) -> bool {
    total_memory_mb * pct <= u64::MAX && (total_memory_mb * pct / 100) * 1048576 <= u64::MAX
}

/// `x` bounded to `lo..=hi`.
pub open spec fn clamped(x: int, lo: int, hi: int) -> int {
    if x < lo { lo } else if x > hi { hi } else { x }
}

/// Pages of 4096 bytes for `pct` percent of `total_memory_mb` mebibytes.
fn memory_share_pages(total_memory_mb: u64, pct: u64) -> (pages: u64)
    requires
        1 <= pct <= 100,
        share_fits(total_memory_mb as int, pct as int),
    ensures
        pages == share_pages(total_memory_mb as int, pct as int),
{
    ((total_memory_mb * pct / 100) * 1024 * 1024) / 4096
}

fn clamp_pages(x: u64, lo: u64, hi: u64) -> (r: u64)
    requires
        lo <= hi,
    ensures
        r == clamped(x as int, lo as int, hi as int),
{
    if x < lo {
        lo
    } else if x > hi {
        hi
    } else {
        x
    }
}

// ---------------------------------------------------------------------------
// Safety settings
// ---------------------------------------------------------------------------

/// Safety-related PRAGMA settings.
pub struct SafetyConfig {
    /// 0 = OFF, 1 = NORMAL, 2 = FULL.
    pub synchronous: i32,
    pub foreign_keys: bool,
    pub ignore_check_constraints: bool,
    pub recursive_triggers: bool,
}

impl Default for SafetyConfig {
    /// NORMAL synchronisation with foreign keys enforced.
    fn default() -> (c: Self)
        ensures
            c.synchronous == 1,
            c.foreign_keys,
            !c.ignore_check_constraints,
            !c.recursive_triggers,
    {
        SafetyConfig {
            synchronous: 1,
            foreign_keys: true,
            ignore_check_constraints: false,
            recursive_triggers: false,
        }
    }
}

impl SafetyConfig {
    /// The statements that apply this configuration, in order.
    pub fn pragma_plan(&self) -> (plan: Vec<PragmaUpdate>)
        ensures
            plan@.len() == 4,
            plan@[0].name == "synchronous",
            plan@[0].value == PragmaValue::Integer(self.synchronous as i64),
            plan@[1].name == "foreign_keys",
            plan@[1].value == PragmaValue::Flag(self.foreign_keys),
            plan@[2].name == "ignore_check_constraints",
            plan@[2].value == PragmaValue::Flag(self.ignore_check_constraints),
            plan@[3].name == "recursive_triggers",
            plan@[3].value == PragmaValue::Flag(self.recursive_triggers),
    {
        let mut plan = Vec::new();
        plan.push(integer_update("synchronous", self.synchronous as i64));
        plan.push(flag_update("foreign_keys", self.foreign_keys));
        plan.push(flag_update("ignore_check_constraints", self.ignore_check_constraints));
        plan.push(flag_update("recursive_triggers", self.recursive_triggers));
        plan
    }
}

// ---------------------------------------------------------------------------
// Performance settings
// ---------------------------------------------------------------------------

/// Cache, memory-map and temporary-storage settings.
pub struct PerformanceConfig {
    pub cache_size_pages: u32,
    pub mmap_size_bytes: u32,
    /// 0 = DEFAULT, 1 = FILE, 2 = MEMORY.
    pub temp_store: i32,
}

impl Default for PerformanceConfig {
    /// 2000 cache pages, a 64 MiB memory map and in-memory temporary storage.
    fn default() -> (c: Self)
        ensures
            c.cache_size_pages == 2000,
            c.mmap_size_bytes == 64 * MIB,
            c.temp_store == 2,
    {
        PerformanceConfig { cache_size_pages: 2000, mmap_size_bytes: 64 * 1024 * 1024, temp_store: 2 }
    }
}

impl PerformanceConfig {
    /// A fifth of the memory as page cache (at most 500000 pages) and a 256 MiB memory map.
    pub fn for_read_heavy(total_memory_mb: u64) -> (c: Self)
        requires
            share_fits(total_memory_mb as int, 20),
        ensures
            c.cache_size_pages == if share_pages(total_memory_mb as int, 20) < 500000 {
                share_pages(total_memory_mb as int, 20)
            } else {
                500000
            },
            c.mmap_size_bytes == 256 * MIB,
            c.temp_store == 2,
    {
        let cache_pages = memory_share_pages(total_memory_mb, 20);
        let capped = if cache_pages < 500_000 { cache_pages } else { 500_000 };
        PerformanceConfig {
            cache_size_pages: capped as u32,
            mmap_size_bytes: 256 * 1024 * 1024,
            temp_store: 2,
        }
    }

    /// A tenth of the memory as page cache (at most 200000 pages) and no memory map.
    pub fn for_write_heavy(total_memory_mb: u64) -> (c: Self)
        requires
            share_fits(total_memory_mb as int, 10),
        ensures
            c.cache_size_pages == if share_pages(total_memory_mb as int, 10) < 200000 {
                share_pages(total_memory_mb as int, 10)
            } else {
                200000
            },
            c.mmap_size_bytes == 0,
            c.temp_store == 2,
    {
        let cache_pages = memory_share_pages(total_memory_mb, 10);
        let capped = if cache_pages < 200_000 { cache_pages } else { 200_000 };
        PerformanceConfig { cache_size_pages: capped as u32, mmap_size_bytes: 0, temp_store: 2 }
    }

    /// The statements that apply this configuration, in order.
    pub fn pragma_plan(&self) -> (plan: Vec<PragmaUpdate>)
        ensures
            plan@.len() == 3,
            plan@[0].name == "cache_size",
            plan@[0].value == PragmaValue::Integer(self.cache_size_pages as i64),
            plan@[1].name == "mmap_size",
            plan@[1].value == PragmaValue::Integer(self.mmap_size_bytes as i64),
            plan@[2].name == "temp_store",
            plan@[2].value == PragmaValue::Integer(self.temp_store as i64),
    {
        let mut plan = Vec::new();
        plan.push(integer_update("cache_size", self.cache_size_pages as i64));
        plan.push(integer_update("mmap_size", self.mmap_size_bytes as i64));
        plan.push(integer_update("temp_store", self.temp_store as i64));
        plan
    }
}


// ---------------------------------------------------------------------------
// Complete connection profiles
// ---------------------------------------------------------------------------

/// Every PRAGMA setting of a connection profile.
#[derive(Debug, Clone)]
pub struct DatabaseConfig {
    /// 0 = OFF, 1 = NORMAL, 2 = FULL.
    pub synchronous: i32,
    pub foreign_keys: bool,
    pub ignore_check_constraints: bool,
    pub recursive_triggers: bool,
    pub cache_size_pages: u32,
    pub mmap_size_bytes: u32,
    /// 0 = DEFAULT, 1 = FILE, 2 = MEMORY.
    pub temp_store: i32,
    /// 0 = NORMAL, 1 = EXCLUSIVE.
    pub locking_mode: i32,
    pub journal_size_limit_bytes: u32,
    pub wal_autocheckpoint_pages: u32,
}

/// The profile shape that every preset shares: NORMAL synchronisation, foreign keys
/// enforced, CHECK constraints enforced and no recursive triggers.
pub open spec fn safe_defaults(c: DatabaseConfig) -> bool {
    &&& c.synchronous == 1
    &&& c.foreign_keys
    &&& !c.ignore_check_constraints
    &&& !c.recursive_triggers
}

/// The fields of a profile built from a memory share and the remaining settings.
pub open spec fn profile(
    c: DatabaseConfig,
    total_memory_mb: int,
    pct: int,
    lo: int,
    hi: int,
    mmap: int,
    temp_store: int,
    locking_mode: int,
    journal_limit: int,
    checkpoint: int,
) -> bool {
    &&& safe_defaults(c)
    &&& c.cache_size_pages == clamped(share_pages(total_memory_mb, pct), lo, hi)
    &&& c.mmap_size_bytes == mmap
    &&& c.temp_store == temp_store
    &&& c.locking_mode == locking_mode
    &&& c.journal_size_limit_bytes == journal_limit
    &&& c.wal_autocheckpoint_pages == checkpoint
}

impl DatabaseConfig {
    fn preset(
        cache_size_pages: u32,
        mmap_size_bytes: u32,
        temp_store: i32,
        locking_mode: i32,
        journal_size_limit_bytes: u32,
        wal_autocheckpoint_pages: u32,
    ) -> (c: Self)
        ensures
            safe_defaults(c),
            c.cache_size_pages == cache_size_pages,
            c.mmap_size_bytes == mmap_size_bytes,
            c.temp_store == temp_store,
            c.locking_mode == locking_mode,
            c.journal_size_limit_bytes == journal_size_limit_bytes,
            c.wal_autocheckpoint_pages == wal_autocheckpoint_pages,
    {
        DatabaseConfig {
            synchronous: 1,
            foreign_keys: true,
            ignore_check_constraints: false,
            recursive_triggers: false,
            cache_size_pages,
            mmap_size_bytes,
            temp_store,
            locking_mode,
            journal_size_limit_bytes,
            wal_autocheckpoint_pages,
        }
    }

    /// General production profile: 15% of memory as cache (2000..=500000 pages),
    /// 64 MiB memory map, in-memory temporary storage, NORMAL locking,
    /// 64 MiB journal limit and a checkpoint every 1000 pages.
    pub fn production_general(total_memory_mb: u64) -> (c: Self)
        requires
            share_fits(total_memory_mb as int, 15),
        ensures
            profile(c, total_memory_mb as int, 15, 2000, 500000, 64 * MIB, 2, 0, 64 * MIB, 1000),
    {
        let cache_pages = clamp_pages(memory_share_pages(total_memory_mb, 15), 2000, 500000);
        Self::preset(cache_pages as u32, 64 * 1024 * 1024, 2, 0, 64 * 1024 * 1024, 1000)
    }

    /// Read-heavy profile (reports, analytics): 25% of memory as cache (2000..=500000 pages),
    /// 256 MiB memory map, 128 MiB journal limit and a checkpoint every 2000 pages.
    pub fn read_heavy(total_memory_mb: u64) -> (c: Self)
        requires
            share_fits(total_memory_mb as int, 25),
        ensures
            profile(c, total_memory_mb as int, 25, 2000, 500000, 256 * MIB, 2, 0, 128 * MIB, 2000),
    {
        let cache_pages = clamp_pages(memory_share_pages(total_memory_mb, 25), 2000, 500000);
        Self::preset(cache_pages as u32, 256 * 1024 * 1024, 2, 0, 128 * 1024 * 1024, 2000)
    }

    /// Write-heavy profile (logging, ingestion): 10% of memory as cache (1000..=200000 pages),
    /// no memory map, 32 MiB journal limit and a checkpoint every 500 pages.
    pub fn write_heavy(total_memory_mb: u64) -> (c: Self)
        requires
            share_fits(total_memory_mb as int, 10),
        ensures
            profile(c, total_memory_mb as int, 10, 1000, 200000, 0, 2, 0, 32 * MIB, 500),
    {
        let cache_pages = clamp_pages(memory_share_pages(total_memory_mb, 10), 1000, 200000);
        Self::preset(cache_pages as u32, 0, 2, 0, 32 * 1024 * 1024, 500)
    }

    /// Single-user profile (embedded applications): 10% of memory as cache (2000..=200000 pages),
    /// 64 MiB memory map, EXCLUSIVE locking, 64 MiB journal limit, checkpoint every 1000 pages.
    pub fn single_user(total_memory_mb: u64) -> (c: Self)
        requires
            share_fits(total_memory_mb as int, 10),
        ensures
            profile(c, total_memory_mb as int, 10, 2000, 200000, 64 * MIB, 2, 1, 64 * MIB, 1000),
    {
        let cache_pages = clamp_pages(memory_share_pages(total_memory_mb, 10), 2000, 200000);
        Self::preset(cache_pages as u32, 64 * 1024 * 1024, 2, 1, 64 * 1024 * 1024, 1000)
    }

    /// Memory-limited profile (small devices): 5% of memory as cache (500..=20000 pages),
    /// no memory map, file-backed temporary storage, 16 MiB journal limit and a
    /// checkpoint every 500 pages.
    pub fn memory_limited(total_memory_mb: u64) -> (c: Self)
        requires
            share_fits(total_memory_mb as int, 5),
        ensures
            profile(c, total_memory_mb as int, 5, 500, 20000, 0, 1, 0, 16 * MIB, 500),
    {
        let cache_pages = clamp_pages(memory_share_pages(total_memory_mb, 5), 500, 20000);
        Self::preset(cache_pages as u32, 0, 1, 0, 16 * 1024 * 1024, 500)
    }
}


/// The ten statements that apply a profile, in the order they are sent.
pub open spec fn database_plan(c: DatabaseConfig) -> Seq<PragmaUpdate> {
    seq![
        PragmaUpdate { name: "synchronous", value: PragmaValue::Integer(c.synchronous as i64) },
        PragmaUpdate { name: "foreign_keys", value: PragmaValue::Flag(c.foreign_keys) },
        PragmaUpdate { name: "ignore_check_constraints", value: PragmaValue::Flag(c.ignore_check_constraints) },
        PragmaUpdate { name: "recursive_triggers", value: PragmaValue::Flag(c.recursive_triggers) },
        PragmaUpdate { name: "cache_size", value: PragmaValue::Integer(c.cache_size_pages as i64) },
        PragmaUpdate { name: "mmap_size", value: PragmaValue::Integer(c.mmap_size_bytes as i64) },
        PragmaUpdate { name: "temp_store", value: PragmaValue::Integer(c.temp_store as i64) },
        PragmaUpdate { name: "locking_mode", value: PragmaValue::Integer(c.locking_mode as i64) },
        PragmaUpdate { name: "journal_size_limit", value: PragmaValue::Integer(c.journal_size_limit_bytes as i64) },
        PragmaUpdate { name: "wal_autocheckpoint", value: PragmaValue::Integer(c.wal_autocheckpoint_pages as i64) },
    ]
}

/// Values read back from a connection for the settings that a profile check compares.
pub struct PragmaReadings {
    pub synchronous: i32,
    pub foreign_keys: i32,
    pub cache_size: u32,
    pub mmap_size: u32,
    pub journal_size_limit: u32,
}

/// A setting whose value read back differs from the profile.
#[derive(Debug)]
pub struct PragmaMismatch {
    pub name: &'static str,
    pub expected: i64,
    pub actual: i64,
}

/// One mismatch when `expected` and `actual` differ, none otherwise.
pub open spec fn mismatch_if(name: &'static str, expected: int, actual: int) -> Seq<PragmaMismatch> {
    if expected == actual {
        seq![]
    } else {
        seq![PragmaMismatch { name, expected: expected as i64, actual: actual as i64 }]
    }
}

/// The mismatches of a profile check, in the order synchronous, foreign_keys,
/// cache_size, mmap_size, journal_size_limit.
pub open spec fn config_mismatches(c: DatabaseConfig, r: PragmaReadings) -> Seq<PragmaMismatch> {
    mismatch_if("synchronous", c.synchronous as int, r.synchronous as int)
        + mismatch_if("foreign_keys", if c.foreign_keys { 1int } else { 0int }, r.foreign_keys as int)
        + mismatch_if("cache_size", c.cache_size_pages as int, r.cache_size as int)
        + mismatch_if("mmap_size", c.mmap_size_bytes as int, r.mmap_size as int)
        + mismatch_if("journal_size_limit", c.journal_size_limit_bytes as int, r.journal_size_limit as int)
}

fn push_if_differs(out: &mut Vec<PragmaMismatch>, name: &'static str, expected: i64, actual: i64)
    ensures
        final(out)@ == old(out)@ + mismatch_if(name, expected as int, actual as int),
{
    if expected != actual {
        out.push(PragmaMismatch { name, expected, actual });
    }
}

impl DatabaseConfig {
    /// The statements that apply this profile, in order.
    pub fn apply_plan(&self) -> (plan: Vec<PragmaUpdate>)
        ensures
            plan@ == database_plan(*self),
    {
        let mut plan = Vec::new();
        plan.push(integer_update("synchronous", self.synchronous as i64));
        plan.push(flag_update("foreign_keys", self.foreign_keys));
        plan.push(flag_update("ignore_check_constraints", self.ignore_check_constraints));
        plan.push(flag_update("recursive_triggers", self.recursive_triggers));
        plan.push(integer_update("cache_size", self.cache_size_pages as i64));
        plan.push(integer_update("mmap_size", self.mmap_size_bytes as i64));
        plan.push(integer_update("temp_store", self.temp_store as i64));
        plan.push(integer_update("locking_mode", self.locking_mode as i64));
        plan.push(integer_update("journal_size_limit", self.journal_size_limit_bytes as i64));
        plan.push(integer_update("wal_autocheckpoint", self.wal_autocheckpoint_pages as i64));
        plan
    }

    /// Compares the values read back from a connection with this profile; the
    /// profile is in force exactly when the result is empty.
    pub fn verify(&self, readings: &PragmaReadings) -> (mismatches: Vec<PragmaMismatch>)
        ensures
            mismatches@ == config_mismatches(*self, *readings),
    {
        let mut out: Vec<PragmaMismatch> = Vec::new();
        push_if_differs(&mut out, "synchronous", self.synchronous as i64, readings.synchronous as i64);
        let expected_fk: i64 = if self.foreign_keys { 1 } else { 0 };
        push_if_differs(&mut out, "foreign_keys", expected_fk, readings.foreign_keys as i64);
        push_if_differs(&mut out, "cache_size", self.cache_size_pages as i64, readings.cache_size as i64);
        push_if_differs(&mut out, "mmap_size", self.mmap_size_bytes as i64, readings.mmap_size as i64);
        push_if_differs(&mut out, "journal_size_limit", self.journal_size_limit_bytes as i64, readings.journal_size_limit as i64);
        assert(out@ =~= config_mismatches(*self, *readings));
        out
    }
}


// ---------------------------------------------------------------------------
// Write-ahead-log settings
// ---------------------------------------------------------------------------

/// Settings applied once write-ahead logging is on.
pub struct WalConfig {
    pub autocheckpoint_pages: u32,
    pub journal_size_limit_mb: u32,
    /// A `synchronous` keyword such as `NORMAL`.
    pub synchronous: String,
    pub cache_size_pages: u32,
}

impl Default for WalConfig {
    /// Checkpoint every 1000 pages, 64 MiB journal limit, NORMAL synchronisation, 2000 cache pages.
    fn default() -> (c: Self)
        ensures
            c.autocheckpoint_pages == 1000,
            c.journal_size_limit_mb == 64,
            c.synchronous@ == "NORMAL"@,
            c.cache_size_pages == 2000,
    {
        WalConfig {
            autocheckpoint_pages: 1000,
            journal_size_limit_mb: 64,
            synchronous: "NORMAL".to_string(),
            cache_size_pages: 2000,
        }
    }
}

impl WalConfig {
    /// The statements sent after write-ahead logging is confirmed, in order; the journal
    /// limit goes out in bytes.
    pub fn settings_plan(&self) -> (plan: Vec<PragmaUpdate>)
        requires
            self.journal_size_limit_mb * MIB <= u32::MAX,
        ensures
            plan@.len() == 4,
            plan@[0].name == "wal_autocheckpoint",
            plan@[0].value == PragmaValue::Integer(self.autocheckpoint_pages as i64),
            plan@[1].name == "journal_size_limit",
            plan@[1].value == PragmaValue::Integer((self.journal_size_limit_mb * MIB) as i64),
            plan@[2].name == "synchronous",
            plan@[2].value matches PragmaValue::Text(s) && s@ == self.synchronous@,
            plan@[3].name == "cache_size",
            plan@[3].value == PragmaValue::Integer(self.cache_size_pages as i64),
    {
        let limit_bytes = self.journal_size_limit_mb * 1024 * 1024;
        let mut plan = Vec::new();
        plan.push(integer_update("wal_autocheckpoint", self.autocheckpoint_pages as i64));
        plan.push(integer_update("journal_size_limit", limit_bytes as i64));
        plan.push(text_update("synchronous", self.synchronous.as_str()));
        plan.push(integer_update("cache_size", self.cache_size_pages as i64));
        plan
    }
}

// ---------------------------------------------------------------------------
// Laws
// ---------------------------------------------------------------------------

proof fn lemma_share_monotone(m1: int, m2: int, p1: int, p2: int)
    requires
        0 <= m1 <= m2,
        0 <= p1 <= p2,
    ensures
        share_pages(m1, p1) <= share_pages(m2, p2),
{
    assert(m1 * p1 <= m2 * p2) by (nonlinear_arith)
        requires
            0 <= m1 <= m2,
            0 <= p1 <= p2,
    ;
    let a = m1 * p1 / 100;
    let b = m2 * p2 / 100;
    assert(a <= b) by (nonlinear_arith)
        requires
            a == m1 * p1 / 100,
            b == m2 * p2 / 100,
            m1 * p1 <= m2 * p2,
    ;
    assert((a * 1048576) / 4096 <= (b * 1048576) / 4096) by (nonlinear_arith)
        requires
            a <= b,
    ;
}

/// The three workload profiles order their resources by workload: for the same memory, the read-heavy profile has at least the cache, memory map,
/// journal limit and checkpoint interval of the general profile, and the general profile
/// at least those of the write-heavy profile, which disables the memory map.
pub proof fn law_workload_profiles_ordered(
    total_memory_mb: u64,
    read: DatabaseConfig,
    general: DatabaseConfig,
    write: DatabaseConfig,
)
    requires
        profile(read, total_memory_mb as int, 25, 2000, 500000, 256 * MIB, 2, 0, 128 * MIB, 2000),
        profile(general, total_memory_mb as int, 15, 2000, 500000, 64 * MIB, 2, 0, 64 * MIB, 1000),
        profile(write, total_memory_mb as int, 10, 1000, 200000, 0, 2, 0, 32 * MIB, 500),
    ensures
        read.cache_size_pages >= general.cache_size_pages >= write.cache_size_pages,
        read.mmap_size_bytes >= general.mmap_size_bytes >= write.mmap_size_bytes,
        write.mmap_size_bytes == 0,
        read.journal_size_limit_bytes >= general.journal_size_limit_bytes >= write.journal_size_limit_bytes,
        read.wal_autocheckpoint_pages >= general.wal_autocheckpoint_pages >= write.wal_autocheckpoint_pages,
        read.synchronous == general.synchronous == write.synchronous == 1,
{
    lemma_share_monotone(total_memory_mb as int, total_memory_mb as int, 15, 25);
    lemma_share_monotone(total_memory_mb as int, total_memory_mb as int, 10, 15);
}

/// A profile's page cache never shrinks when the machine has more memory, and always
/// stays within the profile's bounds.
pub proof fn law_cache_grows_with_memory(
    m1: u64,
    m2: u64,
    pct: int,
    lo: int,
    hi: int,
    c1: DatabaseConfig,
    c2: DatabaseConfig,
)
    requires
        m1 <= m2,
        0 <= pct,
        lo <= hi,
        c1.cache_size_pages == clamped(share_pages(m1 as int, pct), lo, hi),
        c2.cache_size_pages == clamped(share_pages(m2 as int, pct), lo, hi),
    ensures
        c1.cache_size_pages <= c2.cache_size_pages,
        lo <= c1.cache_size_pages <= hi,
{
    lemma_share_monotone(m1 as int, m2 as int, pct, pct);
}

/// The read-heavy performance settings keep at least the cache and memory map of the
/// write-heavy ones for the same memory.
pub proof fn law_performance_read_over_write(
    total_memory_mb: u64,
    read: PerformanceConfig,
    write: PerformanceConfig,
)
    requires
        read.cache_size_pages == if share_pages(total_memory_mb as int, 20) < 500000 {
            share_pages(total_memory_mb as int, 20)
        } else {
            500000
        },
        write.cache_size_pages == if share_pages(total_memory_mb as int, 10) < 200000 {
            share_pages(total_memory_mb as int, 10)
        } else {
            200000
        },
        read.mmap_size_bytes == 256 * MIB,
        write.mmap_size_bytes == 0,
    ensures
        read.cache_size_pages >= write.cache_size_pages,
        read.mmap_size_bytes > write.mmap_size_bytes,
{
    lemma_share_monotone(total_memory_mb as int, total_memory_mb as int, 10, 20);
}

/// The ten statements of a profile set ten different settings.
proof fn lemma_plan_names_distinct(c: DatabaseConfig)
    ensures
        database_plan(c).len() == 10,
        forall|i: int, j: int|
            0 <= i < 10 && 0 <= j < 10 && database_plan(c)[i].name@ == database_plan(c)[j].name@ ==> i == j,
{
    reveal_strlit("synchronous");
    reveal_strlit("foreign_keys");
    reveal_strlit("ignore_check_constraints");
    reveal_strlit("recursive_triggers");
    reveal_strlit("cache_size");
    reveal_strlit("mmap_size");
    reveal_strlit("temp_store");
    reveal_strlit("locking_mode");
    reveal_strlit("journal_size_limit");
    reveal_strlit("wal_autocheckpoint");
    let plan = database_plan(c);
    // Each name is told apart from the others by its length and its first two letters.
    let key = |s: Seq<char>| (s.len(), s[0], s[1]);
    assert forall|i: int, j: int|
        0 <= i < 10 && 0 <= j < 10 && plan[i].name@ == plan[j].name@ implies i == j by {
        assert(key(plan[i].name@) == key(plan[j].name@));
    }
}

/// The statement in `plan` for `name` writes the integer `v`.
pub open spec fn plan_writes(plan: Seq<PragmaUpdate>, name: &str, v: int) -> bool {
    exists|i: int| 0 <= i < plan.len() && plan[i].name@ == name@ && #[trigger] plan[i].value.as_int() == Some(v)
}

/// A connection that reports back what a profile's statements wrote passes that
/// profile's check: applying a profile and then verifying it finds no mismatch.
pub proof fn law_verify_accepts_applied(c: DatabaseConfig, r: PragmaReadings)
    requires
        plan_writes(database_plan(c), "synchronous", r.synchronous as int),
        plan_writes(database_plan(c), "foreign_keys", r.foreign_keys as int),
        plan_writes(database_plan(c), "cache_size", r.cache_size as int),
        plan_writes(database_plan(c), "mmap_size", r.mmap_size as int),
        plan_writes(database_plan(c), "journal_size_limit", r.journal_size_limit as int),
    ensures
        config_mismatches(c, r).len() == 0,
{
    let plan = database_plan(c);
    lemma_plan_names_distinct(c);
    let i0 = choose|i: int| 0 <= i < plan.len() && plan[i].name@ == "synchronous"@ && #[trigger] plan[i].value.as_int() == Some(r.synchronous as int);
    let i1 = choose|i: int| 0 <= i < plan.len() && plan[i].name@ == "foreign_keys"@ && #[trigger] plan[i].value.as_int() == Some(r.foreign_keys as int);
    let i2 = choose|i: int| 0 <= i < plan.len() && plan[i].name@ == "cache_size"@ && #[trigger] plan[i].value.as_int() == Some(r.cache_size as int);
    let i3 = choose|i: int| 0 <= i < plan.len() && plan[i].name@ == "mmap_size"@ && #[trigger] plan[i].value.as_int() == Some(r.mmap_size as int);
    let i4 = choose|i: int| 0 <= i < plan.len() && plan[i].name@ == "journal_size_limit"@ && #[trigger] plan[i].value.as_int() == Some(r.journal_size_limit as int);
    assert(plan[i0].name@ == plan[0].name@);
    assert(plan[i1].name@ == plan[1].name@);
    assert(plan[i2].name@ == plan[4].name@);
    assert(plan[i3].name@ == plan[5].name@);
    assert(plan[i4].name@ == plan[8].name@);
}

/// `m` holds a mismatch for the setting `name` with these expected and actual values.
pub open spec fn reports(m: Seq<PragmaMismatch>, name: &str, expected: int, actual: int) -> bool {
    exists|i: int|
        0 <= i < m.len() && (#[trigger] m[i]).name@ == name@ && m[i].expected == expected && m[i].actual == actual
}

/// 1 when `expected` and `actual` differ, 0 otherwise.
pub open spec fn differs(expected: int, actual: int) -> int {
    if expected != actual { 1 } else { 0 }
}

/// A profile check reports exactly the settings whose value read back differs from the
/// profile: one mismatch per differing setting, holding the profile's value and the
/// value read, and none at all exactly when all five settings agree.
pub proof fn law_verify_reports_each_difference(c: DatabaseConfig, r: PragmaReadings)
    ensures
        config_mismatches(c, r).len() == 0 <==> (
            r.synchronous == c.synchronous
            && r.foreign_keys == (if c.foreign_keys { 1int } else { 0int })
            && r.cache_size == c.cache_size_pages
            && r.mmap_size == c.mmap_size_bytes
            && r.journal_size_limit == c.journal_size_limit_bytes),
        config_mismatches(c, r).len() == differs(c.synchronous as int, r.synchronous as int)
            + differs(if c.foreign_keys { 1int } else { 0int }, r.foreign_keys as int)
            + differs(c.cache_size_pages as int, r.cache_size as int)
            + differs(c.mmap_size_bytes as int, r.mmap_size as int)
            + differs(c.journal_size_limit_bytes as int, r.journal_size_limit as int),
        reports(config_mismatches(c, r), "synchronous", c.synchronous as int, r.synchronous as int)
            <==> r.synchronous != c.synchronous,
        reports(config_mismatches(c, r), "foreign_keys", if c.foreign_keys { 1int } else { 0int }, r.foreign_keys as int)
            <==> r.foreign_keys != (if c.foreign_keys { 1int } else { 0int }),
        reports(config_mismatches(c, r), "cache_size", c.cache_size_pages as int, r.cache_size as int)
            <==> r.cache_size != c.cache_size_pages,
        reports(config_mismatches(c, r), "mmap_size", c.mmap_size_bytes as int, r.mmap_size as int)
            <==> r.mmap_size != c.mmap_size_bytes,
        reports(config_mismatches(c, r), "journal_size_limit", c.journal_size_limit_bytes as int, r.journal_size_limit as int)
            <==> r.journal_size_limit != c.journal_size_limit_bytes,
{
    reveal_strlit("synchronous");
    reveal_strlit("foreign_keys");
    reveal_strlit("cache_size");
    reveal_strlit("mmap_size");
    reveal_strlit("journal_size_limit");
    let fk: int = if c.foreign_keys { 1int } else { 0int };
    let a = mismatch_if("synchronous", c.synchronous as int, r.synchronous as int);
    let b = mismatch_if("foreign_keys", fk, r.foreign_keys as int);
    let d = mismatch_if("cache_size", c.cache_size_pages as int, r.cache_size as int);
    let e = mismatch_if("mmap_size", c.mmap_size_bytes as int, r.mmap_size as int);
    let f = mismatch_if("journal_size_limit", c.journal_size_limit_bytes as int, r.journal_size_limit as int);
    let m = config_mismatches(c, r);
    assert(m == a + b + d + e + f);
    let oa = 0int;
    let ob = a.len() as int;
    let od = ob + b.len();
    let oe = od + d.len();
    let of = oe + e.len();
    assert forall|i: int| 0 <= i < m.len() implies {
        ||| (oa <= i < ob && m[i] == a[i - oa])
        ||| (ob <= i < od && m[i] == b[i - ob])
        ||| (od <= i < oe && m[i] == d[i - od])
        ||| (oe <= i < of && m[i] == e[i - oe])
        ||| (of <= i < m.len() && m[i] == f[i - of])
    } by {
    }
    if r.synchronous != c.synchronous {
        assert(m[oa].name@ == "synchronous"@);
    }
    if r.foreign_keys != fk {
        assert(m[ob].name@ == "foreign_keys"@);
    }
    if r.cache_size != c.cache_size_pages {
        assert(m[od].name@ == "cache_size"@);
    }
    if r.mmap_size != c.mmap_size_bytes {
        assert(m[oe].name@ == "mmap_size"@);
    }
    if r.journal_size_limit != c.journal_size_limit_bytes {
        assert(m[of].name@ == "journal_size_limit"@);
    }
}

/// Every statement of a profile's plan writes that profile's own value: the ten
/// settings are each named once, and the statement for each setting writes the
/// profile's field for it.
pub proof fn law_apply_plan_writes_every_field(c: DatabaseConfig)
    ensures
        database_plan(c).len() == 10,
        forall|i: int, j: int|
            0 <= i < 10 && 0 <= j < 10 && database_plan(c)[i].name@ == database_plan(c)[j].name@ ==> i == j,
        plan_writes(database_plan(c), "synchronous", c.synchronous as int),
        plan_writes(database_plan(c), "foreign_keys", if c.foreign_keys { 1int } else { 0int }),
        plan_writes(database_plan(c), "ignore_check_constraints", if c.ignore_check_constraints { 1int } else { 0int }),
        plan_writes(database_plan(c), "recursive_triggers", if c.recursive_triggers { 1int } else { 0int }),
        plan_writes(database_plan(c), "cache_size", c.cache_size_pages as int),
        plan_writes(database_plan(c), "mmap_size", c.mmap_size_bytes as int),
        plan_writes(database_plan(c), "temp_store", c.temp_store as int),
        plan_writes(database_plan(c), "locking_mode", c.locking_mode as int),
        plan_writes(database_plan(c), "journal_size_limit", c.journal_size_limit_bytes as int),
        plan_writes(database_plan(c), "wal_autocheckpoint", c.wal_autocheckpoint_pages as int),
{
    lemma_plan_names_distinct(c);
    let plan = database_plan(c);
    assert(plan[0].value.as_int() == Some(c.synchronous as int));
    assert(plan[1].value.as_int() == Some(if c.foreign_keys { 1int } else { 0int }));
    assert(plan[2].value.as_int() == Some(if c.ignore_check_constraints { 1int } else { 0int }));
    assert(plan[3].value.as_int() == Some(if c.recursive_triggers { 1int } else { 0int }));
    assert(plan[4].value.as_int() == Some(c.cache_size_pages as int));
    assert(plan[5].value.as_int() == Some(c.mmap_size_bytes as int));
    assert(plan[6].value.as_int() == Some(c.temp_store as int));
    assert(plan[7].value.as_int() == Some(c.locking_mode as int));
    assert(plan[8].value.as_int() == Some(c.journal_size_limit_bytes as int));
    assert(plan[9].value.as_int() == Some(c.wal_autocheckpoint_pages as int));
}

} // verus!
