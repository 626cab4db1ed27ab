use sqlite_handbook::pragma::{
    journal_limit_megabytes, journal_mode_is_wal, switch_label, synchronous_label, temp_store_label,
    PragmaUpdate, PragmaValue,
};
use sqlite_handbook::tuning::{DatabaseConfig, PerformanceConfig, PragmaReadings, SafetyConfig, WalConfig};

fn int_of(u: &PragmaUpdate) -> i64 {
    match u.value {
        PragmaValue::Integer(i) => i,
        _ => panic!("not an integer setting"),
    }
}

#[test]
fn production_general_for_two_gigabytes() {
    let c = DatabaseConfig::production_general(2048);
    // 15% of 2048 MiB = 307 MiB (integer percent), 307 MiB / 4 KiB pages = 78592
    assert_eq!(c.cache_size_pages, 78592);
    assert_eq!(c.synchronous, 1);
    assert!(c.foreign_keys);
    assert!(!c.ignore_check_constraints);
    assert!(!c.recursive_triggers);
    assert_eq!(c.mmap_size_bytes, 64 * 1024 * 1024);
    assert_eq!(c.temp_store, 2);
    assert_eq!(c.locking_mode, 0);
    assert_eq!(c.journal_size_limit_bytes, 64 * 1024 * 1024);
    assert_eq!(c.wal_autocheckpoint_pages, 1000);
}

#[test]
fn profiles_clamp_their_cache() {
    assert_eq!(DatabaseConfig::production_general(0).cache_size_pages, 2000);
    assert_eq!(DatabaseConfig::production_general(100_000).cache_size_pages, 500000);
    assert_eq!(DatabaseConfig::read_heavy(4096).cache_size_pages, 262144);
    assert_eq!(DatabaseConfig::write_heavy(1024).cache_size_pages, 26112);
    assert_eq!(DatabaseConfig::write_heavy(1).cache_size_pages, 1000);
    assert_eq!(DatabaseConfig::single_user(1).cache_size_pages, 2000);
    assert_eq!(DatabaseConfig::single_user(1_000_000).cache_size_pages, 200000);
    assert_eq!(DatabaseConfig::memory_limited(256).cache_size_pages, 3072);
    assert_eq!(DatabaseConfig::memory_limited(10).cache_size_pages, 500);
    assert_eq!(DatabaseConfig::memory_limited(100_000).cache_size_pages, 20000);
}

#[test]
fn profile_specific_settings() {
    let r = DatabaseConfig::read_heavy(4096);
    assert_eq!(r.mmap_size_bytes, 256 * 1024 * 1024);
    assert_eq!(r.journal_size_limit_bytes, 128 * 1024 * 1024);
    assert_eq!(r.wal_autocheckpoint_pages, 2000);
    let w = DatabaseConfig::write_heavy(1024);
    assert_eq!(w.mmap_size_bytes, 0);
    assert_eq!(w.journal_size_limit_bytes, 32 * 1024 * 1024);
    assert_eq!(w.wal_autocheckpoint_pages, 500);
    let s = DatabaseConfig::single_user(512);
    assert_eq!(s.locking_mode, 1);
    let m = DatabaseConfig::memory_limited(256);
    assert_eq!(m.temp_store, 1);
    assert_eq!(m.mmap_size_bytes, 0);
    assert_eq!(m.journal_size_limit_bytes, 16 * 1024 * 1024);
}

#[test]
fn workload_profiles_are_ordered_on_sample_memory() {
    for mem in [0u64, 1, 100, 1024, 2048, 4096, 65536, 1_000_000] {
        let r = DatabaseConfig::read_heavy(mem);
        let g = DatabaseConfig::production_general(mem);
        let w = DatabaseConfig::write_heavy(mem);
        assert!(r.cache_size_pages >= g.cache_size_pages && g.cache_size_pages >= w.cache_size_pages);
        assert!(r.mmap_size_bytes >= g.mmap_size_bytes && g.mmap_size_bytes >= w.mmap_size_bytes);
        assert!(r.wal_autocheckpoint_pages >= g.wal_autocheckpoint_pages);
        assert!(g.wal_autocheckpoint_pages >= w.wal_autocheckpoint_pages);
        assert!(r.journal_size_limit_bytes >= g.journal_size_limit_bytes);
        assert!(g.journal_size_limit_bytes >= w.journal_size_limit_bytes);
    }
}

#[test]
fn cache_grows_with_memory_on_samples() {
    let mut last = 0;
    for mem in [0u64, 10, 100, 1000, 10_000, 100_000] {
        let c = DatabaseConfig::production_general(mem).cache_size_pages;
        assert!(c >= last);
        last = c;
    }
}

#[test]
fn performance_presets() {
    let d = PerformanceConfig::default();
    assert_eq!(d.cache_size_pages, 2000);
    assert_eq!(d.mmap_size_bytes, 64 * 1024 * 1024);
    assert_eq!(d.temp_store, 2);
    let r = PerformanceConfig::for_read_heavy(2048);
    // 20% of 2048 = 409 MiB = 104704 pages
    assert_eq!(r.cache_size_pages, 104704);
    assert_eq!(r.mmap_size_bytes, 256 * 1024 * 1024);
    assert_eq!(PerformanceConfig::for_read_heavy(100_000).cache_size_pages, 500000);
    let w = PerformanceConfig::for_write_heavy(2048);
    // 10% of 2048 = 204 MiB = 52224 pages
    assert_eq!(w.cache_size_pages, 52224);
    assert_eq!(w.mmap_size_bytes, 0);
    assert_eq!(PerformanceConfig::for_write_heavy(100_000).cache_size_pages, 200000);
    assert!(r.cache_size_pages >= w.cache_size_pages);
}

#[test]
fn performance_plan() {
    let p = PerformanceConfig::for_write_heavy(2048).pragma_plan();
    let names: Vec<&str> = p.iter().map(|u| u.name).collect();
    assert_eq!(names, vec!["cache_size", "mmap_size", "temp_store"]);
    assert_eq!(int_of(&p[0]), 52224);
    assert_eq!(int_of(&p[1]), 0);
    assert_eq!(int_of(&p[2]), 2);
}

#[test]
fn safety_plan() {
    let plan = SafetyConfig::default().pragma_plan();
    let names: Vec<&str> = plan.iter().map(|u| u.name).collect();
    assert_eq!(names, vec!["synchronous", "foreign_keys", "ignore_check_constraints", "recursive_triggers"]);
    assert_eq!(int_of(&plan[0]), 1);
    assert!(matches!(plan[1].value, PragmaValue::Flag(true)));
    assert!(matches!(plan[2].value, PragmaValue::Flag(false)));
    assert!(matches!(plan[3].value, PragmaValue::Flag(false)));
}

#[test]
fn database_plan_has_ten_statements_in_order() {
    let c = DatabaseConfig::single_user(1024);
    let plan = c.apply_plan();
    let names: Vec<&str> = plan.iter().map(|u| u.name).collect();
    assert_eq!(
        names,
        vec![
            "synchronous",
            "foreign_keys",
            "ignore_check_constraints",
            "recursive_triggers",
            "cache_size",
            "mmap_size",
            "temp_store",
            "locking_mode",
            "journal_size_limit",
            "wal_autocheckpoint"
        ]
    );
    assert_eq!(int_of(&plan[4]), c.cache_size_pages as i64);
    assert_eq!(int_of(&plan[7]), 1);
}

#[test]
fn verify_accepts_what_was_applied() {
    let c = DatabaseConfig::read_heavy(4096);
    let r = PragmaReadings {
        synchronous: 1,
        foreign_keys: 1,
        cache_size: c.cache_size_pages,
        mmap_size: c.mmap_size_bytes,
        journal_size_limit: c.journal_size_limit_bytes,
    };
    assert!(c.verify(&r).is_empty());
}

#[test]
fn verify_reports_each_mismatch_in_order() {
    let c = DatabaseConfig::production_general(2048);
    let r = PragmaReadings {
        synchronous: 2,
        foreign_keys: 0,
        cache_size: c.cache_size_pages,
        mmap_size: 0,
        journal_size_limit: c.journal_size_limit_bytes,
    };
    let m = c.verify(&r);
    assert_eq!(m.len(), 3);
    assert_eq!((m[0].name, m[0].expected, m[0].actual), ("synchronous", 1, 2));
    assert_eq!((m[1].name, m[1].expected, m[1].actual), ("foreign_keys", 1, 0));
    assert_eq!((m[2].name, m[2].expected, m[2].actual), ("mmap_size", 64 * 1024 * 1024, 0));
}

#[test]
fn wal_settings() {
    let w = WalConfig::default();
    assert_eq!(w.autocheckpoint_pages, 1000);
    assert_eq!(w.journal_size_limit_mb, 64);
    assert_eq!(w.synchronous, "NORMAL");
    assert_eq!(w.cache_size_pages, 2000);
    let plan = w.settings_plan();
    let names: Vec<&str> = plan.iter().map(|u| u.name).collect();
    assert_eq!(names, vec!["wal_autocheckpoint", "journal_size_limit", "synchronous", "cache_size"]);
    assert_eq!(int_of(&plan[1]), 64 * 1024 * 1024);
    match &plan[2].value {
        PragmaValue::Text(s) => assert_eq!(s, "NORMAL"),
        _ => panic!("synchronous is a keyword"),
    }
}

#[test]
fn labels() {
    assert_eq!(synchronous_label(0), "OFF");
    assert_eq!(synchronous_label(1), "NORMAL");
    assert_eq!(synchronous_label(2), "FULL");
    assert_eq!(synchronous_label(3), "UNKNOWN");
    assert_eq!(temp_store_label(0), "DEFAULT");
    assert_eq!(temp_store_label(1), "FILE");
    assert_eq!(temp_store_label(2), "MEMORY");
    assert_eq!(temp_store_label(-1), "UNKNOWN");
    assert_eq!(switch_label(1), "ON");
    assert_eq!(switch_label(0), "OFF");
    assert_eq!(switch_label(5), "OFF");
    assert_eq!(journal_limit_megabytes(-1), None);
    assert_eq!(journal_limit_megabytes(i64::MIN), None);
    assert_eq!(journal_limit_megabytes(0), Some(0));
    assert_eq!(journal_limit_megabytes(64 * 1024 * 1024), Some(64));
    assert_eq!(journal_limit_megabytes(1000), Some(0));
}

#[test]
fn wal_mode_check() {
    assert!(journal_mode_is_wal("wal"));
    assert!(!journal_mode_is_wal("WAL"));
    assert!(!journal_mode_is_wal("delete"));
    assert!(!journal_mode_is_wal(""));
}
