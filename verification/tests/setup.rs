use sqlite_handbook::pool::{active_connections, PoolConfig, SqliteConnectionManager};
use sqlite_handbook::pragma::PragmaValue;
use sqlite_handbook::records::{UserMetadata, UserMetadataOptimized, UserSettings};
use sqlite_handbook::seed::{graph_edges, org_rows, sale_labels};
use sqlite_handbook::sql_text::{
    age_column_statement, count_distinct_sql, count_rows_sql, explain_sql, plan_indent, table_exists_from_count,
    table_info_sql,
};
use sqlite_handbook::time_column::UtcDateTime;

#[test]
fn managers() {
    assert_eq!(SqliteConnectionManager::file("data/app.db").db_path(), "data/app.db");
    assert_eq!(SqliteConnectionManager::memory().db_path(), ":memory:");
    let m = SqliteConnectionManager::memory();
    assert!(!m.has_broken());
    let plan = m.connect_plan();
    let names: Vec<&str> = plan.iter().map(|u| u.name).collect();
    assert_eq!(names, vec!["journal_mode", "synchronous", "cache_size"]);
    assert!(matches!(&plan[0].value, PragmaValue::Text(s) if s == "WAL"));
    assert!(matches!(&plan[1].value, PragmaValue::Text(s) if s == "NORMAL"));
    assert!(matches!(plan[2].value, PragmaValue::Integer(2000)));
}

#[test]
fn pool_presets() {
    let d = PoolConfig::default();
    assert_eq!((d.max_size, d.min_idle, d.connection_timeout_secs, d.idle_timeout_secs, d.max_lifetime_secs), (10, 2, 5, 300, 1800));
    let r = PoolConfig::read_heavy();
    assert_eq!((r.max_size, r.min_idle, r.connection_timeout_secs, r.idle_timeout_secs, r.max_lifetime_secs), (20, 4, 3, 600, 3600));
    let w = PoolConfig::write_heavy();
    assert_eq!((w.max_size, w.min_idle, w.connection_timeout_secs, w.idle_timeout_secs, w.max_lifetime_secs), (5, 1, 5, 120, 1800));
    assert_eq!(active_connections(7, 3), 4);
    assert_eq!(active_connections(3, 3), 0);
}

#[test]
fn seed_rows() {
    let rows = org_rows();
    assert_eq!(rows.len(), 6);
    assert_eq!(rows[0], (1, "Alice", None));
    assert_eq!(rows[5], (6, "Frank", Some(3)));
    for (i, r) in rows.iter().enumerate() {
        if let Some(m) = r.2 {
            assert!(rows[..i].iter().any(|e| e.0 == m));
        }
    }
    assert_eq!(graph_edges(), vec![("A", "B"), ("A", "C"), ("B", "D"), ("C", "D"), ("B", "C")]);
    assert_eq!(sale_labels(0), ("A", "North"));
    assert_eq!(sale_labels(5), ("C", "South"));
    assert_eq!(sale_labels(11), ("C", "West"));
}

#[test]
fn sql_text() {
    assert_eq!(explain_sql("SELECT 1"), "EXPLAIN QUERY PLAN SELECT 1");
    assert_eq!(plan_indent(0), "");
    assert_eq!(plan_indent(3), "  ");
    assert_eq!(table_info_sql("users"), "PRAGMA table_info(users)");
    assert_eq!(count_rows_sql("users"), "SELECT COUNT(*) FROM users");
    assert_eq!(count_distinct_sql("city", "users"), "SELECT COUNT(DISTINCT city) FROM users");
    assert!(table_exists_from_count(1));
    assert!(!table_exists_from_count(0));
    assert_eq!(age_column_statement(true), None);
    assert_eq!(age_column_statement(false), Some("ALTER TABLE users ADD COLUMN age INTEGER DEFAULT 0"));
}

#[test]
fn cached_metadata() {
    let data = UserMetadata {
        user_id: 1,
        name: "Alice".to_string(),
        tags: vec!["rust".to_string(), "sqlite".to_string()],
        settings: UserSettings { theme: "dark".to_string(), notifications: true, language: "en".to_string() },
        created_at: UtcDateTime::new(1_700_000_000, 0).unwrap(),
    };
    let fresh = UserMetadataOptimized::from_data(data.clone());
    assert!(fresh.cached_json.is_none());
    assert!(fresh.cached_bytes().is_none());
    let cached = UserMetadataOptimized { data, cached_json: Some(b"{}".to_vec()) };
    assert_eq!(cached.cached_bytes(), Some(&b"{}"[..]));
}
