use sqlite_handbook::migration::{
    migration_scripts, migration_step, start_migration, MigrationAction, MigrationEvent, MigrationOutcome,
    MigrationPhase,
};
use sqlite_handbook::migration::MigrationEvent::{Completed, Failed, VersionRead};

/// Drives a run, answering each action from `answers` in turn.
fn drive(answers: &[MigrationEvent]) -> Vec<String> {
    let (mut phase, mut action) = start_migration();
    let mut trace = vec![format!("{:?}", action)];
    for e in answers.iter() {
        if let MigrationAction::Finish(_) = action {
            break;
        }
        let (p, a) = migration_step(phase, *e);
        phase = p;
        action = a;
        trace.push(format!("{:?}", action));
    }
    trace
}

#[test]
fn scripts_in_order() {
    let s = migration_scripts();
    assert_eq!(s.len(), 4);
    assert!(s[0].starts_with("CREATE TABLE IF NOT EXISTS schema_migrations"));
    assert_eq!(s[1], "CREATE TABLE users (id INTEGER PRIMARY KEY, name TEXT NOT NULL);");
    assert_eq!(s[2], "ALTER TABLE users ADD COLUMN email TEXT UNIQUE;");
    assert_eq!(s[3], "ALTER TABLE users ADD COLUMN age INTEGER;");
}

#[test]
fn successful_run() {
    let t = drive(&[Completed, VersionRead(1), Completed, VersionRead(4), Completed, Completed, Completed]);
    assert_eq!(
        t,
        vec![
            "Execute(\"BEGIN EXCLUSIVE;\")",
            "ReadVersion",
            "MigrateToLatest",
            "ReadVersion",
            "RecordHistory(4)",
            "Execute(\"COMMIT;\")",
            "Execute(\"PRAGMA foreign_keys = ON;\")",
            "Finish(Migrated { before: 1, after: 4 })",
        ]
    );
}

#[test]
fn failed_migration_rolls_back() {
    let t = drive(&[Completed, VersionRead(2), Failed, Completed]);
    assert_eq!(
        t,
        vec![
            "Execute(\"BEGIN EXCLUSIVE;\")",
            "ReadVersion",
            "MigrateToLatest",
            "Execute(\"ROLLBACK;\")",
            "Finish(RolledBack)",
        ]
    );
    assert!(!t.iter().any(|a| a.contains("COMMIT")));
}

#[test]
fn failing_statements_abort_without_rollback() {
    assert_eq!(drive(&[Failed]), vec!["Execute(\"BEGIN EXCLUSIVE;\")", "Finish(Aborted)"]);
    assert_eq!(drive(&[Completed, Failed]).last().unwrap(), "Finish(Aborted)");
    let t = drive(&[Completed, VersionRead(0), Completed, VersionRead(4), Failed]);
    assert_eq!(t.last().unwrap(), "Finish(Aborted)");
    assert!(!t.iter().any(|a| a.contains("COMMIT") || a.contains("ROLLBACK")));
    let t = drive(&[Completed, VersionRead(0), Failed, Failed]);
    assert_eq!(t.last().unwrap(), "Finish(Aborted)");
}

#[test]
fn finished_runs_stay_finished() {
    let (p, a) = migration_step(MigrationPhase::Finished, MigrationEvent::Completed);
    assert_eq!(p, MigrationPhase::Finished);
    assert!(matches!(a, MigrationAction::Finish(MigrationOutcome::Aborted)));
}
