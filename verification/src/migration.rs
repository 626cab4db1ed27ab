//! Schema migrations: the scripts, and the decisions of a migration run, which the
//! caller drives by performing each requested action and reporting how it went.

use vstd::prelude::*;

verus! {

/// The schema scripts, oldest first; a database at `user_version` n has run the first n.
pub fn migration_scripts() -> (scripts: Vec<&'static str>)
    ensures
        scripts@.len() == 4,
        scripts@[0] == "CREATE TABLE IF NOT EXISTS schema_migrations (version INTEGER PRIMARY KEY, applied_at DATETIME DEFAULT CURRENT_TIMESTAMP);",
        scripts@[1] == "CREATE TABLE users (id INTEGER PRIMARY KEY, name TEXT NOT NULL);",
        scripts@[2] == "ALTER TABLE users ADD COLUMN email TEXT UNIQUE;",
        scripts@[3] == "ALTER TABLE users ADD COLUMN age INTEGER;",
{
    let mut scripts = Vec::new();
    scripts.push("CREATE TABLE IF NOT EXISTS schema_migrations (version INTEGER PRIMARY KEY, applied_at DATETIME DEFAULT CURRENT_TIMESTAMP);");
    scripts.push("CREATE TABLE users (id INTEGER PRIMARY KEY, name TEXT NOT NULL);");
    scripts.push("ALTER TABLE users ADD COLUMN email TEXT UNIQUE;");
    scripts.push("ALTER TABLE users ADD COLUMN age INTEGER;");
    scripts
}

/// The statement that opens the migration transaction.
pub open spec fn begin_sql() -> &'static str {
    "BEGIN EXCLUSIVE;"
}

/// The statement that makes the migration permanent.
pub open spec fn commit_sql() -> &'static str {
    "COMMIT;"
}

/// The statement that abandons a failed migration.
pub open spec fn rollback_sql() -> &'static str {
    "ROLLBACK;"
}

/// The statement that turns foreign-key enforcement back on afterwards.
pub open spec fn foreign_keys_on_sql() -> &'static str {
    "PRAGMA foreign_keys = ON;"
}

/// Where a migration run stands: which action it waits on.
#[derive(Debug, Clone, Copy, PartialEq, Eq, Structural)]
pub enum MigrationPhase {
    /// Waiting for the transaction to open.
    Beginning,
    /// Waiting for the version before migrating.
    ReadingBefore,
    /// Waiting for the migrations to run.
    Migrating { before: u32 },
    /// Waiting for the version after migrating.
    ReadingAfter { before: u32 },
    /// Waiting for the history row to be written.
    Recording { before: u32, after: u32 },
    /// Waiting for the commit.
    Committing { before: u32, after: u32 },
    /// Waiting for foreign keys to be switched back on.
    EnablingForeignKeys { before: u32, after: u32 },
    /// Waiting for the rollback after the migrations failed.
    RollingBack,
    /// The run is over.
    Finished,
}

/// How a migration run ended.
#[derive(Debug, Clone, Copy, PartialEq, Eq, Structural)]
pub enum MigrationOutcome {
    /// The schema went from version `before` to version `after`.
    Migrated { before: u32, after: u32 },
    /// The migrations failed and the transaction was rolled back; the run reports the
    /// migration error.
    RolledBack,
    /// A statement of the run itself failed; the run reports that error.
    Aborted,
}

/// What the caller does next.
#[derive(Debug, Clone, Copy)]
pub enum MigrationAction {
    /// Execute this statement batch.
    Execute(&'static str),
    /// Read `PRAGMA user_version`.
    ReadVersion,
    /// Run the pending migration scripts.
    MigrateToLatest,
    /// Insert the version into `schema_migrations` (ignoring duplicates).
    RecordHistory(u32),
    /// Stop and report the outcome.
    Finish(MigrationOutcome),
}

/// How the last action went.
#[derive(Debug, Clone, Copy, PartialEq, Eq, Structural)]
pub enum MigrationEvent {
    /// The action succeeded.
    Completed,
    /// The version was read.
    VersionRead(u32),
    /// The action failed.
    Failed,
}

/// The next phase and action after `event` in `phase`.
pub open spec fn next_step(phase: MigrationPhase, event: MigrationEvent) -> (MigrationPhase, MigrationAction) {
    let abort = (MigrationPhase::Finished, MigrationAction::Finish(MigrationOutcome::Aborted));
    match phase {
        MigrationPhase::Beginning => match event {
            MigrationEvent::Failed => abort,
            _ => (MigrationPhase::ReadingBefore, MigrationAction::ReadVersion),
        },
        MigrationPhase::ReadingBefore => match event {
            MigrationEvent::VersionRead(v) => (MigrationPhase::Migrating { before: v }, MigrationAction::MigrateToLatest),
            _ => abort,
        },
        MigrationPhase::Migrating { before } => match event {
            MigrationEvent::Failed => (MigrationPhase::RollingBack, MigrationAction::Execute(rollback_sql())),
            _ => (MigrationPhase::ReadingAfter { before }, MigrationAction::ReadVersion),
        },
        MigrationPhase::ReadingAfter { before } => match event {
            MigrationEvent::VersionRead(after) => (
                MigrationPhase::Recording { before, after },
                MigrationAction::RecordHistory(after),
            ),
            _ => abort,
        },
        MigrationPhase::Recording { before, after } => match event {
            MigrationEvent::Failed => abort,
            _ => (MigrationPhase::Committing { before, after }, MigrationAction::Execute(commit_sql())),
        },
        MigrationPhase::Committing { before, after } => match event {
            MigrationEvent::Failed => abort,
            _ => (
                MigrationPhase::EnablingForeignKeys { before, after },
                MigrationAction::Execute(foreign_keys_on_sql()),
            ),
        },
        MigrationPhase::EnablingForeignKeys { before, after } => match event {
            MigrationEvent::Failed => abort,
            _ => (
                MigrationPhase::Finished,
                MigrationAction::Finish(MigrationOutcome::Migrated { before, after }),
            ),
        },
        MigrationPhase::RollingBack => match event {
            MigrationEvent::Failed => abort,
            _ => (MigrationPhase::Finished, MigrationAction::Finish(MigrationOutcome::RolledBack)),
        },
        MigrationPhase::Finished => abort,
    }
}

/// The first phase and action of a run: open an exclusive transaction.
pub fn start_migration() -> (step: (MigrationPhase, MigrationAction))
    ensures
        step == (MigrationPhase::Beginning, MigrationAction::Execute(begin_sql())),
{
    (MigrationPhase::Beginning, MigrationAction::Execute("BEGIN EXCLUSIVE;"))
}

/// The next phase and action of a run after the last action reported `event`.
///
/// A failure of the migrations themselves is rolled back; a failure of any other
/// statement ends the run at once.
pub fn migration_step(phase: MigrationPhase, event: MigrationEvent) -> (step: (MigrationPhase, MigrationAction))
    ensures
        step == next_step(phase, event),
{
    match phase {
        MigrationPhase::Beginning => match event {
            MigrationEvent::Failed => (MigrationPhase::Finished, MigrationAction::Finish(MigrationOutcome::Aborted)),
            _ => (MigrationPhase::ReadingBefore, MigrationAction::ReadVersion),
        },
        MigrationPhase::ReadingBefore => match event {
            MigrationEvent::VersionRead(v) => (MigrationPhase::Migrating { before: v }, MigrationAction::MigrateToLatest),
            _ => (MigrationPhase::Finished, MigrationAction::Finish(MigrationOutcome::Aborted)),
        },
        MigrationPhase::Migrating { before } => match event {
            MigrationEvent::Failed => (MigrationPhase::RollingBack, MigrationAction::Execute("ROLLBACK;")),
            _ => (MigrationPhase::ReadingAfter { before }, MigrationAction::ReadVersion),
        },
        MigrationPhase::ReadingAfter { before } => match event {
            MigrationEvent::VersionRead(after) => (
                MigrationPhase::Recording { before, after },
                MigrationAction::RecordHistory(after),
            ),
            _ => (MigrationPhase::Finished, MigrationAction::Finish(MigrationOutcome::Aborted)),
        },
        MigrationPhase::Recording { before, after } => match event {
            MigrationEvent::Failed => (MigrationPhase::Finished, MigrationAction::Finish(MigrationOutcome::Aborted)),
            _ => (MigrationPhase::Committing { before, after }, MigrationAction::Execute("COMMIT;")),
        },
        MigrationPhase::Committing { before, after } => match event {
            MigrationEvent::Failed => (MigrationPhase::Finished, MigrationAction::Finish(MigrationOutcome::Aborted)),
            _ => (
                MigrationPhase::EnablingForeignKeys { before, after },
                MigrationAction::Execute("PRAGMA foreign_keys = ON;"),
            ),
        },
        MigrationPhase::EnablingForeignKeys { before, after } => match event {
            MigrationEvent::Failed => (MigrationPhase::Finished, MigrationAction::Finish(MigrationOutcome::Aborted)),
            _ => (
                MigrationPhase::Finished,
                MigrationAction::Finish(MigrationOutcome::Migrated { before, after }),
            ),
        },
        MigrationPhase::RollingBack => match event {
            MigrationEvent::Failed => (MigrationPhase::Finished, MigrationAction::Finish(MigrationOutcome::Aborted)),
            _ => (MigrationPhase::Finished, MigrationAction::Finish(MigrationOutcome::RolledBack)),
        },
        MigrationPhase::Finished => (MigrationPhase::Finished, MigrationAction::Finish(MigrationOutcome::Aborted)),
    }
}


// ---------------------------------------------------------------------------
// Laws
// ---------------------------------------------------------------------------

/// The actions a run asks for, from `phase`, when its actions report `events` in turn.
pub open spec fn run_trace(phase: MigrationPhase, events: Seq<MigrationEvent>) -> Seq<MigrationAction>
    decreases events.len(),
{
    if events.len() == 0 {
        Seq::empty()
    } else {
        let (next, action) = next_step(phase, events[0]);
        seq![action] + run_trace(next, events.drop_first())
    }
}

/// How the migrations themselves went in a run from `phase`: `Some(true)` when they ran
/// and succeeded, `Some(false)` when they ran and failed, `None` when they did not run.
pub open spec fn migration_outcome(phase: MigrationPhase, events: Seq<MigrationEvent>) -> Option<bool>
    decreases events.len(),
{
    if events.len() == 0 {
        None
    } else {
        match phase {
            MigrationPhase::Migrating { .. } => Some(!(events[0] is Failed)),
            _ => migration_outcome(next_step(phase, events[0]).0, events.drop_first()),
        }
    }
}

/// Phases reached only through migrations that succeeded.
pub open spec fn after_success(phase: MigrationPhase) -> bool {
    ||| phase is ReadingAfter
    ||| phase is Recording
    ||| phase is Committing
    ||| phase is EnablingForeignKeys
}

proof fn lemma_trace_contains(a: MigrationAction, rest: Seq<MigrationAction>, x: MigrationAction)
    ensures
        (seq![a] + rest).contains(x) <==> (a == x || rest.contains(x)),
{
    let s = seq![a] + rest;
    assert(s[0] == a);
    if rest.contains(x) {
        let i = choose|i: int| 0 <= i < rest.len() && rest[i] == x;
        assert(s[i + 1] == x);
    }
    if s.contains(x) {
        let i = choose|i: int| 0 <= i < s.len() && s[i] == x;
        if i > 0 {
            assert(rest[i - 1] == x);
        }
    }
}

proof fn lemma_no_commit_after_rollback(phase: MigrationPhase, events: Seq<MigrationEvent>)
    requires
        phase is RollingBack || phase is Finished,
    ensures
        !run_trace(phase, events).contains(MigrationAction::Execute(commit_sql())),
        migration_outcome(phase, events) is None,
    decreases events.len(),
{
    if events.len() > 0 {
        let (next, action) = next_step(phase, events[0]);
        lemma_no_commit_after_rollback(next, events.drop_first());
        lemma_trace_contains(action, run_trace(next, events.drop_first()), MigrationAction::Execute(commit_sql()));
        reveal_strlit("COMMIT;");
        reveal_strlit("ROLLBACK;");
    }
}

proof fn lemma_commit_needs_success(phase: MigrationPhase, events: Seq<MigrationEvent>)
    ensures
        run_trace(phase, events).contains(MigrationAction::Execute(commit_sql())) ==> (after_success(phase)
            || migration_outcome(phase, events) == Some(true)),
    decreases events.len(),
{
    if events.len() > 0 {
        let (next, action) = next_step(phase, events[0]);
        let rest = events.drop_first();
        lemma_trace_contains(action, run_trace(next, rest), MigrationAction::Execute(commit_sql()));
        reveal_strlit("COMMIT;");
        reveal_strlit("ROLLBACK;");
        reveal_strlit("BEGIN EXCLUSIVE;");
        reveal_strlit("PRAGMA foreign_keys = ON;");
        if next is RollingBack || next is Finished {
            lemma_no_commit_after_rollback(next, rest);
        } else {
            lemma_commit_needs_success(next, rest);
        }
    }
}

/// A run commits only after the migrations ran and succeeded: whenever the actions
/// of a run include the COMMIT, the migrations reported success.
pub proof fn law_commit_only_after_success(events: Seq<MigrationEvent>)
    ensures
        run_trace(MigrationPhase::Beginning, events).contains(MigrationAction::Execute(commit_sql()))
            ==> migration_outcome(MigrationPhase::Beginning, events) == Some(true),
{
    lemma_commit_needs_success(MigrationPhase::Beginning, events);
}

/// When the migrations fail, the run's next action is the ROLLBACK, nothing it does
/// afterwards commits, and a successful rollback ends the run as rolled back.
pub proof fn law_failed_migration_rolls_back(before: u32, rest: Seq<MigrationEvent>)
    ensures
        next_step(MigrationPhase::Migrating { before }, MigrationEvent::Failed)
            == (MigrationPhase::RollingBack, MigrationAction::Execute(rollback_sql())),
        !run_trace(MigrationPhase::RollingBack, rest).contains(MigrationAction::Execute(commit_sql())),
        rest.len() > 0 && !(rest[0] is Failed) ==> run_trace(MigrationPhase::RollingBack, rest)[0]
            == MigrationAction::Finish(MigrationOutcome::RolledBack),
{
    lemma_no_commit_after_rollback(MigrationPhase::RollingBack, rest);
}

/// After the BEGIN that starts it, a run in which every action succeeds asks for the
/// version, the migrations, the version again, the history row for that version,
/// COMMIT and foreign keys back on, and then finishes as migrated between the two
/// versions read.
pub proof fn law_successful_run(before: u32, after: u32)
    ensures
        run_trace(
            MigrationPhase::Beginning,
            seq![
                MigrationEvent::Completed,
                MigrationEvent::VersionRead(before),
                MigrationEvent::Completed,
                MigrationEvent::VersionRead(after),
                MigrationEvent::Completed,
                MigrationEvent::Completed,
                MigrationEvent::Completed,
            ],
        ) == seq![
            MigrationAction::ReadVersion,
            MigrationAction::MigrateToLatest,
            MigrationAction::ReadVersion,
            MigrationAction::RecordHistory(after),
            MigrationAction::Execute(commit_sql()),
            MigrationAction::Execute(foreign_keys_on_sql()),
            MigrationAction::Finish(MigrationOutcome::Migrated { before, after }),
        ],
{
    let events = seq![
        MigrationEvent::Completed,
        MigrationEvent::VersionRead(before),
        MigrationEvent::Completed,
        MigrationEvent::VersionRead(after),
        MigrationEvent::Completed,
        MigrationEvent::Completed,
        MigrationEvent::Completed,
    ];
    reveal_with_fuel(run_trace, 8);
    assert(events.drop_first().drop_first().drop_first().drop_first().drop_first().drop_first().drop_first().len() == 0);
    assert(run_trace(MigrationPhase::Beginning, events) =~= seq![
        MigrationAction::ReadVersion,
        MigrationAction::MigrateToLatest,
        MigrationAction::ReadVersion,
        MigrationAction::RecordHistory(after),
        MigrationAction::Execute(commit_sql()),
        MigrationAction::Execute(foreign_keys_on_sql()),
        MigrationAction::Finish(MigrationOutcome::Migrated { before, after }),
    ]);
}

/// How many actions a run from `phase` still asks for before it can finish as
/// migrated; -1 when it cannot finish as migrated any more.
pub open spec fn steps_to_migrated(phase: MigrationPhase) -> int {
    match phase {
        MigrationPhase::Beginning => 6,
        MigrationPhase::ReadingBefore => 5,
        MigrationPhase::Migrating { .. } => 4,
        MigrationPhase::ReadingAfter { .. } => 3,
        MigrationPhase::Recording { .. } => 2,
        MigrationPhase::Committing { .. } => 1,
        MigrationPhase::EnablingForeignKeys { .. } => 0,
        MigrationPhase::RollingBack => -1,
        MigrationPhase::Finished => -1,
    }
}

/// The versions a run from `phase` has read, or reads next in `events`, are `before`
/// and `after`.
pub open spec fn reads_versions(phase: MigrationPhase, events: Seq<MigrationEvent>, before: u32, after: u32) -> bool {
    match phase {
        MigrationPhase::Beginning => events[1] == MigrationEvent::VersionRead(before)
            && events[3] == MigrationEvent::VersionRead(after),
        MigrationPhase::ReadingBefore => events[0] == MigrationEvent::VersionRead(before)
            && events[2] == MigrationEvent::VersionRead(after),
        MigrationPhase::Migrating { before: b } => b == before && events[1] == MigrationEvent::VersionRead(after),
        MigrationPhase::ReadingAfter { before: b } => b == before && events[0] == MigrationEvent::VersionRead(after),
        MigrationPhase::Recording { before: b, after: a } => b == before && a == after,
        MigrationPhase::Committing { before: b, after: a } => b == before && a == after,
        MigrationPhase::EnablingForeignKeys { before: b, after: a } => b == before && a == after,
        _ => false,
    }
}

proof fn lemma_trace_len(phase: MigrationPhase, events: Seq<MigrationEvent>)
    ensures
        run_trace(phase, events).len() == events.len(),
    decreases events.len(),
{
    if events.len() > 0 {
        lemma_trace_len(next_step(phase, events[0]).0, events.drop_first());
    }
}

proof fn lemma_migrated_path(phase: MigrationPhase, events: Seq<MigrationEvent>, i: int, before: u32, after: u32)
    requires
        0 <= i < events.len(),
        run_trace(phase, events)[i] == MigrationAction::Finish(MigrationOutcome::Migrated { before, after }),
    ensures
        i == steps_to_migrated(phase),
        forall|j: int| 0 <= j <= i ==> !(#[trigger] events[j] is Failed),
        i >= 2 ==> run_trace(phase, events)[i - 2] == MigrationAction::Execute(commit_sql()),
        reads_versions(phase, events, before, after),
    decreases events.len(),
{
    let (next, action) = next_step(phase, events[0]);
    let rest = events.drop_first();
    lemma_trace_len(next, rest);
    assert(run_trace(phase, events) == seq![action] + run_trace(next, rest));
    if i > 0 {
        assert(run_trace(phase, events)[i] == run_trace(next, rest)[i - 1]);
        lemma_migrated_path(next, rest, i - 1, before, after);
        assert forall|j: int| 0 < j <= i implies !(#[trigger] events[j] is Failed) by {
            assert(events[j] == rest[j - 1]);
        }
        if i >= 3 {
            assert(run_trace(phase, events)[i - 2] == run_trace(next, rest)[i - 3]);
        }
        assert(forall|j: int| 0 <= j < rest.len() ==> rest[j] == events[j + 1]);
    }
}

/// A run finishes as migrated only when everything it did succeeded: the migrated
/// outcome is its seventh action, the COMMIT (its fifth action) and every other action
/// before it succeeded, and the versions it reports are the two it read.
pub proof fn law_migrated_only_after_commit(events: Seq<MigrationEvent>, i: int, before: u32, after: u32)
    requires
        0 <= i < events.len(),
        run_trace(MigrationPhase::Beginning, events)[i] == MigrationAction::Finish(
            MigrationOutcome::Migrated { before, after },
        ),
    ensures
        i == 6,
        run_trace(MigrationPhase::Beginning, events)[4] == MigrationAction::Execute(commit_sql()),
        !(events[5] is Failed),
        forall|j: int| 0 <= j <= 6 ==> !(#[trigger] events[j] is Failed),
        events[1] == MigrationEvent::VersionRead(before),
        events[3] == MigrationEvent::VersionRead(after),
{
    lemma_migrated_path(MigrationPhase::Beginning, events, i, before, after);
}

/// A failed COMMIT ends the run at once as aborted, whatever versions it read.
pub proof fn law_failed_commit_aborts(before: u32, after: u32)
    ensures
        next_step(MigrationPhase::Committing { before, after }, MigrationEvent::Failed)
            == (MigrationPhase::Finished, MigrationAction::Finish(MigrationOutcome::Aborted)),
{
}

} // verus!
