//! Runs over rollouts, and what becomes of each.

use rollout_migration::error::ThreadId;
use rollout_migration::error::ThreadStoreError;
use rollout_migration::finish::FinishPublished;
use rollout_migration::finish::FinishStage;
use rollout_migration::finish::PromoteName;
use rollout_migration::inspection::ReadErrorKind;
use rollout_migration::inspection::RolloutInspection;
use rollout_migration::inspection::RolloutInspectionDepth;
use rollout_migration::inspection::RolloutValidationFailure;
use rollout_migration::migrate_one::MigrateOne;
use rollout_migration::migrate_one::MigrateStep;
use rollout_migration::migrate_one::RolloutMigrationKind;
use rollout_migration::migrate_path::migration_kind;
use rollout_migration::migrate_path::MigratePath;
use rollout_migration::migrate_path::PathAction;
use rollout_migration::migrate_path::PathReply;
use rollout_migration::migrate_path::PathStep;
use rollout_migration::migration_run::thread_ids_of;
use rollout_migration::migration_run::PassAction;
use rollout_migration::migration_run::PassReply;
use rollout_migration::migration_run::PassStep;
use rollout_migration::migration_run::RetirementPass;
use rollout_migration::migration_run::RolloutMigrationPaths;
use rollout_migration::migration_run::RunAction;
use rollout_migration::migration_run::RunMigration;
use rollout_migration::migration_run::RunReply;
use rollout_migration::migration_run::RunStep;
use rollout_migration::operations::ConversionKind;
use rollout_migration::operations::PublishedMigration;
use rollout_migration::operations::Step;
use rollout_migration::operations::StoreAction;
use rollout_migration::operations::StoreReply;
use rollout_migration::operations::ThreadRow;
use rollout_migration::paths::migration_journal_path;
use rollout_migration::paths::preserved_legacy_rollout_path;
use rollout_migration::paths::retained_migration_recovery_path;
use rollout_migration::paths::RolloutPath;
use rollout_migration::recover::CleanUpUnpublished;
use rollout_migration::recover::RecoverPublished;
use rollout_migration::recovery::MigrationRecoveryHandle;
use rollout_migration::recovery::PreservedSourceFingerprint;
use rollout_migration::refusals::DiskProblem;
use rollout_migration::report::PreservedSourceRetirementStatus;
use rollout_migration::report::RolloutMigrationFailure;
use rollout_migration::report::RolloutMigrationFailureReason;
use rollout_migration::report::RolloutMigrationMode;
use rollout_migration::report::RolloutMigrationOptions;
use rollout_migration::report::RolloutMigrationOutcome;
use rollout_migration::report::RolloutMigrationStatus;
use rollout_migration::retire_thread::RetireAction;
use rollout_migration::retire_thread::RetireReply;
use rollout_migration::retire_thread::RetireStep;
use rollout_migration::retire_thread::RetireThread;
use rollout_migration::rollout::SessionMeta;
use rollout_migration::rollout::SessionSource;
use rollout_migration::rollout::ThreadHistoryMode;
use rollout_migration::rollout::ThreadSource;
use rollout_migration::validation::Check;
use rollout_migration::validation::CheckAction;
use rollout_migration::validation::CheckReply;
use rollout_migration::validation::RolloutRoots;
use rollout_migration::validation::ValidateRecovery;

fn path(text: &str) -> RolloutPath {
    RolloutPath::new(text.to_owned())
}

fn id(value: u128) -> ThreadId {
    ThreadId::from_u128(value)
}

fn rollout(value: u128) -> RolloutPath {
    path(&format!("/home/sessions/rollout-2025-{}.jsonl", id(value).to_text()))
}

fn meta(mode: ThreadHistoryMode) -> SessionMeta {
    SessionMeta {
        id: id(1),
        history_mode: mode,
        history_base: None,
        subagent_history_start_ordinal: None,
        source: SessionSource::Other { label: "cli".to_owned() },
        thread_source: None,
        payload: "{}".to_owned(),
    }
}

fn inspected(mode: ThreadHistoryMode) -> PathReply {
    PathReply::Inspected(Ok(RolloutInspection { metadata: meta(mode), bytes_processed: 10 }))
}

fn unreadable(kind: Option<ReadErrorKind>) -> PathReply {
    PathReply::Inspected(Err(RolloutValidationFailure {
        failure: RolloutMigrationFailure::new(
            RolloutMigrationFailureReason::RolloutReadFailed,
            ThreadStoreError::Internal { message: "cannot read".to_owned() },
        ),
        bytes_processed: 3,
        read_error_kind: kind,
    }))
}

fn options(mode: RolloutMigrationMode) -> RolloutMigrationOptions {
    RolloutMigrationOptions { mode, thread_ids: Vec::new(), max_mib_per_second: None }
}

/// Handles one rollout with the given replies, and gives the actions and the outcome.
fn handle(
    mode: RolloutMigrationMode,
    selected: Vec<ThreadId>,
    replies: Vec<PathReply>,
) -> (Vec<PathAction>, Result<Option<RolloutMigrationOutcome>, ThreadStoreError>) {
    let mut step = MigratePath::new(mode, selected, rollout(1)).begin();
    let mut actions = Vec::new();
    let mut replies = replies.into_iter();
    loop {
        match step {
            PathStep::Ask(machine, action) => {
                actions.push(action);
                step = machine.advance(replies.next().expect("a reply is missing"));
            }
            PathStep::End(result) => {
                assert!(replies.next().is_none(), "a reply is left");
                let outcome = result
                    .map(|verdict| verdict.map(|verdict| verdict.to_outcome(77)))
                    .map_err(|problem| problem.to_error());
                return (actions, outcome);
            }
        }
    }
}

fn outcome(
    mode: RolloutMigrationMode,
    replies: Vec<PathReply>,
) -> (Vec<PathAction>, RolloutMigrationOutcome) {
    let (actions, result) = handle(mode, Vec::new(), replies);
    (actions, result.expect("no error").expect("an outcome"))
}

const APPLY: RolloutMigrationMode = RolloutMigrationMode::Apply;
const DRY: RolloutMigrationMode = RolloutMigrationMode::DryRun;

#[test]
fn dry_runs_report_legacy_rollouts_as_eligible() {
    let (actions, outcome) = outcome(DRY, vec![
        inspected(ThreadHistoryMode::Legacy),
        PathReply::Done,
    ]);
    assert_eq!(outcome.status, RolloutMigrationStatus::Eligible);
    assert_eq!(outcome.bytes_processed, 77);
    assert_eq!(outcome.thread_id, Some(id(1)));
    assert_eq!(actions.len(), 2);
    assert!(matches!(
        &actions[0],
        PathAction::Inspect { depth: RolloutInspectionDepth::FullLegacy, .. }
    ));
    assert_eq!(actions[1], PathAction::Account { bytes: 10 });
}

fn legacy_up_to_migration() -> Vec<PathReply> {
    vec![
        inspected(ThreadHistoryMode::Legacy),
        PathReply::Done,
        PathReply::Done,
        PathReply::Answer(true),
        inspected(ThreadHistoryMode::Legacy),
        PathReply::Done,
    ]
}

#[test]
fn legacy_rollouts_are_migrated_under_their_lock() {
    let mut replies = legacy_up_to_migration();
    replies.push(PathReply::Migrated(Ok(PublishedMigration {
        rollout_path: rollout(1),
        preserved_source_path: path("/kept"),
    })));
    let (actions, outcome) = outcome(APPLY, replies);
    assert_eq!(outcome.status, RolloutMigrationStatus::Migrated);
    assert_eq!(outcome.preserved_source_path, Some(path("/kept")));
    assert_eq!(actions[2], PathAction::Lock { thread_id: id(1), live: true });
    assert!(matches!(
        &actions[6],
        PathAction::MigrateOne { kind: RolloutMigrationKind::Ordinary, .. }
    ));
}

#[test]
fn failed_migrations_are_cleaned_up() {
    let failure = |error| {
        PathReply::Migrated(Err(RolloutMigrationFailure::new(
            RolloutMigrationFailureReason::SqliteMaterializationFailed,
            error,
        )))
    };
    let internal = || ThreadStoreError::Internal { message: "index".to_owned() };
    let mut replies = legacy_up_to_migration();
    replies.extend([failure(internal()), PathReply::Done, PathReply::Found(None)]);
    let (actions, failed) = outcome(APPLY, replies);
    assert_eq!(failed.status, RolloutMigrationStatus::Failed);
    assert_eq!(
        failed.failure_reason,
        Some(RolloutMigrationFailureReason::SqliteMaterializationFailed)
    );
    assert!(matches!(
        &actions[7],
        PathAction::CleanUp { projection_was_replaced: true, .. }
    ));

    let mut replies = legacy_up_to_migration();
    replies.extend([
        failure(ThreadStoreError::Conflict { message: "busy".to_owned() }),
        PathReply::Done,
        PathReply::Found(None),
    ]);
    let (_, busy) = outcome(APPLY, replies);
    assert_eq!(busy.status, RolloutMigrationStatus::SkippedBusy);
    assert_eq!(busy.message.as_deref(), Some("busy"));

    let mut replies = legacy_up_to_migration();
    replies.extend([
        failure(internal()),
        PathReply::Rejected(ThreadStoreError::Internal { message: "disk".to_owned() }),
        PathReply::Found(Some(path("/kept"))),
    ]);
    let (_, both) = outcome(APPLY, replies);
    assert_eq!(
        both.message.as_deref(),
        Some("thread-store internal error: rollout migration failed: thread-store internal error: index; failed to clean up unpublished migration: thread-store internal error: disk")
    );
    assert_eq!(both.preserved_source_path, Some(path("/kept")));
}

#[test]
fn migrated_rollouts_are_left_as_they_are() {
    let (_, plain) = outcome(APPLY, vec![inspected(ThreadHistoryMode::Paginated), PathReply::Done]);
    assert_eq!(plain.status, RolloutMigrationStatus::AlreadyPaginated);
    let (actions, migrated) = outcome(APPLY, vec![
        inspected(ThreadHistoryMode::PaginatedRefsV1),
        PathReply::Done,
        PathReply::Answer(false),
        PathReply::Answer(false),
        PathReply::Done,
        PathReply::Found(Some(path("/kept"))),
    ]);
    assert_eq!(migrated.status, RolloutMigrationStatus::AlreadyPaginated);
    assert_eq!(migrated.preserved_source_path, Some(path("/kept")));
    assert!(!actions.iter().any(|action| matches!(action, PathAction::MigrateOne { .. })));
}

#[test]
fn changed_sources_of_migrated_rollouts_are_conflicts() {
    let (_, conflict) = outcome(APPLY, vec![
        inspected(ThreadHistoryMode::PaginatedRefsV1),
        PathReply::Done,
        PathReply::Answer(false),
        PathReply::Answer(true),
        PathReply::Done,
        PathReply::Rejected(ThreadStoreError::Conflict { message: "diverged".to_owned() }),
    ]);
    assert_eq!(
        conflict.failure_reason,
        Some(RolloutMigrationFailureReason::RecoveryStateConflict)
    );
    assert_eq!(conflict.message.as_deref(), Some("diverged"));
}

#[test]
fn pending_publications_are_recovered() {
    let recovery = MigrationRecoveryHandle::new(rollout(1), path("/kept"));
    let (actions, outcome) = outcome(APPLY, vec![
        inspected(ThreadHistoryMode::PaginatedRefsV1),
        PathReply::Done,
        PathReply::Answer(true),
        PathReply::Answer(false),
        PathReply::Journal(Some(recovery)),
        PathReply::Done,
        PathReply::Recovered(Ok(rollout(1))),
        PathReply::Done,
    ]);
    assert_eq!(outcome.status, RolloutMigrationStatus::Migrated);
    assert_eq!(outcome.preserved_source_path, Some(path("/kept")));
    assert_eq!(actions[6], PathAction::Recover { thread_id: id(1), path: rollout(1) });
}

#[test]
fn blank_pending_journals_are_recovered() {
    let (actions, outcome) = outcome(APPLY, vec![
        inspected(ThreadHistoryMode::PaginatedRefsV1),
        PathReply::Done,
        PathReply::Answer(true),
        PathReply::Answer(true),
        PathReply::Done,
        PathReply::Done,
        PathReply::Done,
        PathReply::Journal(None),
        PathReply::Done,
        PathReply::Recovered(Ok(rollout(1))),
        PathReply::Done,
        PathReply::Found(Some(path("/kept"))),
    ]);
    assert_eq!(outcome.status, RolloutMigrationStatus::Migrated);
    assert_eq!(outcome.preserved_source_path, Some(path("/kept")));
    assert_eq!(actions.len(), 12);
    assert!(!actions.iter().any(|action| matches!(
        action,
        PathAction::MigrateOne { .. } | PathAction::CleanUp { .. }
    )));
}

#[test]
fn failed_recoveries_say_that_the_migration_was_interrupted() {
    let replies = |error| {
        vec![
            inspected(ThreadHistoryMode::PaginatedRefsV1),
            PathReply::Done,
            PathReply::Answer(true),
            PathReply::Answer(false),
            PathReply::Journal(None),
            PathReply::Done,
            PathReply::Recovered(Err(error)),
        ]
    };
    let mut internal = replies(ThreadStoreError::Internal { message: "disk".to_owned() });
    internal.extend([PathReply::Done, PathReply::Found(None)]);
    let (_, failed) = outcome(APPLY, internal);
    assert_eq!(failed.status, RolloutMigrationStatus::Failed);
    assert_eq!(
        failed.failure_reason,
        Some(RolloutMigrationFailureReason::InterruptedMigrationRecoveryFailed)
    );
    let (_, conflict) = outcome(
        APPLY,
        replies(ThreadStoreError::Conflict { message: "outside this Codex home".to_owned() }),
    );
    assert_eq!(
        conflict.failure_reason,
        Some(RolloutMigrationFailureReason::RecoveryStateConflict)
    );
    assert_eq!(conflict.message.as_deref(), Some("outside this Codex home"));
}

#[test]
fn moved_rollouts_are_found_once() {
    let (actions, outcome) = outcome(DRY, vec![
        unreadable(Some(ReadErrorKind::NotFound)),
        PathReply::Done,
        PathReply::Found(Some(path("/home/archived/rollout.jsonl"))),
        inspected(ThreadHistoryMode::Legacy),
        PathReply::Done,
    ]);
    assert_eq!(outcome.rollout_path, path("/home/archived/rollout.jsonl"));
    assert_eq!(actions[2], PathAction::FindCurrent { path: rollout(1) });
}

#[test]
fn empty_rollouts_are_skipped_and_unreadable_ones_fail() {
    let (_, empty) = outcome(DRY, vec![
        unreadable(None),
        PathReply::Done,
        PathReply::Answer(true),
        PathReply::Answer(true),
    ]);
    assert_eq!(empty.status, RolloutMigrationStatus::SkippedEmpty);
    let (_, failed) = outcome(DRY, vec![
        unreadable(None),
        PathReply::Done,
        PathReply::Answer(false),
        PathReply::Answer(false),
    ]);
    assert_eq!(failed.status, RolloutMigrationStatus::Failed);
    assert_eq!(failed.failure_reason, Some(RolloutMigrationFailureReason::RolloutReadFailed));
}

#[test]
fn busy_rollouts_are_skipped() {
    let (_, busy) = outcome(APPLY, vec![
        inspected(ThreadHistoryMode::Legacy),
        PathReply::Done,
        PathReply::Rejected(ThreadStoreError::Conflict { message: "active writer".to_owned() }),
    ]);
    assert_eq!(busy.status, RolloutMigrationStatus::SkippedBusy);
    assert_eq!(busy.message.as_deref(), Some("active writer"));
}

#[test]
fn rollouts_of_other_threads_are_not_touched() {
    let (actions, result) = handle(APPLY, vec![id(9)], vec![inspected(ThreadHistoryMode::Legacy)]);
    assert_eq!(result.expect("no error"), None);
    assert!(matches!(
        &actions[0],
        PathAction::Inspect { depth: RolloutInspectionDepth::MetadataOnly, .. }
    ));
}

#[test]
fn memory_consolidation_is_ordinary_history() {
    let mut subagent = meta(ThreadHistoryMode::Legacy);
    subagent.source = SessionSource::SubAgent { label: "review".to_owned() };
    assert_eq!(migration_kind(&subagent), RolloutMigrationKind::Subagent);
    subagent.thread_source = Some(ThreadSource::MemoryConsolidation);
    assert_eq!(migration_kind(&subagent), RolloutMigrationKind::Ordinary);
    let mut by_thread = meta(ThreadHistoryMode::Legacy);
    by_thread.thread_source = Some(ThreadSource::Subagent);
    assert_eq!(migration_kind(&by_thread), RolloutMigrationKind::Subagent);
    by_thread.source = SessionSource::SubAgentMemoryConsolidation;
    assert_eq!(migration_kind(&by_thread), RolloutMigrationKind::Ordinary);
}

fn print(size: u64) -> PreservedSourceFingerprint {
    PreservedSourceFingerprint::from_metadata(size, 1).expect("fingerprint")
}

fn row(current: RolloutPath) -> ThreadRow {
    ThreadRow {
        rollout_path: current,
        history_mode: ThreadHistoryMode::Legacy,
        name: None,
        distinct_title: None,
    }
}

/// Migrates one rollout with the given replies.
fn migrate(
    kind: RolloutMigrationKind,
    rollout_path: RolloutPath,
    replies: Vec<StoreReply>,
) -> (Vec<StoreAction>, Result<PublishedMigration, RolloutMigrationFailure>) {
    let home = path("/home");
    let machine = MigrateOne::new(
        true,
        id(1),
        ThreadHistoryMode::Legacy,
        kind,
        &rollout_path,
        &migration_journal_path(&home, id(1)),
        &retained_migration_recovery_path(&home, id(1)),
    )
    .expect("named rollout");
    let mut step = machine.begin();
    let mut actions = Vec::new();
    let mut replies = replies.into_iter();
    loop {
        match step {
            MigrateStep::Ask(machine, action) => {
                actions.push(action);
                match replies.next() {
                    Some(reply) => step = machine.advance(reply),
                    None => panic!("no reply for {:?}", actions.last()),
                }
            }
            MigrateStep::End(result) => {
                return (actions, result.map_err(|problem| problem.to_failure()));
            }
        }
    }
}

fn source(size: u64) -> StoreReply {
    StoreReply::Source { fingerprint: print(size), size }
}

fn ordinary_up_to_projection() -> Vec<StoreReply> {
    vec![
        StoreReply::Thread(Some(row(rollout(1)))),
        StoreReply::Done,
        source(100),
        StoreReply::Done,
        StoreReply::Done,
        StoreReply::Converted { next_ordinal: 5 },
        StoreReply::Length(400),
        StoreReply::Done,
        StoreReply::Done,
        StoreReply::Done,
    ]
}

#[test]
fn a_migration_is_published_only_when_its_projection_is_complete() {
    let mut replies = ordinary_up_to_projection();
    replies.extend([
        StoreReply::Projection(Some((400, 5))),
        source(100),
        StoreReply::Done,
        StoreReply::Done,
        StoreReply::Done,
        StoreReply::Done,
    ]);
    let (actions, result) = migrate(RolloutMigrationKind::Ordinary, rollout(1), replies);
    let published = result.expect("migrated");
    assert_eq!(published.rollout_path, rollout(1));
    assert_eq!(
        published.preserved_source_path,
        preserved_legacy_rollout_path(&rollout(1)).expect("named")
    );
    assert!(actions.iter().any(|action| matches!(
        action,
        StoreAction::Convert { kind: ConversionKind::Canonical, .. }
    )));
    let publish = actions
        .iter()
        .position(|action| matches!(action, StoreAction::Publish { .. }))
        .expect("published");
    let state = actions
        .iter()
        .position(|action| matches!(action, StoreAction::ProjectionState { .. }))
        .expect("looked at the projection");
    assert!(state < publish);

    let mut replies = ordinary_up_to_projection();
    replies.push(StoreReply::Projection(Some((399, 5))));
    let (actions, result) = migrate(RolloutMigrationKind::Ordinary, rollout(1), replies);
    assert_eq!(
        result.expect_err("incomplete").reason,
        RolloutMigrationFailureReason::SqliteMaterializationFailed
    );
    assert!(!actions.iter().any(|action| matches!(action, StoreAction::Publish { .. })));
}

#[test]
fn a_source_that_changes_while_it_is_staged_is_not_published() {
    let mut replies = ordinary_up_to_projection();
    replies.extend([StoreReply::Projection(Some((400, 5))), source(101)]);
    let (actions, result) = migrate(RolloutMigrationKind::Ordinary, rollout(1), replies);
    let failure = result.expect_err("changed");
    assert!(matches!(failure.error, ThreadStoreError::Conflict { .. }));
    assert!(!actions.iter().any(|action| matches!(action, StoreAction::Publish { .. })));
}

#[test]
fn threads_without_an_index_entry_are_not_migrated() {
    let (actions, result) =
        migrate(RolloutMigrationKind::Ordinary, rollout(1), vec![StoreReply::Thread(None)]);
    assert_eq!(actions.len(), 1);
    assert_eq!(
        result.expect_err("unknown").reason,
        RolloutMigrationFailureReason::MissingSqliteMetadata
    );
}

#[test]
fn subagent_rollouts_take_their_bounded_context_and_record_the_boundary() {
    let (actions, _) = migrate(RolloutMigrationKind::Subagent, rollout(1), vec![
        StoreReply::Thread(Some(row(rollout(1)))),
        StoreReply::Done,
        source(100),
        StoreReply::Done,
        StoreReply::Done,
        StoreReply::Answer(true),
        StoreReply::Done,
        StoreReply::Converted { next_ordinal: 7 },
        StoreReply::Failed("stop".to_owned()),
    ]);
    assert!(actions.iter().any(|action| matches!(
        action,
        StoreAction::Convert { kind: ConversionKind::BoundedSubagent, .. }
    )));
    assert!(matches!(actions.last(), Some(StoreAction::RewriteBoundary { boundary: 7 })));
}

#[test]
fn compressed_rollouts_are_published_under_their_plain_name() {
    let compressed = path(&format!("{}.zst", rollout(1).text));
    let (actions, result) = migrate(RolloutMigrationKind::Ordinary, compressed.clone(), vec![
        StoreReply::Thread(Some(row(compressed.clone()))),
        StoreReply::Done,
        source(50),
        StoreReply::Done,
        StoreReply::Length(300),
        StoreReply::Done,
        StoreReply::Done,
        StoreReply::Done,
        StoreReply::Converted { next_ordinal: 5 },
        StoreReply::Length(400),
        StoreReply::Done,
        StoreReply::Done,
        StoreReply::Done,
        StoreReply::Projection(Some((400, 5))),
        source(50),
        StoreReply::Done,
        StoreReply::Done,
        StoreReply::Done,
        StoreReply::Done,
        StoreReply::Done,
    ]);
    assert_eq!(result.expect("migrated").rollout_path, rollout(1));
    assert!(actions.contains(&StoreAction::Account { bytes: 350 }));
}

#[test]
fn rollouts_without_an_identifier_are_refused() {
    let home = path("/home");
    let failure = MigrateOne::new(
        true,
        id(1),
        ThreadHistoryMode::Legacy,
        RolloutMigrationKind::Ordinary,
        &path("/home/rollout.jsonl"),
        &migration_journal_path(&home, id(1)),
        &retained_migration_recovery_path(&home, id(1)),
    )
    .expect_err("no identifier")
    .to_failure();
    assert_eq!(failure.reason, RolloutMigrationFailureReason::InvalidSessionMetadata);
}

/// Carries a machine through with the given replies.
fn carry<M, T>(
    begun: Step<M, T>,
    advance: fn(M, StoreReply) -> Step<M, T>,
    replies: Vec<StoreReply>,
) -> (Vec<StoreAction>, Result<T, ThreadStoreError>) {
    let mut step = begun;
    let mut actions = Vec::new();
    let mut replies = replies.into_iter();
    loop {
        match step {
            Step::Ask(machine, action) => {
                actions.push(action);
                match replies.next() {
                    Some(reply) => step = advance(machine, reply),
                    None => panic!("no reply for {:?}", actions.last()),
                }
            }
            Step::End(result) => return (actions, result.map_err(|problem| problem.to_error())),
        }
    }
}

#[test]
fn recovery_finishes_a_publication_without_a_projection() {
    let home = path("/home");
    let machine = RecoverPublished::new(id(1), &rollout(1), &migration_journal_path(&home, id(1)));
    let recovery = MigrationRecoveryHandle::new(rollout(1), path("/kept"))
        .with_publication_fingerprint(print(9));
    let (actions, result) = carry(machine.begin(), RecoverPublished::advance, vec![
        StoreReply::Journal(Some(recovery)),
        StoreReply::Done,
        StoreReply::Answer(true),
        StoreReply::Done,
        StoreReply::Metadata { id: id(1), history_mode: ThreadHistoryMode::PaginatedRefsV1 },
        StoreReply::Length(400),
        StoreReply::Projection(None),
        StoreReply::Done,
        StoreReply::Done,
        StoreReply::Done,
        StoreReply::Done,
        StoreReply::Done,
    ]);
    assert_eq!(result.expect("recovered"), rollout(1));
    assert!(actions.iter().any(|action| matches!(action, StoreAction::Project { .. })));
    assert!(matches!(actions.last(), Some(StoreAction::FinishPublished { .. })));
}

#[test]
fn recovery_indexes_a_compressed_rollout_by_its_decompressed_history() {
    let home = path("/home");
    let compressed = path(&format!(
        "/home/sessions/rollout-2025-{}.jsonl.zst",
        id(1).to_text()
    ));
    let machine =
        RecoverPublished::new(id(1), &compressed, &migration_journal_path(&home, id(1)));
    let (actions, result) = carry(machine.begin(), RecoverPublished::advance, vec![
        StoreReply::Journal(None),
        StoreReply::Metadata { id: id(1), history_mode: ThreadHistoryMode::PaginatedRefsV1 },
        StoreReply::Done,
        StoreReply::Length(900),
        StoreReply::Length(100),
        StoreReply::Done,
        StoreReply::Length(900),
        StoreReply::Projection(None),
        StoreReply::Done,
        StoreReply::Done,
        StoreReply::Done,
        StoreReply::Done,
        StoreReply::Done,
        StoreReply::Done,
    ]);
    assert_eq!(result.expect("recovered"), compressed);
    assert_eq!(actions[5], StoreAction::Account { bytes: 1000 });
    assert!(actions.iter().any(|action| matches!(action, StoreAction::Decompress { .. })));
    assert!(actions.iter().any(|action| matches!(action, StoreAction::Project { .. })));
    match actions.last() {
        Some(StoreAction::FinishPublished {
            source_rollout_path, published_rollout_path, ..
        }) => {
            assert_eq!(*source_rollout_path, compressed);
            assert_eq!(*published_rollout_path, compressed);
        }
        action => panic!("recovery ends with finishing: {action:?}"),
    }
}

#[test]
fn recovery_is_refused_where_the_source_is_missing() {
    let home = path("/home");
    let machine = RecoverPublished::new(id(1), &rollout(1), &migration_journal_path(&home, id(1)));
    let recovery = MigrationRecoveryHandle::new(rollout(1), path("/kept"));
    let (_, result) = carry(machine.begin(), RecoverPublished::advance, vec![
        StoreReply::Journal(Some(recovery)),
        StoreReply::Done,
        StoreReply::Answer(false),
    ]);
    assert_eq!(
        result.expect_err("missing"),
        ThreadStoreError::Conflict {
            message: "published rollout is missing its preserved legacy recovery source: /kept"
                .to_owned(),
        }
    );
}

#[test]
fn cleaning_up_spares_a_published_rollout() {
    let home = path("/home");
    let machine = CleanUpUnpublished::new(
        id(1),
        ThreadHistoryMode::Legacy,
        false,
        &rollout(1),
        &migration_journal_path(&home, id(1)),
    );
    let (actions, result) = carry(machine.begin(), CleanUpUnpublished::advance, vec![
        StoreReply::Journal(None),
        StoreReply::Metadata { id: id(1), history_mode: ThreadHistoryMode::PaginatedRefsV1 },
    ]);
    assert!(result.is_ok());
    assert_eq!(actions.len(), 2);
}

#[test]
fn names_are_promoted_once() {
    let machine = || PromoteName {
        has_state_db: true,
        thread_id: id(1),
        target_history_mode: ThreadHistoryMode::PaginatedRefsV1,
        legacy_name: Some("my thread".to_owned()),
        marking: false,
    };
    let (actions, result) = carry(machine().begin(), PromoteName::advance, vec![
        StoreReply::Thread(Some(row(rollout(1)))),
        StoreReply::Answer(true),
    ]);
    assert!(result.is_ok());
    assert_eq!(
        actions[1],
        StoreAction::MarkPaginated {
            thread_id: id(1),
            mode: ThreadHistoryMode::PaginatedRefsV1,
            name: Some("my thread".to_owned()),
        }
    );
    let mut named = row(rollout(1));
    named.history_mode = ThreadHistoryMode::PaginatedRefsV1;
    named.name = Some("renamed".to_owned());
    let (actions, result) =
        carry(machine().begin(), PromoteName::advance, vec![StoreReply::Thread(Some(named))]);
    assert!(result.is_ok());
    assert_eq!(actions.len(), 1);
}

#[test]
fn finishing_points_the_index_to_the_published_rollout() {
    let home = path("/home");
    let compressed = path(&format!("{}.zst", rollout(1).text));
    let machine = FinishPublished {
        has_state_db: true,
        thread_id: id(1),
        source_rollout_path: compressed.clone(),
        published_rollout_path: rollout(1),
        journal_path: migration_journal_path(&home, id(1)),
        legacy_name: None,
        stage: FinishStage::Getting,
    };
    let (actions, _) = carry(machine.begin(), FinishPublished::advance, vec![
        StoreReply::Thread(Some(row(compressed.clone()))),
        StoreReply::Answer(false),
    ]);
    assert!(actions.contains(&StoreAction::ReplaceRolloutPath {
        thread_id: id(1),
        expected: compressed,
        published: rollout(1),
    }));
}

#[test]
fn records_outside_the_journal_directory_are_refused() {
    let home = path("/home");
    let roots = RolloutRoots {
        sessions: path("/home/sessions"),
        archived: path("/home/archived_sessions"),
    };
    let recovery = MigrationRecoveryHandle::new(path("/old/sessions/r.jsonl"), path("/old/kept"));
    let machine = ValidateRecovery::new(
        &home,
        &roots,
        id(1),
        &migration_journal_path(&home, id(1)),
        &recovery,
        &None,
        false,
    );
    let mut step = machine.begin();
    let mut asked = Vec::new();
    let error = loop {
        match step {
            Check::Ask(machine, action) => {
                let reply = match &action {
                    CheckAction::Canonicalize { path } => CheckReply::Path(path.clone()),
                    CheckAction::CanonicalizeParent { path } => {
                        CheckReply::Path(path.parent().expect("parent"))
                    }
                    CheckAction::Visible { .. } => CheckReply::Answer(true),
                    _ => CheckReply::Failed("not expected".to_owned()),
                };
                asked.push(action);
                step = machine.advance(reply);
            }
            Check::End(result) => break result.map_err(DiskProblem::to_error).expect_err("foreign"),
        }
    };
    assert!(matches!(error, ThreadStoreError::Conflict { .. }));
    assert!(error.to_text().contains("/old/sessions/r.jsonl"));
    assert!(error.to_text().contains("outside this Codex home"));
    assert!(asked.iter().all(|action| matches!(
        action,
        CheckAction::Canonicalize { .. }
            | CheckAction::CanonicalizeParent { .. }
            | CheckAction::Visible { .. }
    )));
}

#[test]
fn runs_take_the_lock_only_where_they_change_anything() {
    let (_, step) = RunMigration::begin(&options(DRY), RolloutMigrationPaths::Discover)
        .expect("dry run");
    assert!(matches!(step, RunStep::Ask(_, RunAction::Discover)));
    let (_, step) = RunMigration::begin(&options(APPLY), RolloutMigrationPaths::Discover)
        .expect("apply");
    let RunStep::Ask(run, RunAction::TakeMaintenanceLock) = step else {
        panic!("a run that changes anything takes the lock");
    };
    match run.advance(RunReply::Lock(Ok(false))) {
        RunStep::End(Err(error)) => assert_eq!(
            error,
            ThreadStoreError::Conflict {
                message: "rollout compression or another migration is already running".to_owned(),
            }
        ),
        _ => panic!("the lock is taken"),
    }
}

#[test]
fn runs_refuse_unsupported_rates_first() {
    let mut asked = options(APPLY);
    asked.max_mib_per_second = Some(0);
    assert!(RunMigration::begin(&asked, RolloutMigrationPaths::Discover).is_err());
}

#[test]
fn runs_handle_pending_rollouts_first_and_report_in_order() {
    let (_, step) =
        RunMigration::begin(&options(APPLY), RolloutMigrationPaths::Known(vec![
            rollout(3),
            rollout(2),
            rollout(1),
        ]))
        .expect("apply");
    let mut step = step;
    let mut handled = Vec::new();
    let mut told = Vec::new();
    let report = loop {
        match step {
            RunStep::Ask(run, action) => {
                let reply = match action {
                    RunAction::TakeMaintenanceLock => RunReply::Lock(Ok(true)),
                    RunAction::Discover => panic!("the rollouts are known"),
                    RunAction::PendingThreads => RunReply::Threads(vec![id(1)]),
                    RunAction::ReadNames { thread_ids } => {
                        assert_eq!(thread_ids, vec![id(1), id(3), id(2)]);
                        RunReply::Done
                    }
                    RunAction::MigratePath { path } => {
                        handled.push(path.clone());
                        RunReply::Outcome(Some(rollout_migration::report::skipped_busy_outcome(
                            id(handled.len() as u128),
                            path,
                            "busy".to_owned(),
                            0,
                        )))
                    }
                    RunAction::Progress(progress) => {
                        told.push((progress.processed_paths, progress.total_paths));
                        RunReply::Done
                    }
                };
                step = run.advance(reply);
            }
            RunStep::End(result) => break result.expect("report"),
        }
    };
    assert_eq!(handled, vec![rollout(1), rollout(3), rollout(2)]);
    assert_eq!(told, vec![(1, 3), (2, 3), (3, 3)]);
    assert_eq!(report.outcomes.len(), 3);
    assert_eq!(thread_ids_of(&vec![rollout(4), path("/x")]), vec![id(4)]);
}

/// Releases the source of a thread with the given replies.
fn retire(
    replies: Vec<RetireReply>,
) -> (Vec<RetireAction>, Option<(PreservedSourceRetirementStatus, String)>) {
    let mut step = RetireThread::new(id(1)).begin();
    let mut actions = Vec::new();
    let mut replies = replies.into_iter();
    loop {
        match step {
            RetireStep::Ask(machine, action) => {
                actions.push(action);
                step = machine.advance(replies.next().expect("a reply is missing"));
            }
            RetireStep::End(result) => {
                let verdict = result.map_err(|problem| problem.to_error()).expect("no error");
                let outcome = verdict.map(|verdict| {
                    let outcome = verdict.to_outcome();
                    (outcome.status, outcome.message.expect("message"))
                });
                return (actions, outcome);
            }
        }
    }
}

fn retained() -> RetireReply {
    RetireReply::Record(Some(MigrationRecoveryHandle::new(rollout(1), path("/kept"))))
}

#[test]
fn unchanged_sources_are_released_behind_gated_rollouts() {
    let (actions, outcome) = retire(vec![
        retained(),
        RetireReply::Done,
        RetireReply::Answer(true),
        RetireReply::Done,
        RetireReply::Answer(true),
        RetireReply::Metadata { id: id(1), history_mode: ThreadHistoryMode::PaginatedRefsV1 },
        RetireReply::Done,
        RetireReply::Retired(Some(path("/kept"))),
    ]);
    assert_eq!(
        outcome,
        Some((
            PreservedSourceRetirementStatus::Retired,
            "preserved legacy source retired after confirmed quiescence".to_owned(),
        ))
    );
    assert!(matches!(actions.last(), Some(RetireAction::Retire { .. })));
    assert_eq!(retire(vec![RetireReply::Record(None)]).1, None);
}

#[test]
fn sources_are_kept_where_anything_speaks_against_it() {
    let refused = |replies: Vec<RetireReply>| {
        let (actions, outcome) = retire(replies);
        let (status, message) = outcome.expect("refused");
        assert_eq!(status, PreservedSourceRetirementStatus::Refused);
        assert!(!actions.iter().any(|action| matches!(action, RetireAction::Retire { .. })));
        message
    };
    assert_eq!(
        refused(vec![
            retained(),
            RetireReply::Done,
            RetireReply::Answer(false),
            RetireReply::Found(None),
        ]),
        "current rollout is missing; preserved source was not retired"
    );
    let locked = || vec![retained(), RetireReply::Done, RetireReply::Answer(true), RetireReply::Done];
    let with = |more: Vec<RetireReply>| {
        let mut replies = locked();
        replies.extend(more);
        replies
    };
    assert_eq!(
        refused(with(vec![
            RetireReply::Answer(true),
            RetireReply::Metadata { id: id(2), history_mode: ThreadHistoryMode::PaginatedRefsV1 },
        ])),
        "current rollout belongs to a different thread"
    );
    assert_eq!(
        refused(with(vec![
            RetireReply::Answer(true),
            RetireReply::Metadata { id: id(1), history_mode: ThreadHistoryMode::Legacy },
        ])),
        "current rollout is not gated paginated_refs_v1 (found legacy)"
    );
    assert_eq!(
        refused(with(vec![
            RetireReply::Answer(false),
            RetireReply::Found(None),
            RetireReply::Failed("gone".to_owned()),
        ])),
        "current rollout could not be validated: gone"
    );
    assert_eq!(
        refused(with(vec![
            RetireReply::Answer(true),
            RetireReply::Metadata { id: id(1), history_mode: ThreadHistoryMode::PaginatedRefsV1 },
            RetireReply::Rejected(ThreadStoreError::Internal { message: "x".to_owned() }),
        ])),
        "thread-store internal error: x"
    );
}

#[test]
fn retirement_goes_in_the_order_of_identifiers() {
    let PassStep::Ask(pass, PassAction::TakeMaintenanceLock) =
        RetirementPass::begin(vec![id(3), id(1)])
    else {
        panic!("a pass begins with the lock");
    };
    let PassStep::Ask(pass, PassAction::RetainedThreads) =
        pass.advance(PassReply::Lock(Ok(true)))
    else {
        panic!("a pass lists the records");
    };
    let PassStep::Ask(pass, PassAction::Retire { thread_id }) =
        pass.advance(PassReply::Threads(vec![id(3), id(2), id(1)]))
    else {
        panic!("a pass goes on with a thread");
    };
    assert_eq!(thread_id, id(1));
    let PassStep::Ask(pass, PassAction::Retire { thread_id }) =
        pass.advance(PassReply::Verdict(None))
    else {
        panic!("a pass goes on with a thread");
    };
    assert_eq!(thread_id, id(3));
    match pass.advance(PassReply::Verdict(None)) {
        PassStep::End(Ok(report)) => assert!(report.outcomes.is_empty()),
        _ => panic!("the pass has ended"),
    }
}
