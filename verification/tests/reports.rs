//! Options, outcomes, limits and errors.

use rollout_migration::error::migration_error;
use rollout_migration::error::recovery_conflict;
use rollout_migration::error::thread_store_io_error;
use rollout_migration::error::ThreadId;
use rollout_migration::error::ThreadStoreError;
use rollout_migration::limiter::Pace;
use rollout_migration::limiter::RolloutMigrationRateLimiter;
use rollout_migration::paths::RolloutPath;
use rollout_migration::record::PROJECTION_BATCH_BYTES;
use rollout_migration::recovery::is_false;
use rollout_migration::report::matches_selection;
use rollout_migration::report::migration_outcome;
use rollout_migration::report::recovery_conflict_outcome;
use rollout_migration::report::requires_reference_migration;
use rollout_migration::report::retirement_refused_outcome;
use rollout_migration::report::skipped_busy_outcome;
use rollout_migration::report::with_failure_reason;
use rollout_migration::report::PreservedSourceRetirementStatus;
use rollout_migration::report::RolloutMigrationFailure;
use rollout_migration::report::RolloutMigrationFailureReason;
use rollout_migration::report::RolloutMigrationMode;
use rollout_migration::report::RolloutMigrationOptions;
use rollout_migration::report::RolloutMigrationStatus;
use rollout_migration::rollout::ThreadHistoryMode;
use rollout_migration::run::MigrationRun;

fn path() -> RolloutPath {
    RolloutPath::new("/a".to_owned())
}

fn id(value: u128) -> ThreadId {
    ThreadId::from_u128(value)
}

#[test]
fn runs_are_dry_unless_asked_otherwise() {
    let options = RolloutMigrationOptions::default();
    assert_eq!(options.mode, RolloutMigrationMode::DryRun);
    assert!(options.thread_ids.is_empty());
    assert_eq!(options.max_mib_per_second, None);
    assert_eq!(options.clone(), options);
}

#[test]
fn an_empty_selection_asks_for_everything() {
    assert!(matches_selection(&Vec::new(), None));
    assert!(matches_selection(&vec![id(1), id(2)], Some(id(2))));
    assert!(!matches_selection(&vec![id(1)], Some(id(2))));
    assert!(!matches_selection(&vec![id(1)], None));
}

#[test]
fn only_legacy_histories_are_migrated() {
    assert!(requires_reference_migration(ThreadHistoryMode::Legacy));
    assert!(!requires_reference_migration(ThreadHistoryMode::Paginated));
    assert!(!requires_reference_migration(ThreadHistoryMode::PaginatedRefsV1));
}

#[test]
fn outcomes_say_what_happened() {
    let done = migration_outcome(id(1), path(), Ok(RolloutMigrationStatus::Migrated), 5);
    assert_eq!(done.status, RolloutMigrationStatus::Migrated);
    assert_eq!(done.message, None);
    assert_eq!(done.bytes_processed, 5);
    let failed = migration_outcome(
        id(1),
        path(),
        Err(RolloutMigrationFailure::new(
            RolloutMigrationFailureReason::RolloutPublishFailed,
            migration_error("disk full"),
        )),
        6,
    );
    assert_eq!(failed.status, RolloutMigrationStatus::Failed);
    assert_eq!(
        failed.failure_reason,
        Some(RolloutMigrationFailureReason::RolloutPublishFailed)
    );
    assert_eq!(
        failed.message.as_deref(),
        Some("thread-store internal error: rollout migration failed: disk full")
    );
    let conflict = recovery_conflict_outcome(id(1), path(), "two generations".to_owned(), 7);
    assert_eq!(
        conflict.failure_reason,
        Some(RolloutMigrationFailureReason::RecoveryStateConflict)
    );
    let busy = skipped_busy_outcome(id(1), path(), "busy".to_owned(), 8);
    assert_eq!(busy.status, RolloutMigrationStatus::SkippedBusy);
    let refused = retirement_refused_outcome(id(1), path(), path(), "no".to_owned());
    assert_eq!(refused.status, PreservedSourceRetirementStatus::Refused);
    assert_eq!(refused.message.as_deref(), Some("no"));
}

#[test]
fn failures_carry_a_reason() {
    let fine: Result<u8, ThreadStoreError> = Ok(1);
    assert_eq!(with_failure_reason(fine, RolloutMigrationFailureReason::Unknown), Ok(1));
    let failed: Result<u8, ThreadStoreError> = Err(migration_error("x"));
    assert_eq!(
        with_failure_reason(failed, RolloutMigrationFailureReason::Unknown)
            .expect_err("failed")
            .reason,
        RolloutMigrationFailureReason::Unknown
    );
}

#[test]
fn errors_print_their_kind_and_message() {
    assert_eq!(
        thread_store_io_error("disk full").to_text(),
        "thread-store internal error: disk full"
    );
    assert_eq!(
        recovery_conflict(id(1), "moved"),
        ThreadStoreError::Conflict {
            message: format!(
                "thread {} rollout migration recovery refused: moved",
                id(1).to_text()
            ),
        }
    );
    assert!(ThreadStoreError::ThreadNotFound { thread_id: id(3) }
        .to_text()
        .contains(&id(3).to_text()));
    assert!(ThreadStoreError::InvalidRequest { message: "no cwd".to_owned() }
        .to_text()
        .ends_with("no cwd"));
    assert!(is_false(&false));
    assert!(!is_false(&true));
}

#[test]
fn rates_must_be_positive_and_supported() {
    assert!(RolloutMigrationRateLimiter::new(None).is_ok());
    let limiter = RolloutMigrationRateLimiter::new(Some(2)).expect("two MiB");
    assert_eq!(limiter.bytes_per_second, Some(2 * 1024 * 1024));
    for rate in [0, u64::MAX, 1 << 44] {
        assert_eq!(
            RolloutMigrationRateLimiter::new(Some(rate)),
            Err(ThreadStoreError::InvalidRequest {
                message: "--max-mib-per-second must be a positive supported integer".to_owned(),
            })
        );
    }
    assert!(RolloutMigrationRateLimiter::new(Some((1 << 44) - 1)).is_ok());
}

#[test]
fn limiters_pause_once_per_batch() {
    let mut limiter = RolloutMigrationRateLimiter::new(Some(1)).expect("limiter");
    assert_eq!(limiter.account(PROJECTION_BATCH_BYTES - 1), Pace::Continue);
    assert_eq!(
        limiter.account(1),
        Pace::WaitFor {
            bytes_processed: PROJECTION_BATCH_BYTES,
            bytes_per_second: 1024 * 1024,
        }
    );
    assert_eq!(limiter.account(1), Pace::Continue);
    assert_eq!(limiter.processed_since(PROJECTION_BATCH_BYTES), 1);
    assert_eq!(limiter.processed_since(u64::MAX), 0);
    let mut unlimited = RolloutMigrationRateLimiter::new(None).expect("limiter");
    assert_eq!(unlimited.account(PROJECTION_BATCH_BYTES), Pace::Yield);
    assert_eq!(unlimited.account(u64::MAX), Pace::Yield);
    assert_eq!(unlimited.bytes_processed, u64::MAX);
}

#[test]
fn progress_counts_every_rollout() {
    let mut run = MigrationRun::new(2);
    let progress = run.take_outcome(None);
    assert_eq!((progress.processed_paths, progress.total_paths), (1, 2));
    assert_eq!(progress.outcome_status, None);
    let progress = run.take_outcome(Some(skipped_busy_outcome(
        id(1),
        path(),
        "busy".to_owned(),
        0,
    )));
    assert_eq!(progress.processed_paths, 2);
    assert_eq!(progress.outcome_status, Some(RolloutMigrationStatus::SkippedBusy));
    assert_eq!(run.finish().outcomes.len(), 1);
}
