//! What a migration run is asked to do and what it reports.

use crate::error::ErrorView;
use crate::error::ThreadId;
use crate::error::ThreadStoreError;
use crate::error::ThreadStoreResult;
use crate::paths::RolloutPath;
use crate::rollout::ThreadHistoryMode;
use vstd::prelude::*;

verus! {

/// Controls whether eligible rollouts are reported or migrated.
#[derive(Clone, Copy, Debug, PartialEq, Eq, Structural)]
pub enum RolloutMigrationMode {
    /// Report eligible files without modifying local storage.
    DryRun,
    /// Publish paginated rollouts and materialize their SQLite history.
    Apply,
}

impl Default for RolloutMigrationMode {
    fn default() -> (r: Self)
        ensures
            r == RolloutMigrationMode::DryRun,
    {
        RolloutMigrationMode::DryRun
    }
}

/// Selection and throughput limits for a local rollout migration.
#[derive(Debug, PartialEq, Eq)]
pub struct RolloutMigrationOptions {
    pub mode: RolloutMigrationMode,
    pub thread_ids: Vec<ThreadId>,
    /// Optional aggregate rollout I/O limit. Without one, migration runs as fast as local I/O
    /// allows while still yielding between projection-sized batches.
    pub max_mib_per_second: Option<u64>,
}

impl Clone for RolloutMigrationOptions {
    fn clone(&self) -> (r: Self)
        ensures
            r.mode == self.mode,
            r.thread_ids@ == self.thread_ids@,
            r.max_mib_per_second == self.max_mib_per_second,
    {
        let thread_ids: Vec<ThreadId> = self.thread_ids.clone();
        assert(thread_ids@ =~= self.thread_ids@);
        RolloutMigrationOptions {
            mode: self.mode,
            thread_ids,
            max_mib_per_second: self.max_mib_per_second,
        }
    }
}

impl Default for RolloutMigrationOptions {
    fn default() -> (r: Self)
        ensures
            r.mode == RolloutMigrationMode::DryRun,
            r.thread_ids@.len() == 0,
            r.max_mib_per_second is None,
    {
        RolloutMigrationOptions {
            mode: RolloutMigrationMode::DryRun,
            thread_ids: Vec::new(),
            max_mib_per_second: None,
        }
    }
}

/// The observable result of inspecting one local rollout.
#[derive(Clone, Copy, Debug, PartialEq, Eq, Structural)]
pub enum RolloutMigrationStatus {
    Eligible,
    Migrated,
    AlreadyPaginated,
    SkippedEmpty,
    SkippedBusy,
    Failed,
}

/// A bounded explanation for why one rollout migration failed.
#[derive(Clone, Copy, Debug, PartialEq, Eq, Structural)]
pub enum RolloutMigrationFailureReason {
    MissingSqliteMetadata,
    InvalidSessionMetadata,
    RolloutReadFailed,
    OversizedRolloutRecord,
    MalformedRolloutRecord,
    LegacyRolloutConversionFailed,
    SqliteMaterializationFailed,
    RolloutPublishFailed,
    InterruptedMigrationRecoveryFailed,
    RecoveryStateConflict,
    Unknown,
}

/// The per-thread result of a rollout migration run.
#[derive(Clone, Debug, PartialEq, Eq)]
pub struct RolloutMigrationOutcome {
    pub thread_id: Option<ThreadId>,
    pub rollout_path: RolloutPath,
    pub status: RolloutMigrationStatus,
    pub failure_reason: Option<RolloutMigrationFailureReason>,
    /// Byte-exact legacy source retained across publication for older-writer reconciliation.
    pub preserved_source_path: Option<RolloutPath>,
    pub bytes_processed: u64,
    pub message: Option<String>,
}

/// The complete result of scanning active rollout files.
#[derive(Clone, Debug, PartialEq, Eq)]
pub struct RolloutMigrationReport {
    pub outcomes: Vec<RolloutMigrationOutcome>,
}

impl Default for RolloutMigrationReport {
    fn default() -> (r: Self)
        ensures
            r.outcomes@.len() == 0,
    {
        RolloutMigrationReport { outcomes: Vec::new() }
    }
}

/// Result of the explicit second phase that releases a preserved legacy source.
#[derive(Clone, Copy, Debug, PartialEq, Eq, Structural)]
pub enum PreservedSourceRetirementStatus {
    Retired,
    Refused,
}

/// One operator-visible receipt from preserved-source retirement.
#[derive(Clone, Debug, PartialEq, Eq)]
pub struct PreservedSourceRetirementOutcome {
    pub thread_id: ThreadId,
    pub rollout_path: RolloutPath,
    pub preserved_source_path: RolloutPath,
    pub status: PreservedSourceRetirementStatus,
    pub message: Option<String>,
}

/// Complete receipt for an explicit confirmed-quiescence retirement pass.
#[derive(Clone, Debug, PartialEq, Eq)]
pub struct PreservedSourceRetirementReport {
    pub outcomes: Vec<PreservedSourceRetirementOutcome>,
}

impl Default for PreservedSourceRetirementReport {
    fn default() -> (r: Self)
        ensures
            r.outcomes@.len() == 0,
    {
        PreservedSourceRetirementReport { outcomes: Vec::new() }
    }
}

/// Incremental progress emitted while rollout migration scans discovered paths.
#[derive(Clone, Copy, Debug, PartialEq, Eq, Structural)]
pub struct RolloutMigrationProgress {
    pub processed_paths: usize,
    pub total_paths: usize,
    /// None means the scanned path was excluded by the requested thread filter.
    pub outcome_status: Option<RolloutMigrationStatus>,
}

/// A migration step that failed, with the reason that the report gives.
#[derive(Debug, PartialEq, Eq)]
pub struct RolloutMigrationFailure {
    pub reason: RolloutMigrationFailureReason,
    pub error: ThreadStoreError,
}

impl RolloutMigrationFailure {
    /// The failure with the given reason and error.
    pub fn new(reason: RolloutMigrationFailureReason, error: ThreadStoreError) -> (r: Self)
        ensures
            r == (RolloutMigrationFailure { reason, error }),
    {
        RolloutMigrationFailure { reason, error }
    }
}

/// The result of a migration step, where a failure carries the reason that the report gives.
pub type ClassifiedMigrationResult<T> = Result<T, RolloutMigrationFailure>;

/// The result, with the given reason where it is an error.
pub fn with_failure_reason<T>(
    result: ThreadStoreResult<T>,
    reason: RolloutMigrationFailureReason,
) -> (r: ClassifiedMigrationResult<T>)
    ensures
        match result {
            Ok(value) => r == Ok::<T, RolloutMigrationFailure>(value),
            Err(error) => r == Err::<T, RolloutMigrationFailure>(
                (RolloutMigrationFailure { reason, error }),
            ),
        },
{
    match result {
        Ok(value) => Ok(value),
        Err(error) => Err(RolloutMigrationFailure::new(reason, error)),
    }
}

/// Whether a run is asked to look at a thread: an empty selection asks for all.
pub open spec fn selects(selected: Seq<ThreadId>, actual: Option<ThreadId>) -> bool {
    selected.len() == 0 || (actual is Some && selected.contains(actual->0))
}

/// Whether a run is asked to look at a thread: an empty selection asks for all.
pub fn matches_selection(selected: &Vec<ThreadId>, actual: Option<ThreadId>) -> (r: bool)
    ensures
        r == selects(selected@, actual),
{
    if selected.len() == 0 {
        return true;
    }
    match actual {
        None => false,
        Some(thread_id) => {
            let mut i: usize = 0;
            while i < selected.len()
                invariant
                    i <= selected.len(),
                    forall|j: int| 0 <= j < i ==> #[trigger] selected@[j] != thread_id,
                    actual == Some(thread_id),
                    selected.len() > 0,
                decreases selected.len() - i,
            {
                if selected[i] == thread_id {
                    assert(selected@[i as int] == thread_id);
                    return true;
                }
                i += 1;
            }
            false
        },
    }
}

/// Whether a history has to be migrated to references: only a legacy history has to.
pub fn requires_reference_migration(history_mode: ThreadHistoryMode) -> (r: bool)
    ensures
        r == (history_mode is Legacy),
{
    history_mode == ThreadHistoryMode::Legacy
}

/// What is reported of a migration that ended with a result.
pub open spec fn reports_migration(
    outcome: RolloutMigrationOutcome,
    thread_id: ThreadId,
    rollout_path: RolloutPath,
    status: RolloutMigrationStatus,
    failure: Option<(RolloutMigrationFailureReason, ErrorView)>,
    bytes_processed: u64,
) -> bool {
    &&& outcome.thread_id == Some(thread_id)
    &&& outcome.rollout_path == rollout_path
    &&& outcome.preserved_source_path is None
    &&& outcome.bytes_processed == bytes_processed
    &&& match failure {
        None => {
            &&& outcome.status == status
            &&& outcome.failure_reason is None
            &&& outcome.message is None
        },
        Some(f) => {
            &&& outcome.status == RolloutMigrationStatus::Failed
            &&& outcome.failure_reason == Some(f.0)
            &&& outcome.message is Some
            &&& outcome.message->0@ == f.1.printed()
        },
    }
}

/// The outcome of a migration that ended with the given result.
pub fn migration_outcome(
    thread_id: ThreadId,
    rollout_path: RolloutPath,
    result: ClassifiedMigrationResult<RolloutMigrationStatus>,
    bytes_processed: u64,
) -> (r: RolloutMigrationOutcome)
    ensures
        match result {
            Ok(status) => reports_migration(
                r,
                thread_id,
                rollout_path,
                status,
                None,
                bytes_processed,
            ),
            Err(failure) => reports_migration(
                r,
                thread_id,
                rollout_path,
                RolloutMigrationStatus::Failed,
                Some((failure.reason, failure.error@)),
                bytes_processed,
            ),
        },
{
    match result {
        Ok(status) => RolloutMigrationOutcome {
            thread_id: Some(thread_id),
            rollout_path,
            status,
            failure_reason: None,
            preserved_source_path: None,
            bytes_processed,
            message: None,
        },
        Err(failure) => RolloutMigrationOutcome {
            thread_id: Some(thread_id),
            rollout_path,
            status: RolloutMigrationStatus::Failed,
            failure_reason: Some(failure.reason),
            preserved_source_path: None,
            bytes_processed,
            message: Some(failure.error.to_text()),
        },
    }
}

/// The outcome of a rollout whose recovery state contradicts what is on disk.
pub fn recovery_conflict_outcome(
    thread_id: ThreadId,
    rollout_path: RolloutPath,
    message: String,
    bytes_processed: u64,
) -> (r: RolloutMigrationOutcome)
    ensures
        r == (RolloutMigrationOutcome {
            thread_id: Some(thread_id),
            rollout_path,
            status: RolloutMigrationStatus::Failed,
            failure_reason: Some(RolloutMigrationFailureReason::RecoveryStateConflict),
            preserved_source_path: None,
            bytes_processed,
            message: Some(message),
        }),
{
    RolloutMigrationOutcome {
        thread_id: Some(thread_id),
        rollout_path,
        status: RolloutMigrationStatus::Failed,
        failure_reason: Some(RolloutMigrationFailureReason::RecoveryStateConflict),
        preserved_source_path: None,
        bytes_processed,
        message: Some(message),
    }
}

/// The outcome of a rollout that another party holds.
pub fn skipped_busy_outcome(
    thread_id: ThreadId,
    rollout_path: RolloutPath,
    message: String,
    bytes_processed: u64,
) -> (r: RolloutMigrationOutcome)
    ensures
        r == (RolloutMigrationOutcome {
            thread_id: Some(thread_id),
            rollout_path,
            status: RolloutMigrationStatus::SkippedBusy,
            failure_reason: None,
            preserved_source_path: None,
            bytes_processed,
            message: Some(message),
        }),
{
    RolloutMigrationOutcome {
        thread_id: Some(thread_id),
        rollout_path,
        status: RolloutMigrationStatus::SkippedBusy,
        failure_reason: None,
        preserved_source_path: None,
        bytes_processed,
        message: Some(message),
    }
}

/// The receipt of a preserved source that is not released.
pub fn retirement_refused_outcome(
    thread_id: ThreadId,
    rollout_path: RolloutPath,
    preserved_source_path: RolloutPath,
    message: String,
) -> (r: PreservedSourceRetirementOutcome)
    ensures
        r == (PreservedSourceRetirementOutcome {
            thread_id,
            rollout_path,
            preserved_source_path,
            status: PreservedSourceRetirementStatus::Refused,
            message: Some(message),
        }),
{
    PreservedSourceRetirementOutcome {
        thread_id,
        rollout_path,
        preserved_source_path,
        status: PreservedSourceRetirementStatus::Refused,
        message: Some(message),
    }
}

} // verus!
