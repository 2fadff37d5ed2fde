//! What becomes of one discovered rollout: it is inspected, and migrated, recovered or left alone.

use crate::error::migration_error;
use crate::error::migration_failure;
use crate::error::ErrorView;
use crate::error::ThreadId;
use crate::error::ThreadStoreError;
use crate::inspection::ReadErrorKind;
use crate::inspection::RolloutInspection;
use crate::inspection::RolloutInspectionDepth;
use crate::inspection::RolloutValidationFailure;
use crate::migrate_one::RolloutMigrationKind;
use crate::operations::PublishedMigration;
use crate::operations::StoreProblem;
use crate::paths::file_name_of;
use crate::paths::preserved_legacy_rollout_path;
use crate::paths::preserved_of;
use crate::paths::rollout_id_in_path;
use crate::paths::thread_id_from_rollout_filename;
use crate::paths::RolloutPath;
use crate::recovery::MigrationRecoveryHandle;
use crate::report::matches_selection;
use crate::report::migration_outcome;
use crate::report::recovery_conflict_outcome;
use crate::report::selects;
use crate::report::skipped_busy_outcome;
use crate::report::RolloutMigrationFailure;
use crate::report::RolloutMigrationFailureReason;
use crate::report::RolloutMigrationMode;
use crate::report::RolloutMigrationOutcome;
use crate::report::RolloutMigrationStatus;
use crate::rollout::SessionMeta;
use crate::rollout::SessionSource;
use crate::rollout::ThreadHistoryMode;
use crate::rollout::ThreadSource;
use crate::text::concat3;
use vstd::prelude::*;

verus! {

/// Something that is asked while one rollout is handled.
#[allow(inconsistent_fields)]
#[derive(Debug, PartialEq, Eq)]
pub enum PathAction {
    /// Look over a rollout.
    Inspect { path: RolloutPath, depth: RolloutInspectionDepth },
    /// Count processed bytes.
    Account { bytes: u64 },
    /// Where is a rollout now that is not where it was?
    FindCurrent { path: RolloutPath },
    /// Is there a file of no length under a path?
    IsEmpty { path: RolloutPath },
    /// Does a path exist?
    Exists { path: RolloutPath },
    /// Which preserved source stands beside a rollout, if any?
    FindPreserved { path: RolloutPath },
    /// Take the writer lock of a thread, and that of its live writer where it is asked for.
    Lock { thread_id: ThreadId, live: bool },
    /// Release the locks that were taken.
    Unlock,
    /// Is the publication of a thread pending?
    PendingExists { thread_id: ThreadId },
    /// Is there a retained record of a thread?
    RetainedExists { thread_id: ThreadId },
    /// Is the preserved source of a retained record unchanged?
    VerifyRetained { thread_id: ThreadId, selected: RolloutPath },
    /// What does the pending journal of a thread hold?
    ReadPending { thread_id: ThreadId },
    /// Finish the pending publication of a thread.
    Recover { thread_id: ThreadId, path: RolloutPath },
    /// Give a migrated thread the name that it had.
    PromoteName { thread_id: ThreadId, mode: ThreadHistoryMode },
    /// Migrate a rollout.
    MigrateOne {
        thread_id: ThreadId,
        mode: ThreadHistoryMode,
        path: RolloutPath,
        kind: RolloutMigrationKind,
    },
    /// Clean up behind a migration that failed before publication.
    CleanUp {
        thread_id: ThreadId,
        mode: ThreadHistoryMode,
        projection_was_replaced: bool,
        path: RolloutPath,
    },
}

/// What was found or done.
#[derive(Debug, PartialEq, Eq)]
pub enum PathReply {
    Done,
    Answer(bool),
    Inspected(Result<RolloutInspection, RolloutValidationFailure>),
    Found(Option<RolloutPath>),
    Journal(Option<MigrationRecoveryHandle>),
    Recovered(Result<RolloutPath, ThreadStoreError>),
    Migrated(Result<PublishedMigration, RolloutMigrationFailure>),
    Rejected(ThreadStoreError),
    Failed(String),
}

/// Why a rollout is busy.
#[derive(Debug, PartialEq, Eq)]
pub enum BusyMessage {
    /// A lock is taken.
    Given(String),
    /// The metadata changed during validation.
    ChangedDuringValidation,
    /// The metadata changed before the lock was taken.
    ChangedWhileWaiting,
}

impl BusyMessage {
    /// The words of the message.
    pub open spec fn words(self) -> Seq<char> {
        match self {
            BusyMessage::Given(text) => text@,
            BusyMessage::ChangedDuringValidation => {
                "rollout metadata changed during migration validation; retry"@
            },
            BusyMessage::ChangedWhileWaiting => {
                "rollout metadata changed while migration waited for its writer lock; retry"@
            },
        }
    }

    /// The words of the message.
    pub fn to_text(self) -> (r: String)
        ensures
            r@ == self.words(),
    {
        match self {
            BusyMessage::Given(text) => text,
            BusyMessage::ChangedDuringValidation => {
                "rollout metadata changed during migration validation; retry".to_owned()
            },
            BusyMessage::ChangedWhileWaiting => {
                "rollout metadata changed while migration waited for its writer lock; retry"
                    .to_owned()
            },
        }
    }
}

/// What became of a rollout.
#[allow(inconsistent_fields)]
#[derive(Debug, PartialEq, Eq)]
pub enum Verdict {
    /// It has a status.
    Status(RolloutMigrationStatus),
    /// Another party holds it. Where it was found empty, nothing is counted.
    Busy { message: BusyMessage, counted: bool },
    /// Its recovery state contradicts what is on disk.
    RecoveryConflict { message: String },
    /// It failed before anything was migrated.
    Failed(RolloutMigrationFailure),
    /// Its migration failed. Where another party got in the way, it counts as busy.
    MigrationFailed(RolloutMigrationFailure),
    /// Its migration failed, and so did the cleaning up.
    NotCleanedUp { failure: RolloutMigrationFailure, cleanup: ThreadStoreError },
    /// It could not be inspected.
    Unreadable { empty: bool, failure: RolloutMigrationFailure },
}

/// What became of a rollout of some thread, which now stands at some path.
#[derive(Debug, PartialEq, Eq)]
pub struct PathVerdict {
    pub thread_id: Option<ThreadId>,
    pub path: RolloutPath,
    pub verdict: Verdict,
    pub preserved_source_path: Option<RolloutPath>,
}

/// The error of a migration that failed and could not be cleaned up.
pub open spec fn not_cleaned_up(failure: ErrorView, cleanup: ErrorView) -> ErrorView {
    migration_failure(
        failure.printed() + "; failed to clean up unpublished migration: "@ + cleanup.printed(),
    )
}

/// Whether an outcome reports a verdict.
pub open spec fn reports_verdict(
    outcome: RolloutMigrationOutcome,
    it: PathVerdict,
    bytes_processed: u64,
) -> bool {
    &&& outcome.thread_id == it.thread_id
    &&& outcome.rollout_path == it.path
    &&& outcome.preserved_source_path == it.preserved_source_path
    &&& outcome.bytes_processed == match it.verdict {
        Verdict::Busy { counted, .. } => if counted {
            bytes_processed
        } else {
            0
        },
        _ => bytes_processed,
    }
    &&& match it.verdict {
        Verdict::Status(status) => {
            &&& outcome.status == status
            &&& outcome.failure_reason is None
            &&& outcome.message is None
        },
        Verdict::Busy { message, .. } => {
            &&& outcome.status == RolloutMigrationStatus::SkippedBusy
            &&& outcome.failure_reason is None
            &&& outcome.message is Some && outcome.message->0@ == message.words()
        },
        Verdict::RecoveryConflict { message } => {
            &&& outcome.status == RolloutMigrationStatus::Failed
            &&& outcome.failure_reason == Some(RolloutMigrationFailureReason::RecoveryStateConflict)
            &&& outcome.message is Some && outcome.message->0@ == message@
        },
        Verdict::Failed(failure) => {
            &&& outcome.status == RolloutMigrationStatus::Failed
            &&& outcome.failure_reason == Some(failure.reason)
            &&& outcome.message is Some && outcome.message->0@ == failure.error@.printed()
        },
        Verdict::MigrationFailed(failure) => match failure.error@ {
            ErrorView::Conflict(message) => {
                &&& outcome.status == RolloutMigrationStatus::SkippedBusy
                &&& outcome.failure_reason is None
                &&& outcome.message is Some && outcome.message->0@ == message
            },
            error => {
                &&& outcome.status == RolloutMigrationStatus::Failed
                &&& outcome.failure_reason == Some(failure.reason)
                &&& outcome.message is Some && outcome.message->0@ == error.printed()
            },
        },
        Verdict::NotCleanedUp { failure, cleanup } => {
            &&& outcome.status == RolloutMigrationStatus::Failed
            &&& outcome.failure_reason == Some(failure.reason)
            &&& outcome.message is Some && outcome.message->0@ == not_cleaned_up(
                failure.error@,
                cleanup@,
            ).printed()
        },
        Verdict::Unreadable { empty, failure } => if empty {
            &&& outcome.status == RolloutMigrationStatus::SkippedEmpty
            &&& outcome.failure_reason is None
            &&& outcome.message is None
        } else {
            &&& outcome.status == RolloutMigrationStatus::Failed
            &&& outcome.failure_reason == Some(failure.reason)
            &&& outcome.message is Some && outcome.message->0@ == failure.error@.printed()
        },
    }
}

impl PathVerdict {
    /// Whether a verdict names the thread that it is about. Only a rollout that could not be
    /// inspected may be of no known thread.
    pub open spec fn names_thread(self) -> bool {
        self.verdict is Unreadable || self.thread_id is Some
    }

    /// The outcome that a report holds. So many bytes have been processed.
    pub fn to_outcome(self, bytes_processed: u64) -> (r: RolloutMigrationOutcome)
        requires
            self.names_thread(),
        ensures
            reports_verdict(r, self, bytes_processed),
    {
        let PathVerdict { thread_id, path, verdict, preserved_source_path } = self;
        match verdict {
            Verdict::Unreadable { empty, failure } => {
                if empty {
                    RolloutMigrationOutcome {
                        thread_id,
                        rollout_path: path,
                        status: RolloutMigrationStatus::SkippedEmpty,
                        failure_reason: None,
                        preserved_source_path,
                        bytes_processed,
                        message: None,
                    }
                } else {
                    RolloutMigrationOutcome {
                        thread_id,
                        rollout_path: path,
                        status: RolloutMigrationStatus::Failed,
                        failure_reason: Some(failure.reason),
                        preserved_source_path,
                        bytes_processed,
                        message: Some(failure.error.to_text()),
                    }
                }
            },
            verdict => {
                let thread: ThreadId = match thread_id {
                    Some(thread) => thread,
                    None => {
                        assert(false);
                        ThreadId::from_u128(0)
                    },
                };
                let mut outcome = match verdict {
                    Verdict::Status(status) => migration_outcome(
                        thread,
                        path,
                        Ok(status),
                        bytes_processed,
                    ),
                    Verdict::Busy { message, counted } => skipped_busy_outcome(
                        thread,
                        path,
                        message.to_text(),
                        if counted {
                            bytes_processed
                        } else {
                            0
                        },
                    ),
                    Verdict::RecoveryConflict { message } => recovery_conflict_outcome(
                        thread,
                        path,
                        message,
                        bytes_processed,
                    ),
                    Verdict::NotCleanedUp { failure, cleanup } => {
                        let text: String = concat3(
                            failure.error.to_text().as_str(),
                            "; failed to clean up unpublished migration: ",
                            cleanup.to_text().as_str(),
                        );
                        migration_outcome(
                            thread,
                            path,
                            Err(
                                RolloutMigrationFailure::new(
                                    failure.reason,
                                    migration_error(text.as_str()),
                                ),
                            ),
                            bytes_processed,
                        )
                    },
                    Verdict::Failed(failure) => migration_outcome(
                        thread,
                        path,
                        Err(failure),
                        bytes_processed,
                    ),
                    Verdict::MigrationFailed(failure) => match failure.error {
                        ThreadStoreError::Conflict { message } => skipped_busy_outcome(
                            thread,
                            path,
                            message,
                            bytes_processed,
                        ),
                        error => migration_outcome(
                            thread,
                            path,
                            Err(RolloutMigrationFailure::new(failure.reason, error)),
                            bytes_processed,
                        ),
                    },
                    Verdict::Unreadable { failure, .. } => migration_outcome(
                        thread,
                        path,
                        Err(failure),
                        bytes_processed,
                    ),
                };
                outcome.preserved_source_path = preserved_source_path;
                outcome
            },
        }
    }
}

/// What started a session, by the text of its label.
pub open spec fn source_view(source: SessionSource) -> (int, Seq<char>) {
    match source {
        SessionSource::InternalMemoryConsolidation => (0, Seq::empty()),
        SessionSource::SubAgentMemoryConsolidation => (1, Seq::empty()),
        SessionSource::SubAgent { label } => (2, label@),
        SessionSource::Other { label } => (3, label@),
    }
}

/// What a thread is for, by the text of its label.
pub open spec fn thread_source_view(source: Option<ThreadSource>) -> (int, Seq<char>) {
    match source {
        None => (0, Seq::empty()),
        Some(ThreadSource::MemoryConsolidation) => (1, Seq::empty()),
        Some(ThreadSource::Subagent) => (2, Seq::empty()),
        Some(ThreadSource::Other { label }) => (3, label@),
    }
}

/// Whether two heads speak of the same thread, stored in the same way and started by the same.
pub open spec fn same_head(a: SessionMeta, b: SessionMeta) -> bool {
    &&& a.id == b.id
    &&& a.history_mode == b.history_mode
    &&& source_view(a.source) == source_view(b.source)
    &&& thread_source_view(a.thread_source) == thread_source_view(b.thread_source)
}

fn heads_agree(a: &SessionMeta, b: &SessionMeta) -> (r: bool)
    ensures
        r == same_head(*a, *b),
{
    let sources: bool = match (&a.source, &b.source) {
        (
            SessionSource::InternalMemoryConsolidation,
            SessionSource::InternalMemoryConsolidation,
        ) => true,
        (
            SessionSource::SubAgentMemoryConsolidation,
            SessionSource::SubAgentMemoryConsolidation,
        ) => true,
        (SessionSource::SubAgent { label: x }, SessionSource::SubAgent { label: y }) => *x == *y,
        (SessionSource::Other { label: x }, SessionSource::Other { label: y }) => *x == *y,
        _ => false,
    };
    let threads: bool = match (&a.thread_source, &b.thread_source) {
        (None, None) => true,
        (Some(ThreadSource::MemoryConsolidation), Some(ThreadSource::MemoryConsolidation)) => true,
        (Some(ThreadSource::Subagent), Some(ThreadSource::Subagent)) => true,
        (
            Some(ThreadSource::Other { label: x }),
            Some(ThreadSource::Other { label: y }),
        ) => *x == *y,
        _ => false,
    };
    a.id == b.id && a.history_mode == b.history_mode && sources && threads
}

/// Whether a rollout is that of a subagent. Memory consolidation is not, whoever runs it.
pub open spec fn kind_of(metadata: SessionMeta) -> RolloutMigrationKind {
    let consolidation = metadata.source is InternalMemoryConsolidation || metadata.source
        is SubAgentMemoryConsolidation || metadata.thread_source == Some(
        ThreadSource::MemoryConsolidation,
    );
    if !consolidation && (metadata.source is SubAgent || metadata.thread_source == Some(
        ThreadSource::Subagent,
    )) {
        RolloutMigrationKind::Subagent
    } else {
        RolloutMigrationKind::Ordinary
    }
}

/// Whether a rollout is that of a subagent.
pub fn migration_kind(metadata: &SessionMeta) -> (r: RolloutMigrationKind)
    ensures
        r == kind_of(*metadata),
{
    let consolidation: bool = (match &metadata.source {
        SessionSource::InternalMemoryConsolidation => true,
        SessionSource::SubAgentMemoryConsolidation => true,
        _ => false,
    }) || (match &metadata.thread_source {
        Some(ThreadSource::MemoryConsolidation) => true,
        _ => false,
    });
    let subagent: bool = (match &metadata.source {
        SessionSource::SubAgent { .. } => true,
        _ => false,
    }) || (match &metadata.thread_source {
        Some(ThreadSource::Subagent) => true,
        _ => false,
    });
    if !consolidation && subagent {
        RolloutMigrationKind::Subagent
    } else {
        RolloutMigrationKind::Ordinary
    }
}

/// The name under which the legacy source of a rollout would be kept, where the rollout has a file
/// name.
pub fn preserved_candidate(path: &RolloutPath) -> (r: Option<RolloutPath>)
    ensures
        r is Some == file_name_of(path@) is Some,
        r is Some ==> r->0@ == preserved_of(path@),
{
    match preserved_legacy_rollout_path(path) {
        Ok(candidate) => Some(candidate),
        Err(_) => None,
    }
}

/// What is done with one discovered rollout.
#[derive(Debug)]
pub struct MigratePath {
    pub mode: RolloutMigrationMode,
    pub thread_ids: Vec<ThreadId>,
    pub path: RolloutPath,
    pub stage: PathStage,
}

/// The steps for one rollout.
#[allow(inconsistent_fields)]
#[derive(Debug)]
pub enum PathStage {
    Inspecting { retried: bool },
    CountingFailure { retried: bool, failure: RolloutValidationFailure },
    FindingMoved { failure: RolloutValidationFailure },
    CheckingEmpty { thread_id: Option<ThreadId>, failure: RolloutValidationFailure },
    LockingEmpty { thread_id: ThreadId },
    InspectingEmpty { thread_id: ThreadId },
    CountingEmpty { thread_id: ThreadId, failure: RolloutValidationFailure },
    UnlockingEmpty { thread_id: ThreadId, failure: RolloutValidationFailure },
    UnlockingInspected { inspection: RolloutInspection },
    RecheckingEmpty { thread_id: Option<ThreadId>, failure: RolloutValidationFailure },
    CountingInspection { metadata: SessionMeta },
    Validating { metadata: SessionMeta, retried: bool },
    FindingValidated { metadata: SessionMeta, failure: RolloutValidationFailure },
    CountingValidated { metadata: SessionMeta, found: SessionMeta },
    CountingInvalid { thread_id: ThreadId, failure: RolloutValidationFailure },
    CheckingPending { metadata: SessionMeta },
    CheckingRetained { metadata: SessionMeta, pending: bool },
    LockingRetained { metadata: SessionMeta, pending: bool },
    VerifyingRetained { metadata: SessionMeta, pending: bool },
    UnlockingRetained { metadata: SessionMeta, pending: bool },
    ReadingPending { metadata: SessionMeta },
    LockingPending { metadata: SessionMeta, recorded: Option<RolloutPath> },
    Recovering { metadata: SessionMeta, recorded: Option<RolloutPath> },
    UnlockingRecovered {
        thread_id: ThreadId,
        recorded: Option<RolloutPath>,
        verdict: Verdict,
    },
    Promoting { metadata: SessionMeta },
    FindingPreserved { thread_id: ThreadId, verdict: Verdict },
    LockingLegacy { metadata: SessionMeta },
    CheckingLocked { metadata: SessionMeta },
    FindingLocked { metadata: SessionMeta },
    InspectingLocked { metadata: SessionMeta },
    CountingLocked { metadata: SessionMeta, found: SessionMeta },
    Migrating { metadata: SessionMeta },
    CleaningUp { thread_id: ThreadId, failure: RolloutMigrationFailure },
}

/// The phases of handling one rollout.
#[derive(Clone, Copy, Debug, PartialEq, Eq, Structural)]
pub enum PathPhase {
    Reading,
    Validation,
    Migrated,
    Legacy,
}

/// The phase that a step belongs to.
pub open spec fn phase_of(stage: PathStage) -> PathPhase {
    match stage {
        PathStage::Inspecting { .. } => PathPhase::Reading,
        PathStage::CountingFailure { .. } => PathPhase::Reading,
        PathStage::FindingMoved { .. } => PathPhase::Reading,
        PathStage::CheckingEmpty { .. } => PathPhase::Reading,
        PathStage::LockingEmpty { .. } => PathPhase::Reading,
        PathStage::InspectingEmpty { .. } => PathPhase::Reading,
        PathStage::CountingEmpty { .. } => PathPhase::Reading,
        PathStage::UnlockingEmpty { .. } => PathPhase::Reading,
        PathStage::UnlockingInspected { .. } => PathPhase::Reading,
        PathStage::RecheckingEmpty { .. } => PathPhase::Reading,
        PathStage::CountingInspection { .. } => PathPhase::Validation,
        PathStage::Validating { .. } => PathPhase::Validation,
        PathStage::FindingValidated { .. } => PathPhase::Validation,
        PathStage::CountingValidated { .. } => PathPhase::Validation,
        PathStage::CountingInvalid { .. } => PathPhase::Validation,
        PathStage::CheckingPending { .. } => PathPhase::Migrated,
        PathStage::CheckingRetained { .. } => PathPhase::Migrated,
        PathStage::LockingRetained { .. } => PathPhase::Migrated,
        PathStage::VerifyingRetained { .. } => PathPhase::Migrated,
        PathStage::UnlockingRetained { .. } => PathPhase::Migrated,
        PathStage::ReadingPending { .. } => PathPhase::Migrated,
        PathStage::LockingPending { .. } => PathPhase::Migrated,
        PathStage::Recovering { .. } => PathPhase::Migrated,
        PathStage::UnlockingRecovered { .. } => PathPhase::Migrated,
        PathStage::Promoting { .. } => PathPhase::Migrated,
        PathStage::FindingPreserved { .. } => PathPhase::Migrated,
        _ => PathPhase::Legacy,
    }
}

fn find_phase(stage: &PathStage) -> (r: PathPhase)
    ensures
        r == phase_of(*stage),
{
    match stage {
        PathStage::Inspecting { .. } => PathPhase::Reading,
        PathStage::CountingFailure { .. } => PathPhase::Reading,
        PathStage::FindingMoved { .. } => PathPhase::Reading,
        PathStage::CheckingEmpty { .. } => PathPhase::Reading,
        PathStage::LockingEmpty { .. } => PathPhase::Reading,
        PathStage::InspectingEmpty { .. } => PathPhase::Reading,
        PathStage::CountingEmpty { .. } => PathPhase::Reading,
        PathStage::UnlockingEmpty { .. } => PathPhase::Reading,
        PathStage::UnlockingInspected { .. } => PathPhase::Reading,
        PathStage::RecheckingEmpty { .. } => PathPhase::Reading,
        PathStage::CountingInspection { .. } => PathPhase::Validation,
        PathStage::Validating { .. } => PathPhase::Validation,
        PathStage::FindingValidated { .. } => PathPhase::Validation,
        PathStage::CountingValidated { .. } => PathPhase::Validation,
        PathStage::CountingInvalid { .. } => PathPhase::Validation,
        PathStage::CheckingPending { .. } => PathPhase::Migrated,
        PathStage::CheckingRetained { .. } => PathPhase::Migrated,
        PathStage::LockingRetained { .. } => PathPhase::Migrated,
        PathStage::VerifyingRetained { .. } => PathPhase::Migrated,
        PathStage::UnlockingRetained { .. } => PathPhase::Migrated,
        PathStage::ReadingPending { .. } => PathPhase::Migrated,
        PathStage::LockingPending { .. } => PathPhase::Migrated,
        PathStage::Recovering { .. } => PathPhase::Migrated,
        PathStage::UnlockingRecovered { .. } => PathPhase::Migrated,
        PathStage::Promoting { .. } => PathPhase::Migrated,
        PathStage::FindingPreserved { .. } => PathPhase::Migrated,
        _ => PathPhase::Legacy,
    }
}

/// Where the handling of one rollout stands. It ends with what became of the rollout, or with
/// nothing where the rollout was not asked for.
#[derive(Debug)]
pub enum PathStep {
    Ask(MigratePath, PathAction),
    End(Result<Option<PathVerdict>, StoreProblem>),
}

/// The problem that a reply stands for, where it does not carry the handling on.
pub open spec fn path_reply_problem(reply: PathReply) -> StoreProblem {
    match reply {
        PathReply::Rejected(error) => StoreProblem::Rejected(error),
        PathReply::Failed(message) => StoreProblem::Failed(message),
        _ => StoreProblem::UnexpectedReply,
    }
}

fn path_problem_of(reply: PathReply) -> (r: StoreProblem)
    ensures
        r == path_reply_problem(reply),
{
    match reply {
        PathReply::Rejected(error) => StoreProblem::Rejected(error),
        PathReply::Failed(message) => StoreProblem::Failed(message),
        _ => StoreProblem::UnexpectedReply,
    }
}

/// Whether the indexed history was already replaced when a migration failed.
pub open spec fn replaced_projection(reason: RolloutMigrationFailureReason) -> bool {
    reason == RolloutMigrationFailureReason::SqliteMaterializationFailed || reason
        == RolloutMigrationFailureReason::RolloutPublishFailed
}

impl MigratePath {
    pub open spec fn at(self, stage: PathStage) -> MigratePath {
        MigratePath { stage, ..self }
    }

    pub open spec fn ask(self, stage: PathStage, action: PathAction) -> PathStep {
        PathStep::Ask(self.at(stage), action)
    }

    /// How much of a rollout is looked over at first: where some threads are asked for, only as
    /// much as tells whether this is one of them.
    pub open spec fn first_depth(self) -> RolloutInspectionDepth {
        if self.thread_ids@.len() == 0 {
            RolloutInspectionDepth::FullLegacy
        } else {
            RolloutInspectionDepth::MetadataOnly
        }
    }

    pub open spec fn ended(
        self,
        thread_id: ThreadId,
        verdict: Verdict,
        preserved_source_path: Option<RolloutPath>,
    ) -> PathStep {
        PathStep::End(
            Ok(
                Some(
                    PathVerdict {
                        thread_id: Some(thread_id),
                        path: self.path,
                        verdict,
                        preserved_source_path,
                    },
                ),
            ),
        )
    }

    pub open spec fn busy(self, thread_id: ThreadId, message: BusyMessage) -> PathStep {
        self.ended(thread_id, Verdict::Busy { message, counted: true }, None)
    }

    pub open spec fn inspecting(self, retried: bool) -> PathStep {
        self.ask(
            PathStage::Inspecting { retried },
            PathAction::Inspect { path: self.path, depth: self.first_depth() },
        )
    }

    /// A rollout that cannot be inspected: is it empty?
    pub open spec fn unreadable(self, failure: RolloutValidationFailure) -> PathStep {
        let thread_id = rollout_id_in_path(self.path@);
        if selects(self.thread_ids@, thread_id) {
            self.ask(
                PathStage::CheckingEmpty { thread_id, failure },
                PathAction::IsEmpty { path: self.path },
            )
        } else {
            PathStep::End(Ok(None))
        }
    }

    pub open spec fn rechecking(
        self,
        thread_id: Option<ThreadId>,
        failure: RolloutValidationFailure,
    ) -> PathStep {
        self.ask(
            PathStage::RecheckingEmpty { thread_id, failure },
            PathAction::IsEmpty { path: self.path },
        )
    }

    /// A rollout that was inspected: is it asked for?
    pub open spec fn inspected(self, inspection: RolloutInspection) -> PathStep {
        if selects(self.thread_ids@, Some(inspection.metadata.id)) {
            self.ask(
                PathStage::CountingInspection { metadata: inspection.metadata },
                PathAction::Account { bytes: inspection.bytes_processed },
            )
        } else {
            PathStep::End(Ok(None))
        }
    }

    pub open spec fn validating(self, metadata: SessionMeta, retried: bool) -> PathStep {
        self.ask(
            PathStage::Validating { metadata, retried },
            PathAction::Inspect { path: self.path, depth: RolloutInspectionDepth::FullLegacy },
        )
    }

    pub open spec fn counting_invalid(
        self,
        thread_id: ThreadId,
        failure: RolloutValidationFailure,
    ) -> PathStep {
        self.ask(
            PathStage::CountingInvalid { thread_id, failure },
            PathAction::Account { bytes: failure.bytes_processed },
        )
    }

    pub open spec fn locking(self, stage: PathStage, thread_id: ThreadId) -> PathStep {
        self.ask(stage, PathAction::Lock { thread_id, live: true })
    }

    pub open spec fn finding_preserved(self, thread_id: ThreadId, verdict: Verdict) -> PathStep {
        self.ask(
            PathStage::FindingPreserved { thread_id, verdict },
            PathAction::FindPreserved { path: self.path },
        )
    }

    /// What a valid rollout calls for.
    pub open spec fn decided(self, metadata: SessionMeta) -> PathStep {
        match metadata.history_mode {
            ThreadHistoryMode::Paginated => self.ended(
                metadata.id,
                Verdict::Status(RolloutMigrationStatus::AlreadyPaginated),
                None,
            ),
            ThreadHistoryMode::PaginatedRefsV1 => if self.mode == RolloutMigrationMode::Apply {
                self.ask(
                    PathStage::CheckingPending { metadata },
                    PathAction::PendingExists { thread_id: metadata.id },
                )
            } else {
                self.finding_preserved(
                    metadata.id,
                    Verdict::Status(RolloutMigrationStatus::AlreadyPaginated),
                )
            },
            ThreadHistoryMode::Legacy => if self.mode == RolloutMigrationMode::Apply {
                self.locking(PathStage::LockingLegacy { metadata }, metadata.id)
            } else {
                self.ended(metadata.id, Verdict::Status(RolloutMigrationStatus::Eligible), None)
            },
        }
    }

    /// A migrated rollout whose retained source, if any, is unchanged.
    pub open spec fn undiverged(self, metadata: SessionMeta, pending: bool) -> PathStep {
        if pending {
            self.ask(
                PathStage::ReadingPending { metadata },
                PathAction::ReadPending { thread_id: metadata.id },
            )
        } else {
            self.ask(
                PathStage::Promoting { metadata },
                PathAction::PromoteName { thread_id: metadata.id, mode: metadata.history_mode },
            )
        }
    }

    pub open spec fn inspecting_locked(self, metadata: SessionMeta) -> PathStep {
        self.ask(
            PathStage::InspectingLocked { metadata },
            PathAction::Inspect { path: self.path, depth: RolloutInspectionDepth::FullLegacy },
        )
    }

    /// Where the handling goes from a reply.
    pub open spec fn next(self, reply: PathReply) -> PathStep {
        match phase_of(self.stage) {
            PathPhase::Reading => self.next_in_reading(reply),
            PathPhase::Validation => self.next_in_validation(reply),
            PathPhase::Migrated => self.next_in_migrated(reply),
            PathPhase::Legacy => self.next_in_legacy(reply),
        }
    }

    /// Where the handling goes from a reply while a rollout is looked over for the first time.
    pub open spec fn next_in_reading(self, reply: PathReply) -> PathStep {
        match (self.stage, reply) {
            (PathStage::Inspecting { .. }, PathReply::Inspected(Ok(inspection))) => self.inspected(
                inspection,
            ),
            (PathStage::Inspecting { retried }, PathReply::Inspected(Err(failure))) => self.ask(
                PathStage::CountingFailure { retried, failure },
                PathAction::Account { bytes: failure.bytes_processed },
            ),
            (PathStage::CountingFailure { retried, failure }, PathReply::Done) => if !retried
                && failure.read_error_kind == Some(ReadErrorKind::NotFound) {
                self.ask(
                    PathStage::FindingMoved { failure },
                    PathAction::FindCurrent { path: self.path },
                )
            } else {
                self.unreadable(failure)
            },
            (PathStage::FindingMoved { .. }, PathReply::Found(Some(path))) => MigratePath {
                path,
                ..self
            }.inspecting(true),
            (PathStage::FindingMoved { failure }, PathReply::Found(None)) => self.unreadable(
                failure,
            ),
            (PathStage::CheckingEmpty { thread_id, failure }, PathReply::Answer(empty)) => {
                if empty && self.mode == RolloutMigrationMode::Apply && thread_id is Some {
                    self.ask(
                        PathStage::LockingEmpty { thread_id: thread_id->0 },
                        PathAction::Lock { thread_id: thread_id->0, live: false },
                    )
                } else {
                    self.rechecking(thread_id, failure)
                }
            },
            (PathStage::LockingEmpty { thread_id }, PathReply::Done) => self.ask(
                PathStage::InspectingEmpty { thread_id },
                PathAction::Inspect { path: self.path, depth: self.first_depth() },
            ),
            (
                PathStage::LockingEmpty { thread_id },
                PathReply::Rejected(ThreadStoreError::Conflict { message }),
            ) => self.ended(
                thread_id,
                Verdict::Busy { message: BusyMessage::Given(message), counted: false },
                None,
            ),
            (PathStage::InspectingEmpty { .. }, PathReply::Inspected(Ok(inspection))) => self.ask(
                PathStage::UnlockingInspected { inspection },
                PathAction::Unlock,
            ),
            (PathStage::InspectingEmpty { thread_id }, PathReply::Inspected(Err(failure))) => {
                self.ask(
                    PathStage::CountingEmpty { thread_id, failure },
                    PathAction::Account { bytes: failure.bytes_processed },
                )
            },
            (PathStage::CountingEmpty { thread_id, failure }, PathReply::Done) => self.ask(
                PathStage::UnlockingEmpty { thread_id, failure },
                PathAction::Unlock,
            ),
            (PathStage::UnlockingEmpty { thread_id, failure }, PathReply::Done) => self.rechecking(
                Some(thread_id),
                failure,
            ),
            (PathStage::UnlockingInspected { inspection }, PathReply::Done) => self.inspected(
                inspection,
            ),
            (PathStage::RecheckingEmpty { thread_id, failure }, PathReply::Answer(empty)) => {
                PathStep::End(
                    Ok(
                        Some(
                            PathVerdict {
                                thread_id,
                                path: self.path,
                                verdict: Verdict::Unreadable { empty, failure: failure.failure },
                                preserved_source_path: None,
                            },
                        ),
                    ),
                )
            },
            (_, reply) => PathStep::End(Err(path_reply_problem(reply))),
        }
    }

    /// Where the handling goes from a reply while a legacy rollout is validated.
    pub open spec fn next_in_validation(self, reply: PathReply) -> PathStep {
        match (self.stage, reply) {
            (PathStage::CountingInspection { metadata }, PathReply::Done) => if metadata.history_mode
                == ThreadHistoryMode::Legacy && self.first_depth()
                == RolloutInspectionDepth::MetadataOnly {
                self.validating(metadata, false)
            } else {
                self.decided(metadata)
            },
            (PathStage::Validating { metadata, .. }, PathReply::Inspected(Ok(inspection))) => {
                self.ask(
                    PathStage::CountingValidated { metadata, found: inspection.metadata },
                    PathAction::Account { bytes: inspection.bytes_processed },
                )
            },
            (PathStage::Validating { metadata, retried }, PathReply::Inspected(Err(failure))) => {
                if !retried && failure.read_error_kind == Some(ReadErrorKind::NotFound) {
                    self.ask(
                        PathStage::FindingValidated { metadata, failure },
                        PathAction::FindCurrent { path: self.path },
                    )
                } else {
                    self.counting_invalid(metadata.id, failure)
                }
            },
            (PathStage::FindingValidated { metadata, .. }, PathReply::Found(Some(path))) => {
                MigratePath { path, ..self }.validating(metadata, true)
            },
            (PathStage::FindingValidated { metadata, failure }, PathReply::Found(None)) => {
                self.counting_invalid(metadata.id, failure)
            },
            (PathStage::CountingValidated { metadata, found }, PathReply::Done) => if same_head(
                found,
                metadata,
            ) {
                self.decided(metadata)
            } else {
                self.busy(metadata.id, BusyMessage::ChangedDuringValidation)
            },
            (PathStage::CountingInvalid { thread_id, failure }, PathReply::Done) => self.ended(
                thread_id,
                Verdict::Failed(failure.failure),
                None,
            ),
            (_, reply) => PathStep::End(Err(path_reply_problem(reply))),
        }
    }

    /// Where the handling goes from a reply while a rollout is already migrated.
    pub open spec fn next_in_migrated(self, reply: PathReply) -> PathStep {
        match (self.stage, reply) {
            (PathStage::CheckingPending { metadata }, PathReply::Answer(pending)) => self.ask(
                PathStage::CheckingRetained { metadata, pending },
                PathAction::RetainedExists { thread_id: metadata.id },
            ),
            (PathStage::CheckingRetained { metadata, pending }, PathReply::Answer(retained)) => {
                if retained {
                    self.locking(PathStage::LockingRetained { metadata, pending }, metadata.id)
                } else {
                    self.undiverged(metadata, pending)
                }
            },
            (PathStage::LockingRetained { metadata, pending }, PathReply::Done) => self.ask(
                PathStage::VerifyingRetained { metadata, pending },
                PathAction::VerifyRetained { thread_id: metadata.id, selected: self.path },
            ),
            (
                PathStage::LockingRetained { metadata, .. },
                PathReply::Rejected(ThreadStoreError::Conflict { message }),
            ) => self.busy(metadata.id, BusyMessage::Given(message)),
            (PathStage::VerifyingRetained { metadata, pending }, PathReply::Done) => self.ask(
                PathStage::UnlockingRetained { metadata, pending },
                PathAction::Unlock,
            ),
            (
                PathStage::VerifyingRetained { metadata, .. },
                PathReply::Rejected(ThreadStoreError::Conflict { message }),
            ) => self.ended(metadata.id, Verdict::RecoveryConflict { message }, None),
            (PathStage::UnlockingRetained { metadata, pending }, PathReply::Done) => {
                self.undiverged(metadata, pending)
            },
            (PathStage::ReadingPending { metadata }, PathReply::Journal(record)) => self.locking(
                PathStage::LockingPending {
                    metadata,
                    recorded: match record {
                        Some(recovery) => Some(recovery.preserved_source_path),
                        None => None,
                    },
                },
                metadata.id,
            ),
            (PathStage::LockingPending { metadata, recorded }, PathReply::Done) => self.ask(
                PathStage::Recovering { metadata, recorded },
                PathAction::Recover { thread_id: metadata.id, path: self.path },
            ),
            (
                PathStage::LockingPending { metadata, .. },
                PathReply::Rejected(ThreadStoreError::Conflict { message }),
            ) => self.busy(metadata.id, BusyMessage::Given(message)),
            (PathStage::Recovering { metadata, recorded }, PathReply::Recovered(Ok(path))) => {
                MigratePath { path, ..self }.ask(
                    PathStage::UnlockingRecovered {
                        thread_id: metadata.id,
                        recorded,
                        verdict: Verdict::Status(RolloutMigrationStatus::Migrated),
                    },
                    PathAction::Unlock,
                )
            },
            (
                PathStage::Recovering { metadata, .. },
                PathReply::Recovered(Err(ThreadStoreError::Conflict { message })),
            ) => self.ended(metadata.id, Verdict::RecoveryConflict { message }, None),
            (PathStage::Recovering { metadata, recorded }, PathReply::Recovered(Err(error))) => {
                self.ask(
                    PathStage::UnlockingRecovered {
                        thread_id: metadata.id,
                        recorded,
                        verdict: Verdict::Failed(
                            RolloutMigrationFailure {
                                reason:
                                    RolloutMigrationFailureReason::InterruptedMigrationRecoveryFailed,
                                error,
                            },
                        ),
                    },
                    PathAction::Unlock,
                )
            },
            (
                PathStage::UnlockingRecovered { thread_id, recorded, verdict },
                PathReply::Done,
            ) => if recorded is Some {
                self.ended(thread_id, verdict, recorded)
            } else {
                self.finding_preserved(thread_id, verdict)
            },
            (PathStage::Promoting { metadata }, PathReply::Done) => self.finding_preserved(
                metadata.id,
                Verdict::Status(RolloutMigrationStatus::AlreadyPaginated),
            ),
            (PathStage::FindingPreserved { thread_id, verdict }, PathReply::Found(preserved)) => {
                self.ended(thread_id, verdict, preserved)
            },
            (_, reply) => PathStep::End(Err(path_reply_problem(reply))),
        }
    }

    /// Where the handling goes from a reply while a legacy rollout is migrated.
    pub open spec fn next_in_legacy(self, reply: PathReply) -> PathStep {
        match (self.stage, reply) {
            (PathStage::LockingLegacy { metadata }, PathReply::Done) => self.ask(
                PathStage::CheckingLocked { metadata },
                PathAction::Exists { path: self.path },
            ),
            (
                PathStage::LockingLegacy { metadata },
                PathReply::Rejected(ThreadStoreError::Conflict { message }),
            ) => self.busy(metadata.id, BusyMessage::Given(message)),
            (PathStage::LockingLegacy { metadata }, PathReply::Rejected(error)) => self.ended(
                metadata.id,
                Verdict::Failed(
                    RolloutMigrationFailure {
                        reason: RolloutMigrationFailureReason::Unknown,
                        error,
                    },
                ),
                None,
            ),
            (PathStage::CheckingLocked { metadata }, PathReply::Answer(exists)) => if exists {
                self.inspecting_locked(metadata)
            } else {
                self.ask(
                    PathStage::FindingLocked { metadata },
                    PathAction::FindCurrent { path: self.path },
                )
            },
            (PathStage::FindingLocked { metadata }, PathReply::Found(Some(path))) => MigratePath {
                path,
                ..self
            }.inspecting_locked(metadata),
            (PathStage::FindingLocked { metadata }, PathReply::Found(None)) => {
                self.inspecting_locked(metadata)
            },
            (PathStage::InspectingLocked { metadata }, PathReply::Inspected(Ok(inspection))) => {
                self.ask(
                    PathStage::CountingLocked { metadata, found: inspection.metadata },
                    PathAction::Account { bytes: inspection.bytes_processed },
                )
            },
            (PathStage::InspectingLocked { metadata }, PathReply::Inspected(Err(failure))) => {
                self.counting_invalid(metadata.id, failure)
            },
            (PathStage::CountingLocked { metadata, found }, PathReply::Done) => if same_head(
                found,
                metadata,
            ) && found.history_mode == ThreadHistoryMode::Legacy {
                self.ask(
                    PathStage::Migrating { metadata },
                    PathAction::MigrateOne {
                        thread_id: metadata.id,
                        mode: metadata.history_mode,
                        path: self.path,
                        kind: kind_of(metadata),
                    },
                )
            } else {
                self.busy(metadata.id, BusyMessage::ChangedWhileWaiting)
            },
            (PathStage::Migrating { metadata }, PathReply::Migrated(Ok(published))) => {
                MigratePath { path: published.rollout_path, ..self }.ended(
                    metadata.id,
                    Verdict::Status(RolloutMigrationStatus::Migrated),
                    Some(published.preserved_source_path),
                )
            },
            (PathStage::Migrating { metadata }, PathReply::Migrated(Err(failure))) => self.ask(
                PathStage::CleaningUp { thread_id: metadata.id, failure },
                PathAction::CleanUp {
                    thread_id: metadata.id,
                    mode: metadata.history_mode,
                    projection_was_replaced: replaced_projection(failure.reason),
                    path: self.path,
                },
            ),
            (PathStage::CleaningUp { thread_id, failure }, PathReply::Done) => {
                self.finding_preserved(thread_id, Verdict::MigrationFailed(failure))
            },
            (PathStage::CleaningUp { thread_id, failure }, PathReply::Rejected(cleanup)) => {
                self.finding_preserved(thread_id, Verdict::NotCleanedUp { failure, cleanup })
            },
            (_, reply) => PathStep::End(Err(path_reply_problem(reply))),
        }
    }
}

impl MigratePath {
    /// The handling of a discovered rollout.
    pub fn new(mode: RolloutMigrationMode, thread_ids: Vec<ThreadId>, path: RolloutPath) -> (r:
        MigratePath)
        ensures
            r.mode == mode,
            r.thread_ids == thread_ids,
            r.path == path,
            r.stage == (PathStage::Inspecting { retried: false }),
    {
        MigratePath { mode, thread_ids, path, stage: PathStage::Inspecting { retried: false } }
    }

    /// Begins by looking over the rollout.
    pub fn begin(self) -> (r: PathStep)
        ensures
            r == self.inspecting(false),
    {
        self.inspect(false)
    }

    fn go(self, stage: PathStage, action: PathAction) -> (r: PathStep)
        ensures
            r == self.ask(stage, action),
    {
        PathStep::Ask(MigratePath { stage, ..self }, action)
    }

    fn depth(&self) -> (r: RolloutInspectionDepth)
        ensures
            r == self.first_depth(),
    {
        if self.thread_ids.len() == 0 {
            RolloutInspectionDepth::FullLegacy
        } else {
            RolloutInspectionDepth::MetadataOnly
        }
    }

    fn end(
        self,
        thread_id: ThreadId,
        verdict: Verdict,
        preserved_source_path: Option<RolloutPath>,
    ) -> (r: PathStep)
        ensures
            r == self.ended(thread_id, verdict, preserved_source_path),
    {
        PathStep::End(
            Ok(
                Some(
                    PathVerdict {
                        thread_id: Some(thread_id),
                        path: self.path,
                        verdict,
                        preserved_source_path,
                    },
                ),
            ),
        )
    }

    fn end_busy(self, thread_id: ThreadId, message: BusyMessage) -> (r: PathStep)
        ensures
            r == self.busy(thread_id, message),
    {
        self.end(thread_id, Verdict::Busy { message, counted: true }, None)
    }

    fn inspect(self, retried: bool) -> (r: PathStep)
        ensures
            r == self.inspecting(retried),
    {
        let action = PathAction::Inspect { path: self.path.clone(), depth: self.depth() };
        self.go(PathStage::Inspecting { retried }, action)
    }

    fn give_up_reading(self, failure: RolloutValidationFailure) -> (r: PathStep)
        ensures
            r == self.unreadable(failure),
    {
        let thread_id: Option<ThreadId> = thread_id_from_rollout_filename(&self.path);
        if !matches_selection(&self.thread_ids, thread_id) {
            return PathStep::End(Ok(None));
        }
        let action = PathAction::IsEmpty { path: self.path.clone() };
        self.go(PathStage::CheckingEmpty { thread_id, failure }, action)
    }

    fn recheck(self, thread_id: Option<ThreadId>, failure: RolloutValidationFailure) -> (r:
        PathStep)
        ensures
            r == self.rechecking(thread_id, failure),
    {
        let action = PathAction::IsEmpty { path: self.path.clone() };
        self.go(PathStage::RecheckingEmpty { thread_id, failure }, action)
    }

    fn take_inspection(self, inspection: RolloutInspection) -> (r: PathStep)
        ensures
            r == self.inspected(inspection),
    {
        if !matches_selection(&self.thread_ids, Some(inspection.metadata.id)) {
            return PathStep::End(Ok(None));
        }
        let bytes: u64 = inspection.bytes_processed;
        self.go(
            PathStage::CountingInspection { metadata: inspection.metadata },
            PathAction::Account { bytes },
        )
    }

    fn validate(self, metadata: SessionMeta, retried: bool) -> (r: PathStep)
        ensures
            r == self.validating(metadata, retried),
    {
        let action = PathAction::Inspect {
            path: self.path.clone(),
            depth: RolloutInspectionDepth::FullLegacy,
        };
        self.go(PathStage::Validating { metadata, retried }, action)
    }

    fn count_invalid(self, thread_id: ThreadId, failure: RolloutValidationFailure) -> (r: PathStep)
        ensures
            r == self.counting_invalid(thread_id, failure),
    {
        let bytes: u64 = failure.bytes_processed;
        self.go(PathStage::CountingInvalid { thread_id, failure }, PathAction::Account { bytes })
    }

    fn lock(self, stage: PathStage, thread_id: ThreadId) -> (r: PathStep)
        ensures
            r == self.locking(stage, thread_id),
    {
        self.go(stage, PathAction::Lock { thread_id, live: true })
    }

    fn find_preserved(self, thread_id: ThreadId, verdict: Verdict) -> (r: PathStep)
        ensures
            r == self.finding_preserved(thread_id, verdict),
    {
        let action = PathAction::FindPreserved { path: self.path.clone() };
        self.go(PathStage::FindingPreserved { thread_id, verdict }, action)
    }

    fn decide(self, metadata: SessionMeta) -> (r: PathStep)
        ensures
            r == self.decided(metadata),
    {
        let thread_id: ThreadId = metadata.id;
        match metadata.history_mode {
            ThreadHistoryMode::Paginated => self.end(
                thread_id,
                Verdict::Status(RolloutMigrationStatus::AlreadyPaginated),
                None,
            ),
            ThreadHistoryMode::PaginatedRefsV1 => {
                if self.mode == RolloutMigrationMode::Apply {
                    self.go(
                        PathStage::CheckingPending { metadata },
                        PathAction::PendingExists { thread_id },
                    )
                } else {
                    self.find_preserved(
                        thread_id,
                        Verdict::Status(RolloutMigrationStatus::AlreadyPaginated),
                    )
                }
            },
            ThreadHistoryMode::Legacy => {
                if self.mode == RolloutMigrationMode::Apply {
                    self.lock(PathStage::LockingLegacy { metadata }, thread_id)
                } else {
                    self.end(thread_id, Verdict::Status(RolloutMigrationStatus::Eligible), None)
                }
            },
        }
    }

    fn go_on_undiverged(self, metadata: SessionMeta, pending: bool) -> (r: PathStep)
        ensures
            r == self.undiverged(metadata, pending),
    {
        let thread_id: ThreadId = metadata.id;
        let mode = metadata.history_mode;
        if pending {
            self.go(PathStage::ReadingPending { metadata }, PathAction::ReadPending { thread_id })
        } else {
            self.go(PathStage::Promoting { metadata }, PathAction::PromoteName { thread_id, mode })
        }
    }

    fn inspect_locked(self, metadata: SessionMeta) -> (r: PathStep)
        ensures
            r == self.inspecting_locked(metadata),
    {
        let action = PathAction::Inspect {
            path: self.path.clone(),
            depth: RolloutInspectionDepth::FullLegacy,
        };
        self.go(PathStage::InspectingLocked { metadata }, action)
    }

    #[verifier::rlimit(30)]
    fn advance_reading(self, reply: PathReply) -> (r: PathStep)
        ensures
            r == self.next_in_reading(reply),
    {
        let MigratePath { mode, thread_ids, path, stage } = self;
        let this = MigratePath {
            mode,
            thread_ids,
            path,
            stage: PathStage::Inspecting { retried: false },
        };
        match (stage, reply) {
            (PathStage::Inspecting { .. }, PathReply::Inspected(Ok(inspection))) => {
                this.take_inspection(inspection)
            },
            (PathStage::Inspecting { retried }, PathReply::Inspected(Err(failure))) => {
                let bytes: u64 = failure.bytes_processed;
                this.go(
                    PathStage::CountingFailure { retried, failure },
                    PathAction::Account { bytes },
                )
            },
            (PathStage::CountingFailure { retried, failure }, PathReply::Done) => {
                if !retried && failure.read_error_kind == Some(ReadErrorKind::NotFound) {
                    let action = PathAction::FindCurrent { path: this.path.clone() };
                    this.go(PathStage::FindingMoved { failure }, action)
                } else {
                    this.give_up_reading(failure)
                }
            },
            (PathStage::FindingMoved { .. }, PathReply::Found(Some(found))) => MigratePath {
                path: found,
                ..this
            }.inspect(true),
            (PathStage::FindingMoved { failure }, PathReply::Found(None)) => {
                this.give_up_reading(failure)
            },
            (PathStage::CheckingEmpty { thread_id, failure }, PathReply::Answer(empty)) => {
                if empty && this.mode == RolloutMigrationMode::Apply {
                    if let Some(thread_id) = thread_id {
                        return this.go(
                            PathStage::LockingEmpty { thread_id },
                            PathAction::Lock { thread_id, live: false },
                        );
                    }
                }
                this.recheck(thread_id, failure)
            },
            (PathStage::LockingEmpty { thread_id }, PathReply::Done) => {
                let action = PathAction::Inspect { path: this.path.clone(), depth: this.depth() };
                this.go(PathStage::InspectingEmpty { thread_id }, action)
            },
            (
                PathStage::LockingEmpty { thread_id },
                PathReply::Rejected(ThreadStoreError::Conflict { message }),
            ) => this.end(
                thread_id,
                Verdict::Busy { message: BusyMessage::Given(message), counted: false },
                None,
            ),
            (PathStage::InspectingEmpty { .. }, PathReply::Inspected(Ok(inspection))) => this.go(
                PathStage::UnlockingInspected { inspection },
                PathAction::Unlock,
            ),
            (PathStage::InspectingEmpty { thread_id }, PathReply::Inspected(Err(failure))) => {
                let bytes: u64 = failure.bytes_processed;
                this.go(
                    PathStage::CountingEmpty { thread_id, failure },
                    PathAction::Account { bytes },
                )
            },
            (PathStage::CountingEmpty { thread_id, failure }, PathReply::Done) => this.go(
                PathStage::UnlockingEmpty { thread_id, failure },
                PathAction::Unlock,
            ),
            (PathStage::UnlockingEmpty { thread_id, failure }, PathReply::Done) => this.recheck(
                Some(thread_id),
                failure,
            ),
            (PathStage::UnlockingInspected { inspection }, PathReply::Done) => {
                this.take_inspection(inspection)
            },
            (PathStage::RecheckingEmpty { thread_id, failure }, PathReply::Answer(empty)) => {
                PathStep::End(
                    Ok(
                        Some(
                            PathVerdict {
                                thread_id,
                                path: this.path,
                                verdict: Verdict::Unreadable { empty, failure: failure.failure },
                                preserved_source_path: None,
                            },
                        ),
                    ),
                )
            },
            (_, reply) => PathStep::End(Err(path_problem_of(reply))),
        }
    }

    #[verifier::rlimit(30)]
    fn advance_validation(self, reply: PathReply) -> (r: PathStep)
        ensures
            r == self.next_in_validation(reply),
    {
        let MigratePath { mode, thread_ids, path, stage } = self;
        let this = MigratePath {
            mode,
            thread_ids,
            path,
            stage: PathStage::Inspecting { retried: false },
        };
        match (stage, reply) {
            (PathStage::CountingInspection { metadata }, PathReply::Done) => {
                if metadata.history_mode == ThreadHistoryMode::Legacy && this.depth()
                    == RolloutInspectionDepth::MetadataOnly {
                    this.validate(metadata, false)
                } else {
                    this.decide(metadata)
                }
            },
            (PathStage::Validating { metadata, .. }, PathReply::Inspected(Ok(inspection))) => {
                let bytes: u64 = inspection.bytes_processed;
                this.go(
                    PathStage::CountingValidated { metadata, found: inspection.metadata },
                    PathAction::Account { bytes },
                )
            },
            (PathStage::Validating { metadata, retried }, PathReply::Inspected(Err(failure))) => {
                if !retried && failure.read_error_kind == Some(ReadErrorKind::NotFound) {
                    let action = PathAction::FindCurrent { path: this.path.clone() };
                    this.go(PathStage::FindingValidated { metadata, failure }, action)
                } else {
                    this.count_invalid(metadata.id, failure)
                }
            },
            (PathStage::FindingValidated { metadata, .. }, PathReply::Found(Some(found))) => {
                MigratePath { path: found, ..this }.validate(metadata, true)
            },
            (PathStage::FindingValidated { metadata, failure }, PathReply::Found(None)) => {
                this.count_invalid(metadata.id, failure)
            },
            (PathStage::CountingValidated { metadata, found }, PathReply::Done) => {
                if heads_agree(&found, &metadata) {
                    this.decide(metadata)
                } else {
                    this.end_busy(metadata.id, BusyMessage::ChangedDuringValidation)
                }
            },
            (PathStage::CountingInvalid { thread_id, failure }, PathReply::Done) => this.end(
                thread_id,
                Verdict::Failed(failure.failure),
                None,
            ),
            (_, reply) => PathStep::End(Err(path_problem_of(reply))),
        }
    }

    #[verifier::rlimit(30)]
    fn advance_migrated(self, reply: PathReply) -> (r: PathStep)
        ensures
            r == self.next_in_migrated(reply),
    {
        let MigratePath { mode, thread_ids, path, stage } = self;
        let this = MigratePath {
            mode,
            thread_ids,
            path,
            stage: PathStage::Inspecting { retried: false },
        };
        match (stage, reply) {
            (PathStage::CheckingPending { metadata }, PathReply::Answer(pending)) => {
                let thread_id: ThreadId = metadata.id;
                this.go(
                    PathStage::CheckingRetained { metadata, pending },
                    PathAction::RetainedExists { thread_id },
                )
            },
            (PathStage::CheckingRetained { metadata, pending }, PathReply::Answer(retained)) => {
                if retained {
                    let thread_id: ThreadId = metadata.id;
                    this.lock(PathStage::LockingRetained { metadata, pending }, thread_id)
                } else {
                    this.go_on_undiverged(metadata, pending)
                }
            },
            (PathStage::LockingRetained { metadata, pending }, PathReply::Done) => {
                let action = PathAction::VerifyRetained {
                    thread_id: metadata.id,
                    selected: this.path.clone(),
                };
                this.go(PathStage::VerifyingRetained { metadata, pending }, action)
            },
            (
                PathStage::LockingRetained { metadata, .. },
                PathReply::Rejected(ThreadStoreError::Conflict { message }),
            ) => this.end_busy(metadata.id, BusyMessage::Given(message)),
            (PathStage::VerifyingRetained { metadata, pending }, PathReply::Done) => this.go(
                PathStage::UnlockingRetained { metadata, pending },
                PathAction::Unlock,
            ),
            (
                PathStage::VerifyingRetained { metadata, .. },
                PathReply::Rejected(ThreadStoreError::Conflict { message }),
            ) => this.end(metadata.id, Verdict::RecoveryConflict { message }, None),
            (PathStage::UnlockingRetained { metadata, pending }, PathReply::Done) => {
                this.go_on_undiverged(metadata, pending)
            },
            (PathStage::ReadingPending { metadata }, PathReply::Journal(record)) => {
                let thread_id: ThreadId = metadata.id;
                let recorded: Option<RolloutPath> = match record {
                    Some(recovery) => Some(recovery.preserved_source_path),
                    None => None,
                };
                this.lock(PathStage::LockingPending { metadata, recorded }, thread_id)
            },
            (PathStage::LockingPending { metadata, recorded }, PathReply::Done) => {
                let action = PathAction::Recover {
                    thread_id: metadata.id,
                    path: this.path.clone(),
                };
                this.go(PathStage::Recovering { metadata, recorded }, action)
            },
            (
                PathStage::LockingPending { metadata, .. },
                PathReply::Rejected(ThreadStoreError::Conflict { message }),
            ) => this.end_busy(metadata.id, BusyMessage::Given(message)),
            (PathStage::Recovering { metadata, recorded }, PathReply::Recovered(Ok(found))) => {
                MigratePath { path: found, ..this }.go(
                    PathStage::UnlockingRecovered {
                        thread_id: metadata.id,
                        recorded,
                        verdict: Verdict::Status(RolloutMigrationStatus::Migrated),
                    },
                    PathAction::Unlock,
                )
            },
            (
                PathStage::Recovering { metadata, .. },
                PathReply::Recovered(Err(ThreadStoreError::Conflict { message })),
            ) => this.end(metadata.id, Verdict::RecoveryConflict { message }, None),
            (PathStage::Recovering { metadata, recorded }, PathReply::Recovered(Err(error))) => {
                this.go(
                    PathStage::UnlockingRecovered {
                        thread_id: metadata.id,
                        recorded,
                        verdict: Verdict::Failed(
                            RolloutMigrationFailure::new(
                                RolloutMigrationFailureReason::InterruptedMigrationRecoveryFailed,
                                error,
                            ),
                        ),
                    },
                    PathAction::Unlock,
                )
            },
            (
                PathStage::UnlockingRecovered { thread_id, recorded, verdict },
                PathReply::Done,
            ) => {
                if recorded.is_some() {
                    this.end(thread_id, verdict, recorded)
                } else {
                    this.find_preserved(thread_id, verdict)
                }
            },
            (PathStage::Promoting { metadata }, PathReply::Done) => this.find_preserved(
                metadata.id,
                Verdict::Status(RolloutMigrationStatus::AlreadyPaginated),
            ),
            (PathStage::FindingPreserved { thread_id, verdict }, PathReply::Found(preserved)) => {
                this.end(thread_id, verdict, preserved)
            },
            (_, reply) => PathStep::End(Err(path_problem_of(reply))),
        }
    }

    #[verifier::rlimit(30)]
    fn advance_legacy(self, reply: PathReply) -> (r: PathStep)
        ensures
            r == self.next_in_legacy(reply),
    {
        let MigratePath { mode, thread_ids, path, stage } = self;
        let this = MigratePath {
            mode,
            thread_ids,
            path,
            stage: PathStage::Inspecting { retried: false },
        };
        match (stage, reply) {
            (PathStage::LockingLegacy { metadata }, PathReply::Done) => {
                let action = PathAction::Exists { path: this.path.clone() };
                this.go(PathStage::CheckingLocked { metadata }, action)
            },
            (
                PathStage::LockingLegacy { metadata },
                PathReply::Rejected(ThreadStoreError::Conflict { message }),
            ) => this.end_busy(metadata.id, BusyMessage::Given(message)),
            (PathStage::LockingLegacy { metadata }, PathReply::Rejected(error)) => this.end(
                metadata.id,
                Verdict::Failed(
                    RolloutMigrationFailure::new(RolloutMigrationFailureReason::Unknown, error),
                ),
                None,
            ),
            (PathStage::CheckingLocked { metadata }, PathReply::Answer(exists)) => {
                if exists {
                    this.inspect_locked(metadata)
                } else {
                    let action = PathAction::FindCurrent { path: this.path.clone() };
                    this.go(PathStage::FindingLocked { metadata }, action)
                }
            },
            (PathStage::FindingLocked { metadata }, PathReply::Found(Some(found))) => MigratePath {
                path: found,
                ..this
            }.inspect_locked(metadata),
            (PathStage::FindingLocked { metadata }, PathReply::Found(None)) => {
                this.inspect_locked(metadata)
            },
            (PathStage::InspectingLocked { metadata }, PathReply::Inspected(Ok(inspection))) => {
                let bytes: u64 = inspection.bytes_processed;
                this.go(
                    PathStage::CountingLocked { metadata, found: inspection.metadata },
                    PathAction::Account { bytes },
                )
            },
            (PathStage::InspectingLocked { metadata }, PathReply::Inspected(Err(failure))) => {
                this.count_invalid(metadata.id, failure)
            },
            (PathStage::CountingLocked { metadata, found }, PathReply::Done) => {
                if heads_agree(&found, &metadata) && found.history_mode
                    == ThreadHistoryMode::Legacy {
                    let action = PathAction::MigrateOne {
                        thread_id: metadata.id,
                        mode: metadata.history_mode,
                        path: this.path.clone(),
                        kind: migration_kind(&metadata),
                    };
                    this.go(PathStage::Migrating { metadata }, action)
                } else {
                    this.end_busy(metadata.id, BusyMessage::ChangedWhileWaiting)
                }
            },
            (PathStage::Migrating { metadata }, PathReply::Migrated(Ok(published))) => {
                MigratePath { path: published.rollout_path, ..this }.end(
                    metadata.id,
                    Verdict::Status(RolloutMigrationStatus::Migrated),
                    Some(published.preserved_source_path),
                )
            },
            (PathStage::Migrating { metadata }, PathReply::Migrated(Err(failure))) => {
                let projection_was_replaced: bool = match failure.reason {
                    RolloutMigrationFailureReason::SqliteMaterializationFailed => true,
                    RolloutMigrationFailureReason::RolloutPublishFailed => true,
                    _ => false,
                };
                let action = PathAction::CleanUp {
                    thread_id: metadata.id,
                    mode: metadata.history_mode,
                    projection_was_replaced,
                    path: this.path.clone(),
                };
                this.go(PathStage::CleaningUp { thread_id: metadata.id, failure }, action)
            },
            (PathStage::CleaningUp { thread_id, failure }, PathReply::Done) => {
                this.find_preserved(thread_id, Verdict::MigrationFailed(failure))
            },
            (PathStage::CleaningUp { thread_id, failure }, PathReply::Rejected(cleanup)) => {
                this.find_preserved(thread_id, Verdict::NotCleanedUp { failure, cleanup })
            },
            (_, reply) => PathStep::End(Err(path_problem_of(reply))),
        }
    }

    /// Carries the handling on from a reply.
    pub fn advance(self, reply: PathReply) -> (r: PathStep)
        ensures
            r == self.next(reply),
    {
        match find_phase(&self.stage) {
            PathPhase::Reading => self.advance_reading(reply),
            PathPhase::Validation => self.advance_validation(reply),
            PathPhase::Migrated => self.advance_migrated(reply),
            PathPhase::Legacy => self.advance_legacy(reply),
        }
    }
}

/// A verdict names the thread that it is about, unless the rollout could not be inspected.
pub proof fn verdicts_name_their_thread(m: MigratePath, reply: PathReply)
    ensures
        m.next(reply) matches PathStep::End(Ok(Some(verdict))) ==> verdict.names_thread(),
{
}

} // verus!
