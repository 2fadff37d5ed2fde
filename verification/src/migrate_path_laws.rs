//! What becomes of one discovered rollout, step by step, and how that is reported.

use crate::error::migration_failure;
use crate::error::ErrorView;
use crate::error::ThreadId;
use crate::error::ThreadStoreError;
use crate::inspection::ReadErrorKind;
use crate::inspection::RolloutInspection;
use crate::inspection::RolloutInspectionDepth;
use crate::inspection::RolloutValidationFailure;
use crate::migrate_one::RolloutMigrationKind;
use crate::migrate_path::kind_of;
use crate::migrate_path::reports_verdict;
use crate::migrate_path::same_head;
use crate::migrate_path::BusyMessage;
use crate::migrate_path::MigratePath;
use crate::migrate_path::PathAction;
use crate::migrate_path::PathReply;
use crate::migrate_path::PathStage;
use crate::migrate_path::PathStep;
use crate::migrate_path::PathVerdict;
use crate::migrate_path::Verdict;
use crate::operations::PublishedMigration;
use crate::operations::StoreProblem;
use crate::paths::rollout_id_in_path;
use crate::paths::RolloutPath;
use crate::recovery::MigrationRecoveryHandle;
use crate::report::reports_migration;
use crate::report::selects;
use crate::report::RolloutMigrationFailure;
use crate::report::RolloutMigrationFailureReason;
use crate::report::RolloutMigrationMode;
use crate::report::RolloutMigrationOutcome;
use crate::report::RolloutMigrationStatus;
use crate::rollout::SessionMeta;
use crate::rollout::ThreadHistoryMode;
use vstd::prelude::*;

verus! {

/// What a thread that is not asked for, or asked for, comes to.
pub open spec fn asked_for(m: MigratePath, thread_id: Option<ThreadId>) -> bool {
    m.thread_ids@.len() == 0 || (thread_id is Some && m.thread_ids@.contains(thread_id->0))
}

/// How a rollout ends that is of a thread.
pub open spec fn ends_with(
    m: MigratePath,
    thread_id: ThreadId,
    verdict: Verdict,
    preserved_source_path: Option<RolloutPath>,
) -> PathStep {
    PathStep::End(
        Ok(
            Some(
                PathVerdict {
                    thread_id: Some(thread_id),
                    path: m.path,
                    verdict,
                    preserved_source_path,
                },
            ),
        ),
    )
}

/// A rollout is inspected first: in full where every thread is asked for, and by its head alone where
/// some are. What was read is accounted for, and the rollout of a thread that is not asked for is left
/// alone.
pub proof fn rollouts_are_inspected_first(m: MigratePath, inspection: RolloutInspection)
    requires
        m.stage == (PathStage::Inspecting { retried: false }),
    ensures
        ({
            let begun = m.inspecting(false);
            let read = m.next(PathReply::Inspected(Ok(inspection)));
            &&& begun == PathStep::Ask(
                m,
                PathAction::Inspect {
                    path: m.path,
                    depth: if m.thread_ids@.len() == 0 {
                        RolloutInspectionDepth::FullLegacy
                    } else {
                        RolloutInspectionDepth::MetadataOnly
                    },
                },
            )
            &&& !asked_for(m, Some(inspection.metadata.id)) ==> read == PathStep::End(Ok(None))
            &&& asked_for(m, Some(inspection.metadata.id)) ==> {
                &&& read is Ask
                &&& read->Ask_1 == (PathAction::Account { bytes: inspection.bytes_processed })
                &&& read->Ask_0.stage == (PathStage::CountingInspection {
                    metadata: inspection.metadata,
                })
            }
        }),
{
}

/// A rollout that cannot be read is looked for once more where it was not found, under its new name.
/// Otherwise it is asked whether it is empty, where its thread is asked for.
pub proof fn unreadable_rollouts_are_looked_for_once(
    m: MigratePath,
    failure: RolloutValidationFailure,
    moved: RolloutPath,
    retried: bool,
)
    requires
        m.stage == (PathStage::Inspecting { retried }),
    ensures
        ({
            let failed = m.next(PathReply::Inspected(Err(failure)));
            let counted = failed->Ask_0.next(PathReply::Done);
            let found = counted->Ask_0.next(PathReply::Found(Some(moved)));
            let lost = counted->Ask_0.next(PathReply::Found(None));
            let gone = !retried && failure.read_error_kind == Some(ReadErrorKind::NotFound);
            let asked = asked_for(m, rollout_id_in_path(m.path@));
            let empty = PathAction::IsEmpty { path: m.path };
            &&& failed is Ask && failed->Ask_1 == (PathAction::Account {
                bytes: failure.bytes_processed,
            })
            &&& gone ==> {
                &&& counted is Ask && counted->Ask_1 == (PathAction::FindCurrent { path: m.path })
                &&& found is Ask && found->Ask_0.path == moved
                &&& found->Ask_0.stage == (PathStage::Inspecting { retried: true })
                &&& found->Ask_1 is Inspect && found->Ask_1->Inspect_path == moved
                &&& !asked ==> lost == PathStep::End(Ok(None))
                &&& asked ==> lost is Ask && lost->Ask_1 == empty
            }
            &&& !gone && !asked ==> counted == PathStep::End(Ok(None))
            &&& !gone && asked ==> counted is Ask && counted->Ask_1 == empty
        }),
{
}

/// An empty rollout is inspected once more under the lock of its thread before it is skipped, where
/// something may be changed. A busy one is skipped as busy, with nothing counted.
pub proof fn empty_rollouts_are_inspected_under_their_lock(
    m: MigratePath,
    thread_id: Option<ThreadId>,
    failure: RolloutValidationFailure,
    inspection: RolloutInspection,
    message: String,
    empty: bool,
)
    requires
        m.stage == (PathStage::CheckingEmpty { thread_id, failure }),
    ensures
        ({
            let checked = m.next(PathReply::Answer(empty));
            let locks = empty && m.mode == RolloutMigrationMode::Apply && thread_id is Some;
            let locked = checked->Ask_0.next(PathReply::Done);
            let filled = locked->Ask_0.next(PathReply::Inspected(Ok(inspection)));
            let failed = locked->Ask_0.next(PathReply::Inspected(Err(failure)));
            let counted = failed->Ask_0.next(PathReply::Done);
            let unlocked = counted->Ask_0.next(PathReply::Done);
            &&& checked is Ask
            &&& !locks ==> checked->Ask_1 == (PathAction::IsEmpty { path: m.path })
                && checked->Ask_0.stage == (PathStage::RecheckingEmpty { thread_id, failure })
            &&& locks ==> {
                &&& checked->Ask_1 == (PathAction::Lock { thread_id: thread_id->0, live: false })
                &&& checked->Ask_0.next(
                    PathReply::Rejected(ThreadStoreError::Conflict { message }),
                ) == ends_with(
                    m,
                    thread_id->0,
                    Verdict::Busy { message: BusyMessage::Given(message), counted: false },
                    None,
                )
                &&& locked is Ask && locked->Ask_1 is Inspect && locked->Ask_1->Inspect_path
                    == m.path
                &&& filled is Ask && filled->Ask_1 == PathAction::Unlock
                &&& filled->Ask_0.stage == (PathStage::UnlockingInspected { inspection })
                &&& failed is Ask && failed->Ask_1 == (PathAction::Account {
                    bytes: failure.bytes_processed,
                })
                &&& counted is Ask && counted->Ask_1 == PathAction::Unlock
                &&& unlocked is Ask && unlocked->Ask_1 == (PathAction::IsEmpty { path: m.path })
                &&& unlocked->Ask_0.stage == (PathStage::RecheckingEmpty { thread_id, failure })
            }
        }),
{
}

/// A rollout that cannot be read ends as empty or with its failure, by whether it is empty now.
pub proof fn unreadable_rollouts_end_as_empty_or_failed(
    m: MigratePath,
    thread_id: Option<ThreadId>,
    failure: RolloutValidationFailure,
    inspection: RolloutInspection,
    empty: bool,
)
    ensures
        m.stage == (PathStage::RecheckingEmpty { thread_id, failure }) ==> m.next(
            PathReply::Answer(empty),
        ) == PathStep::End(
            Ok(
                Some(
                    PathVerdict {
                        thread_id,
                        path: m.path,
                        verdict: Verdict::Unreadable { empty, failure: failure.failure },
                        preserved_source_path: None,
                    },
                ),
            ),
        ),
        m.stage == (PathStage::UnlockingInspected { inspection }) && asked_for(
            m,
            Some(inspection.metadata.id),
        ) ==> m.next(PathReply::Done) is Ask && m.next(PathReply::Done)->Ask_1 == (
        PathAction::Account { bytes: inspection.bytes_processed }),
{
}

/// What an inspected rollout calls for: a legacy one whose head alone was read is validated in full; a
/// paginated one is left as it is; a migrated one is looked at, and its preserved source is reported; a
/// legacy one is migrated under its lock, or reported as eligible by a dry run.
pub proof fn inspected_rollouts_are_handled_by_their_mode(m: MigratePath, metadata: SessionMeta)
    requires
        m.stage == (PathStage::CountingInspection { metadata }),
    ensures
        ({
            let step = m.next(PathReply::Done);
            let apply = m.mode == RolloutMigrationMode::Apply;
            let mode = metadata.history_mode;
            let validated = m.thread_ids@.len() == 0;
            &&& mode == ThreadHistoryMode::Paginated ==> step == ends_with(
                m,
                metadata.id,
                Verdict::Status(RolloutMigrationStatus::AlreadyPaginated),
                None,
            )
            &&& mode == ThreadHistoryMode::PaginatedRefsV1 && apply ==> step is Ask && step->Ask_1
                == (PathAction::PendingExists { thread_id: metadata.id })
            &&& mode == ThreadHistoryMode::PaginatedRefsV1 && !apply ==> {
                &&& step is Ask && step->Ask_1 == (PathAction::FindPreserved { path: m.path })
                &&& step->Ask_0.stage == (PathStage::FindingPreserved {
                    thread_id: metadata.id,
                    verdict: Verdict::Status(RolloutMigrationStatus::AlreadyPaginated),
                })
            }
            &&& mode == ThreadHistoryMode::Legacy && !validated ==> {
                &&& step is Ask && step->Ask_1 == (PathAction::Inspect {
                    path: m.path,
                    depth: RolloutInspectionDepth::FullLegacy,
                })
                &&& step->Ask_0.stage == (PathStage::Validating { metadata, retried: false })
            }
            &&& mode == ThreadHistoryMode::Legacy && validated && apply ==> step is Ask
                && step->Ask_1 == (PathAction::Lock { thread_id: metadata.id, live: true })
                && step->Ask_0.stage == (PathStage::LockingLegacy { metadata })
            &&& mode == ThreadHistoryMode::Legacy && validated && !apply ==> step == ends_with(
                m,
                metadata.id,
                Verdict::Status(RolloutMigrationStatus::Eligible),
                None,
            )
        }),
{
}

/// A validated rollout has to have the head that was read before. One that is not found is looked for
/// once; one that is not valid fails, with its bytes counted.
pub proof fn validated_rollouts_keep_their_head(
    m: MigratePath,
    metadata: SessionMeta,
    inspection: RolloutInspection,
    failure: RolloutValidationFailure,
    moved: RolloutPath,
    retried: bool,
)
    requires
        m.stage == (PathStage::Validating { metadata, retried }),
    ensures
        ({
            let read = m.next(PathReply::Inspected(Ok(inspection)));
            let counted = read->Ask_0.next(PathReply::Done);
            let failed = m.next(PathReply::Inspected(Err(failure)));
            let gone = !retried && failure.read_error_kind == Some(ReadErrorKind::NotFound);
            let found = failed->Ask_0.next(PathReply::Found(Some(moved)));
            let lost = if gone {
                failed->Ask_0.next(PathReply::Found(None))
            } else {
                failed
            };
            &&& read is Ask && read->Ask_1 == (PathAction::Account {
                bytes: inspection.bytes_processed,
            })
            &&& !same_head(inspection.metadata, metadata) ==> counted == ends_with(
                m,
                metadata.id,
                Verdict::Busy { message: BusyMessage::ChangedDuringValidation, counted: true },
                None,
            )
            &&& same_head(inspection.metadata, metadata) && metadata.history_mode
                == ThreadHistoryMode::Legacy && m.mode == RolloutMigrationMode::Apply
                ==> counted is Ask && counted->Ask_1 == (PathAction::Lock {
                thread_id: metadata.id,
                live: true,
            })
            &&& same_head(inspection.metadata, metadata) && metadata.history_mode
                == ThreadHistoryMode::Legacy && m.mode == RolloutMigrationMode::DryRun ==> counted
                == ends_with(
                m,
                metadata.id,
                Verdict::Status(RolloutMigrationStatus::Eligible),
                None,
            )
            &&& failed is Ask
            &&& gone ==> {
                &&& failed->Ask_1 == (PathAction::FindCurrent { path: m.path })
                &&& found is Ask && found->Ask_0.path == moved
                &&& found->Ask_0.stage == (PathStage::Validating { metadata, retried: true })
                &&& found->Ask_1 == (PathAction::Inspect {
                    path: moved,
                    depth: RolloutInspectionDepth::FullLegacy,
                })
            }
            &&& lost is Ask && lost->Ask_1 == (PathAction::Account {
                bytes: failure.bytes_processed,
            })
            &&& lost->Ask_0.next(PathReply::Done) == ends_with(
                m,
                metadata.id,
                Verdict::Failed(failure.failure),
                None,
            )
        }),
{
}

/// Two heads are the same where they name the same thread and mode, and came from the same.
pub proof fn heads_are_compared_by_thread_mode_and_source(a: SessionMeta, b: SessionMeta)
    ensures
        same_head(a, a),
        same_head(a, b) == same_head(b, a),
        same_head(a, b) ==> a.id == b.id && a.history_mode == b.history_mode,
        a.id != b.id || a.history_mode != b.history_mode ==> !same_head(a, b),
        a.id == b.id && a.history_mode == b.history_mode && a.source == b.source && a.thread_source
            == b.thread_source ==> same_head(a, b),
        same_head(a, b) ==> {
            &&& a.source is InternalMemoryConsolidation == b.source is InternalMemoryConsolidation
            &&& a.source is SubAgentMemoryConsolidation == b.source is SubAgentMemoryConsolidation
            &&& a.source is SubAgent == b.source is SubAgent
            &&& a.source is SubAgent ==> a.source->SubAgent_label@ == b.source->SubAgent_label@
            &&& a.source is Other ==> a.source->Other_label@ == b.source->Other_label@
            &&& a.thread_source is Some == b.thread_source is Some
            &&& a.thread_source is Some ==> {
                let s = a.thread_source->0;
                let t = b.thread_source->0;
                &&& s is MemoryConsolidation == t is MemoryConsolidation
                &&& s is Subagent == t is Subagent
                &&& s is Other ==> s->Other_label@ == t->Other_label@
            }
        },
{
}

/// A subagent is what says so of itself or of its thread, unless either is about consolidating
/// memories.
pub proof fn subagents_say_so(metadata: SessionMeta)
    ensures
        ({
            let by_source = metadata.source is SubAgent;
            let by_thread = metadata.thread_source is Some && metadata.thread_source->0 is Subagent;
            let memories = metadata.source is InternalMemoryConsolidation || metadata.source
                is SubAgentMemoryConsolidation || (metadata.thread_source is Some
                && metadata.thread_source->0 is MemoryConsolidation);
            &&& memories ==> kind_of(metadata) == RolloutMigrationKind::Ordinary
            &&& !memories && (by_source || by_thread) ==> kind_of(metadata)
                == RolloutMigrationKind::Subagent
            &&& !by_source && !by_thread ==> kind_of(metadata) == RolloutMigrationKind::Ordinary
        }),
{
}

/// A migrated rollout with a retained record is verified against it under its lock. One with a pending
/// record is then recovered; one without is promoted to its name.
pub proof fn migrated_rollouts_are_verified_and_recovered(
    m: MigratePath,
    metadata: SessionMeta,
    pending: bool,
    message: String,
)
    requires
        m.stage == (PathStage::CheckingPending { metadata }),
    ensures
        ({
            let id = metadata.id;
            let asked = m.next(PathReply::Answer(pending));
            let retained = asked->Ask_0.next(PathReply::Answer(true));
            let fresh = asked->Ask_0.next(PathReply::Answer(false));
            let locked = retained->Ask_0.next(PathReply::Done);
            let verified = locked->Ask_0.next(PathReply::Done);
            let unlocked = verified->Ask_0.next(PathReply::Done);
            let conflict = PathReply::Rejected(ThreadStoreError::Conflict { message });
            &&& asked is Ask && asked->Ask_1 == (PathAction::RetainedExists { thread_id: id })
            &&& retained is Ask && retained->Ask_1 == (PathAction::Lock {
                thread_id: id,
                live: true,
            })
            &&& retained->Ask_0.next(conflict) == ends_with(
                m,
                id,
                Verdict::Busy { message: BusyMessage::Given(message), counted: true },
                None,
            )
            &&& locked is Ask && locked->Ask_1 == (PathAction::VerifyRetained {
                thread_id: id,
                selected: m.path,
            })
            &&& locked->Ask_0.next(conflict) == ends_with(
                m,
                id,
                Verdict::RecoveryConflict { message },
                None,
            )
            &&& verified is Ask && verified->Ask_1 == PathAction::Unlock
            &&& unlocked == fresh
            &&& fresh is Ask
            &&& pending ==> fresh->Ask_1 == (PathAction::ReadPending { thread_id: id })
            &&& !pending ==> fresh->Ask_1 == (PathAction::PromoteName {
                thread_id: id,
                mode: metadata.history_mode,
            })
        }),
{
}

/// A pending migration is recovered under its lock. A recovered one is migrated, under the path that
/// the recovery came to, with the source that its record names; a conflict is a recovery conflict; any
/// other failure is a failed recovery.
pub proof fn pending_migrations_are_recovered_under_their_lock(
    m: MigratePath,
    metadata: SessionMeta,
    record: Option<MigrationRecoveryHandle>,
    path: RolloutPath,
    preserved: Option<RolloutPath>,
    message: String,
)
    requires
        m.stage == (PathStage::ReadingPending { metadata }),
    ensures
        ({
            let id = metadata.id;
            let read = m.next(PathReply::Journal(record));
            let locked = read->Ask_0.next(PathReply::Done);
            let recovered = locked->Ask_0.next(PathReply::Recovered(Ok(path)));
            let failed = locked->Ask_0.next(
                PathReply::Recovered(Err(ThreadStoreError::Internal { message })),
            );
            let done = recovered->Ask_0.next(PathReply::Done);
            let undone = failed->Ask_0.next(PathReply::Done);
            let moved = MigratePath { path, ..m };
            let failure = Verdict::Failed(
                RolloutMigrationFailure {
                    reason: RolloutMigrationFailureReason::InterruptedMigrationRecoveryFailed,
                    error: ThreadStoreError::Internal { message },
                },
            );
            &&& read is Ask && read->Ask_1 == (PathAction::Lock { thread_id: id, live: true })
            &&& read->Ask_0.next(PathReply::Rejected(ThreadStoreError::Conflict { message }))
                == ends_with(
                m,
                id,
                Verdict::Busy { message: BusyMessage::Given(message), counted: true },
                None,
            )
            &&& locked is Ask && locked->Ask_1 == (PathAction::Recover {
                thread_id: id,
                path: m.path,
            })
            &&& locked->Ask_0.next(
                PathReply::Recovered(Err(ThreadStoreError::Conflict { message })),
            ) == ends_with(m, id, Verdict::RecoveryConflict { message }, None)
            &&& recovered is Ask && recovered->Ask_1 == PathAction::Unlock
            &&& failed is Ask && failed->Ask_1 == PathAction::Unlock
            &&& record matches Some(recovery) ==> {
                &&& done == ends_with(
                    moved,
                    id,
                    Verdict::Status(RolloutMigrationStatus::Migrated),
                    Some(recovery.preserved_source_path),
                )
                &&& undone == ends_with(m, id, failure, Some(recovery.preserved_source_path))
            }
            &&& record is None ==> {
                &&& done is Ask && done->Ask_1 == (PathAction::FindPreserved { path })
                &&& done->Ask_0.next(PathReply::Found(preserved)) == ends_with(
                    moved,
                    id,
                    Verdict::Status(RolloutMigrationStatus::Migrated),
                    preserved,
                )
                &&& undone is Ask && undone->Ask_0.next(PathReply::Found(preserved)) == ends_with(
                    m,
                    id,
                    failure,
                    preserved,
                )
            }
        }),
{
}

/// A migrated rollout without a pending record is reported as paginated, with its preserved source.
pub proof fn promoted_rollouts_are_reported_with_their_source(
    m: MigratePath,
    metadata: SessionMeta,
    preserved: Option<RolloutPath>,
)
    requires
        m.stage == (PathStage::Promoting { metadata }),
    ensures
        ({
            let promoted = m.next(PathReply::Done);
            &&& promoted is Ask && promoted->Ask_1 == (PathAction::FindPreserved { path: m.path })
            &&& promoted->Ask_0.next(PathReply::Found(preserved)) == ends_with(
                m,
                metadata.id,
                Verdict::Status(RolloutMigrationStatus::AlreadyPaginated),
                preserved,
            )
        }),
{
}

/// Under its lock a legacy rollout is found where it stands now and inspected in full, and it has to
/// have the legacy head that was read before. Then it is migrated.
pub proof fn legacy_rollouts_are_migrated_under_their_lock(
    m: MigratePath,
    metadata: SessionMeta,
    moved: RolloutPath,
    inspection: RolloutInspection,
    failure: RolloutValidationFailure,
    message: String,
)
    requires
        m.stage == (PathStage::LockingLegacy { metadata }),
    ensures
        ({
            let id = metadata.id;
            let locked = m.next(PathReply::Done);
            let there = locked->Ask_0.next(PathReply::Answer(true));
            let gone = locked->Ask_0.next(PathReply::Answer(false));
            let found = gone->Ask_0.next(PathReply::Found(Some(moved)));
            let read = there->Ask_0.next(PathReply::Inspected(Ok(inspection)));
            let invalid = there->Ask_0.next(PathReply::Inspected(Err(failure)));
            let counted = read->Ask_0.next(PathReply::Done);
            let same = same_head(inspection.metadata, metadata)
                && inspection.metadata.history_mode == ThreadHistoryMode::Legacy;
            let error = ThreadStoreError::Internal { message };
            &&& m.next(PathReply::Rejected(ThreadStoreError::Conflict { message })) == ends_with(
                m,
                id,
                Verdict::Busy { message: BusyMessage::Given(message), counted: true },
                None,
            )
            &&& m.next(PathReply::Rejected(error)) == ends_with(
                m,
                id,
                Verdict::Failed(
                    RolloutMigrationFailure {
                        reason: RolloutMigrationFailureReason::Unknown,
                        error,
                    },
                ),
                None,
            )
            &&& locked is Ask && locked->Ask_1 == (PathAction::Exists { path: m.path })
            &&& there is Ask && there->Ask_1 == (PathAction::Inspect {
                path: m.path,
                depth: RolloutInspectionDepth::FullLegacy,
            })
            &&& gone is Ask && gone->Ask_1 == (PathAction::FindCurrent { path: m.path })
            &&& found is Ask && found->Ask_0.path == moved && found->Ask_1 == (
            PathAction::Inspect { path: moved, depth: RolloutInspectionDepth::FullLegacy })
            &&& gone->Ask_0.next(PathReply::Found(None)) == there
            &&& invalid is Ask && invalid->Ask_1 == (PathAction::Account {
                bytes: failure.bytes_processed,
            })
            &&& read is Ask && read->Ask_1 == (PathAction::Account {
                bytes: inspection.bytes_processed,
            })
            &&& !same ==> counted == ends_with(
                m,
                id,
                Verdict::Busy { message: BusyMessage::ChangedWhileWaiting, counted: true },
                None,
            )
            &&& same ==> counted is Ask && counted->Ask_1 == (PathAction::MigrateOne {
                thread_id: id,
                mode: metadata.history_mode,
                path: m.path,
                kind: kind_of(metadata),
            })
        }),
{
}

/// A migration that succeeds is reported under what was published, with what was preserved. One that
/// fails is cleaned up, with its projection where that was replaced, and reported with its failure,
/// and with that of the cleaning up where that fails too.
pub proof fn failed_migrations_are_cleaned_up(
    m: MigratePath,
    metadata: SessionMeta,
    published: PublishedMigration,
    failure: RolloutMigrationFailure,
    cleanup: ThreadStoreError,
    preserved: Option<RolloutPath>,
)
    requires
        m.stage == (PathStage::Migrating { metadata }),
    ensures
        ({
            let id = metadata.id;
            let failed = m.next(PathReply::Migrated(Err(failure)));
            let cleaned = failed->Ask_0.next(PathReply::Done);
            let uncleaned = failed->Ask_0.next(PathReply::Rejected(cleanup));
            &&& m.next(PathReply::Migrated(Ok(published))) == ends_with(
                MigratePath { path: published.rollout_path, ..m },
                id,
                Verdict::Status(RolloutMigrationStatus::Migrated),
                Some(published.preserved_source_path),
            )
            &&& failed is Ask && failed->Ask_1 == (PathAction::CleanUp {
                thread_id: id,
                mode: metadata.history_mode,
                projection_was_replaced: failure.reason
                    == RolloutMigrationFailureReason::SqliteMaterializationFailed || failure.reason
                    == RolloutMigrationFailureReason::RolloutPublishFailed,
                path: m.path,
            })
            &&& cleaned is Ask && cleaned->Ask_1 == (PathAction::FindPreserved { path: m.path })
            &&& cleaned->Ask_0.next(PathReply::Found(preserved)) == ends_with(
                m,
                id,
                Verdict::MigrationFailed(failure),
                preserved,
            )
            &&& uncleaned is Ask && uncleaned->Ask_1 == (PathAction::FindPreserved {
                path: m.path,
            })
            &&& uncleaned->Ask_0.next(PathReply::Found(preserved)) == ends_with(
                m,
                id,
                Verdict::NotCleanedUp { failure, cleanup },
                preserved,
            )
        }),
{
}

/// A failure that no step takes for an outcome ends the handling of the rollout.
pub proof fn other_failures_end_the_handling(m: MigratePath, error: String)
    ensures
        m.next(PathReply::Failed(error)) == PathStep::End(Err(StoreProblem::Failed(error))),
{
}

/// A verdict is reported for its thread, its path and its preserved source. A status is reported as it
/// is; a busy rollout is skipped; a conflict of the recovery and a failure are failed, with the reason
/// and the message; a migration that fails by a conflict is skipped as busy; and a rollout that cannot
/// be read is skipped where it is empty.
pub proof fn verdicts_become_outcomes(
    outcome: RolloutMigrationOutcome,
    it: PathVerdict,
    bytes: u64,
)
    requires
        reports_verdict(outcome, it, bytes),
    ensures
        outcome.thread_id == it.thread_id,
        outcome.rollout_path == it.path,
        outcome.preserved_source_path == it.preserved_source_path,
        it.verdict matches Verdict::Status(status) ==> outcome.status == status
            && outcome.failure_reason is None && outcome.message is None && outcome.bytes_processed
            == bytes,
        it.verdict matches Verdict::Busy { message, counted } ==> outcome.status
            == RolloutMigrationStatus::SkippedBusy && outcome.failure_reason is None
            && outcome.message is Some && outcome.bytes_processed == (if counted {
            bytes
        } else {
            0
        }) && (message matches BusyMessage::Given(text) ==> outcome.message->0@ == text@),
        it.verdict matches Verdict::RecoveryConflict { message } ==> outcome.status
            == RolloutMigrationStatus::Failed && outcome.failure_reason == Some(
            RolloutMigrationFailureReason::RecoveryStateConflict,
        ) && outcome.message is Some && outcome.message->0@ == message@,
        it.verdict matches Verdict::Failed(failure) ==> outcome.status
            == RolloutMigrationStatus::Failed && outcome.failure_reason == Some(failure.reason)
            && outcome.message is Some && outcome.message->0@ == failure.error@.printed(),
        it.verdict matches Verdict::MigrationFailed(failure) ==> (failure.error@ is Conflict ==> {
            &&& outcome.status == RolloutMigrationStatus::SkippedBusy
            &&& outcome.failure_reason is None
            &&& outcome.message is Some && outcome.message->0@ == failure.error@->Conflict_0
        }) && (!(failure.error@ is Conflict) ==> {
            &&& outcome.status == RolloutMigrationStatus::Failed
            &&& outcome.failure_reason == Some(failure.reason)
            &&& outcome.message is Some && outcome.message->0@ == failure.error@.printed()
        }),
        it.verdict matches Verdict::NotCleanedUp { failure, cleanup } ==> outcome.status
            == RolloutMigrationStatus::Failed && outcome.failure_reason == Some(failure.reason)
            && outcome.message is Some && outcome.message->0@ == migration_failure(
            failure.error@.printed() + "; failed to clean up unpublished migration: "@
                + cleanup@.printed(),
        ).printed(),
        it.verdict matches Verdict::Unreadable { empty, failure } ==> {
            &&& empty ==> outcome.status == RolloutMigrationStatus::SkippedEmpty
                && outcome.failure_reason is None && outcome.message is None
            &&& !empty ==> outcome.status == RolloutMigrationStatus::Failed
                && outcome.failure_reason == Some(failure.reason) && outcome.message is Some
                && outcome.message->0@ == failure.error@.printed()
        },
{
}

/// The outcome of a migration names its thread and rollout. A failure is reported as failed, with its
/// reason and its message; anything else by its status alone.
pub proof fn migrations_are_reported_by_status_or_failure(
    outcome: RolloutMigrationOutcome,
    thread_id: ThreadId,
    path: RolloutPath,
    status: RolloutMigrationStatus,
    reason: RolloutMigrationFailureReason,
    error: ErrorView,
    bytes: u64,
)
    ensures
        reports_migration(outcome, thread_id, path, status, None, bytes) ==> outcome.thread_id
            == Some(thread_id) && outcome.rollout_path == path && outcome.status == status
            && outcome.failure_reason is None && outcome.message is None && outcome.bytes_processed
            == bytes && outcome.preserved_source_path is None,
        reports_migration(outcome, thread_id, path, status, Some((reason, error)), bytes)
            ==> outcome.thread_id == Some(thread_id) && outcome.rollout_path == path
            && outcome.status == RolloutMigrationStatus::Failed && outcome.failure_reason == Some(
            reason,
        ) && outcome.message is Some && outcome.message->0@ == error.printed()
            && outcome.bytes_processed == bytes && outcome.preserved_source_path is None,
{
}

/// A thread is selected where nothing is asked for or where it is asked for; what names no thread is
/// selected only where nothing is asked for.
pub proof fn threads_are_selected_by_being_asked_for(selected: Seq<ThreadId>, thread_id: ThreadId)
    ensures
        selected.len() == 0 ==> selects(selected, Some(thread_id)) && selects(selected, None),
        selected.len() > 0 ==> !selects(selected, None),
        selects(selected.push(thread_id), Some(thread_id)),
        selected.len() > 0 ==> selects(selected, Some(thread_id)) == selected.contains(thread_id),
{
    assert(selected.push(thread_id)[selected.len() as int] == thread_id);
}

/// An error is printed by its kind.
pub proof fn errors_are_printed_by_their_kind(id: ThreadId, message: Seq<char>)
    ensures
        ErrorView::ThreadNotFound(id).printed() == "thread "@ + id.text() + " not found"@,
        ErrorView::InvalidRequest(message).printed() == "invalid thread-store request: "@ + message,
        ErrorView::Conflict(message).printed() == "thread-store conflict: "@ + message,
        ErrorView::Internal(message).printed() == "thread-store internal error: "@ + message,
        migration_failure(message) == ErrorView::Internal("rollout migration failed: "@ + message),
{
}

} // verus!
