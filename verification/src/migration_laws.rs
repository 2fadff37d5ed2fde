//! What holds of a migration as a whole.

use crate::disk::Disk;
use crate::error::ThreadId;
use crate::error::ThreadStoreError;
use crate::migrate_one::MigrateOne;
use crate::migrate_one::MigrateStage;
use crate::migrate_one::MigrateStep;
use crate::migrate_path::kind_of;
use crate::migrate_path::phase_of;
use crate::migrate_path::same_head;
use crate::migrate_path::BusyMessage;
use crate::migrate_path::MigratePath;
use crate::migrate_path::PathAction;
use crate::migrate_path::PathPhase;
use crate::migrate_path::PathReply;
use crate::migrate_path::PathStage;
use crate::migrate_path::PathStep;
use crate::migrate_path::Verdict;
use crate::operation_laws::is_unmarked;
use crate::operation_laws::leads_back;
use crate::operation_laws::migration_names;
use crate::operation_laws::names_lie_apart;
use crate::operation_laws::operation_took;
use crate::operation_laws::operations_spare_the_source;
use crate::operation_laws::source_survives;
use crate::operation_laws::MigrationNames;
use crate::operation_laws::OperationTaken;
use crate::operations::Step;
use crate::operations::StoreAction;
use crate::operations::StoreReply;
use crate::recover::CleanUpStage;
use crate::recover::CleanUpUnpublished;
use crate::report::selects;
use crate::report::RolloutMigrationMode;
use crate::report::RolloutMigrationStatus;
use crate::rollout::SessionMeta;
use crate::rollout::ThreadHistoryMode;
use vstd::prelude::*;

verus! {

/// Whether a disk is as a successful migration leaves it: the legacy source has its second name,
/// the retained record leads back to it and carries no mark, and no journal is pending.
pub open spec fn is_migrated(disk: Disk, n: MigrationNames, legacy: int) -> bool {
    &&& disk.names(n.names.preserved, legacy)
    &&& leads_back(disk.record(n.retained), n.names)
    &&& is_unmarked(disk.record(n.retained)->0)
    &&& !disk.has(n.names.journal)
}

/// Whether a migration that asks for an operation fits the disk.
pub open spec fn migration_fits(step: MigrateStep, disk: Disk, n: MigrationNames, legacy: int)
    -> bool {
    match step {
        MigrateStep::Ask(m, action) => {
            let kept = disk.names(n.names.preserved, legacy);
            &&& m.wf()
            &&& migration_names(m) == n
            &&& match m.stage {
                MigrateStage::Publishing => action is Publish && disk.names(
                    n.names.rollout,
                    legacy,
                ),
                MigrateStage::VerifyingPending => {
                    &&& action matches StoreAction::VerifyUnchanged { journal_path, .. }
                        && journal_path@ == n.names.journal
                    &&& kept && leads_back(disk.record(n.names.journal), n.names)
                },
                MigrateStage::RemovingDecompressed => action is RemoveIfPresent && kept
                    && leads_back(disk.record(n.names.journal), n.names),
                MigrateStage::Finishing => action is FinishPublished && kept && leads_back(
                    disk.record(n.names.journal),
                    n.names,
                ),
                MigrateStage::VerifyingRetained => {
                    &&& action matches StoreAction::VerifyUnchanged { journal_path, .. }
                        && journal_path@ == n.retained
                    &&& kept && leads_back(disk.record(n.retained), n.names)
                    &&& !disk.has(n.names.journal)
                },
                _ => {
                    &&& !(action is Publish) && !(action is FinishPublished) && !(action
                        is VerifyUnchanged)
                    &&& disk.names(n.names.rollout, legacy)
                },
            }
        },
        MigrateStep::End(Ok(_)) => is_migrated(disk, n, legacy),
        MigrateStep::End(Err(_)) => source_survives(disk, n, legacy),
    }
}

/// A migration always leaves behind either the original legacy rollout or a paginated rollout that
/// can be recovered: after every operation, whether it succeeded, failed or was interrupted, the
/// source is visible, or its second name and a record of the publication are there. A migration
/// that succeeds leaves the retained record and no pending journal. The operations go as their machines go on a disk that
/// answers truthfully and may fail at any point.
pub proof fn migrations_never_lose_their_source(
    m: MigrateOne,
    action: StoreAction,
    before: Disk,
    reply: StoreReply,
    after: Disk,
    n: MigrationNames,
    legacy: int,
)
    requires
        names_lie_apart(n, before),
        migration_fits(MigrateStep::Ask(m, action), before, n, legacy),
        operation_took(n, before, action, reply, after),
    ensures
        names_lie_apart(n, after),
        source_survives(after, n, legacy),
        migration_fits(m.next(reply), after, n, legacy),
{
    operations_spare_the_source(n, legacy, before, action, reply, after);
}

/// A migration begins with the source visible.
pub proof fn migrations_begin_with_the_source_visible(m: MigrateOne, disk: Disk, legacy: int)
    requires
        m.wf(),
        disk.names(m.rollout_path@, legacy),
    ensures
        migration_fits(m.begun(), disk, migration_names(m), legacy),
{
}

/// Where a migration stands once some operations have been carried out.
pub open spec fn migration_run(
    step: MigrateStep,
    disk: Disk,
    steps: Seq<OperationTaken>,
) -> (MigrateStep, Disk)
    decreases steps.len(),
{
    match step {
        MigrateStep::Ask(m, _) if steps.len() > 0 => migration_run(
            m.next(steps[0].reply),
            steps[0].after,
            steps.skip(1),
        ),
        _ => (step, disk),
    }
}

/// Whether the operations of a migration go as they can go.
pub open spec fn migration_possible(
    step: MigrateStep,
    n: MigrationNames,
    disk: Disk,
    steps: Seq<OperationTaken>,
) -> bool
    decreases steps.len(),
{
    match step {
        MigrateStep::Ask(m, action) => steps.len() > 0 ==> {
            &&& operation_took(n, disk, action, steps[0].reply, steps[0].after)
            &&& migration_possible(m.next(steps[0].reply), n, steps[0].after, steps.skip(1))
        },
        MigrateStep::End(_) => true,
    }
}

proof fn lemma_migration_run(
    step: MigrateStep,
    n: MigrationNames,
    disk: Disk,
    steps: Seq<OperationTaken>,
    legacy: int,
)
    requires
        names_lie_apart(n, disk),
        migration_fits(step, disk, n, legacy),
        migration_possible(step, n, disk, steps),
    ensures
        ({
            let (end, after) = migration_run(step, disk, steps);
            &&& names_lie_apart(n, after)
            &&& migration_fits(end, after, n, legacy)
        }),
    decreases steps.len(),
{
    if let MigrateStep::Ask(m, action) = step {
        if steps.len() > 0 {
            let reply = steps[0].reply;
            let after = steps[0].after;
            migrations_never_lose_their_source(m, action, disk, reply, after, n, legacy);
            lemma_migration_run(m.next(reply), n, after, steps.skip(1), legacy);
        }
    }
}

/// A whole migration, however far it comes and whatever fails on the way, leaves the source visible
/// or recoverable; and one that succeeds leaves the second name of the source, a retained record
/// that leads back to it and carries no mark, and no pending journal.
pub proof fn whole_migrations_keep_their_source(
    m: MigrateOne,
    disk: Disk,
    steps: Seq<OperationTaken>,
    legacy: int,
)
    requires
        m.wf(),
        names_lie_apart(migration_names(m), disk),
        disk.names(m.rollout_path@, legacy),
        migration_possible(m.begun(), migration_names(m), disk, steps),
    ensures
        ({
            let n = migration_names(m);
            let (end, after) = migration_run(m.begun(), disk, steps);
            &&& source_survives(after, n, legacy)
            &&& end matches MigrateStep::End(Ok(_)) ==> is_migrated(after, n, legacy)
        }),
{
    let n = migration_names(m);
    migrations_begin_with_the_source_visible(m, disk, legacy);
    lemma_migration_run(m.begun(), n, disk, steps, legacy);
}

/// A replacement is published only once the index covers all of it and the source is still as it
/// was when it was read; and it is published with the fingerprint of that reading.
pub proof fn only_verified_replacements_are_published(m: MigrateOne, reply: StoreReply)
    ensures
        m.next(reply) matches MigrateStep::Ask(_, StoreAction::Publish {
            expected_source_fingerprint,
            ..
        }) ==> {
            &&& m.stage is RereadingSource
            &&& reply matches StoreReply::Source { fingerprint, .. } && fingerprint
                == m.fingerprint
            &&& expected_source_fingerprint == m.fingerprint
        },
        m.next(reply) matches MigrateStep::Ask(next, _) && next.stage is RereadingSource ==> (
        m.stage matches MigrateStage::ReadingProjection { length, ordinal } && reply
            == StoreReply::Projection(Some((length, ordinal)))),
{
}

/// Whether an action leaves the store as it is.
pub open spec fn only_looks(action: PathAction) -> bool {
    match action {
        PathAction::Inspect { .. } => true,
        PathAction::Account { .. } => true,
        PathAction::FindCurrent { .. } => true,
        PathAction::IsEmpty { .. } => true,
        PathAction::FindPreserved { .. } => true,
        _ => false,
    }
}

/// Whether a step is one that a dry run takes.
pub open spec fn in_dry_run(m: MigratePath) -> bool {
    &&& m.mode == RolloutMigrationMode::DryRun
    &&& match m.stage {
        PathStage::Inspecting { .. } => true,
        PathStage::CountingFailure { .. } => true,
        PathStage::FindingMoved { .. } => true,
        PathStage::CheckingEmpty { .. } => true,
        PathStage::RecheckingEmpty { .. } => true,
        PathStage::CountingInspection { .. } => true,
        PathStage::Validating { .. } => true,
        PathStage::FindingValidated { .. } => true,
        PathStage::CountingValidated { .. } => true,
        PathStage::CountingInvalid { .. } => true,
        PathStage::FindingPreserved { verdict, .. } => verdict == Verdict::Status(
            RolloutMigrationStatus::AlreadyPaginated,
        ),
        _ => false,
    }
}

/// Whether a dry run, wherever it stands, only looks, and never reports a migration.
pub open spec fn dry(step: PathStep) -> bool {
    match step {
        PathStep::Ask(m, action) => in_dry_run(m) && only_looks(action),
        PathStep::End(Ok(Some(it))) => it.verdict != Verdict::Status(
            RolloutMigrationStatus::Migrated,
        ),
        PathStep::End(_) => true,
    }
}

/// A dry run changes nothing: it begins by looking, and from every step that it takes it goes on
/// looking or ends, without a migration.
pub proof fn dry_runs_change_nothing(m: MigratePath, reply: PathReply)
    requires
        m.mode == RolloutMigrationMode::DryRun,
    ensures
        dry(m.inspecting(false)),
        in_dry_run(m) ==> dry(m.next(reply)),
{
}

/// The thread that a step has found, where it has found one that was asked for.
pub open spec fn found_thread(stage: PathStage) -> Option<ThreadId> {
    match stage {
        PathStage::CheckingEmpty { thread_id, .. } => thread_id,
        PathStage::LockingEmpty { thread_id } => Some(thread_id),
        PathStage::CountingEmpty { thread_id, .. } => Some(thread_id),
        PathStage::InspectingEmpty { thread_id } => Some(thread_id),
        PathStage::UnlockingEmpty { thread_id, .. } => Some(thread_id),
        PathStage::RecheckingEmpty { thread_id, .. } => thread_id,
        PathStage::CountingInspection { metadata } => Some(metadata.id),
        PathStage::Validating { metadata, .. } => Some(metadata.id),
        PathStage::FindingValidated { metadata, .. } => Some(metadata.id),
        PathStage::CountingValidated { metadata, .. } => Some(metadata.id),
        PathStage::CountingInvalid { thread_id, .. } => Some(thread_id),
        PathStage::CheckingPending { metadata } => Some(metadata.id),
        PathStage::CheckingRetained { metadata, .. } => Some(metadata.id),
        PathStage::LockingRetained { metadata, .. } => Some(metadata.id),
        PathStage::VerifyingRetained { metadata, .. } => Some(metadata.id),
        PathStage::UnlockingRetained { metadata, .. } => Some(metadata.id),
        PathStage::ReadingPending { metadata } => Some(metadata.id),
        PathStage::LockingPending { metadata, .. } => Some(metadata.id),
        PathStage::Recovering { metadata, .. } => Some(metadata.id),
        PathStage::UnlockingRecovered { thread_id, .. } => Some(thread_id),
        PathStage::Promoting { metadata } => Some(metadata.id),
        PathStage::FindingPreserved { thread_id, .. } => Some(thread_id),
        PathStage::LockingLegacy { metadata } => Some(metadata.id),
        PathStage::CheckingLocked { metadata } => Some(metadata.id),
        PathStage::FindingLocked { metadata } => Some(metadata.id),
        PathStage::InspectingLocked { metadata } => Some(metadata.id),
        PathStage::CountingLocked { metadata, .. } => Some(metadata.id),
        PathStage::Migrating { metadata } => Some(metadata.id),
        PathStage::CleaningUp { thread_id, .. } => Some(thread_id),
        _ => None,
    }
}

/// Whether a step has found no thread yet.
pub open spec fn still_searching(stage: PathStage) -> bool {
    match stage {
        PathStage::Inspecting { .. } => true,
        PathStage::CountingFailure { .. } => true,
        PathStage::FindingMoved { .. } => true,
        PathStage::UnlockingInspected { .. } => true,
        _ => false,
    }
}

/// Whether the thread that was found is one that was asked for.
pub open spec fn found_is_selected(m: MigratePath) -> bool {
    still_searching(m.stage) || selects(m.thread_ids@, found_thread(m.stage))
}

/// Nothing is done to a thread that was not asked for, and nothing is reported of it: from the
/// moment at which a thread is found, it is one of the selected threads, and a verdict is about
/// such a thread.
pub proof fn only_selected_threads_are_touched(m: MigratePath, reply: PathReply)
    requires
        found_is_selected(m),
    ensures
        m.next(reply) matches PathStep::Ask(next, _) ==> found_is_selected(next)
            && next.thread_ids == m.thread_ids && next.mode == m.mode,
        m.next(reply) matches PathStep::End(Ok(Some(it))) ==> selects(m.thread_ids@, it.thread_id),
{
}

/// A rollout is migrated only where it is a legacy rollout whose metadata, read again under the
/// writer lock, is still that of the first look.
pub proof fn only_confirmed_legacy_rollouts_are_migrated(m: MigratePath, reply: PathReply)
    ensures
        m.next(reply) matches PathStep::Ask(_, PathAction::MigrateOne {
            thread_id,
            mode,
            path,
            kind,
        }) ==> {
            &&& m.stage matches PathStage::CountingLocked { metadata, found } && same_head(
                found,
                metadata,
            ) && thread_id == metadata.id && kind == kind_of(metadata)
            &&& mode == ThreadHistoryMode::Legacy
            &&& path == m.path
        },
{
}

/// Whether an operation of a clean-up changes the store.
pub open spec fn cleans(action: StoreAction) -> bool {
    match action {
        StoreAction::ReadJournal { .. } => false,
        StoreAction::Validate { .. } => false,
        StoreAction::Exists { .. } => false,
        StoreAction::ReadMetadata { .. } => false,
        _ => true,
    }
}

/// Cleaning up never removes the rollout itself, and it changes nothing before it has read the
/// metadata of the rollout and found that it has not crossed the format gate.
pub proof fn cleaning_up_spares_the_rollout(m: CleanUpUnpublished, reply: StoreReply)
    ensures
        m.next(reply) matches Step::Ask(_, StoreAction::RemoveIfPresent { file }) ==> file
            is Beside,
        m.next(reply) matches Step::Ask(next, action) && cleans(action) && !cleaning(m.stage) ==> {
            &&& m.stage is ReadingRollout
            &&& reply matches StoreReply::Metadata { history_mode, .. } && history_mode
                != ThreadHistoryMode::PaginatedRefsV1
        },
{
}

/// Whether a clean-up has begun to change the store.
pub open spec fn cleaning(stage: CleanUpStage) -> bool {
    match stage {
        CleanUpStage::ReadingJournal => false,
        CleanUpStage::Validating => false,
        CleanUpStage::CheckingPublished => false,
        CleanUpStage::ReadingPublished => false,
        CleanUpStage::ReadingRollout => false,
        _ => true,
    }
}

/// A rollout that is paginated without references is left alone: it is reported as it stands, and
/// nothing more is asked for.
pub proof fn paginated_rollouts_are_left_alone(m: MigratePath, metadata: SessionMeta)
    requires
        metadata.history_mode == ThreadHistoryMode::Paginated,
    ensures
        m.at(PathStage::CountingInspection { metadata }).next(PathReply::Done) == m.ended(
            metadata.id,
            Verdict::Status(RolloutMigrationStatus::AlreadyPaginated),
            None,
        ),
{
}

/// Whether a step leaves the content of a migrated rollout as it is: nothing is converted, and
/// nothing is cleaned up.
pub open spec fn keeps_content(step: PathStep) -> bool {
    match step {
        PathStep::Ask(m, action) => phase_of(m.stage) == PathPhase::Migrated && !(action
            is MigrateOne) && !(action is CleanUp),
        PathStep::End(_) => true,
    }
}

/// Migrating again changes nothing: a rollout that uses references is never converted again, and
/// where no publication of it is pending it is reported as it stands.
pub proof fn migrated_rollouts_are_not_migrated_again(
    m: MigratePath,
    metadata: SessionMeta,
    reply: PathReply,
)
    requires
        metadata.history_mode == ThreadHistoryMode::PaginatedRefsV1,
    ensures
        m.at(PathStage::CountingInspection { metadata }).next(PathReply::Done) == m.decided(
            metadata,
        ),
        keeps_content(m.decided(metadata)),
        phase_of(m.stage) == PathPhase::Migrated ==> keeps_content(m.next(reply)),
        m.at(PathStage::Promoting { metadata }).next(PathReply::Done) == m.finding_preserved(
            metadata.id,
            Verdict::Status(RolloutMigrationStatus::AlreadyPaginated),
        ),
{
}

/// Whether a step waits for the lock of a thread.
pub open spec fn waits_for_lock(stage: PathStage) -> bool {
    match stage {
        PathStage::LockingEmpty { .. } => true,
        PathStage::LockingRetained { .. } => true,
        PathStage::LockingPending { .. } => true,
        PathStage::LockingLegacy { .. } => true,
        _ => false,
    }
}

/// A rollout with an active writer is skipped: it is reported as busy with the message of the
/// lock, and nothing more is asked for.
pub proof fn busy_rollouts_are_skipped(m: MigratePath, message: String)
    requires
        waits_for_lock(m.stage),
    ensures
        m.next(
            PathReply::Rejected(ThreadStoreError::Conflict { message }),
        ) matches PathStep::End(Ok(Some(it))) && it.thread_id == found_thread(m.stage) && it.path
            == m.path && it.preserved_source_path is None && (it.verdict matches Verdict::Busy {
            message: BusyMessage::Given(text),
            ..
        } && text == message),
{
}

} // verus!
