//! What a whole run over one rollout comes to.

use crate::disk::same_layout;
use crate::disk::Disk;
use crate::disk::Progress;
use crate::error::migration_failure;
use crate::error::ErrorView;
use crate::error::ThreadId;
use crate::generation::VerifySource;
use crate::inspection::tells_scan_failure;
use crate::inspection::RolloutInspection;
use crate::inspection::RolloutInspectionDepth;
use crate::inspection::RolloutScanFailure;
use crate::inspection::RolloutValidationFailure;
use crate::journal_laws::all_granted;
use crate::journal_laws::always_found;
use crate::journal_laws::unchanged_sources_are_accepted;
use crate::migrate_one::MigrateOne;
use crate::migrate_one::MigrateStep;
use crate::migrate_path::reports_verdict;
use crate::migrate_path::MigratePath;
use crate::migrate_path::PathAction;
use crate::migrate_path::PathReply;
use crate::migrate_path::PathStage;
use crate::migrate_path::PathStep;
use crate::migrate_path::PathVerdict;
use crate::migrate_path::Verdict;
use crate::migration_laws::is_migrated;
use crate::migration_laws::migration_possible;
use crate::migration_laws::migration_run;
use crate::migration_laws::only_looks;
use crate::migration_laws::whole_migrations_keep_their_source;
use crate::migration_run::ordered;
use crate::migration_run::ordering_keeps_every_rollout;
use crate::migration_run::run_begun;
use crate::migration_run::run_next;
use crate::migration_run::RunActionView;
use crate::migration_run::RunReply;
use crate::migration_run::RunStepView;
use crate::migration_run::RunView;
use crate::operation_laws::is_unmarked;
use crate::operation_laws::migration_names;
use crate::operation_laws::names_lie_apart;
use crate::operation_laws::verification_possible;
use crate::operation_laws::verification_run;
use crate::operation_laws::MigrationNames;
use crate::operation_laws::OperationTaken;
use crate::operation_laws::Taken;
use crate::paths::file_name_of;
use crate::paths::preserved_of;
use crate::paths::rollout_id_in_path;
use crate::paths::RolloutPath;
use crate::record::error_extent;
use crate::record::error_text;
use crate::record::RolloutRecordValidationError;
use crate::report::selects;
use crate::report::RolloutMigrationFailureReason;
use crate::report::RolloutMigrationMode;
use crate::report::RolloutMigrationOutcome;
use crate::report::RolloutMigrationStatus;
use crate::rollout::ThreadHistoryMode;
use vstd::math::min;
use vstd::prelude::*;

verus! {

/// Where the handling of a rollout stands after some replies.
pub open spec fn path_run(step: PathStep, replies: Seq<PathReply>) -> PathStep
    decreases replies.len(),
{
    match step {
        PathStep::Ask(m, _) if replies.len() > 0 => path_run(m.next(replies[0]), replies.skip(1)),
        _ => step,
    }
}

/// How many bytes the handling of a rollout has counted after some replies.
pub open spec fn counted(step: PathStep, replies: Seq<PathReply>) -> int
    decreases replies.len(),
{
    match step {
        PathStep::Ask(m, action) if replies.len() > 0 => {
            let own: int = match action {
                PathAction::Account { bytes } => bytes as int,
                _ => 0,
            };
            own + counted(m.next(replies[0]), replies.skip(1))
        },
        _ => 0,
    }
}

/// The handling of a rollout, before anything has been asked.
pub open spec fn handling(
    mode: RolloutMigrationMode,
    thread_ids: Vec<ThreadId>,
    path: RolloutPath,
) -> PathStep {
    MigratePath {
        mode,
        thread_ids,
        path,
        stage: PathStage::Inspecting { retried: false },
    }.inspecting(false)
}

/// A legacy rollout with a record that cannot be read: what a look at its head finds, where it
/// finds one, and what a look over the whole of it comes to.
pub struct DamagedRollout {
    pub path: RolloutPath,
    pub head: Option<RolloutInspection>,
    pub failure: RolloutValidationFailure,
}

impl DamagedRollout {
    /// Whether the rollout is a legacy one that fails at a record, for the given reason.
    pub open spec fn wf(self, error: RolloutRecordValidationError) -> bool {
        &&& self.head matches Some(inspection) ==> inspection.metadata.history_mode
            == ThreadHistoryMode::Legacy
        &&& tells_scan_failure(self.failure, RolloutScanFailure::Record(error))
    }

    /// Whether a reply is true of the rollout. It is not empty, and where it is looked over as a
    /// whole the look fails.
    pub open spec fn answers(self, action: PathAction, reply: PathReply) -> bool {
        match action {
            PathAction::Inspect { depth, .. } => reply == PathReply::Inspected(
                match (depth, self.head) {
                    (RolloutInspectionDepth::MetadataOnly, Some(inspection)) => Ok(inspection),
                    _ => Err(self.failure),
                },
            ),
            PathAction::Account { .. } => reply == PathReply::Done,
            PathAction::IsEmpty { .. } => reply == PathReply::Answer(false),
            _ => true,
        }
    }

    /// Whether all replies are true of the rollout.
    pub open spec fn answers_all(self, step: PathStep, replies: Seq<PathReply>) -> bool
        decreases replies.len(),
    {
        match step {
            PathStep::Ask(m, action) => replies.len() > 0 ==> {
                &&& self.answers(action, replies[0])
                &&& self.answers_all(m.next(replies[0]), replies.skip(1))
            },
            PathStep::End(_) => true,
        }
    }

    /// The thread that the rollout is reported under: that of its head where the head was looked
    /// at by itself, and otherwise that of its file name.
    pub open spec fn thread(self, thread_ids: Seq<ThreadId>) -> Option<ThreadId> {
        match self.head {
            Some(inspection) if thread_ids.len() > 0 => Some(inspection.metadata.id),
            _ => rollout_id_in_path(self.path@),
        }
    }

    /// The bytes that are counted when the rollout is handled.
    pub open spec fn bytes(self, thread_ids: Seq<ThreadId>) -> int {
        let own = self.failure.bytes_processed as int;
        match self.head {
            Some(inspection) if thread_ids.len() > 0 => if selects(
                thread_ids,
                Some(inspection.metadata.id),
            ) {
                inspection.bytes_processed + own
            } else {
                0
            },
            _ => own,
        }
    }

    /// Whether an outcome reports the rollout as failed at the record.
    pub open spec fn is_reported(
        self,
        outcome: RolloutMigrationOutcome,
        error: RolloutRecordValidationError,
        bytes_processed: u64,
    ) -> bool {
        &&& outcome.status == RolloutMigrationStatus::Failed
        &&& outcome.failure_reason == Some(
            if error is Oversized {
                RolloutMigrationFailureReason::OversizedRolloutRecord
            } else {
                RolloutMigrationFailureReason::MalformedRolloutRecord
            },
        )
        &&& outcome.rollout_path == self.path
        &&& outcome.preserved_source_path is None
        &&& outcome.bytes_processed == bytes_processed
        &&& outcome.message is Some && outcome.message->0@ == migration_failure(
            error_text(error),
        ).printed()
    }
}

/// Whether two handlings of a rollout stand at the same point, one that only looks and one that
/// may change something.
pub open spec fn alike(looking: PathStep, applying: PathStep) -> bool {
    match (looking, applying) {
        (PathStep::Ask(d, asked), PathStep::Ask(a, also)) => {
            &&& asked == also
            &&& only_looks(asked)
            &&& d.mode == RolloutMigrationMode::DryRun
            &&& a == (MigratePath { mode: RolloutMigrationMode::Apply, ..d })
        },
        (PathStep::End(d), PathStep::End(a)) => d == a,
        _ => false,
    }
}

/// How many replies are left until a damaged rollout has been handled.
spec fn damaged_replies(step: PathStep) -> nat {
    match step {
        PathStep::End(_) => 0,
        PathStep::Ask(m, _) => match m.stage {
            PathStage::Inspecting { .. } => 4,
            PathStage::CountingFailure { .. } => 3,
            PathStage::CountingInspection { .. } => 3,
            PathStage::CheckingEmpty { .. } => 2,
            PathStage::Validating { .. } => 2,
            _ => 1,
        },
    }
}

spec fn damaged_fits(
    step: PathStep,
    rollout: DamagedRollout,
    thread_ids: Vec<ThreadId>,
) -> bool {
    let selected = selects(thread_ids@, rollout.thread(thread_ids@));
    match step {
        PathStep::Ask(m, action) => {
            &&& m.thread_ids == thread_ids
            &&& m.path == rollout.path
            &&& match m.stage {
                PathStage::Inspecting { .. } => action == (PathAction::Inspect {
                    path: m.path,
                    depth: m.first_depth(),
                }),
                PathStage::CountingFailure { failure, .. } => failure == rollout.failure && action
                    == (PathAction::Account { bytes: failure.bytes_processed }) && (thread_ids@.len()
                    == 0 || rollout.head is None),
                PathStage::CountingInspection { metadata } => selected && rollout.head is Some
                    && thread_ids@.len() > 0 && metadata == (rollout.head->0).metadata && action
                    == (PathAction::Account { bytes: (rollout.head->0).bytes_processed }),
                PathStage::CheckingEmpty { thread_id, failure } => selected && thread_id
                    == rollout.thread(thread_ids@) && failure == rollout.failure
                    && action is IsEmpty,
                PathStage::RecheckingEmpty { thread_id, failure } => selected && thread_id
                    == rollout.thread(thread_ids@) && failure == rollout.failure
                    && action is IsEmpty,
                PathStage::Validating { metadata, .. } => selected && Some(metadata.id)
                    == rollout.thread(thread_ids@) && (action matches PathAction::Inspect {
                    depth,
                    ..
                } && depth == RolloutInspectionDepth::FullLegacy),
                PathStage::CountingInvalid { thread_id, failure } => selected && Some(thread_id)
                    == rollout.thread(thread_ids@) && failure == rollout.failure && action == (
                PathAction::Account { bytes: failure.bytes_processed }),
                _ => false,
            }
        },
        PathStep::End(Ok(Some(it))) => {
            &&& selected
            &&& it.thread_id == rollout.thread(thread_ids@)
            &&& it.path == rollout.path
            &&& it.preserved_source_path is None
            &&& it.verdict == Verdict::Failed(rollout.failure.failure) || it.verdict == (
            Verdict::Unreadable { empty: false, failure: rollout.failure.failure })
        },
        PathStep::End(Ok(None)) => !selected,
        PathStep::End(Err(_)) => false,
    }
}

proof fn lemma_damaged_run(
    looking: PathStep,
    applying: PathStep,
    replies: Seq<PathReply>,
    rollout: DamagedRollout,
    error: RolloutRecordValidationError,
    thread_ids: Vec<ThreadId>,
)
    requires
        rollout.wf(error),
        alike(looking, applying),
        damaged_fits(looking, rollout, thread_ids),
        rollout.answers_all(looking, replies),
    ensures
        alike(path_run(looking, replies), path_run(applying, replies)),
        damaged_fits(path_run(looking, replies), rollout, thread_ids),
        path_run(looking, replies) is Ask ==> replies.len() + damaged_replies(
            path_run(looking, replies),
        ) <= damaged_replies(looking),
        rollout.answers_all(applying, replies),
        counted(looking, replies) == counted(applying, replies),
    decreases replies.len(),
{
    if let PathStep::Ask(d, action) = looking {
        if replies.len() > 0 {
            let a = applying->Ask_0;
            let reply = replies[0];
            assert(alike(d.next(reply), a.next(reply)));
            assert(damaged_fits(d.next(reply), rollout, thread_ids));
            lemma_damaged_run(
                d.next(reply),
                a.next(reply),
                replies.skip(1),
                rollout,
                error,
                thread_ids,
            );
        }
    }
}

/// A record that cannot be read blocks a dry run and a migration alike. From the same replies both
/// ask for the same things, neither asks for anything but to look, and both end within 4 replies
/// with the same verdict and the same bytes counted. The rollout is reported as failed, at an
/// oversized record or at a malformed one, with the same words; where its thread was not asked for,
/// it is not reported at all.
pub proof fn damaged_records_block_dry_runs_and_migrations_alike(
    thread_ids: Vec<ThreadId>,
    rollout: DamagedRollout,
    error: RolloutRecordValidationError,
    replies: Seq<PathReply>,
    bytes_processed: u64,
    dry_outcome: RolloutMigrationOutcome,
    apply_outcome: RolloutMigrationOutcome,
)
    requires
        rollout.wf(error),
        rollout.answers_all(
            handling(RolloutMigrationMode::DryRun, thread_ids, rollout.path),
            replies,
        ),
    ensures
        ({
            let looking = handling(RolloutMigrationMode::DryRun, thread_ids, rollout.path);
            let applying = handling(RolloutMigrationMode::Apply, thread_ids, rollout.path);
            &&& rollout.answers_all(applying, replies)
            &&& alike(path_run(looking, replies), path_run(applying, replies))
            &&& counted(looking, replies) == counted(applying, replies)
            &&& match path_run(applying, replies) {
                PathStep::Ask(..) => replies.len() < 4,
                PathStep::End(Ok(Some(it))) => {
                    &&& selects(thread_ids@, rollout.thread(thread_ids@))
                    &&& it.thread_id == rollout.thread(thread_ids@)
                    &&& reports_verdict(dry_outcome, it, bytes_processed) && reports_verdict(
                        apply_outcome,
                        it,
                        bytes_processed,
                    ) ==> {
                        &&& rollout.is_reported(dry_outcome, error, bytes_processed)
                        &&& rollout.is_reported(apply_outcome, error, bytes_processed)
                    }
                },
                PathStep::End(Ok(None)) => !selects(thread_ids@, rollout.thread(thread_ids@)),
                PathStep::End(Err(_)) => false,
            }
        }),
{
    let looking = handling(RolloutMigrationMode::DryRun, thread_ids, rollout.path);
    let applying = handling(RolloutMigrationMode::Apply, thread_ids, rollout.path);
    lemma_damaged_run(looking, applying, replies, rollout, error, thread_ids);
}

/// The bytes that are still to be counted when a damaged rollout is handled.
spec fn uncounted(step: PathStep, rollout: DamagedRollout, thread_ids: Vec<ThreadId>) -> int {
    let own = rollout.failure.bytes_processed as int;
    match step {
        PathStep::End(_) => 0,
        PathStep::Ask(m, _) => match m.stage {
            PathStage::Inspecting { .. } => rollout.bytes(thread_ids@),
            PathStage::CountingInspection { .. } => (rollout.head->0).bytes_processed + own,
            PathStage::CountingFailure { .. } => own,
            PathStage::Validating { .. } => own,
            PathStage::CountingInvalid { .. } => own,
            _ => 0,
        },
    }
}

proof fn lemma_damaged_bytes(
    step: PathStep,
    replies: Seq<PathReply>,
    rollout: DamagedRollout,
    error: RolloutRecordValidationError,
    thread_ids: Vec<ThreadId>,
)
    requires
        rollout.wf(error),
        damaged_fits(step, rollout, thread_ids),
        rollout.answers_all(step, replies),
    ensures
        damaged_fits(path_run(step, replies), rollout, thread_ids),
        counted(step, replies) + uncounted(path_run(step, replies), rollout, thread_ids)
            == uncounted(step, rollout, thread_ids),
    decreases replies.len(),
{
    if let PathStep::Ask(m, action) = step {
        if replies.len() > 0 {
            let next = m.next(replies[0]);
            assert(damaged_fits(next, rollout, thread_ids));
            lemma_damaged_bytes(next, replies.skip(1), rollout, error, thread_ids);
        }
    }
}

/// Whether two looks over a rollout found the same: the same head, where they found one, and the
/// same damage in the same words.
pub open spec fn same_damage(
    a: DamagedRollout,
    a_error: RolloutRecordValidationError,
    b: DamagedRollout,
    b_error: RolloutRecordValidationError,
) -> bool {
    &&& a.path == b.path
    &&& match (a.head, b.head) {
        (Some(x), Some(y)) => x.metadata.id == y.metadata.id && x.bytes_processed
            == y.bytes_processed,
        (None, None) => true,
        _ => false,
    }
    &&& a_error is Oversized == b_error is Oversized
    &&& error_text(a_error) == error_text(b_error)
    &&& error_extent(a_error) == error_extent(b_error)
}

/// A dry run over a damaged rollout and a migration of it report the same, each from its own looks
/// at the rollout: both report it as failed, for the same reason, with the same bytes counted and
/// in the same words, or neither reports it.
pub proof fn damaged_records_are_reported_alike(
    thread_ids: Vec<ThreadId>,
    dry: DamagedRollout,
    dry_error: RolloutRecordValidationError,
    dry_replies: Seq<PathReply>,
    dry_outcome: RolloutMigrationOutcome,
    apply: DamagedRollout,
    apply_error: RolloutRecordValidationError,
    apply_replies: Seq<PathReply>,
    apply_outcome: RolloutMigrationOutcome,
)
    requires
        dry.wf(dry_error),
        apply.wf(apply_error),
        same_damage(dry, dry_error, apply, apply_error),
        dry.answers_all(
            handling(RolloutMigrationMode::DryRun, thread_ids, dry.path),
            dry_replies,
        ),
        apply.answers_all(
            handling(RolloutMigrationMode::Apply, thread_ids, apply.path),
            apply_replies,
        ),
    ensures
        ({
            let looking = handling(RolloutMigrationMode::DryRun, thread_ids, dry.path);
            let applying = handling(RolloutMigrationMode::Apply, thread_ids, apply.path);
            let dry_bytes = min(counted(looking, dry_replies), u64::MAX as int) as u64;
            let apply_bytes = min(counted(applying, apply_replies), u64::MAX as int) as u64;
            match (path_run(looking, dry_replies), path_run(applying, apply_replies)) {
                (PathStep::End(Ok(Some(d))), PathStep::End(Ok(Some(a)))) => {
                    &&& dry_bytes == apply_bytes
                    &&& reports_verdict(dry_outcome, d, dry_bytes) && reports_verdict(
                        apply_outcome,
                        a,
                        apply_bytes,
                    ) ==> {
                        &&& dry.is_reported(dry_outcome, dry_error, dry_bytes)
                        &&& dry_outcome.thread_id == apply_outcome.thread_id
                        &&& dry_outcome.status == apply_outcome.status
                        &&& dry_outcome.failure_reason == apply_outcome.failure_reason
                        &&& dry_outcome.bytes_processed == apply_outcome.bytes_processed
                        &&& dry_outcome.message is Some && apply_outcome.message is Some
                        &&& (dry_outcome.message->0)@ == (apply_outcome.message->0)@
                    }
                },
                (PathStep::End(Ok(None)), PathStep::End(Ok(None))) => true,
                (PathStep::End(_), PathStep::End(_)) => false,
                _ => true,
            }
        }),
{
    let looking = handling(RolloutMigrationMode::DryRun, thread_ids, dry.path);
    let applying = handling(RolloutMigrationMode::Apply, thread_ids, apply.path);
    lemma_damaged_bytes(looking, dry_replies, dry, dry_error, thread_ids);
    lemma_damaged_bytes(applying, apply_replies, apply, apply_error, thread_ids);
}

/// A rollout that a migration has published: what a look at it finds, and the names that the
/// migration worked with.
pub struct MigratedRollout {
    pub path: RolloutPath,
    pub inspection: RolloutInspection,
    pub names: MigrationNames,
}

/// One step of handling a rollout as it really went: the reply, and the disk behind it.
pub struct PathTaken {
    pub reply: PathReply,
    pub after: Disk,
}

/// Whether a step of handling a rollout is reported as done.
pub open spec fn path_done(reply: PathReply) -> bool {
    reply == PathReply::Done
}

/// Whether the comparison of a source went to its end on a disk that does what it is asked for,
/// with a source that has the fingerprint of its record. The result says what it came to.
pub open spec fn granted_comparison_took(
    m: VerifySource,
    steps: Seq<Taken>,
    path: Seq<char>,
    before: Disk,
    succeeded: bool,
    after: Disk,
) -> bool {
    let begun = VerifySource::begun(m.thread_id, m.journal, m.selected);
    let (end, disk) = verification_run(begun, before, steps);
    &&& m.journal.wf()
    &&& m.journal.path@ == path
    &&& verification_possible(begun, before, steps)
    &&& all_granted(steps)
    &&& before.record(path) matches Some(record) ==> always_found(
        steps,
        record.publication_fingerprint->0,
    )
    &&& disk == after
    &&& end matches Progress::End(result) && succeeded == result is Ok
}

impl MigratedRollout {
    /// Whether a reply is true of the rollout and of the disk, and of a store that does what it is
    /// asked for. Nothing but the comparison of the retained source works on the names of the
    /// migration.
    pub open spec fn took(
        self,
        before: Disk,
        action: PathAction,
        reply: PathReply,
        after: Disk,
    ) -> bool {
        match action {
            PathAction::VerifyRetained { .. } => exists|m: VerifySource, steps: Seq<Taken>|
                #[trigger] granted_comparison_took(
                    m,
                    steps,
                    self.names.retained,
                    before,
                    path_done(reply),
                    after,
                ),
            _ => {
                &&& same_layout(after, before)
                &&& match action {
                    PathAction::Inspect { .. } => reply == PathReply::Inspected(
                        Ok(self.inspection),
                    ),
                    PathAction::PendingExists { .. } => reply == PathReply::Answer(
                        before.has(self.names.names.journal),
                    ),
                    PathAction::RetainedExists { .. } => reply == PathReply::Answer(
                        before.has(self.names.retained),
                    ),
                    PathAction::FindPreserved { path } => {
                        &&& reply matches PathReply::Found(found) && found is Some == (
                        file_name_of(path@) is Some && before.has(preserved_of(path@))) && (found
                            is Some ==> found->0@ == preserved_of(path@))
                    },
                    PathAction::Account { .. } => reply == PathReply::Done,
                    PathAction::Lock { .. } => reply == PathReply::Done,
                    PathAction::Unlock => reply == PathReply::Done,
                    PathAction::PromoteName { .. } => reply == PathReply::Done,
                    _ => true,
                }
            },
        }
    }

    /// Whether all steps go as they can go.
    pub open spec fn possible(self, step: PathStep, disk: Disk, steps: Seq<PathTaken>) -> bool
        decreases steps.len(),
    {
        match step {
            PathStep::Ask(m, action) => steps.len() > 0 ==> {
                &&& self.took(disk, action, steps[0].reply, steps[0].after)
                &&& self.possible(m.next(steps[0].reply), steps[0].after, steps.skip(1))
            },
            PathStep::End(_) => true,
        }
    }

    /// Whether an outcome says that the rollout is already paginated.
    pub open spec fn is_reported(self, outcome: RolloutMigrationOutcome) -> bool {
        &&& outcome.thread_id == Some(self.inspection.metadata.id)
        &&& outcome.rollout_path == self.path
        &&& outcome.status == RolloutMigrationStatus::AlreadyPaginated
        &&& outcome.failure_reason is None
        &&& outcome.message is None
    }

    /// Whether the rollout is left as it stands, and the verdict says so.
    pub open spec fn is_left_alone(self, it: PathVerdict, disk: Disk) -> bool {
        &&& it.thread_id == Some(self.inspection.metadata.id)
        &&& it.path == self.path
        &&& it.verdict == Verdict::Status(RolloutMigrationStatus::AlreadyPaginated)
        &&& it.preserved_source_path is Some == (file_name_of(self.path@) is Some && disk.has(
            preserved_of(self.path@),
        ))
        &&& it.preserved_source_path is Some ==> (it.preserved_source_path->0)@ == preserved_of(
            self.path@,
        )
    }
}

/// Whether nothing is left to do for the migration of a rollout: no journal is pending, and where a
/// record is retained it carries no mark. So it is behind a successful migration, and also once the
/// source has been released.
pub open spec fn is_settled(disk: Disk, n: MigrationNames) -> bool {
    &&& !disk.has(n.names.journal)
    &&& disk.has(n.retained) ==> disk.record(n.retained) is Some && is_unmarked(
        disk.record(n.retained)->0,
    )
}

/// Where the handling of a rollout stands once some steps have been taken.
pub open spec fn handling_run(step: PathStep, disk: Disk, steps: Seq<PathTaken>) -> (
    PathStep,
    Disk,
)
    decreases steps.len(),
{
    match step {
        PathStep::Ask(m, _) if steps.len() > 0 => handling_run(
            m.next(steps[0].reply),
            steps[0].after,
            steps.skip(1),
        ),
        _ => (step, disk),
    }
}

/// Whether an action leaves a migrated rollout, its source and its journals as they are.
pub open spec fn leaves_alone(action: PathAction) -> bool {
    match action {
        PathAction::MigrateOne { .. } => false,
        PathAction::CleanUp { .. } => false,
        PathAction::Recover { .. } => false,
        _ => true,
    }
}

spec fn migrated_replies(step: PathStep) -> nat {
    match step {
        PathStep::End(_) => 0,
        PathStep::Ask(m, _) => match m.stage {
            PathStage::Inspecting { .. } => 9,
            PathStage::CountingInspection { .. } => 8,
            PathStage::CheckingPending { .. } => 7,
            PathStage::CheckingRetained { .. } => 6,
            PathStage::LockingRetained { .. } => 5,
            PathStage::VerifyingRetained { .. } => 4,
            PathStage::UnlockingRetained { .. } => 3,
            PathStage::Promoting { .. } => 2,
            _ => 1,
        },
    }
}

spec fn migrated_fits(
    step: PathStep,
    disk: Disk,
    rollout: MigratedRollout,
    thread_ids: Vec<ThreadId>,
) -> bool {
    let metadata = rollout.inspection.metadata;
    match step {
        PathStep::Ask(m, action) => {
            &&& m.thread_ids == thread_ids
            &&& m.path == rollout.path
            &&& leaves_alone(action)
            &&& match m.stage {
                PathStage::Inspecting { .. } => action is Inspect,
                PathStage::CountingInspection { metadata: found } => {
                    &&& selects(thread_ids@, Some(metadata.id))
                    &&& found == metadata && action is Account
                },
                PathStage::CheckingPending { metadata: found } => {
                    &&& selects(thread_ids@, Some(metadata.id))
                    &&& found == metadata && action is PendingExists
                },
                PathStage::CheckingRetained { metadata: found, pending } => {
                    &&& selects(thread_ids@, Some(metadata.id))
                    &&& found == metadata && !pending && action is RetainedExists
                },
                PathStage::LockingRetained { metadata: found, pending } => {
                    &&& selects(thread_ids@, Some(metadata.id))
                    &&& found == metadata && !pending && action is Lock
                    &&& disk.has(rollout.names.retained)
                },
                PathStage::VerifyingRetained { metadata: found, pending } => {
                    &&& selects(thread_ids@, Some(metadata.id))
                    &&& found == metadata && !pending && action is VerifyRetained
                    &&& disk.has(rollout.names.retained)
                },
                PathStage::UnlockingRetained { metadata: found, pending } => {
                    &&& selects(thread_ids@, Some(metadata.id))
                    &&& found == metadata && !pending && action is Unlock
                },
                PathStage::Promoting { metadata: found } => {
                    &&& selects(thread_ids@, Some(metadata.id))
                    &&& found == metadata && action is PromoteName
                },
                PathStage::FindingPreserved { thread_id, verdict } => {
                    &&& selects(thread_ids@, Some(metadata.id))
                    &&& thread_id == metadata.id
                    &&& verdict == Verdict::Status(RolloutMigrationStatus::AlreadyPaginated)
                    &&& action == (PathAction::FindPreserved { path: rollout.path })
                },
                _ => false,
            }
        },
        PathStep::End(Ok(Some(it))) => selects(thread_ids@, Some(metadata.id))
            && rollout.is_left_alone(it, disk),
        PathStep::End(Ok(None)) => !selects(thread_ids@, Some(metadata.id)),
        PathStep::End(Err(_)) => false,
    }
}

proof fn lemma_migrated_run(
    step: PathStep,
    disk: Disk,
    steps: Seq<PathTaken>,
    rollout: MigratedRollout,
    thread_ids: Vec<ThreadId>,
)
    requires
        rollout.inspection.metadata.history_mode == ThreadHistoryMode::PaginatedRefsV1,
        is_settled(disk, rollout.names),
        migrated_fits(step, disk, rollout, thread_ids),
        rollout.possible(step, disk, steps),
    ensures
        ({
            let (end, after) = handling_run(step, disk, steps);
            &&& same_layout(after, disk)
            &&& migrated_fits(end, after, rollout, thread_ids)
            &&& end is Ask ==> steps.len() + migrated_replies(end) <= migrated_replies(step)
        }),
    decreases steps.len(),
{
    if let PathStep::Ask(m, action) = step {
        if steps.len() > 0 {
            let reply = steps[0].reply;
            let after = steps[0].after;
            let retained = rollout.names.retained;
            if action is VerifyRetained {
                let done = path_done(reply);
                let (sub, taken) = choose|sub: VerifySource, taken: Seq<Taken>|
                    #[trigger] granted_comparison_took(sub, taken, retained, disk, done, after);
                unchanged_sources_are_accepted(
                    sub.thread_id,
                    sub.journal,
                    sub.selected,
                    disk.record(retained)->0,
                    disk,
                    taken,
                );
            }
            assert(same_layout(after, disk));
            assert(migrated_fits(m.next(reply), after, rollout, thread_ids));
            lemma_migrated_run(
                m.next(reply),
                after,
                steps.skip(1),
                rollout,
                thread_ids,
            );
        }
    }
}

/// Migrating again changes nothing. Where nothing is left to do for a migrated rollout and its
/// source, if it is still there, has not changed, a second run leaves every name, file and journal as it is, asks
/// neither for a migration nor for a recovery nor for cleaning up, and ends within 9 replies. The
/// rollout is reported as already paginated, with the second name of its source where that is
/// found; where its thread was not asked for, it is not reported.
pub proof fn second_runs_leave_migrated_rollouts_alone(
    mode: RolloutMigrationMode,
    thread_ids: Vec<ThreadId>,
    rollout: MigratedRollout,
    disk: Disk,
    steps: Seq<PathTaken>,
    bytes_processed: u64,
    outcome: RolloutMigrationOutcome,
)
    requires
        rollout.inspection.metadata.history_mode == ThreadHistoryMode::PaginatedRefsV1,
        is_settled(disk, rollout.names),
        rollout.possible(handling(mode, thread_ids, rollout.path), disk, steps),
    ensures
        ({
            let (end, after) = handling_run(
                handling(mode, thread_ids, rollout.path),
                disk,
                steps,
            );
            let selected = selects(thread_ids@, Some(rollout.inspection.metadata.id));
            &&& same_layout(after, disk)
            &&& match end {
                PathStep::Ask(_, action) => leaves_alone(action) && steps.len() < 9,
                PathStep::End(Ok(Some(it))) => {
                    &&& selected
                    &&& rollout.is_left_alone(it, after)
                    &&& reports_verdict(outcome, it, bytes_processed) ==> rollout.is_reported(
                        outcome,
                    )
                },
                PathStep::End(Ok(None)) => !selected,
                PathStep::End(Err(_)) => false,
            }
        }),
{
    let begun = handling(mode, thread_ids, rollout.path);
    lemma_migrated_run(begun, disk, steps, rollout, thread_ids);
}

/// A migration and a run behind it: where the migration succeeds and nothing touches the disk in
/// between, the second run finds the rollout as the first one left it and leaves it so.
pub proof fn migrations_need_no_second_run(
    m: MigrateOne,
    first: Disk,
    operations: Seq<OperationTaken>,
    mode: RolloutMigrationMode,
    thread_ids: Vec<ThreadId>,
    inspection: RolloutInspection,
    steps: Seq<PathTaken>,
    legacy: int,
    bytes_processed: u64,
    outcome: RolloutMigrationOutcome,
)
    requires
        m.wf(),
        names_lie_apart(migration_names(m), first),
        first.names(m.rollout_path@, legacy),
        migration_possible(m.begun(), migration_names(m), first, operations),
        migration_run(m.begun(), first, operations).0 matches MigrateStep::End(Ok(_)),
        inspection.metadata.history_mode == ThreadHistoryMode::PaginatedRefsV1,
        (MigratedRollout {
            path: m.published_rollout_path,
            inspection,
            names: migration_names(m),
        }).possible(
            handling(mode, thread_ids, m.published_rollout_path),
            migration_run(m.begun(), first, operations).1,
            steps,
        ),
    ensures
        ({
            let rollout = MigratedRollout {
                path: m.published_rollout_path,
                inspection,
                names: migration_names(m),
            };
            let second = migration_run(m.begun(), first, operations).1;
            let (end, after) = handling_run(
                handling(mode, thread_ids, rollout.path),
                second,
                steps,
            );
            &&& same_layout(after, second)
            &&& is_migrated(after, rollout.names, legacy)
            &&& match end {
                PathStep::Ask(_, action) => leaves_alone(action) && steps.len() < 9,
                PathStep::End(Ok(Some(it))) => {
                    &&& rollout.is_left_alone(it, after)
                    &&& reports_verdict(outcome, it, bytes_processed) ==> rollout.is_reported(
                        outcome,
                    )
                },
                PathStep::End(Ok(None)) => !selects(thread_ids@, Some(inspection.metadata.id)),
                PathStep::End(Err(_)) => false,
            }
        }),
{
    whole_migrations_keep_their_source(m, first, operations, legacy);
    second_runs_leave_migrated_rollouts_alone(
        mode,
        thread_ids,
        MigratedRollout {
            path: m.published_rollout_path,
            inspection,
            names: migration_names(m),
        },
        migration_run(m.begun(), first, operations).1,
        steps,
        bytes_processed,
        outcome,
    );
}

/// What a store tells a run: the lock is free, these rollouts are on disk, these threads are
/// pending, and this becomes of each rollout.
pub struct RunWorld {
    pub found: Vec<RolloutPath>,
    pub pending: Vec<ThreadId>,
    pub outcome: spec_fn(RolloutPath) -> Option<RolloutMigrationOutcome>,
}

impl RunWorld {
    /// Whether a reply is what the store tells.
    pub open spec fn answers(self, action: RunActionView, reply: RunReply) -> bool {
        match action {
            RunActionView::TakeMaintenanceLock => reply == RunReply::Lock(Ok(true)),
            RunActionView::Discover => reply == RunReply::Paths(self.found),
            RunActionView::PendingThreads => reply == RunReply::Threads(self.pending),
            RunActionView::MigratePath { path } => reply == RunReply::Outcome(
                (self.outcome)(path),
            ),
            _ => reply == RunReply::Done,
        }
    }

    /// Whether all replies are what the store tells.
    pub open spec fn answers_all(
        self,
        mode: RolloutMigrationMode,
        step: RunStepView,
        replies: Seq<RunReply>,
    ) -> bool
        decreases replies.len(),
    {
        match step {
            RunStepView::Ask(stage, action) => replies.len() > 0 ==> {
                &&& self.answers(action, replies[0])
                &&& self.answers_all(mode, run_next(mode, stage, replies[0]), replies.skip(1))
            },
            RunStepView::End(_) => true,
        }
    }

    /// What becomes of some rollouts, in order, as far as it is reported.
    pub open spec fn reported(self, paths: Seq<RolloutPath>) -> Seq<RolloutMigrationOutcome>
        decreases paths.len(),
    {
        if paths.len() == 0 {
            Seq::empty()
        } else {
            let before = self.reported(paths.drop_last());
            match (self.outcome)(paths.last()) {
                Some(outcome) => before.push(outcome),
                None => before,
            }
        }
    }

    /// The rollouts of a run: those that are given, or all that are on disk.
    pub open spec fn rollouts(self, known: Option<Seq<RolloutPath>>) -> Seq<RolloutPath> {
        match known {
            Some(paths) => paths,
            None => self.found@,
        }
    }

    /// The order in which a run handles its rollouts.
    pub open spec fn order(
        self,
        mode: RolloutMigrationMode,
        paths: Seq<RolloutPath>,
    ) -> Seq<RolloutPath> {
        if mode == RolloutMigrationMode::Apply {
            ordered(paths, self.pending@)
        } else {
            paths
        }
    }
}

/// Where a run stands after some replies.
pub open spec fn report_run(
    mode: RolloutMigrationMode,
    step: RunStepView,
    replies: Seq<RunReply>,
) -> RunStepView
    decreases replies.len(),
{
    match step {
        RunStepView::Ask(stage, _) if replies.len() > 0 => report_run(
            mode,
            run_next(mode, stage, replies[0]),
            replies.skip(1),
        ),
        _ => step,
    }
}

spec fn report_replies(step: RunStepView, paths: Seq<RolloutPath>) -> int {
    match step {
        RunStepView::End(_) => 0,
        RunStepView::Ask(stage, _) => match stage {
            RunView::Locking { .. } => (2 * paths.len() + 4) as int,
            RunView::Discovering => (2 * paths.len() + 3) as int,
            RunView::ReadingPending { paths } => (2 * paths.len() + 2) as int,
            RunView::ReadingNames { paths } => (2 * paths.len() + 1) as int,
            RunView::Migrating { paths, handled, .. } => 2 * (paths.len() - handled),
            RunView::Reporting { paths, handled, .. } => 2 * (paths.len() - handled) + 1,
        },
    }
}

spec fn report_fits(
    mode: RolloutMigrationMode,
    step: RunStepView,
    world: RunWorld,
    known: Seq<RolloutPath>,
) -> bool {
    let order = world.order(mode, known);
    match step {
        RunStepView::Ask(stage, action) => match stage {
            RunView::Locking { known: paths } => world.rollouts(paths) == known && mode
                == RolloutMigrationMode::Apply && action is TakeMaintenanceLock,
            RunView::Discovering => world.found@ == known && action is Discover,
            RunView::ReadingPending { paths } => paths == known && mode
                == RolloutMigrationMode::Apply && action is PendingThreads,
            RunView::ReadingNames { paths } => paths == order && action is ReadNames,
            RunView::Migrating { paths, outcomes, handled } => {
                &&& paths == order && handled < paths.len()
                &&& outcomes == world.reported(order.take(handled as int))
                &&& action == (RunActionView::MigratePath { path: order[handled as int] })
            },
            RunView::Reporting { paths, outcomes, handled } => {
                &&& paths == order && handled <= paths.len()
                &&& outcomes == world.reported(order.take(handled as int))
                &&& action is Progress
            },
        },
        RunStepView::End(result) => result == Ok::<Seq<RolloutMigrationOutcome>, ErrorView>(
            world.reported(order),
        ),
    }
}

proof fn lemma_report_run(
    mode: RolloutMigrationMode,
    step: RunStepView,
    replies: Seq<RunReply>,
    world: RunWorld,
    known: Seq<RolloutPath>,
)
    requires
        report_fits(mode, step, world, known),
        world.order(mode, known).len() == known.len(),
        world.answers_all(mode, step, replies),
    ensures
        report_fits(mode, report_run(mode, step, replies), world, known),
        report_run(mode, step, replies) is Ask ==> replies.len() + report_replies(
            report_run(mode, step, replies),
            known,
        ) <= report_replies(step, known),
    decreases replies.len(),
{
    if let RunStepView::Ask(stage, action) = step {
        if replies.len() > 0 {
            let order = world.order(mode, known);
            let next = run_next(mode, stage, replies[0]);
            assert(order.take(0) =~= Seq::<RolloutPath>::empty());
            assert(order.take(order.len() as int) =~= order);
            if let RunView::Migrating { handled, .. } = stage {
                assert(order.take((handled + 1) as int).drop_last() =~= order.take(handled as int));
                assert(order.take((handled + 1) as int).last() == order[handled as int]);
            }
            assert(report_fits(mode, next, world, known));
            lemma_report_run(mode, next, replies.skip(1), world, known);
        }
    }
}

/// A run reports what became of each rollout, one after the other: on a store that tells what
/// becomes of each, it ends within two replies for each rollout and four more, and its report holds
/// exactly the outcomes of its rollouts in the order in which they were handled.
pub proof fn runs_report_what_became_of_each_rollout(
    mode: RolloutMigrationMode,
    known: Option<Seq<RolloutPath>>,
    world: RunWorld,
    replies: Seq<RunReply>,
)
    requires
        world.answers_all(mode, run_begun(mode, known), replies),
    ensures
        match report_run(mode, run_begun(mode, known), replies) {
            RunStepView::Ask(..) => replies.len() < 2 * world.rollouts(known).len() + 4,
            RunStepView::End(result) => result == Ok::<Seq<RolloutMigrationOutcome>, ErrorView>(
                world.reported(world.order(mode, world.rollouts(known))),
            ),
        },
{
    let begun = run_begun(mode, known);
    let paths = world.rollouts(known);
    let order = world.order(mode, paths);
    ordering_keeps_every_rollout(paths, world.pending@);
    paths.to_multiset_ensures();
    ordered(paths, world.pending@).to_multiset_ensures();
    assert(order.take(0) =~= Seq::<RolloutPath>::empty());
    if paths.len() == 0 {
        assert(order =~= Seq::<RolloutPath>::empty());
    }
    lemma_report_run(mode, begun, replies, world, paths);
}

proof fn lemma_reported(world: RunWorld, paths: Seq<RolloutPath>, status: RolloutMigrationStatus)
    requires
        forall|i: int|
            0 <= i < paths.len() ==> ((world.outcome)(#[trigger] paths[i]) matches Some(outcome)
                ==> outcome.status == status),
    ensures
        forall|i: int|
            0 <= i < world.reported(paths).len() ==> #[trigger] world.reported(paths)[i].status
                == status,
    decreases paths.len(),
{
    if paths.len() > 0 {
        let rest = paths.drop_last();
        assert forall|i: int| 0 <= i < rest.len() implies ((world.outcome)(#[trigger] rest[i])
            matches Some(outcome) ==> outcome.status == status) by {
            assert(rest[i] == paths[i]);
        }
        lemma_reported(world, rest, status);
        assert(paths[paths.len() - 1] == paths.last());
    }
}

/// A run over rollouts that are all migrated reports each as already paginated and none as anything
/// else.
pub proof fn second_runs_report_nothing_new(
    mode: RolloutMigrationMode,
    known: Option<Seq<RolloutPath>>,
    world: RunWorld,
    replies: Seq<RunReply>,
)
    requires
        world.answers_all(mode, run_begun(mode, known), replies),
        forall|path: RolloutPath|
            world.rollouts(known).contains(path) ==> (#[trigger] (world.outcome)(path) matches Some(outcome)
                ==> outcome.status == RolloutMigrationStatus::AlreadyPaginated),
    ensures
        report_run(mode, run_begun(mode, known), replies) matches RunStepView::End(result)
            ==> {
            &&& result is Ok
            &&& forall|i: int|
                0 <= i < result->Ok_0.len() ==> #[trigger] result->Ok_0[i].status
                    == RolloutMigrationStatus::AlreadyPaginated
        },
{
    let paths = world.rollouts(known);
    let order = world.order(mode, paths);
    runs_report_what_became_of_each_rollout(mode, known, world, replies);
    ordering_keeps_every_rollout(paths, world.pending@);
    paths.to_multiset_ensures();
    order.to_multiset_ensures();
    assert forall|i: int| 0 <= i < order.len() implies ((world.outcome)(#[trigger] order[i])
        matches Some(outcome) ==> outcome.status == RolloutMigrationStatus::AlreadyPaginated) by {
        assert(order.contains(order[i]));
        assert(paths.to_multiset().count(order[i]) > 0);
        assert(paths.contains(order[i]));
    }
    lemma_reported(world, order, RolloutMigrationStatus::AlreadyPaginated);
}

} // verus!
