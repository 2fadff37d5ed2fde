//! What a later run makes of a migration that stopped behind publication.

use crate::disk::follows;
use crate::disk::record_view;
use crate::disk::same_layout;
use crate::disk::truthful;
use crate::disk::Disk;
use crate::disk::DiskAction;
use crate::disk::DiskReply;
use crate::disk::Progress;
use crate::error::ThreadId;
use crate::finish::FinishPublished;
use crate::finish::FinishStage;
use crate::generation::VerifySource;
use crate::inspection::RolloutInspection;
use crate::journal_laws::all_granted;
use crate::journal_laws::unchanged_sources_are_accepted;
use crate::migrate_path::reports_verdict;
use crate::migrate_path::PathAction;
use crate::migrate_path::PathReply;
use crate::migrate_path::PathStage;
use crate::migrate_path::PathStep;
use crate::migrate_path::PathVerdict;
use crate::migrate_path::Verdict;
use crate::migration_laws::is_migrated;
use crate::operation_laws::finishing_run;
use crate::operation_laws::is_unmarked;
use crate::operation_laws::leads_back;
use crate::operation_laws::names_lie_apart;
use crate::operation_laws::retention_possible;
use crate::operation_laws::retention_run;
use crate::operation_laws::retention_took;
use crate::operation_laws::spares_preserved;
use crate::operation_laws::MigrationNames;
use crate::operation_laws::OperationTaken;
use crate::operation_laws::Taken;
use crate::operations::store_problem_view;
use crate::operations::Step;
use crate::operations::StoreAction;
use crate::operations::StoreProblem;
use crate::operations::StoreReply;
use crate::operations::ThreadRow;
use crate::paths::file_name_of;
use crate::paths::journal_staged_of;
use crate::paths::plain_path;
use crate::paths::preserved_of;
use crate::paths::RolloutPath;
use crate::recover::RecoverPublished;
use crate::recover::RecoverStage;
use crate::recovery::RecoveryView;
use crate::report::selects;
use crate::report::RolloutMigrationMode;
use crate::report::RolloutMigrationOutcome;
use crate::report::RolloutMigrationStatus;
use crate::retention::RemoveIfPresent;
use crate::retention::RemoveJournal;
use crate::retention::RemoveStage;
use crate::retention::RetainRecovery;
use crate::retention::RetainStage;
use crate::retention_laws::apart;
use crate::retention_laws::journal_removal_fits;
use crate::retention_laws::retaining_never_loses_the_record;
use crate::retention_laws::retention_fits;
use crate::rollout::ThreadHistoryMode;
use crate::run_laws::granted_comparison_took;
use crate::run_laws::handling;
use crate::run_laws::handling_run;
use crate::run_laws::path_done;
use crate::run_laws::PathTaken;
use vstd::prelude::*;

verus! {

/// Whether nothing stands in the way of a record that is to be retained: the retained journal is
/// not there, or holds the same record already.
pub open spec fn may_be_retained(disk: Disk, retained: Seq<char>, record: RecoveryView) -> bool {
    !disk.has(retained) || disk.record(retained) == Some(record)
}

spec fn removal_replies(sub: RemoveIfPresent) -> nat {
    if sub.removing {
        1
    } else {
        2
    }
}

spec fn journal_removal_replies(sub: RemoveJournal) -> nat {
    match sub.stage {
        RemoveStage::RemovingJournal(it) => 3 + removal_replies(it),
        RemoveStage::RemovingStaged(it) => 1 + removal_replies(it),
        RemoveStage::Syncing => 1,
    }
}

spec fn retention_replies(progress: Progress<RetainRecovery, Option<RolloutPath>>) -> nat {
    match progress {
        Progress::End(_) => 0,
        Progress::Ask(m, _) => match m.stage {
            RetainStage::ReadingPending => 8,
            RetainStage::CheckingRetained { .. } => 7,
            RetainStage::ReadingRetained { .. } => 6,
            RetainStage::RemovingPending(sub) => journal_removal_replies(sub),
            RetainStage::Moving => 4,
            RetainStage::RemovingStaged(sub) => 1 + removal_replies(sub),
            _ => 1,
        },
    }
}

spec fn retention_is_on_its_way(
    progress: Progress<RetainRecovery, Option<RolloutPath>>,
    disk: Disk,
    pending: Seq<char>,
    retained: Seq<char>,
    record: RecoveryView,
) -> bool {
    &&& retention_fits(progress, disk, pending, retained, record)
    &&& match progress {
        Progress::Ask(m, _) => match m.stage {
            RetainStage::ReadingPending => may_be_retained(disk, retained, record),
            RetainStage::CheckingRetained { .. } => may_be_retained(disk, retained, record),
            RetainStage::ReadingRetained { .. } => disk.record(retained) == Some(record),
            _ => true,
        },
        Progress::End(result) => result is Ok,
    }
}

proof fn lemma_retention_goes_on(
    m: RetainRecovery,
    action: DiskAction,
    before: Disk,
    reply: DiskReply,
    after: Disk,
    pending: Seq<char>,
    retained: Seq<char>,
    record: RecoveryView,
)
    requires
        apart(before, pending, retained),
        retention_is_on_its_way(Progress::Ask(m, action), before, pending, retained, record),
        truthful(before, action, reply),
        follows(before, action, reply, after),
        !(reply is Failed) && !(reply is Rejected),
    ensures
        after.files == before.files,
        retention_is_on_its_way(m.next(reply), after, pending, retained, record),
        retention_replies(m.next(reply)) < retention_replies(Progress::Ask(m, action)),
{
    retaining_never_loses_the_record(
        m,
        action,
        before,
        reply,
        after,
        pending,
        retained,
        record,
    );
}

proof fn lemma_granted_retention(
    progress: Progress<RetainRecovery, Option<RolloutPath>>,
    disk: Disk,
    steps: Seq<Taken>,
    pending: Seq<char>,
    retained: Seq<char>,
    record: RecoveryView,
)
    requires
        apart(disk, pending, retained),
        retention_is_on_its_way(progress, disk, pending, retained, record),
        retention_possible(progress, disk, steps),
        all_granted(steps),
    ensures
        ({
            let (end, after) = retention_run(progress, disk, steps);
            &&& after.files == disk.files
            &&& retention_is_on_its_way(end, after, pending, retained, record)
            &&& end is Ask ==> steps.len() + retention_replies(end) <= retention_replies(progress)
        }),
    decreases steps.len(),
{
    if let Progress::Ask(m, action) = progress {
        if steps.len() > 0 {
            let reply = steps[0].reply;
            let after = steps[0].after;
            let behind = steps.skip(1);
            assert forall|i: int| 0 <= i < behind.len() implies !(#[trigger] behind[i].reply
                is Failed) && !(behind[i].reply is Rejected) by {
                assert(behind[i] == steps[i + 1]);
            }
            lemma_retention_goes_on(m, action, disk, reply, after, pending, retained, record);
            lemma_granted_retention(m.next(reply), after, behind, pending, retained, record);
        }
    }
}

/// A record that nothing stands in the way of is retained: where the disk does what it is asked
/// for, that takes at most 8 replies and succeeds, and then the retained journal holds the record
/// and the pending one is gone.
pub proof fn records_are_retained(
    m: RetainRecovery,
    disk: Disk,
    steps: Seq<Taken>,
    record: RecoveryView,
)
    requires
        m.wf(),
        m.retained is Some,
        apart(disk, m.pending.path@, m.retained->0@),
        disk.record(m.pending.path@) == Some(record),
        may_be_retained(disk, m.retained->0@, record),
        retention_possible(m.begun(), disk, steps),
        all_granted(steps),
    ensures
        ({
            let (end, after) = retention_run(m.begun(), disk, steps);
            &&& after.files == disk.files
            &&& match end {
                Progress::Ask(..) => steps.len() < 8,
                Progress::End(result) => {
                    &&& result is Ok
                    &&& after.record(m.retained->0@) == Some(record)
                    &&& !after.has(m.pending.path@)
                },
            }
        }),
{
    lemma_granted_retention(
        m.begun(),
        disk,
        steps,
        m.pending.path@,
        m.retained->0@,
        record,
    );
}

/// Whether one disk differs from another in nothing but a journal and the file in which it is
/// written.
pub open spec fn other_journals_stay(before: Disk, after: Disk, path: Seq<char>) -> bool {
    &&& after.files == before.files
    &&& forall|other: Seq<char>|
        other != path && other != journal_staged_of(path) ==> #[trigger] after.record(other)
            == before.record(other) && after.has(other) == before.has(other)
}

spec fn blank_removal_is_on_its_way(
    progress: Progress<RetainRecovery, Option<RolloutPath>>,
    disk: Disk,
    pending: Seq<char>,
) -> bool {
    match progress {
        Progress::Ask(m, action) => {
            &&& m.pending.wf() && m.pending.staged is Some
            &&& m.pending.path@ == pending
            &&& match m.stage {
                RetainStage::ReadingPending => disk.record(pending) is None && action == (
                DiskAction::ReadJournal { path: m.pending.path }),
                RetainStage::RemovingEmpty(sub) => {
                    &&& sub.journal == m.pending
                    &&& journal_removal_fits(sub, action, pending)
                    &&& !(sub.stage is RemovingJournal) ==> !disk.has(pending)
                },
                _ => false,
            }
        },
        Progress::End(result) => result is Ok && !disk.has(pending),
    }
}

spec fn blank_removal_replies(progress: Progress<RetainRecovery, Option<RolloutPath>>) -> nat {
    match progress {
        Progress::Ask(m, _) => match m.stage {
            RetainStage::RemovingEmpty(sub) => journal_removal_replies(sub),
            _ => 6,
        },
        Progress::End(_) => 0,
    }
}

proof fn lemma_granted_blank_removal(
    progress: Progress<RetainRecovery, Option<RolloutPath>>,
    disk: Disk,
    steps: Seq<Taken>,
    pending: Seq<char>,
)
    requires
        !disk.files.dom().contains(pending),
        !disk.files.dom().contains(journal_staged_of(pending)),
        blank_removal_is_on_its_way(progress, disk, pending),
        retention_possible(progress, disk, steps),
        all_granted(steps),
    ensures
        ({
            let (end, after) = retention_run(progress, disk, steps);
            &&& other_journals_stay(disk, after, pending)
            &&& blank_removal_is_on_its_way(end, after, pending)
            &&& end is Ask ==> steps.len() + blank_removal_replies(end) <= blank_removal_replies(
                progress,
            )
        }),
    decreases steps.len(),
{
    if let Progress::Ask(m, action) = progress {
        if steps.len() > 0 {
            let reply = steps[0].reply;
            let after = steps[0].after;
            let behind = steps.skip(1);
            assert forall|i: int| 0 <= i < behind.len() implies !(#[trigger] behind[i].reply
                is Failed) && !(behind[i].reply is Rejected) by {
                assert(behind[i] == steps[i + 1]);
            }
            assert(disk.files.remove(pending) =~= disk.files);
            assert(disk.files.remove(journal_staged_of(pending)) =~= disk.files);
            assert(other_journals_stay(disk, after, pending));
            assert(blank_removal_is_on_its_way(m.next(reply), after, pending));
            lemma_granted_blank_removal(m.next(reply), after, behind, pending);
            let end = retention_run(progress, disk, steps).1;
            assert forall|other: Seq<char>|
                other != pending && other != journal_staged_of(
                    pending,
                ) implies #[trigger] end.record(other) == disk.record(other) && end.has(other)
                == disk.has(other) by {
                assert(end.record(other) == after.record(other));
                assert(after.record(other) == disk.record(other));
            }
        }
    }
}

/// A pending journal without a record is removed: where the disk does what it is asked for, that
/// takes at most 6 replies and succeeds, and no other journal is touched.
pub proof fn blank_journals_are_removed(m: RetainRecovery, disk: Disk, steps: Seq<Taken>)
    requires
        m.pending.wf(),
        m.pending.staged is Some,
        !disk.files.dom().contains(m.pending.path@),
        !disk.files.dom().contains(journal_staged_of(m.pending.path@)),
        disk.record(m.pending.path@) is None,
        retention_possible(m.begun(), disk, steps),
        all_granted(steps),
    ensures
        ({
            let (end, after) = retention_run(m.begun(), disk, steps);
            &&& other_journals_stay(disk, after, m.pending.path@)
            &&& match end {
                Progress::Ask(..) => steps.len() < 6,
                Progress::End(result) => result is Ok && !after.has(m.pending.path@),
            }
        }),
{
    lemma_granted_blank_removal(m.begun(), disk, steps, m.pending.path@);
}

/// A migration that stopped behind publication: the rollout that it published, the names that it
/// worked with, the legacy file, the record in the pending journal, and the record that is retained
/// already. A journal that was only begun holds no record.
pub struct PendingRollout {
    pub thread_id: ThreadId,
    pub path: RolloutPath,
    pub names: MigrationNames,
    pub legacy: int,
    pub record: Option<RecoveryView>,
    pub retained: Option<RecoveryView>,
}

impl PendingRollout {
    /// The record that leads to the source, where there is one.
    pub open spec fn own_record(self) -> Option<RecoveryView> {
        match self.record {
            Some(record) => Some(record),
            None => self.retained,
        }
    }

    /// The name under which recovery takes the source to have stood.
    pub open spec fn source(self) -> Seq<char> {
        match self.record {
            Some(_) => self.names.names.rollout,
            None => self.names.names.published,
        }
    }

    /// Whether the names lie apart, and where there is a record that leads to the source, it carries
    /// no mark and the legacy file has its second name.
    pub open spec fn is_kept(self, disk: Disk) -> bool {
        &&& names_lie_apart(self.names, disk)
        &&& self.own_record() matches Some(record) ==> {
            &&& disk.names(self.names.names.preserved, self.legacy)
            &&& leads_back(Some(record), self.names.names)
            &&& is_unmarked(record)
        }
    }

    /// Whether the disk is as the migration left it: the pending journal is there with its record,
    /// or blank, and nothing stands in the way of retaining the record.
    pub open spec fn is_pending(self, disk: Disk) -> bool {
        &&& self.is_kept(disk)
        &&& disk.has(self.names.names.journal)
        &&& disk.record(self.names.names.journal) == self.record
        &&& disk.record(self.names.retained) == self.retained
        &&& disk.has(self.names.retained) == self.retained is Some
        &&& self.record is Some ==> self.retained is None || self.retained == self.record
    }

    /// Whether the disk is as a migration leaves it that was finished: no journal is pending, and
    /// the record that leads to the source is retained.
    pub open spec fn is_finished(self, disk: Disk) -> bool {
        &&& self.is_kept(disk)
        &&& !disk.has(self.names.names.journal)
        &&& disk.record(self.names.retained) == self.own_record()
    }

    /// Whether what the index knows of the thread can follow the publication: it points to the
    /// published rollout or to its source, wherever that was moved.
    pub open spec fn row_can_follow(self, row: ThreadRow) -> bool {
        let current = row.rollout_path@;
        ||| current == self.names.names.published
        ||| current == self.names.names.rollout
        ||| file_name_of(plain_path(current)) == file_name_of(
            plain_path(self.names.names.rollout),
        )
    }

    /// Whether one operation of finishing goes from one disk to another, in a store that does what
    /// it is asked for.
    pub open spec fn finishing_step(
        self,
        before: Disk,
        action: StoreAction,
        reply: StoreReply,
        after: Disk,
    ) -> bool {
        match action {
            StoreAction::Retain { .. } => exists|m: RetainRecovery, steps: Seq<Taken>|
                #[trigger] granted_retention_took(m, steps, self.names, before, reply, after),
            _ => {
                &&& spares_preserved(self.names, before, after)
                &&& match action {
                    StoreAction::GetThread { .. } => reply matches StoreReply::Thread(Some(row))
                        && self.row_can_follow(row),
                    StoreAction::Exists { .. } => reply == StoreReply::Answer(false),
                    StoreAction::ReplaceRolloutPath { .. } => reply == StoreReply::Answer(true),
                    StoreAction::MarkPaginated { .. } => reply == StoreReply::Answer(true),
                    _ => reply == StoreReply::Done,
                }
            },
        }
    }

    /// Whether all operations of finishing go so.
    pub open spec fn finishing_goes(
        self,
        step: Step<FinishPublished, ()>,
        disk: Disk,
        steps: Seq<OperationTaken>,
    ) -> bool
        decreases steps.len(),
    {
        match step {
            Step::Ask(m, action) => steps.len() > 0 ==> {
                &&& self.finishing_step(disk, action, steps[0].reply, steps[0].after)
                &&& self.finishing_goes(m.next(steps[0].reply), steps[0].after, steps.skip(1))
            },
            Step::End(_) => true,
        }
    }
}

/// Whether the retention of a record went to its end on a disk that does what it is asked for, and
/// the reply says what it came to.
pub open spec fn granted_retention_took(
    m: RetainRecovery,
    steps: Seq<Taken>,
    n: MigrationNames,
    before: Disk,
    reply: StoreReply,
    after: Disk,
) -> bool {
    &&& retention_took(m, steps, n, before, reply, after)
    &&& all_granted(steps)
    &&& match retention_run(m.begun(), before, steps).0 {
        Progress::Ask(..) => false,
        Progress::End(Ok(_)) => reply == StoreReply::Done,
        Progress::End(Err(_)) => reply is Rejected,
    }
}

spec fn finishing_replies(step: Step<FinishPublished, ()>) -> nat {
    match step {
        Step::End(_) => 0,
        Step::Ask(m, _) => match m.stage {
            FinishStage::Getting => 8,
            FinishStage::CheckingCurrent { .. } => 7,
            FinishStage::Replacing { .. } => 6,
            FinishStage::Promoting(sub) => if sub.marking {
                4
            } else {
                5
            },
            FinishStage::RemovingSource => 3,
            FinishStage::SyncingSource => 2,
            FinishStage::Retaining => 1,
        },
    }
}

spec fn finishing_is_on_its_way(
    step: Step<FinishPublished, ()>,
    disk: Disk,
    it: PendingRollout,
) -> bool {
    match step {
        Step::Ask(m, action) => {
            &&& it.is_pending(disk)
            &&& m.source_rollout_path@ == it.source()
            &&& m.published_rollout_path@ == it.names.names.published
            &&& match m.stage {
                FinishStage::Getting => m.renames() && action is GetThread,
                FinishStage::CheckingCurrent { current } => m.renames() && action is Exists
                    && file_name_of(plain_path(current@)) == file_name_of(
                    plain_path(it.names.names.rollout),
                ),
                FinishStage::Replacing { .. } => action is ReplaceRolloutPath,
                FinishStage::Promoting(sub) => if sub.marking {
                    action is MarkPaginated
                } else {
                    action is GetThread
                },
                FinishStage::RemovingSource => action is RemoveIfPresent,
                FinishStage::SyncingSource => action is SyncParent,
                FinishStage::Retaining => action is Retain,
            }
        },
        Step::End(result) => result is Ok && it.is_finished(disk),
    }
}

proof fn lemma_pending_stays(it: PendingRollout, before: Disk, after: Disk)
    requires
        it.is_pending(before),
        spares_preserved(it.names, before, after),
    ensures
        it.is_pending(after),
{
    assert(before.names(it.names.names.preserved, it.legacy) == after.names(
        it.names.names.preserved,
        it.legacy,
    ));
    assert(after.record(it.names.names.journal) == before.record(it.names.names.journal));
    assert(after.has(it.names.names.journal) == before.has(it.names.names.journal));
    assert(after.record(it.names.retained) == before.record(it.names.retained));
    assert(after.has(it.names.retained) == before.has(it.names.retained));
}

proof fn lemma_record_is_retained(
    it: PendingRollout,
    before: Disk,
    reply: StoreReply,
    after: Disk,
    m: RetainRecovery,
    steps: Seq<Taken>,
)
    requires
        it.is_pending(before),
        granted_retention_took(m, steps, it.names, before, reply, after),
    ensures
        reply == StoreReply::Done,
        it.is_finished(after),
{
    match it.record {
        Some(record) => {
            records_are_retained(m, before, steps, record);
        },
        None => {
            blank_journals_are_removed(m, before, steps);
            assert(after.record(it.names.retained) == before.record(it.names.retained));
        },
    }
}

proof fn lemma_finishing_goes_on(
    step: Step<FinishPublished, ()>,
    disk: Disk,
    steps: Seq<OperationTaken>,
    it: PendingRollout,
)
    requires
        finishing_is_on_its_way(step, disk, it),
        it.finishing_goes(step, disk, steps),
    ensures
        ({
            let (end, after) = finishing_run(step, disk, steps);
            &&& finishing_is_on_its_way(end, after, it)
            &&& end is Ask ==> steps.len() + finishing_replies(end) <= finishing_replies(step)
        }),
    decreases steps.len(),
{
    if let Step::Ask(m, action) = step {
        if steps.len() > 0 {
            let reply = steps[0].reply;
            let after = steps[0].after;
            if let StoreAction::Retain { .. } = action {
                let (sub, taken) = choose|sub: RetainRecovery, taken: Seq<Taken>|
                    #[trigger] granted_retention_took(sub, taken, it.names, disk, reply, after);
                lemma_record_is_retained(it, disk, reply, after, sub, taken);
            } else {
                lemma_pending_stays(it, disk, after);
            }
            assert(finishing_is_on_its_way(m.next(reply), after, it));
            lemma_finishing_goes_on(m.next(reply), after, steps.skip(1), it);
        }
    }
}

/// A publication that is pending can be finished: where the index can follow it and the store does
/// what it is asked for, finishing takes at most 8 operations and succeeds, and then the record is
/// retained and the pending journal is gone.
pub proof fn pending_publications_can_be_finished(
    m: FinishPublished,
    it: PendingRollout,
    disk: Disk,
    steps: Seq<OperationTaken>,
)
    requires
        m.source_rollout_path@ == it.source(),
        m.published_rollout_path@ == it.names.names.published,
        it.is_pending(disk),
        it.finishing_goes(m.begun(), disk, steps),
    ensures
        ({
            let (end, after) = finishing_run(m.begun(), disk, steps);
            match end {
                Step::Ask(..) => steps.len() < 8,
                Step::End(result) => result is Ok && it.is_finished(after),
            }
        }),
{
    lemma_finishing_goes_on(m.begun(), disk, steps, it);
}

/// Whether an operation is reported as done.
pub open spec fn store_done(reply: StoreReply) -> bool {
    reply == StoreReply::Done
}

/// Whether finishing went to its end in a store that does what it is asked for. The result says
/// what it came to.
pub open spec fn granted_finishing_took(
    m: FinishPublished,
    steps: Seq<OperationTaken>,
    it: PendingRollout,
    before: Disk,
    succeeded: bool,
    after: Disk,
) -> bool {
    let (end, disk) = finishing_run(m.begun(), before, steps);
    &&& it.finishing_goes(m.begun(), before, steps)
    &&& disk == after
    &&& end matches Step::End(result) && succeeded == result is Ok
}

impl PendingRollout {
    /// Whether one operation of recovery goes from one disk to another, in a store that does what it
    /// is asked for: the record can be followed, and the published rollout is a paginated one of the
    /// thread. What the index knows of its history does not matter.
    pub open spec fn recovery_step(
        self,
        before: Disk,
        action: StoreAction,
        reply: StoreReply,
        after: Disk,
    ) -> bool {
        match action {
            StoreAction::VerifyUnchanged { .. } => exists|m: VerifySource, steps: Seq<Taken>|
                #[trigger] granted_comparison_took(
                    m,
                    steps,
                    self.names.names.journal,
                    before,
                    store_done(reply),
                    after,
                ),
            StoreAction::FinishPublished {
                thread_id,
                source_rollout_path,
                published_rollout_path,
                journal_path,
            } => exists|m: FinishPublished, steps: Seq<OperationTaken>|
                {
                    &&& m.thread_id == thread_id
                    &&& m.source_rollout_path == source_rollout_path
                    &&& m.published_rollout_path == published_rollout_path
                    &&& m.journal_path == journal_path
                    &&& #[trigger] granted_finishing_took(
                        m,
                        steps,
                        self,
                        before,
                        store_done(reply),
                        after,
                    )
                },
            _ => {
                &&& spares_preserved(self.names, before, after)
                &&& match action {
                    StoreAction::ReadJournal { .. } => reply matches StoreReply::Journal(found)
                        && record_view(found) == before.record(self.names.names.journal),
                    StoreAction::Exists { path } => reply == StoreReply::Answer(
                        before.has(path@),
                    ),
                    StoreAction::ReadMetadata { .. } => reply == (StoreReply::Metadata {
                        id: self.thread_id,
                        history_mode: ThreadHistoryMode::PaginatedRefsV1,
                    }),
                    StoreAction::FileLength { .. } => reply is Length,
                    StoreAction::ProjectionState { .. } => reply is Projection,
                    _ => reply == StoreReply::Done,
                }
            },
        }
    }

    /// Whether all operations of recovery go so.
    pub open spec fn recovery_goes(
        self,
        step: Step<RecoverPublished, RolloutPath>,
        disk: Disk,
        steps: Seq<OperationTaken>,
    ) -> bool
        decreases steps.len(),
    {
        match step {
            Step::Ask(m, action) => steps.len() > 0 ==> {
                &&& self.recovery_step(disk, action, steps[0].reply, steps[0].after)
                &&& self.recovery_goes(m.next(steps[0].reply), steps[0].after, steps.skip(1))
            },
            Step::End(_) => true,
        }
    }

    /// The recovery of the migration, before anything has been asked.
    pub open spec fn recovering(self, journal_path: RolloutPath) -> Step<
        RecoverPublished,
        RolloutPath,
    > {
        RecoverPublished {
            thread_id: self.thread_id,
            rollout_path: self.path,
            journal_path,
            recovery: None,
            stage: RecoverStage::ReadingJournal,
        }.begun()
    }
}

/// Where recovery stands once some operations have been carried out.
pub open spec fn recovery_run(
    step: Step<RecoverPublished, RolloutPath>,
    disk: Disk,
    steps: Seq<OperationTaken>,
) -> (Step<RecoverPublished, RolloutPath>, Disk)
    decreases steps.len(),
{
    match step {
        Step::Ask(m, _) if steps.len() > 0 => recovery_run(
            m.next(steps[0].reply),
            steps[0].after,
            steps.skip(1),
        ),
        _ => (step, disk),
    }
}

spec fn recovery_replies(step: Step<RecoverPublished, RolloutPath>) -> nat {
    match step {
        Step::End(_) => 0,
        Step::Ask(m, _) => match m.stage {
            RecoverStage::ReadingJournal => 17,
            RecoverStage::Validating => 16,
            RecoverStage::CheckingSource => 15,
            RecoverStage::Verifying => 14,
            RecoverStage::ReadingMetadata => 13,
            RecoverStage::Decompressing => 12,
            RecoverStage::MeasuringDecompressed => 11,
            RecoverStage::MeasuringRollout { .. } => 10,
            RecoverStage::Accounting => 9,
            RecoverStage::MeasuringProjected => 8,
            RecoverStage::ReadingProjection { .. } => 7,
            RecoverStage::DeletingProjection => 6,
            RecoverStage::Projecting => 5,
            RecoverStage::RemovingStaged => 4,
            RecoverStage::RemovingCompressed => 3,
            RecoverStage::RemovingDecompressed => 2,
            RecoverStage::Finishing => 1,
        },
    }
}

spec fn recovery_is_on_its_way(
    step: Step<RecoverPublished, RolloutPath>,
    disk: Disk,
    it: PendingRollout,
) -> bool {
    match step {
        Step::Ask(m, action) => {
            &&& it.is_pending(disk)
            &&& m.thread_id == it.thread_id
            &&& m.rollout_path == it.path
            &&& m.stage is ReadingJournal || record_view(m.recovery) == it.record
            &&& match m.stage {
                RecoverStage::ReadingJournal => m.recovery is None && action is ReadJournal,
                RecoverStage::Validating => it.record is Some && action is Validate,
                RecoverStage::CheckingSource => it.record is Some && (
                action matches StoreAction::Exists { path } && path@
                    == it.record->0.preserved_source_path),
                RecoverStage::Verifying => it.record is Some && action is VerifyUnchanged,
                RecoverStage::ReadingMetadata => action is ReadMetadata,
                RecoverStage::Decompressing => action is Decompress,
                RecoverStage::MeasuringDecompressed => action is FileLength,
                RecoverStage::MeasuringRollout { .. } => action is FileLength,
                RecoverStage::Accounting => action is Account,
                RecoverStage::MeasuringProjected => action is FileLength,
                RecoverStage::ReadingProjection { .. } => action is ProjectionState,
                RecoverStage::DeletingProjection => action is DeleteProjection,
                RecoverStage::Projecting => action is Project,
                RecoverStage::RemovingStaged => action is RemoveIfPresent,
                RecoverStage::RemovingCompressed => action is RemoveIfPresent,
                RecoverStage::RemovingDecompressed => action is RemoveIfPresent,
                RecoverStage::Finishing => action matches StoreAction::FinishPublished {
                    source_rollout_path,
                    published_rollout_path,
                    ..
                } && source_rollout_path@ == it.source() && published_rollout_path == it.path,
            }
        },
        Step::End(result) => result == Ok::<RolloutPath, StoreProblem>(it.path)
            && it.is_finished(disk),
    }
}

proof fn lemma_recovery_goes_on(
    step: Step<RecoverPublished, RolloutPath>,
    disk: Disk,
    steps: Seq<OperationTaken>,
    it: PendingRollout,
)
    requires
        it.path@ == it.names.names.published,
        recovery_is_on_its_way(step, disk, it),
        it.recovery_goes(step, disk, steps),
    ensures
        ({
            let (end, after) = recovery_run(step, disk, steps);
            &&& recovery_is_on_its_way(end, after, it)
            &&& end is Ask ==> steps.len() + recovery_replies(end) <= recovery_replies(step)
        }),
    decreases steps.len(),
{
    if let Step::Ask(m, action) = step {
        if steps.len() > 0 {
            let reply = steps[0].reply;
            let after = steps[0].after;
            let done = store_done(reply);
            match action {
                StoreAction::VerifyUnchanged { .. } => {
                    let journal = it.names.names.journal;
                    let (sub, taken) = choose|sub: VerifySource, taken: Seq<Taken>|
                        #[trigger] granted_comparison_took(sub, taken, journal, disk, done, after);
                    unchanged_sources_are_accepted(
                        sub.thread_id,
                        sub.journal,
                        sub.selected,
                        it.record->0,
                        disk,
                        taken,
                    );
                    assert(spares_preserved(it.names, disk, after));
                    lemma_pending_stays(it, disk, after);
                },
                StoreAction::FinishPublished {
                    thread_id,
                    source_rollout_path,
                    published_rollout_path,
                    journal_path,
                } => {
                    let (sub, taken) = choose|sub: FinishPublished, taken: Seq<OperationTaken>|
                        {
                            &&& sub.thread_id == thread_id
                            &&& sub.source_rollout_path == source_rollout_path
                            &&& sub.published_rollout_path == published_rollout_path
                            &&& sub.journal_path == journal_path
                            &&& #[trigger] granted_finishing_took(
                                sub,
                                taken,
                                it,
                                disk,
                                done,
                                after,
                            )
                        };
                    pending_publications_can_be_finished(sub, it, disk, taken);
                },
                _ => {
                    lemma_pending_stays(it, disk, after);
                },
            }
            assert(recovery_is_on_its_way(m.next(reply), after, it));
            lemma_recovery_goes_on(m.next(reply), after, steps.skip(1), it);
        }
    }
}

/// A migration that stopped behind publication is recovered: where the source has not changed, the
/// index can follow and the store does what it is asked for, recovery takes at most 17 operations
/// and succeeds with the published rollout. Then no journal is pending, and where a record leads to
/// the source it is retained, and the legacy file still has its second name.
pub proof fn interrupted_publications_are_recovered(
    it: PendingRollout,
    journal_path: RolloutPath,
    disk: Disk,
    steps: Seq<OperationTaken>,
)
    requires
        it.path@ == it.names.names.published,
        it.is_pending(disk),
        it.recovery_goes(it.recovering(journal_path), disk, steps),
    ensures
        ({
            let (end, after) = recovery_run(it.recovering(journal_path), disk, steps);
            match end {
                Step::Ask(..) => steps.len() < 17,
                Step::End(result) => {
                    &&& result == Ok::<RolloutPath, StoreProblem>(it.path)
                    &&& it.is_finished(after)
                    &&& it.own_record() is Some ==> is_migrated(after, it.names, it.legacy)
                },
            }
        }),
{
    lemma_recovery_goes_on(it.recovering(journal_path), disk, steps, it);
}

/// Whether the second name of a source is found exactly where it is there.
pub open spec fn is_found(found: Option<RolloutPath>, path: RolloutPath, disk: Disk) -> bool {
    &&& found is Some == (file_name_of(path@) is Some && disk.has(preserved_of(path@)))
    &&& found is Some ==> (found->0)@ == preserved_of(path@)
}

/// Whether recovery went to its end in a store that does what it is asked for, and the reply says
/// what it came to.
pub open spec fn granted_recovery_took(
    journal_path: RolloutPath,
    steps: Seq<OperationTaken>,
    it: PendingRollout,
    before: Disk,
    reply: PathReply,
    after: Disk,
) -> bool {
    let (end, disk) = recovery_run(it.recovering(journal_path), before, steps);
    &&& it.recovery_goes(it.recovering(journal_path), before, steps)
    &&& disk == after
    &&& end matches Step::End(result) && match result {
        Ok(path) => reply == PathReply::Recovered(Ok(path)),
        Err(problem) => reply matches PathReply::Recovered(Err(error)) && error@
            == store_problem_view(problem),
    }
}

impl PendingRollout {
    /// Whether one step of handling the rollout goes from one disk to another, in a store that does
    /// what it is asked for.
    pub open spec fn handling_step(
        self,
        inspection: RolloutInspection,
        before: Disk,
        action: PathAction,
        reply: PathReply,
        after: Disk,
    ) -> bool {
        match action {
            PathAction::VerifyRetained { .. } => exists|m: VerifySource, steps: Seq<Taken>|
                #[trigger] granted_comparison_took(
                    m,
                    steps,
                    self.names.retained,
                    before,
                    path_done(reply),
                    after,
                ),
            PathAction::Recover { .. } => {
                exists|journal_path: RolloutPath, steps: Seq<OperationTaken>|
                    #[trigger] granted_recovery_took(
                        journal_path,
                        steps,
                        self,
                        before,
                        reply,
                        after,
                    )
            },
            _ => {
                &&& same_layout(after, before)
                &&& match action {
                    PathAction::Inspect { .. } => reply == PathReply::Inspected(Ok(inspection)),
                    PathAction::PendingExists { .. } => reply == PathReply::Answer(
                        before.has(self.names.names.journal),
                    ),
                    PathAction::RetainedExists { .. } => reply == PathReply::Answer(
                        before.has(self.names.retained),
                    ),
                    PathAction::ReadPending { .. } => reply matches PathReply::Journal(found)
                        && record_view(found) == before.record(self.names.names.journal),
                    PathAction::FindPreserved { path } => reply matches PathReply::Found(found)
                        && is_found(found, path, before),
                    PathAction::Account { .. } => reply == PathReply::Done,
                    PathAction::Lock { .. } => reply == PathReply::Done,
                    PathAction::Unlock => reply == PathReply::Done,
                    _ => true,
                }
            },
        }
    }

    /// Whether all steps of handling the rollout go so.
    pub open spec fn handling_goes(
        self,
        inspection: RolloutInspection,
        step: PathStep,
        disk: Disk,
        steps: Seq<PathTaken>,
    ) -> bool
        decreases steps.len(),
    {
        match step {
            PathStep::Ask(m, action) => steps.len() > 0 ==> {
                &&& self.handling_step(inspection, disk, action, steps[0].reply, steps[0].after)
                &&& self.handling_goes(
                    inspection,
                    m.next(steps[0].reply),
                    steps[0].after,
                    steps.skip(1),
                )
            },
            PathStep::End(_) => true,
        }
    }

    /// Whether a verdict says that the rollout is migrated, with the source that the pending record
    /// names, or the one that is found where there was no record.
    pub open spec fn is_recovered(self, verdict: PathVerdict, disk: Disk) -> bool {
        &&& verdict.thread_id == Some(self.thread_id)
        &&& verdict.path == self.path
        &&& verdict.verdict == Verdict::Status(RolloutMigrationStatus::Migrated)
        &&& match self.record {
            Some(record) => verdict.preserved_source_path is Some && (
            verdict.preserved_source_path->0)@ == record.preserved_source_path,
            None => is_found(verdict.preserved_source_path, self.path, disk),
        }
    }
}

spec fn pending_replies(step: PathStep) -> nat {
    match step {
        PathStep::End(_) => 0,
        PathStep::Ask(m, _) => match m.stage {
            PathStage::Inspecting { .. } => 12,
            PathStage::CountingInspection { .. } => 11,
            PathStage::CheckingPending { .. } => 10,
            PathStage::CheckingRetained { .. } => 9,
            PathStage::LockingRetained { .. } => 8,
            PathStage::VerifyingRetained { .. } => 7,
            PathStage::UnlockingRetained { .. } => 6,
            PathStage::ReadingPending { .. } => 5,
            PathStage::LockingPending { .. } => 4,
            PathStage::Recovering { .. } => 3,
            PathStage::UnlockingRecovered { .. } => 2,
            _ => 1,
        },
    }
}

spec fn is_recorded(recorded: Option<RolloutPath>, it: PendingRollout) -> bool {
    match it.record {
        Some(record) => recorded is Some && (recorded->0)@ == record.preserved_source_path,
        None => recorded is None,
    }
}

spec fn pending_is_on_its_way(
    step: PathStep,
    disk: Disk,
    it: PendingRollout,
    inspection: RolloutInspection,
    thread_ids: Vec<ThreadId>,
) -> bool {
    let metadata = inspection.metadata;
    match step {
        PathStep::Ask(m, action) => {
            &&& m.mode == RolloutMigrationMode::Apply
            &&& m.thread_ids == thread_ids
            &&& m.path == it.path
            &&& !(action is MigrateOne) && !(action is CleanUp)
            &&& match m.stage {
                PathStage::UnlockingRecovered { thread_id, recorded, verdict } => {
                    &&& it.is_finished(disk)
                    &&& thread_id == it.thread_id
                    &&& is_recorded(recorded, it)
                    &&& verdict == Verdict::Status(RolloutMigrationStatus::Migrated)
                    &&& action is Unlock
                },
                PathStage::FindingPreserved { thread_id, verdict } => {
                    &&& it.is_finished(disk)
                    &&& it.record is None
                    &&& thread_id == it.thread_id
                    &&& verdict == Verdict::Status(RolloutMigrationStatus::Migrated)
                    &&& action == (PathAction::FindPreserved { path: it.path })
                },
                stage => {
                    &&& it.is_pending(disk)
                    &&& match stage {
                        PathStage::Inspecting { .. } => action is Inspect,
                        PathStage::CountingInspection { metadata: found } => found == metadata
                            && action is Account,
                        PathStage::CheckingPending { metadata: found } => found == metadata
                            && action is PendingExists,
                        PathStage::CheckingRetained { metadata: found, pending } => found
                            == metadata && pending && action is RetainedExists,
                        PathStage::LockingRetained { metadata: found, pending } => found
                            == metadata && pending && it.retained is Some && action is Lock,
                        PathStage::VerifyingRetained { metadata: found, pending } => found
                            == metadata && pending && it.retained is Some && action
                            is VerifyRetained,
                        PathStage::UnlockingRetained { metadata: found, pending } => found
                            == metadata && pending && action is Unlock,
                        PathStage::ReadingPending { metadata: found } => found == metadata
                            && action is ReadPending,
                        PathStage::LockingPending { metadata: found, recorded } => found
                            == metadata && is_recorded(recorded, it) && action is Lock,
                        PathStage::Recovering { metadata: found, recorded } => found == metadata
                            && is_recorded(recorded, it) && action is Recover,
                        _ => false,
                    }
                },
            }
        },
        PathStep::End(result) => {
            &&& result matches Ok(Some(verdict)) && it.is_recovered(verdict, disk)
            &&& it.is_finished(disk)
        },
    }
}

proof fn lemma_layout_keeps_pending(it: PendingRollout, before: Disk, after: Disk)
    requires
        same_layout(after, before),
    ensures
        it.is_pending(before) ==> it.is_pending(after),
        it.is_finished(before) ==> it.is_finished(after),
{
}

#[verifier::rlimit(40)]
proof fn lemma_pending_goes_on(
    step: PathStep,
    disk: Disk,
    steps: Seq<PathTaken>,
    it: PendingRollout,
    inspection: RolloutInspection,
    thread_ids: Vec<ThreadId>,
)
    requires
        it.path@ == it.names.names.published,
        inspection.metadata.id == it.thread_id,
        inspection.metadata.history_mode == ThreadHistoryMode::PaginatedRefsV1,
        selects(thread_ids@, Some(it.thread_id)),
        pending_is_on_its_way(step, disk, it, inspection, thread_ids),
        it.handling_goes(inspection, step, disk, steps),
    ensures
        ({
            let (end, after) = handling_run(step, disk, steps);
            &&& pending_is_on_its_way(end, after, it, inspection, thread_ids)
            &&& end is Ask ==> steps.len() + pending_replies(end) <= pending_replies(step)
        }),
    decreases steps.len(),
{
    if let PathStep::Ask(m, action) = step {
        if steps.len() > 0 {
            let reply = steps[0].reply;
            let after = steps[0].after;
            match action {
                PathAction::VerifyRetained { .. } => {
                    let retained = it.names.retained;
                    let done = path_done(reply);
                    let (sub, taken) = choose|sub: VerifySource, taken: Seq<Taken>|
                        #[trigger] granted_comparison_took(
                            sub,
                            taken,
                            retained,
                            disk,
                            done,
                            after,
                        );
                    unchanged_sources_are_accepted(
                        sub.thread_id,
                        sub.journal,
                        sub.selected,
                        it.retained->0,
                        disk,
                        taken,
                    );
                    lemma_layout_keeps_pending(it, disk, after);
                },
                PathAction::Recover { .. } => {
                    let (journal_path, taken) = choose|
                        journal_path: RolloutPath,
                        taken: Seq<OperationTaken>,
                    |
                        #[trigger] granted_recovery_took(
                            journal_path,
                            taken,
                            it,
                            disk,
                            reply,
                            after,
                        );
                    interrupted_publications_are_recovered(it, journal_path, disk, taken);
                },
                _ => {
                    lemma_layout_keeps_pending(it, disk, after);
                },
            }
            assert(pending_is_on_its_way(m.next(reply), after, it, inspection, thread_ids));
            lemma_pending_goes_on(
                m.next(reply),
                after,
                steps.skip(1),
                it,
                inspection,
                thread_ids,
            );
        }
    }
}

/// A later run finishes what was interrupted: where a migration stopped behind publication, the
/// source has not changed, the index can follow and the store does what it is asked for, a run that
/// may change something recovers it within 12 replies, without converting or cleaning up anything.
/// It does not matter whether the pending journal holds its record or is blank. The rollout is
/// reported as migrated with its source, no journal is pending any more, and where a record leads to
/// the source the disk is as a successful migration leaves it.
pub proof fn later_runs_finish_interrupted_migrations(
    it: PendingRollout,
    inspection: RolloutInspection,
    thread_ids: Vec<ThreadId>,
    disk: Disk,
    steps: Seq<PathTaken>,
    bytes_processed: u64,
    outcome: RolloutMigrationOutcome,
)
    requires
        it.path@ == it.names.names.published,
        inspection.metadata.id == it.thread_id,
        inspection.metadata.history_mode == ThreadHistoryMode::PaginatedRefsV1,
        selects(thread_ids@, Some(it.thread_id)),
        it.is_pending(disk),
        it.handling_goes(
            inspection,
            handling(RolloutMigrationMode::Apply, thread_ids, it.path),
            disk,
            steps,
        ),
    ensures
        ({
            let begun = handling(RolloutMigrationMode::Apply, thread_ids, it.path);
            let (end, after) = handling_run(begun, disk, steps);
            match end {
                PathStep::Ask(_, action) => {
                    &&& steps.len() < 12
                    &&& !(action is MigrateOne) && !(action is CleanUp)
                },
                PathStep::End(result) => {
                    &&& result matches Ok(Some(verdict)) && it.is_recovered(verdict, after) && (
                    reports_verdict(outcome, verdict, bytes_processed) ==> outcome.status
                        == RolloutMigrationStatus::Migrated && outcome.rollout_path == it.path)
                    &&& it.is_finished(after)
                    &&& it.own_record() is Some ==> is_migrated(after, it.names, it.legacy)
                },
            }
        }),
{
    let begun = handling(RolloutMigrationMode::Apply, thread_ids, it.path);
    lemma_pending_goes_on(begun, disk, steps, it, inspection, thread_ids);
}

} // verus!
