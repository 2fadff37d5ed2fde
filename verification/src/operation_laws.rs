//! What the operations that a migration asks for do to the disk, whether they succeed, fail or are
//! interrupted.

use crate::disk::follows;
use crate::disk::truthful;
use crate::disk::Disk;
use crate::disk::DiskAction;
use crate::disk::DiskReply;
use crate::disk::Progress;
use crate::finish::FinishPublished;
use crate::generation::VerifySource;
use crate::generation::VerifyStage;
use crate::migrate_one::MigrateOne;
use crate::operations::artifact_of;
use crate::operations::Artifact;
use crate::operations::Step;
use crate::operations::StoreAction;
use crate::operations::StoreReply;
use crate::paths::journal_staged_of;
use crate::paths::RolloutPath;
use crate::publish::JournalWrite;
use crate::publish::PublishRollout;
use crate::publish_laws::journal_fits;
use crate::publish_laws::journals_are_replaced_whole;
use crate::publish_laws::names_of;
use crate::publish_laws::publication_begins_with_the_source_visible;
use crate::publish_laws::publication_fits;
use crate::publish_laws::publication_never_loses_the_source;
use crate::publish_laws::recoverable;
use crate::publish_laws::Names;
use crate::recovery::MigrationRecoveryHandle;
use crate::recovery::RecoveryView;
use crate::retention::RetainRecovery;
use crate::retention_laws::apart;
use crate::retention_laws::retaining_never_loses_the_record;
use crate::retention_laws::retention_fits;
use vstd::prelude::*;

verus! {

/// One step of an operation as it really went: the reply, and the disk behind it.
pub struct Taken {
    pub reply: DiskReply,
    pub after: Disk,
}

/// Where a publication stands once some steps have been taken.
pub open spec fn publication_run(
    progress: Progress<PublishRollout, MigrationRecoveryHandle>,
    disk: Disk,
    steps: Seq<Taken>,
) -> (Progress<PublishRollout, MigrationRecoveryHandle>, Disk)
    decreases steps.len(),
{
    match progress {
        Progress::Ask(p, action) => if steps.len() == 0 {
            (progress, disk)
        } else {
            publication_run(p.next(steps[0].reply), steps[0].after, steps.skip(1))
        },
        Progress::End(_) => (progress, disk),
    }
}

/// Whether the steps of a publication are such as a disk can make them.
pub open spec fn publication_possible(
    progress: Progress<PublishRollout, MigrationRecoveryHandle>,
    disk: Disk,
    steps: Seq<Taken>,
) -> bool
    decreases steps.len(),
{
    match progress {
        Progress::Ask(p, action) => steps.len() > 0 ==> {
            &&& truthful(disk, action, steps[0].reply)
            &&& follows(disk, action, steps[0].reply, steps[0].after)
            &&& publication_possible(p.next(steps[0].reply), steps[0].after, steps.skip(1))
        },
        Progress::End(_) => true,
    }
}

/// However far a publication comes, and whatever fails on the way, the legacy source is still
/// visible or can be found again; and where the publication succeeds, its second name and the
/// record in the journal are there.
pub proof fn publication_runs_never_lose_the_source(
    progress: Progress<PublishRollout, MigrationRecoveryHandle>,
    disk: Disk,
    steps: Seq<Taken>,
    names: Names,
    record: RecoveryView,
    legacy: int,
)
    requires
        names.distinct(),
        !disk.files.dom().contains(names.journal),
        !disk.files.dom().contains(journal_staged_of(names.journal)),
        publication_fits(progress, disk, names, record, legacy),
        recoverable(disk, names, legacy),
        publication_possible(progress, disk, steps),
    ensures
        ({
            let (end, after) = publication_run(progress, disk, steps);
            &&& recoverable(after, names, legacy)
            &&& publication_fits(end, after, names, record, legacy)
        }),
    decreases steps.len(),
{
    match progress {
        Progress::Ask(p, action) => {
            if steps.len() > 0 {
                publication_never_loses_the_source(
                    p,
                    action,
                    disk,
                    steps[0].reply,
                    steps[0].after,
                    names,
                    record,
                    legacy,
                );
                publication_runs_never_lose_the_source(
                    p.next(steps[0].reply),
                    steps[0].after,
                    steps.skip(1),
                    names,
                    record,
                    legacy,
                );
            }
        },
        Progress::End(_) => {},
    }
}

/// Where the retention of a record stands once some steps have been taken.
pub open spec fn retention_run(
    progress: Progress<RetainRecovery, Option<RolloutPath>>,
    disk: Disk,
    steps: Seq<Taken>,
) -> (Progress<RetainRecovery, Option<RolloutPath>>, Disk)
    decreases steps.len(),
{
    match progress {
        Progress::Ask(m, action) => if steps.len() == 0 {
            (progress, disk)
        } else {
            retention_run(m.next(steps[0].reply), steps[0].after, steps.skip(1))
        },
        Progress::End(_) => (progress, disk),
    }
}

/// Whether the steps of a retention are such as a disk can make them.
pub open spec fn retention_possible(
    progress: Progress<RetainRecovery, Option<RolloutPath>>,
    disk: Disk,
    steps: Seq<Taken>,
) -> bool
    decreases steps.len(),
{
    match progress {
        Progress::Ask(m, action) => steps.len() > 0 ==> {
            &&& truthful(disk, action, steps[0].reply)
            &&& follows(disk, action, steps[0].reply, steps[0].after)
            &&& retention_possible(m.next(steps[0].reply), steps[0].after, steps.skip(1))
        },
        Progress::End(_) => true,
    }
}

/// However far the retention of a record comes, the pending journal or the retained record holds
/// it, and no name of a file has changed.
pub proof fn retention_runs_never_lose_the_record(
    progress: Progress<RetainRecovery, Option<RolloutPath>>,
    disk: Disk,
    steps: Seq<Taken>,
    pending: Seq<char>,
    retained: Seq<char>,
    record: RecoveryView,
)
    requires
        apart(disk, pending, retained),
        disk.record(pending) == Some(record) || disk.record(retained) == Some(record),
        retention_fits(progress, disk, pending, retained, record),
        retention_possible(progress, disk, steps),
    ensures
        ({
            let (end, after) = retention_run(progress, disk, steps);
            &&& after.files == disk.files
            &&& after.record(pending) == Some(record) || after.record(retained) == Some(record)
            &&& retention_fits(end, after, pending, retained, record)
        }),
    decreases steps.len(),
{
    match progress {
        Progress::Ask(m, action) => {
            if steps.len() > 0 {
                retaining_never_loses_the_record(
                    m,
                    action,
                    disk,
                    steps[0].reply,
                    steps[0].after,
                    pending,
                    retained,
                    record,
                );
                retention_runs_never_lose_the_record(
                    m.next(steps[0].reply),
                    steps[0].after,
                    steps.skip(1),
                    pending,
                    retained,
                    record,
                );
            }
        },
        Progress::End(_) => {},
    }
}

/// The names that the migration of one rollout works with.
pub struct MigrationNames {
    pub names: Names,
    pub retained: Seq<char>,
}

/// The names that a machine works with.
pub open spec fn migration_names(m: MigrateOne) -> MigrationNames {
    MigrationNames {
        names: Names {
            rollout: m.rollout_path@,
            published: m.published_rollout_path@,
            staged: artifact_of(m.rollout_path@, Artifact::Staged),
            preserved: m.preserved_source_path@,
            journal: m.journal_path@,
        },
        retained: m.retained_path@,
    }
}

/// Whether a record says where the legacy source of a published rollout is, and what its
/// fingerprint was.
pub open spec fn leads_back(record: Option<RecoveryView>, names: Names) -> bool {
    &&& record is Some
    &&& record->0.rollout_path == names.rollout
    &&& record->0.published() == names.published
    &&& record->0.preserved_source_path == names.preserved
    &&& record->0.publication_fingerprint is Some
}

/// Whether a legacy file is still visible as the rollout, or can be found again by the pending
/// journal or the retained record.
pub open spec fn source_survives(disk: Disk, n: MigrationNames, legacy: int) -> bool {
    ||| disk.names(n.names.rollout, legacy)
    ||| disk.names(n.names.preserved, legacy) && (leads_back(
        disk.record(n.names.journal),
        n.names,
    ) || leads_back(disk.record(n.retained), n.names))
}

impl MigrationNames {
    /// Whether the names of a migration are different from each other.
    pub open spec fn distinct(self) -> bool {
        let journal_staged = journal_staged_of(self.names.journal);
        let retained_staged = journal_staged_of(self.retained);
        &&& self.names.distinct()
        &&& self.retained != self.names.published && self.retained != self.names.preserved
        &&& self.retained != self.names.journal && self.retained != journal_staged
        &&& self.retained != retained_staged
        &&& retained_staged != self.names.published && retained_staged != self.names.preserved
        &&& retained_staged != self.names.journal
    }
}

/// Whether the names of a migration are different from each other, and its journals are no names
/// of files.
pub open spec fn names_lie_apart(n: MigrationNames, disk: Disk) -> bool {
    let files = disk.files.dom();
    &&& n.distinct()
    &&& !files.contains(n.names.journal)
    &&& !files.contains(journal_staged_of(n.names.journal))
    &&& !files.contains(n.retained)
    &&& !files.contains(journal_staged_of(n.retained))
}

/// Whether an operation leaves the rollout, the preserved source and the journals as they are, and
/// no journal becomes a file. Such are the operations on the index, those that read, and those
/// that build the replacement or remove temporary files.
pub open spec fn spares(n: MigrationNames, before: Disk, after: Disk) -> bool {
    &&& forall|file: int| #[trigger]
        before.names(n.names.rollout, file) == after.names(n.names.rollout, file)
    &&& spares_preserved(n, before, after)
}

/// Whether an operation leaves the preserved source and the journals as they are, and no journal
/// becomes a file.
pub open spec fn spares_preserved(n: MigrationNames, before: Disk, after: Disk) -> bool {
    &&& forall|file: int| #[trigger]
        before.names(n.names.preserved, file) == after.names(n.names.preserved, file)
    &&& after.journals == before.journals
    &&& names_lie_apart(n, before) ==> names_lie_apart(n, after)
}

/// Whether a publication took these steps from one disk to another: it went as its machine goes,
/// and where it is reported as done it had succeeded.
pub open spec fn publication_took(
    p: PublishRollout,
    steps: Seq<Taken>,
    n: MigrationNames,
    before: Disk,
    reply: StoreReply,
    after: Disk,
) -> bool {
    let (end, disk) = publication_run(p.begun(), before, steps);
    &&& p.wf()
    &&& names_of(p) == n.names
    &&& publication_possible(p.begun(), before, steps)
    &&& disk == after
    &&& reply is Done ==> end matches Progress::End(Ok(_))
}

/// Whether the retention of a record took these steps from one disk to another.
pub open spec fn retention_took(
    m: RetainRecovery,
    steps: Seq<Taken>,
    n: MigrationNames,
    before: Disk,
    reply: StoreReply,
    after: Disk,
) -> bool {
    let (end, disk) = retention_run(m.begun(), before, steps);
    &&& m.wf()
    &&& m.pending.path@ == n.names.journal
    &&& m.retained is Some && m.retained->0@ == n.retained
    &&& retention_possible(m.begun(), before, steps)
    &&& disk == after
    &&& reply is Done ==> end matches Progress::End(Ok(_))
}

/// Where the writing of a journal stands once some steps have been taken.
pub open spec fn journal_run(
    progress: Progress<JournalWrite, ()>,
    disk: Disk,
    steps: Seq<Taken>,
) -> (Progress<JournalWrite, ()>, Disk)
    decreases steps.len(),
{
    match progress {
        Progress::Ask(m, _) if steps.len() > 0 => journal_run(
            m.next(steps[0].reply),
            steps[0].after,
            steps.skip(1),
        ),
        _ => (progress, disk),
    }
}

/// Whether the steps of writing a journal are such as a disk can make them.
pub open spec fn journal_possible(
    progress: Progress<JournalWrite, ()>,
    disk: Disk,
    steps: Seq<Taken>,
) -> bool
    decreases steps.len(),
{
    match progress {
        Progress::Ask(m, action) => steps.len() > 0 ==> {
            &&& truthful(disk, action, steps[0].reply)
            &&& follows(disk, action, steps[0].reply, steps[0].after)
            &&& journal_possible(m.next(steps[0].reply), steps[0].after, steps.skip(1))
        },
        Progress::End(_) => true,
    }
}

/// Whether the writing of a journal took these steps from one disk to another.
pub open spec fn journal_took(
    m: JournalWrite,
    steps: Seq<Taken>,
    path: Seq<char>,
    before: Disk,
    after: Disk,
) -> bool {
    let begun = JournalWrite::begun(m.journal, m.recovery);
    &&& m.journal.wf()
    &&& m.journal.path@ == path
    &&& journal_possible(begun, before, steps)
    &&& journal_run(begun, before, steps).1 == after
}

/// Where the comparison of a source stands once some steps have been taken.
pub open spec fn verification_run(
    progress: Progress<VerifySource, ()>,
    disk: Disk,
    steps: Seq<Taken>,
) -> (Progress<VerifySource, ()>, Disk)
    decreases steps.len(),
{
    match progress {
        Progress::Ask(m, _) if steps.len() > 0 => verification_run(
            m.next(steps[0].reply),
            steps[0].after,
            steps.skip(1),
        ),
        _ => (progress, disk),
    }
}

/// Whether the steps of comparing a source are such as a disk can make them.
pub open spec fn verification_possible(
    progress: Progress<VerifySource, ()>,
    disk: Disk,
    steps: Seq<Taken>,
) -> bool
    decreases steps.len(),
{
    match progress {
        Progress::Ask(m, action) => steps.len() > 0 ==> {
            &&& truthful(disk, action, steps[0].reply)
            &&& follows(disk, action, steps[0].reply, steps[0].after)
            &&& verification_possible(m.next(steps[0].reply), steps[0].after, steps.skip(1))
        },
        Progress::End(_) => true,
    }
}

/// Whether the comparison of a source took these steps from one disk to another, and where it is
/// reported as done it had succeeded.
pub open spec fn verification_took(
    m: VerifySource,
    steps: Seq<Taken>,
    path: Seq<char>,
    before: Disk,
    reply: StoreReply,
    after: Disk,
) -> bool {
    let begun = VerifySource::begun(m.thread_id, m.journal, m.selected);
    let (end, disk) = verification_run(begun, before, steps);
    &&& m.journal.wf()
    &&& m.journal.path@ == path
    &&& verification_possible(begun, before, steps)
    &&& disk == after
    &&& reply is Done ==> end matches Progress::End(Ok(_))
}

/// One operation of a larger one as it really went: the reply, and the disk behind it.
pub struct OperationTaken {
    pub reply: StoreReply,
    pub after: Disk,
}

/// Whether one operation of finishing goes from one disk to another: retaining the record goes as
/// its machine goes, the source may be removed under its old name, and everything else leaves the
/// preserved source and the journals as they are.
pub open spec fn finishing_step_took(
    n: MigrationNames,
    before: Disk,
    action: StoreAction,
    reply: StoreReply,
    after: Disk,
) -> bool {
    match action {
        StoreAction::Retain { .. } => exists|m: RetainRecovery, steps: Seq<Taken>|
            #[trigger] retention_took(m, steps, n, before, reply, after),
        _ => spares_preserved(n, before, after),
    }
}

/// Where finishing stands once some operations have been carried out.
pub open spec fn finishing_run(
    step: Step<FinishPublished, ()>,
    disk: Disk,
    steps: Seq<OperationTaken>,
) -> (Step<FinishPublished, ()>, Disk)
    decreases steps.len(),
{
    match step {
        Step::Ask(m, _) if steps.len() > 0 => finishing_run(
            m.next(steps[0].reply),
            steps[0].after,
            steps.skip(1),
        ),
        _ => (step, disk),
    }
}

/// Whether the operations of finishing go as they can go.
pub open spec fn finishing_possible(
    step: Step<FinishPublished, ()>,
    n: MigrationNames,
    disk: Disk,
    steps: Seq<OperationTaken>,
) -> bool
    decreases steps.len(),
{
    match step {
        Step::Ask(m, action) => steps.len() > 0 ==> {
            &&& finishing_step_took(n, disk, action, steps[0].reply, steps[0].after)
            &&& finishing_possible(m.next(steps[0].reply), n, steps[0].after, steps.skip(1))
        },
        Step::End(_) => true,
    }
}

/// Whether finishing took these operations from one disk to another.
pub open spec fn finishing_took(
    m: FinishPublished,
    steps: Seq<OperationTaken>,
    n: MigrationNames,
    before: Disk,
    reply: StoreReply,
    after: Disk,
) -> bool {
    let (end, disk) = finishing_run(m.begun(), before, steps);
    &&& m.journal_path@ == n.names.journal
    &&& finishing_possible(m.begun(), n, before, steps)
    &&& disk == after
    &&& reply is Done ==> end matches Step::End(Ok(_))
}

/// Whether an operation that a migration asks for goes from one disk to another. Publishing,
/// finishing, writing a journal and comparing the source go as their machines go, as far as they
/// come; every other operation leaves the source and the journals as they are.
pub open spec fn operation_took(
    n: MigrationNames,
    before: Disk,
    action: StoreAction,
    reply: StoreReply,
    after: Disk,
) -> bool {
    match action {
        StoreAction::Publish { .. } => exists|p: PublishRollout, steps: Seq<Taken>|
            #[trigger] publication_took(p, steps, n, before, reply, after),
        StoreAction::FinishPublished { .. } => {
            exists|m: FinishPublished, steps: Seq<OperationTaken>|
                #[trigger] finishing_took(m, steps, n, before, reply, after)
        },
        StoreAction::WriteJournal { .. } => exists|m: JournalWrite, steps: Seq<Taken>|
            #[trigger] journal_took(m, steps, n.names.journal, before, after),
        StoreAction::VerifyUnchanged { journal_path, .. } => {
            exists|m: VerifySource, steps: Seq<Taken>|
                #[trigger] verification_took(m, steps, journal_path@, before, reply, after)
        },
        _ => spares(n, before, after),
    }
}

/// Writing a journal touches no other journal but the file in which it is written.
proof fn lemma_other_journals_stay(
    sub: JournalWrite,
    action: DiskAction,
    before: Disk,
    reply: DiskReply,
    after: Disk,
    path: Seq<char>,
    record: RecoveryView,
    other: Seq<char>,
)
    requires
        journal_fits(sub, action, before, path, record),
        truthful(before, action, reply),
        follows(before, action, reply, after),
        other != path,
        other != journal_staged_of(path),
    ensures
        after.record(other) == before.record(other),
        after.journals.dom().contains(other) == before.journals.dom().contains(other),
{
}

proof fn lemma_journal_run(
    progress: Progress<JournalWrite, ()>,
    disk: Disk,
    steps: Seq<Taken>,
    path: Seq<char>,
    record: RecoveryView,
    other: Seq<char>,
)
    requires
        path != journal_staged_of(path),
        other != path,
        other != journal_staged_of(path),
        !disk.files.dom().contains(path),
        !disk.files.dom().contains(journal_staged_of(path)),
        progress matches Progress::Ask(m, action) ==> journal_fits(m, action, disk, path, record),
        journal_possible(progress, disk, steps),
    ensures
        ({
            let after = journal_run(progress, disk, steps).1;
            &&& after.files == disk.files
            &&& after.record(path) == disk.record(path) || after.record(path) == Some(record)
            &&& after.record(other) == disk.record(other)
        }),
    decreases steps.len(),
{
    if let Progress::Ask(m, action) = progress {
        if steps.len() > 0 {
            let reply = steps[0].reply;
            let after = steps[0].after;
            journals_are_replaced_whole(m, action, disk, reply, after, path, record);
            lemma_other_journals_stay(m, action, disk, reply, after, path, record, other);
            lemma_journal_run(m.next(reply), after, steps.skip(1), path, record, other);
        }
    }
}

/// Whether the record of a published rollout carries no mark.
pub open spec fn is_unmarked(record: RecoveryView) -> bool {
    &&& record.publication_fingerprint is Some
    &&& !record.retirement_started
    &&& !record.split_generation_detected
}

/// Whether the comparison of a source that has come some way fits the disk.
pub open spec fn verification_fits(
    progress: Progress<VerifySource, ()>,
    disk: Disk,
    path: Seq<char>,
    record: RecoveryView,
) -> bool {
    let unmarked = disk.record(path) == Some(record);
    &&& unmarked || disk.record(path) == Some(record.split())
    &&& progress matches Progress::End(Ok(_)) ==> unmarked && is_unmarked(record)
    &&& progress matches Progress::Ask(m, action) ==> {
        &&& m.journal.wf()
        &&& m.journal.path@ == path
        &&& match m.stage {
            VerifyStage::Reading => unmarked && action == (DiskAction::ReadJournal {
                path: m.journal.path,
            }),
            VerifyStage::Validating(recovery) => unmarked && recovery@ == record && action
                is Validate,
            VerifyStage::Fingerprinting(recovery, _) => unmarked && is_unmarked(record)
                && recovery@ == record && action is Fingerprint,
            VerifyStage::Marking(recovery, sub) => recovery@ == record && journal_fits(
                sub,
                action,
                disk,
                path,
                record.split(),
            ),
        }
    }
}

proof fn lemma_verification_run(
    progress: Progress<VerifySource, ()>,
    disk: Disk,
    steps: Seq<Taken>,
    path: Seq<char>,
    record: RecoveryView,
    other: Seq<char>,
)
    requires
        path != journal_staged_of(path),
        other != path,
        other != journal_staged_of(path),
        !disk.files.dom().contains(path),
        !disk.files.dom().contains(journal_staged_of(path)),
        verification_fits(progress, disk, path, record),
        verification_possible(progress, disk, steps),
    ensures
        ({
            let (end, after) = verification_run(progress, disk, steps);
            &&& after.files == disk.files
            &&& verification_fits(end, after, path, record)
            &&& after.record(other) == disk.record(other)
            &&& after.journals.dom().contains(other) == disk.journals.dom().contains(other)
        }),
    decreases steps.len(),
{
    if let Progress::Ask(m, action) = progress {
        if steps.len() > 0 {
            let reply = steps[0].reply;
            let after = steps[0].after;
            match m.stage {
                VerifyStage::Marking(_, sub) => {
                    let marked = record.split();
                    journals_are_replaced_whole(sub, action, disk, reply, after, path, marked);
                    lemma_other_journals_stay(
                        sub,
                        action,
                        disk,
                        reply,
                        after,
                        path,
                        marked,
                        other,
                    );
                },
                VerifyStage::Fingerprinting(recovery, _) => {
                    assert((MigrationRecoveryHandle {
                        split_generation_detected: true,
                        ..recovery
                    })@ == record.split());
                },
                _ => {},
            }
            lemma_verification_run(m.next(reply), after, steps.skip(1), path, record, other);
        }
    }
}

/// Whether finishing that has come some way fits the disk: the preserved source is there, and the
/// pending journal or the retained record leads back to it.
pub open spec fn finishing_fits(
    step: Step<FinishPublished, ()>,
    disk: Disk,
    n: MigrationNames,
    legacy: int,
) -> bool {
    let pending = leads_back(disk.record(n.names.journal), n.names);
    let retained = leads_back(disk.record(n.retained), n.names);
    &&& disk.names(n.names.preserved, legacy)
    &&& match step {
        Step::Ask(m, action) => {
            &&& m.journal_path@ == n.names.journal
            &&& pending
            &&& action is Retain == m.stage is Retaining
        },
        Step::End(Ok(_)) => retained && !disk.has(n.names.journal),
        Step::End(Err(_)) => pending || retained,
    }
}

proof fn lemma_retention(
    m: RetainRecovery,
    steps: Seq<Taken>,
    n: MigrationNames,
    before: Disk,
    reply: StoreReply,
    after: Disk,
)
    requires
        names_lie_apart(n, before),
        retention_took(m, steps, n, before, reply, after),
        leads_back(before.record(n.names.journal), n.names),
    ensures
        after.files == before.files,
        leads_back(after.record(n.names.journal), n.names) || leads_back(
            after.record(n.retained),
            n.names,
        ),
        reply is Done ==> leads_back(after.record(n.retained), n.names) && !after.has(
            n.names.journal,
        ),
{
    let record = before.record(n.names.journal)->0;
    retention_runs_never_lose_the_record(
        m.begun(),
        before,
        steps,
        n.names.journal,
        n.retained,
        record,
    );
}

proof fn lemma_finishing_run(
    step: Step<FinishPublished, ()>,
    disk: Disk,
    steps: Seq<OperationTaken>,
    n: MigrationNames,
    legacy: int,
)
    requires
        names_lie_apart(n, disk),
        finishing_fits(step, disk, n, legacy),
        finishing_possible(step, n, disk, steps),
    ensures
        ({
            let (end, after) = finishing_run(step, disk, steps);
            &&& names_lie_apart(n, after)
            &&& after.names(n.names.preserved, legacy)
            &&& leads_back(after.record(n.names.journal), n.names) || leads_back(
                after.record(n.retained),
                n.names,
            )
            &&& end matches Step::End(Ok(_)) ==> leads_back(after.record(n.retained), n.names)
                && !after.has(n.names.journal)
        }),
    decreases steps.len(),
{
    if let Step::Ask(m, action) = step {
        if steps.len() > 0 {
            let reply = steps[0].reply;
            let after = steps[0].after;
            if let StoreAction::Retain { .. } = action {
                let (sub, taken) = choose|sub: RetainRecovery, taken: Seq<Taken>|
                    #[trigger] retention_took(sub, taken, n, disk, reply, after);
                lemma_retention(sub, taken, n, disk, reply, after);
                assert(m.next(reply) is End);
                assert(finishing_run(m.next(reply), after, steps.skip(1)) == (
                    m.next(reply),
                    after,
                ));
            } else {
                assert(disk.names(n.names.preserved, legacy) == after.names(
                    n.names.preserved,
                    legacy,
                ));
                lemma_finishing_run(m.next(reply), after, steps.skip(1), n, legacy);
            }
        }
    }
}

/// A publication gives no journal the name of a file.
proof fn lemma_publication_keeps_journals_apart(
    p: PublishRollout,
    steps: Seq<Taken>,
    n: MigrationNames,
    before: Disk,
    legacy: int,
)
    requires
        names_lie_apart(n, before),
        p.wf(),
        names_of(p) == n.names,
        before.names(n.names.rollout, legacy),
        publication_possible(p.begun(), before, steps),
    ensures
        names_lie_apart(n, publication_run(p.begun(), before, steps).1),
{
    publication_begins_with_the_source_visible(p, before, legacy);
    lemma_publication_run(p.begun(), before, steps, n, p.recovery@, legacy);
}

proof fn lemma_publication_run(
    progress: Progress<PublishRollout, MigrationRecoveryHandle>,
    disk: Disk,
    steps: Seq<Taken>,
    n: MigrationNames,
    record: RecoveryView,
    legacy: int,
)
    requires
        names_lie_apart(n, disk),
        publication_fits(progress, disk, n.names, record, legacy),
        publication_possible(progress, disk, steps),
    ensures
        names_lie_apart(n, publication_run(progress, disk, steps).1),
    decreases steps.len(),
{
    if let Progress::Ask(p, action) = progress {
        if steps.len() > 0 {
            let reply = steps[0].reply;
            let after = steps[0].after;
            publication_never_loses_the_source(
                p,
                action,
                disk,
                reply,
                after,
                n.names,
                record,
                legacy,
            );
            assert(names_lie_apart(n, after));
            lemma_publication_run(p.next(reply), after, steps.skip(1), n, record, legacy);
        }
    }
}

/// Publishing, finishing, writing a journal and comparing the source never lose the source,
/// however far they come. While the source is visible, publishing leaves it visible or leaves its
/// second name and a record that leads to it. Behind the publication the second name stays, and so
/// does such a record; where finishing succeeds, the retained record is one and the pending journal
/// is gone; and where the comparison of the source succeeds, the record carries no mark.
pub proof fn operations_spare_the_source(
    n: MigrationNames,
    legacy: int,
    before: Disk,
    action: StoreAction,
    reply: StoreReply,
    after: Disk,
)
    requires
        names_lie_apart(n, before),
        operation_took(n, before, action, reply, after),
    ensures
        match action {
            StoreAction::Publish { .. } => before.names(n.names.rollout, legacy) ==> {
                &&& names_lie_apart(n, after)
                &&& recoverable(after, n.names, legacy)
                &&& reply is Done ==> after.names(n.names.preserved, legacy) && leads_back(
                    after.record(n.names.journal),
                    n.names,
                )
            },
            StoreAction::FinishPublished { .. } => {
                before.names(n.names.preserved, legacy) && leads_back(
                    before.record(n.names.journal),
                    n.names,
                ) ==> {
                    &&& names_lie_apart(n, after)
                    &&& after.names(n.names.preserved, legacy)
                    &&& leads_back(after.record(n.names.journal), n.names) || leads_back(
                        after.record(n.retained),
                        n.names,
                    )
                    &&& reply is Done ==> leads_back(after.record(n.retained), n.names)
                        && !after.has(n.names.journal)
                }
            },
            StoreAction::WriteJournal { .. } => {
                &&& names_lie_apart(n, after)
                &&& after.files == before.files
            },
            StoreAction::VerifyUnchanged { journal_path, .. } => {
                let path = journal_path@;
                path == n.names.journal || path == n.retained ==> leads_back(
                    before.record(path),
                    n.names,
                ) ==> {
                    &&& names_lie_apart(n, after)
                    &&& after.files == before.files
                    &&& leads_back(after.record(path), n.names)
                    &&& reply is Done ==> is_unmarked(after.record(path)->0)
                    &&& path == n.retained ==> after.has(n.names.journal) == before.has(
                        n.names.journal,
                    )
                }
            },
            _ => {
                &&& names_lie_apart(n, after)
                &&& spares(n, before, after)
            },
        },
{
    match action {
        StoreAction::Publish { .. } => {
            let (p, steps) = choose|p: PublishRollout, steps: Seq<Taken>|
                #[trigger] publication_took(p, steps, n, before, reply, after);
            if before.names(n.names.rollout, legacy) {
                publication_begins_with_the_source_visible(p, before, legacy);
                publication_runs_never_lose_the_source(
                    p.begun(),
                    before,
                    steps,
                    n.names,
                    p.recovery@,
                    legacy,
                );
                lemma_publication_keeps_journals_apart(p, steps, n, before, legacy);
            }
        },
        StoreAction::FinishPublished { .. } => {
            let (m, steps) = choose|m: FinishPublished, steps: Seq<OperationTaken>|
                #[trigger] finishing_took(m, steps, n, before, reply, after);
            if before.names(n.names.preserved, legacy) && leads_back(
                before.record(n.names.journal),
                n.names,
            ) {
                lemma_finishing_run(m.begun(), before, steps, n, legacy);
            }
        },
        StoreAction::WriteJournal { .. } => {
            let (m, steps) = choose|m: JournalWrite, steps: Seq<Taken>|
                #[trigger] journal_took(m, steps, n.names.journal, before, after);
            lemma_journal_run(
                JournalWrite::begun(m.journal, m.recovery),
                before,
                steps,
                n.names.journal,
                m.recovery@,
                n.retained,
            );
        },
        StoreAction::VerifyUnchanged { journal_path, .. } => {
            let path = journal_path@;
            let (m, steps) = choose|m: VerifySource, steps: Seq<Taken>|
                #[trigger] verification_took(m, steps, path, before, reply, after);
            if (path == n.names.journal || path == n.retained) && leads_back(
                before.record(path),
                n.names,
            ) {
                let other = if path == n.names.journal {
                    n.retained
                } else {
                    n.names.journal
                };
                lemma_verification_run(
                    VerifySource::begun(m.thread_id, m.journal, m.selected),
                    before,
                    steps,
                    path,
                    before.record(path)->0,
                    other,
                );
            }
        },
        _ => {},
    }
}

} // verus!
