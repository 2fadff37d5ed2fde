//! What becomes of a recovery record when its journal is written, and when the preserved source
//! that it speaks of has changed.

use crate::disk::follows;
use crate::disk::same_layout;
use crate::disk::truthful;
use crate::disk::Disk;
use crate::disk::DiskAction;
use crate::disk::DiskReply;
use crate::disk::Progress;
use crate::error::ThreadId;
use crate::generation::VerifySource;
use crate::generation::VerifyStage;
use crate::operation_laws::is_unmarked;
use crate::operation_laws::journal_possible;
use crate::operation_laws::journal_run;
use crate::operation_laws::verification_possible;
use crate::operation_laws::verification_run;
use crate::operation_laws::Taken;
use crate::path_laws::lemma_file_name_is_one;
use crate::paths::file_name_of;
use crate::paths::journal_staged_of;
use crate::paths::RolloutPath;
use crate::publish::JournalPaths;
use crate::publish::JournalStage;
use crate::publish::JournalWrite;
use crate::publish_laws::journal_fits;
use crate::recovery::journal_conflict;
use crate::recovery::MigrationRecoveryHandle;
use crate::recovery::PreservedSourceFingerprint;
use crate::recovery::RecoveryView;
use crate::refusals::problem_view;
use crate::refusals::DiskProblem;
use crate::refusals::RecoveryRefusal;
use crate::refusals::Refusal;
use vstd::prelude::*;

verus! {

/// Whether a record may take the place of another: it speaks of the same source, keeps the
/// fingerprint and the marks that were there, and does not carry both marks.
pub open spec fn may_replace(existing: RecoveryView, recovery: RecoveryView) -> bool {
    &&& existing.same_source(recovery)
    &&& existing.retirement_started ==> recovery.retirement_started
    &&& existing.split_generation_detected ==> recovery.split_generation_detected
    &&& existing.publication_fingerprint is Some ==> recovery.publication_fingerprint
        == existing.publication_fingerprint
    &&& !(recovery.retirement_started && recovery.split_generation_detected)
}

/// A record is refused exactly where it may not take the place of the one on disk.
pub proof fn records_are_refused_where_they_go_back(
    existing: RecoveryView,
    recovery: RecoveryView,
)
    ensures
        journal_conflict(existing, recovery) is None <==> may_replace(existing, recovery),
{
}

/// A journal is not the file in which it is written.
pub proof fn journals_are_written_beside_themselves(path: Seq<char>)
    requires
        file_name_of(path) is Some,
    ensures
        journal_staged_of(path) != path,
{
    lemma_file_name_is_one(path);
    reveal_strlit(".");
    reveal_strlit(".tmp");
    assert(journal_staged_of(path).len() == path.len() + 5);
}

/// Whether the writing of a journal that has come some way fits what the journal held first.
pub open spec fn writing_fits(
    progress: Progress<JournalWrite, ()>,
    disk: Disk,
    journal: JournalPaths,
    recovery: MigrationRecoveryHandle,
    existing: Option<RecoveryView>,
) -> bool {
    let path = journal.path@;
    let allowed = existing matches Some(e) ==> e == recovery@ || may_replace(e, recovery@);
    match progress {
        Progress::Ask(m, action) => {
            &&& m.journal == journal && m.recovery == recovery
            &&& journal_fits(m, action, disk, path, recovery@)
            &&& !(m.stage is Reading) ==> allowed
            &&& disk.record(path) == existing || m.stage is Syncing
        },
        Progress::End(Ok(_)) => allowed && disk.record(path) == Some(recovery@),
        Progress::End(Err(problem)) => {
            &&& disk.record(path) == existing || (allowed && disk.record(path) == Some(recovery@))
            &&& problem matches DiskProblem::Refused { refusal: Refusal::Journal(conflict), path } ==> {
                &&& existing is Some && existing->0 != recovery@
                &&& journal_conflict(existing->0, recovery@) == Some(conflict)
                &&& path@ == existing->0.preserved_source_path
            }
        },
    }
}

proof fn lemma_writing_goes_on(
    m: JournalWrite,
    action: DiskAction,
    before: Disk,
    reply: DiskReply,
    after: Disk,
    journal: JournalPaths,
    recovery: MigrationRecoveryHandle,
    existing: Option<RecoveryView>,
)
    requires
        journal.wf(),
        writing_fits(Progress::Ask(m, action), before, journal, recovery, existing),
        truthful(before, action, reply),
        follows(before, action, reply, after),
    ensures
        writing_fits(m.next(reply), after, journal, recovery, existing),
{
    if journal.staged is Some {
        journals_are_written_beside_themselves(journal.path@);
    }
    if let DiskReply::Journal(Some(found)) = reply {
        records_are_refused_where_they_go_back(found@, recovery@);
    }
}

proof fn lemma_writing_run(
    progress: Progress<JournalWrite, ()>,
    disk: Disk,
    steps: Seq<Taken>,
    journal: JournalPaths,
    recovery: MigrationRecoveryHandle,
    existing: Option<RecoveryView>,
)
    requires
        journal.wf(),
        writing_fits(progress, disk, journal, recovery, existing),
        journal_possible(progress, disk, steps),
    ensures
        ({
            let (end, after) = journal_run(progress, disk, steps);
            writing_fits(end, after, journal, recovery, existing)
        }),
    decreases steps.len(),
{
    if let Progress::Ask(m, action) = progress {
        if steps.len() > 0 {
            let reply = steps[0].reply;
            let after = steps[0].after;
            lemma_writing_goes_on(m, action, disk, reply, after, journal, recovery, existing);
            lemma_writing_run(m.next(reply), after, steps.skip(1), journal, recovery, existing);
        }
    }
}

/// A journal that is written, however far that comes and whatever fails on the way, holds what it
/// held or the whole new record. Where the writing succeeds, the new record can be read back, and
/// nothing that the old one had come to is taken back. Where it is refused, the old record is
/// another one that the new one may not replace, and the refusal says why.
pub proof fn written_records_read_back_and_only_move_forward(
    journal: JournalPaths,
    recovery: MigrationRecoveryHandle,
    disk: Disk,
    steps: Seq<Taken>,
)
    requires
        journal.wf(),
        journal_possible(JournalWrite::begun(journal, recovery), disk, steps),
    ensures
        ({
            let (end, after) = journal_run(JournalWrite::begun(journal, recovery), disk, steps);
            let old = disk.record(journal.path@);
            let new = after.record(journal.path@);
            let allowed = old matches Some(e) ==> e == recovery@ || may_replace(e, recovery@);
            &&& new == old || (allowed && new == Some(recovery@))
            &&& end matches Progress::End(Ok(_)) ==> allowed && new == Some(recovery@)
            &&& end matches Progress::End(
                Err(DiskProblem::Refused { refusal: Refusal::Journal(conflict), path }),
            ) ==> {
                &&& !allowed
                &&& new == old
                &&& journal_conflict(old->0, recovery@) == Some(conflict)
                &&& path@ == old->0.preserved_source_path
            }
        }),
{
    let begun = JournalWrite::begun(journal, recovery);
    let old = disk.record(journal.path@);
    lemma_writing_run(begun, disk, steps, journal, recovery, old);
    if old is Some {
        records_are_refused_where_they_go_back(old->0, recovery@);
    }
}

/// A record that may not take the place of the one on disk is never written: the disk stays as it
/// is, and once the journal has been read the writing has ended with a conflict.
pub proof fn conflicting_records_are_never_written(
    journal: JournalPaths,
    recovery: MigrationRecoveryHandle,
    existing: RecoveryView,
    disk: Disk,
    steps: Seq<Taken>,
)
    requires
        disk.record(journal.path@) == Some(existing),
        existing != recovery@,
        !may_replace(existing, recovery@),
        journal_possible(JournalWrite::begun(journal, recovery), disk, steps),
    ensures
        ({
            let (end, after) = journal_run(JournalWrite::begun(journal, recovery), disk, steps);
            &&& same_layout(after, disk)
            &&& match end {
                Progress::Ask(..) => steps.len() == 0,
                Progress::End(Ok(_)) => false,
                Progress::End(Err(problem)) => steps[0].reply is Journal ==> {
                    &&& problem matches DiskProblem::Refused { refusal, path } && refusal
                        == Refusal::Journal(journal_conflict(existing, recovery@)->0) && path@
                        == existing.preserved_source_path
                    &&& problem_view(problem) is Conflict
                },
            }
        }),
{
    records_are_refused_where_they_go_back(existing, recovery@);
    if steps.len() > 0 {
        reveal_with_fuel(journal_run, 2);
        assert(steps[0].reply is Journal ==> steps[0].reply->Journal_0 is Some);
    }
}

/// Whether every reply does what was asked: none is a failure or a refusal.
pub open spec fn all_granted(steps: Seq<Taken>) -> bool {
    forall|i: int|
        0 <= i < steps.len() ==> !(#[trigger] steps[i].reply is Failed) && !(steps[i].reply
            is Rejected)
}

proof fn lemma_granted_behind(steps: Seq<Taken>)
    requires
        all_granted(steps),
        steps.len() > 0,
    ensures
        all_granted(steps.skip(1)),
        !(steps[0].reply is Failed) && !(steps[0].reply is Rejected),
{
    let behind = steps.skip(1);
    assert forall|i: int| 0 <= i < behind.len() implies !(#[trigger] behind[i].reply is Failed)
        && !(behind[i].reply is Rejected) by {
        assert(behind[i] == steps[i + 1]);
    }
}

/// How many replies the writing of a journal takes at most from where it stands.
pub open spec fn writing_replies(progress: Progress<JournalWrite, ()>) -> nat {
    match progress {
        Progress::End(_) => 0,
        Progress::Ask(m, _) => match m.stage {
            JournalStage::Reading => 7,
            JournalStage::CheckingParent => 6,
            JournalStage::CreatingParent { .. } => 5,
            JournalStage::SyncingParent => 4,
            JournalStage::WritingStaged => 3,
            JournalStage::Moving => 2,
            JournalStage::Syncing => 1,
        },
    }
}

proof fn lemma_granted_writing_run(
    progress: Progress<JournalWrite, ()>,
    disk: Disk,
    steps: Seq<Taken>,
    journal: JournalPaths,
    recovery: MigrationRecoveryHandle,
    existing: Option<RecoveryView>,
)
    requires
        journal.wf(),
        journal.parent is Some && journal.staged is Some,
        existing matches Some(e) ==> e == recovery@ || may_replace(e, recovery@),
        writing_fits(progress, disk, journal, recovery, existing),
        !(progress matches Progress::End(Err(_))),
        journal_possible(progress, disk, steps),
        all_granted(steps),
    ensures
        ({
            let end = journal_run(progress, disk, steps).0;
            &&& !(end matches Progress::End(Err(_)))
            &&& end is Ask ==> steps.len() + writing_replies(end) <= writing_replies(progress)
        }),
    decreases steps.len(),
{
    if let Progress::Ask(m, action) = progress {
        if steps.len() > 0 {
            let reply = steps[0].reply;
            let after = steps[0].after;
            lemma_granted_behind(steps);
            if let DiskReply::Journal(Some(found)) = reply {
                records_are_refused_where_they_go_back(found@, recovery@);
            }
            lemma_writing_goes_on(m, action, disk, reply, after, journal, recovery, existing);
            lemma_granted_writing_run(
                m.next(reply),
                after,
                steps.skip(1),
                journal,
                recovery,
                existing,
            );
        }
    }
}

/// A record that may take the place of the one on disk is written: where the disk does what it is
/// asked for, the writing takes at most 7 replies and succeeds.
pub proof fn allowed_records_are_written(
    journal: JournalPaths,
    recovery: MigrationRecoveryHandle,
    disk: Disk,
    steps: Seq<Taken>,
)
    requires
        journal.wf(),
        journal.parent is Some && journal.staged is Some,
        disk.record(journal.path@) matches Some(e) ==> e == recovery@ || may_replace(
            e,
            recovery@,
        ),
        journal_possible(JournalWrite::begun(journal, recovery), disk, steps),
        all_granted(steps),
    ensures
        ({
            let (end, after) = journal_run(JournalWrite::begun(journal, recovery), disk, steps);
            match end {
                Progress::Ask(..) => steps.len() < 7,
                Progress::End(result) => {
                    &&& result is Ok
                    &&& after.record(journal.path@) == Some(recovery@)
                },
            }
        }),
{
    let begun = JournalWrite::begun(journal, recovery);
    let old = disk.record(journal.path@);
    lemma_writing_run(begun, disk, steps, journal, recovery, old);
    lemma_granted_writing_run(begun, disk, steps, journal, recovery, old);
}

/// Whether no reply gives a certain fingerprint.
pub open spec fn never_found(steps: Seq<Taken>, fingerprint: PreservedSourceFingerprint) -> bool {
    forall|i: int|
        0 <= i < steps.len() ==> #[trigger] steps[i].reply != DiskReply::Fingerprint(fingerprint)
}

/// Whether the comparison of a changed source that has come some way fits the disk: nothing is
/// marked before the change is found, and the comparison never ends well.
pub open spec fn comparison_fits(
    progress: Progress<VerifySource, ()>,
    disk: Disk,
    thread_id: ThreadId,
    journal: JournalPaths,
    record: RecoveryView,
) -> bool {
    let path = journal.path@;
    match progress {
        Progress::Ask(m, action) => {
            &&& m.thread_id == thread_id && m.journal == journal
            &&& match m.stage {
                VerifyStage::Reading => disk.record(path) == Some(record) && action == (
                DiskAction::ReadJournal { path: journal.path }),
                VerifyStage::Validating(recovery) => recovery@ == record && disk.record(path)
                    == Some(record) && action is Validate,
                VerifyStage::Fingerprinting(recovery, expected) => recovery@ == record
                    && disk.record(path) == Some(record) && record.publication_fingerprint == Some(
                    expected,
                ) && action is Fingerprint,
                VerifyStage::Marking(recovery, sub) => recovery@ == record && writing_fits(
                    Progress::Ask(sub, action),
                    disk,
                    journal,
                    MigrationRecoveryHandle { split_generation_detected: true, ..recovery },
                    Some(record),
                ),
            }
        },
        Progress::End(Ok(_)) => false,
        Progress::End(Err(problem)) => {
            &&& disk.record(path) == Some(record) || disk.record(path) == Some(record.split())
            &&& problem matches DiskProblem::Recovery {
                refusal: RecoveryRefusal::ChangedByOlderWriter { .. },
                ..
            } ==> {
                &&& is_changed(problem, thread_id, record)
                &&& disk.record(path) == Some(record.split())
            }
        },
    }
}

/// Whether a problem says that an older writer has changed the preserved source of a record.
pub open spec fn is_changed(
    problem: DiskProblem,
    thread_id: ThreadId,
    record: RecoveryView,
) -> bool {
    problem matches DiskProblem::Recovery {
        thread_id: named,
        refusal: RecoveryRefusal::ChangedByOlderWriter { path },
    } && named == thread_id && path@ == record.preserved_source_path
}

/// Whether a problem says that the generations of a record have diverged.
pub open spec fn is_diverged(
    problem: DiskProblem,
    thread_id: ThreadId,
    record: RecoveryView,
) -> bool {
    problem matches DiskProblem::Recovery {
        thread_id: named,
        refusal: RecoveryRefusal::Diverged { path },
    } && named == thread_id && path@ == record.preserved_source_path
}

/// How many replies the comparison of a source takes at most from where it stands.
pub open spec fn comparison_replies(progress: Progress<VerifySource, ()>) -> nat {
    match progress {
        Progress::End(_) => 0,
        Progress::Ask(m, action) => match m.stage {
            VerifyStage::Reading => 10,
            VerifyStage::Validating(_) => 9,
            VerifyStage::Fingerprinting(..) => 8,
            VerifyStage::Marking(_, sub) => writing_replies(Progress::Ask(sub, action)),
        },
    }
}

proof fn lemma_comparison_goes_on(
    m: VerifySource,
    action: DiskAction,
    before: Disk,
    reply: DiskReply,
    after: Disk,
    thread_id: ThreadId,
    journal: JournalPaths,
    record: RecoveryView,
)
    requires
        journal.wf(),
        is_unmarked(record),
        comparison_fits(Progress::Ask(m, action), before, thread_id, journal, record),
        truthful(before, action, reply),
        follows(before, action, reply, after),
        reply != DiskReply::Fingerprint(record.publication_fingerprint->0),
    ensures
        comparison_fits(m.next(reply), after, thread_id, journal, record),
        !(reply is Failed) && !(reply is Rejected) && journal.parent is Some
            && journal.staged is Some ==> {
            &&& m.next(reply) matches Progress::End(Err(problem)) ==> is_changed(
                problem,
                thread_id,
                record,
            )
            &&& comparison_replies(m.next(reply)) < comparison_replies(Progress::Ask(m, action))
        },
{
    match m.stage {
        VerifyStage::Marking(recovery, sub) => {
            let marked = MigrationRecoveryHandle { split_generation_detected: true, ..recovery };
            assert(marked@ == record.split());
            records_are_refused_where_they_go_back(record, marked@);
            lemma_writing_goes_on(
                sub,
                action,
                before,
                reply,
                after,
                journal,
                marked,
                Some(record),
            );
        },
        VerifyStage::Fingerprinting(recovery, _) => {
            let marked = MigrationRecoveryHandle { split_generation_detected: true, ..recovery };
            assert(marked@ == record.split());
        },
        _ => {},
    }
}

proof fn lemma_comparison_run(
    progress: Progress<VerifySource, ()>,
    disk: Disk,
    steps: Seq<Taken>,
    thread_id: ThreadId,
    journal: JournalPaths,
    record: RecoveryView,
)
    requires
        journal.wf(),
        is_unmarked(record),
        comparison_fits(progress, disk, thread_id, journal, record),
        verification_possible(progress, disk, steps),
        never_found(steps, record.publication_fingerprint->0),
    ensures
        ({
            let (end, after) = verification_run(progress, disk, steps);
            &&& comparison_fits(end, after, thread_id, journal, record)
            &&& all_granted(steps) && journal.parent is Some && journal.staged is Some
                && progress is Ask ==> {
                &&& end matches Progress::End(Err(problem)) ==> is_changed(
                    problem,
                    thread_id,
                    record,
                )
                &&& end is Ask ==> steps.len() + comparison_replies(end) <= comparison_replies(
                    progress,
                )
            }
        }),
    decreases steps.len(),
{
    if let Progress::Ask(m, action) = progress {
        if steps.len() > 0 {
            let reply = steps[0].reply;
            let after = steps[0].after;
            let behind = steps.skip(1);
            assert forall|i: int| 0 <= i < behind.len() implies #[trigger] behind[i].reply
                != DiskReply::Fingerprint(record.publication_fingerprint->0) by {
                assert(behind[i] == steps[i + 1]);
            }
            if all_granted(steps) {
                lemma_granted_behind(steps);
            }
            lemma_comparison_goes_on(m, action, disk, reply, after, thread_id, journal, record);
            lemma_comparison_run(m.next(reply), after, behind, thread_id, journal, record);
        }
    }
}

proof fn lemma_comparison_spares_files(
    progress: Progress<VerifySource, ()>,
    disk: Disk,
    steps: Seq<Taken>,
    thread_id: ThreadId,
    journal: JournalPaths,
    record: RecoveryView,
)
    requires
        journal.wf(),
        is_unmarked(record),
        !disk.files.dom().contains(journal.path@),
        journal.staged is Some ==> !disk.files.dom().contains(journal.staged->0@),
        comparison_fits(progress, disk, thread_id, journal, record),
        verification_possible(progress, disk, steps),
        never_found(steps, record.publication_fingerprint->0),
    ensures
        verification_run(progress, disk, steps).1.files == disk.files,
        forall|other: Seq<char>|
            other != journal.path@ && other != journal_staged_of(journal.path@)
                ==> #[trigger] verification_run(progress, disk, steps).1.record(other)
                == disk.record(other),
    decreases steps.len(),
{
    if let Progress::Ask(m, action) = progress {
        if steps.len() > 0 {
            let reply = steps[0].reply;
            let after = steps[0].after;
            let behind = steps.skip(1);
            assert forall|i: int| 0 <= i < behind.len() implies #[trigger] behind[i].reply
                != DiskReply::Fingerprint(record.publication_fingerprint->0) by {
                assert(behind[i] == steps[i + 1]);
            }
            lemma_comparison_goes_on(m, action, disk, reply, after, thread_id, journal, record);
            lemma_comparison_spares_files(
                m.next(reply),
                after,
                behind,
                thread_id,
                journal,
                record,
            );
            let end = verification_run(progress, disk, steps).1;
            assert forall|other: Seq<char>|
                other != journal.path@ && other != journal_staged_of(
                    journal.path@,
                ) implies #[trigger] end.record(other) == disk.record(other) by {
                assert(after.record(other) == disk.record(other));
            }
        }
    }
}

/// A preserved source that an older writer has changed is found out. The comparison never ends
/// well, whatever fails on the way, and the record stays or takes on the mark of a split. Where
/// the disk does what it is asked for, the comparison ends within 10 replies with a conflict, and
/// the record that can be read back is the old one with that mark and nothing else. No file and no
/// other journal is touched.
pub proof fn changed_sources_are_marked_as_split(
    thread_id: ThreadId,
    journal: JournalPaths,
    selected: RolloutPath,
    record: RecoveryView,
    disk: Disk,
    steps: Seq<Taken>,
)
    requires
        journal.wf(),
        journal.parent is Some && journal.staged is Some,
        disk.record(journal.path@) == Some(record),
        is_unmarked(record),
        verification_possible(VerifySource::begun(thread_id, journal, selected), disk, steps),
        never_found(steps, record.publication_fingerprint->0),
    ensures
        ({
            let begun = VerifySource::begun(thread_id, journal, selected);
            let (end, after) = verification_run(begun, disk, steps);
            let found = after.record(journal.path@);
            &&& !(end matches Progress::End(Ok(_)))
            &&& found == Some(record) || found == Some(record.split())
            &&& all_granted(steps) ==> match end {
                Progress::Ask(..) => steps.len() < 10,
                Progress::End(result) => {
                    &&& result is Err
                    &&& is_changed(result->Err_0, thread_id, record)
                    &&& problem_view(result->Err_0) is Conflict
                    &&& found == Some(record.split())
                },
            }
            &&& !disk.files.dom().contains(journal.path@) && !disk.files.dom().contains(
                journal.staged->0@,
            ) ==> {
                &&& after.files == disk.files
                &&& forall|other: Seq<char>|
                    other != journal.path@ && other != journal_staged_of(journal.path@)
                        ==> #[trigger] after.record(other) == disk.record(other)
            }
        }),
{
    let begun = VerifySource::begun(thread_id, journal, selected);
    lemma_comparison_run(begun, disk, steps, thread_id, journal, record);
    let (end, after) = verification_run(begun, disk, steps);
    if let Progress::Ask(m, action) = end {
        if let VerifyStage::Marking(recovery, _) = m.stage {
            let marked = MigrationRecoveryHandle { split_generation_detected: true, ..recovery };
            assert(marked@ == record.split());
        }
    }
    if !disk.files.dom().contains(journal.path@) && !disk.files.dom().contains(
        journal.staged->0@,
    ) {
        lemma_comparison_spares_files(begun, disk, steps, thread_id, journal, record);
    }
}

/// A divergence stays: where the record carries the mark of a split, no comparison ends well, and
/// none changes anything on the disk. Where the disk does what it is asked for, the comparison
/// ends within 2 replies with a conflict, whatever the source looks like by then.
pub proof fn split_generations_are_refused_for_good(
    thread_id: ThreadId,
    journal: JournalPaths,
    selected: RolloutPath,
    record: RecoveryView,
    disk: Disk,
    steps: Seq<Taken>,
)
    requires
        disk.record(journal.path@) == Some(record),
        record.split_generation_detected,
        verification_possible(VerifySource::begun(thread_id, journal, selected), disk, steps),
    ensures
        ({
            let begun = VerifySource::begun(thread_id, journal, selected);
            let (end, after) = verification_run(begun, disk, steps);
            &&& same_layout(after, disk)
            &&& !(end matches Progress::End(Ok(_)))
            &&& all_granted(steps) ==> match end {
                Progress::Ask(..) => steps.len() < 2,
                Progress::End(result) => {
                    &&& result is Err
                    &&& is_diverged(result->Err_0, thread_id, record)
                    &&& problem_view(result->Err_0) is Conflict
                },
            }
        }),
{
    reveal_with_fuel(verification_run, 3);
    reveal_with_fuel(verification_possible, 3);
    if steps.len() > 1 {
        assert(steps.skip(1)[0] == steps[1]);
    }
}

/// A source that was found to have changed is refused again by every later comparison on a disk
/// where the record has not been touched since, and the record stays as it is.
pub proof fn changed_sources_stay_refused(
    thread_id: ThreadId,
    journal: JournalPaths,
    selected: RolloutPath,
    record: RecoveryView,
    disk: Disk,
    steps: Seq<Taken>,
    later: Disk,
    later_selected: RolloutPath,
    later_steps: Seq<Taken>,
)
    requires
        journal.wf(),
        journal.parent is Some && journal.staged is Some,
        disk.record(journal.path@) == Some(record),
        is_unmarked(record),
        verification_possible(VerifySource::begun(thread_id, journal, selected), disk, steps),
        never_found(steps, record.publication_fingerprint->0),
        all_granted(steps),
        verification_run(
            VerifySource::begun(thread_id, journal, selected),
            disk,
            steps,
        ).0 is End,
        later.record(journal.path@) == verification_run(
            VerifySource::begun(thread_id, journal, selected),
            disk,
            steps,
        ).1.record(journal.path@),
        verification_possible(
            VerifySource::begun(thread_id, journal, later_selected),
            later,
            later_steps,
        ),
    ensures
        ({
            let begun = VerifySource::begun(thread_id, journal, later_selected);
            let (end, after) = verification_run(begun, later, later_steps);
            &&& after.record(journal.path@) == Some(record.split())
            &&& same_layout(after, later)
            &&& !(end matches Progress::End(Ok(_)))
            &&& all_granted(later_steps) && end is End ==> {
                &&& is_diverged(end->End_0->Err_0, thread_id, record)
                &&& problem_view(end->End_0->Err_0) is Conflict
            }
        }),
{
    changed_sources_are_marked_as_split(thread_id, journal, selected, record, disk, steps);
    split_generations_are_refused_for_good(
        thread_id,
        journal,
        later_selected,
        record.split(),
        later,
        later_steps,
    );
}

/// Whether every fingerprint that a reply gives is a certain one.
pub open spec fn always_found(steps: Seq<Taken>, fingerprint: PreservedSourceFingerprint) -> bool {
    forall|i: int|
        0 <= i < steps.len() ==> (#[trigger] steps[i].reply is Fingerprint ==> steps[i].reply
            == DiskReply::Fingerprint(fingerprint))
}

/// A source that has not changed is accepted: where its record carries no mark and the disk does
/// what it is asked for, the comparison succeeds within 3 replies and leaves the disk as it is.
pub proof fn unchanged_sources_are_accepted(
    thread_id: ThreadId,
    journal: JournalPaths,
    selected: RolloutPath,
    record: RecoveryView,
    disk: Disk,
    steps: Seq<Taken>,
)
    requires
        disk.record(journal.path@) == Some(record),
        is_unmarked(record),
        verification_possible(VerifySource::begun(thread_id, journal, selected), disk, steps),
        all_granted(steps),
        always_found(steps, record.publication_fingerprint->0),
    ensures
        ({
            let begun = VerifySource::begun(thread_id, journal, selected);
            let (end, after) = verification_run(begun, disk, steps);
            &&& same_layout(after, disk)
            &&& match end {
                Progress::Ask(..) => steps.len() < 3,
                Progress::End(result) => result is Ok,
            }
        }),
{
    reveal_with_fuel(verification_run, 4);
    reveal_with_fuel(verification_possible, 4);
    if steps.len() > 1 {
        assert(steps.skip(1)[0] == steps[1]);
    }
    if steps.len() > 2 {
        assert(steps.skip(1).skip(1)[0] == steps[2]);
    }
}

} // verus!
