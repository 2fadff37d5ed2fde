//! What holds of the disk while a record is retained, a source is released or a thread is deleted.

use crate::deletion::PrepareThreadDelete;
use crate::deletion::RemoveThreadArtifacts;
use crate::disk::follows;
use crate::disk::truthful;
use crate::disk::Disk;
use crate::disk::DiskAction;
use crate::disk::DiskReply;
use crate::disk::Progress;
use crate::generation::EnsureWritable;
use crate::generation::NeedsReconciliation;
use crate::generation::VerifySource;
use crate::generation::VerifyStage;
use crate::paths::journal_staged_of;
use crate::paths::RolloutPath;
use crate::publish_laws::journal_fits;
use crate::publish_laws::journals_are_replaced_whole;
use crate::recovery::RecoveryView;
use crate::refusals::DiskProblem;
use crate::retention::AliasStage;
use crate::retention::RemoveAlias;
use crate::retention::RemoveIfPresent;
use crate::retention::RemoveJournal;
use crate::retention::RemoveStage;
use crate::retention::RetainRecovery;
use crate::retention::RetainStage;
use crate::retirement::RetireSource;
use crate::retirement::RetireStage;
use vstd::prelude::*;

verus! {

/// Whether an action leaves the disk as it is.
pub open spec fn read_only(action: DiskAction) -> bool {
    match action {
        DiskAction::Exists { .. } => true,
        DiskAction::SameFile { .. } => true,
        DiskAction::Fingerprint { .. } => true,
        DiskAction::ReadJournal { .. } => true,
        DiskAction::Validate { .. } => true,
        DiskAction::SourceThread { .. } => true,
        _ => false,
    }
}

/// Whether the names of two journals, and of the files in which they are written, are no names of
/// files and different from each other.
pub open spec fn apart(disk: Disk, a: Seq<char>, b: Seq<char>) -> bool {
    let files = disk.files.dom();
    &&& a != b
    &&& a != journal_staged_of(a)
    &&& b != journal_staged_of(a)
    &&& !files.contains(a)
    &&& !files.contains(b)
    &&& !files.contains(journal_staged_of(a))
}

/// Whether the removal of a file fits the path that it removes.
pub open spec fn removal_fits(sub: RemoveIfPresent, action: DiskAction, path: Seq<char>) -> bool {
    &&& sub.path@ == path
    &&& action == if sub.removing {
        DiskAction::RemoveFile { path: sub.path }
    } else {
        DiskAction::Exists { path: sub.path }
    }
}

/// Whether the removal of a journal fits the journal that it removes.
pub open spec fn journal_removal_fits(
    sub: RemoveJournal,
    action: DiskAction,
    path: Seq<char>,
) -> bool {
    &&& sub.journal.wf()
    &&& sub.journal.path@ == path
    &&& match sub.stage {
        RemoveStage::RemovingJournal(it) => removal_fits(it, action, path),
        RemoveStage::RemovingStaged(it) => removal_fits(it, action, journal_staged_of(path)),
        RemoveStage::Syncing => action is SyncParent,
    }
}

/// Whether the retention of a record that has come some way fits the disk.
pub open spec fn retention_fits(
    progress: Progress<RetainRecovery, Option<RolloutPath>>,
    disk: Disk,
    pending: Seq<char>,
    retained: Seq<char>,
    record: RecoveryView,
) -> bool {
    match progress {
        Progress::Ask(m, action) => {
            let before = disk.record(pending) == Some(record);
            let after = disk.record(retained) == Some(record);
            &&& m.wf()
            &&& m.pending.path@ == pending
            &&& m.retained is Some && m.retained->0@ == retained
            &&& match m.stage {
                RetainStage::ReadingPending => before && action == (DiskAction::ReadJournal {
                    path: m.pending.path,
                }),
                RetainStage::RemovingEmpty(_) => false,
                RetainStage::CheckingRetained { recovery } => before && recovery@ == record
                    && action == (DiskAction::Exists { path: m.retained->0 }),
                RetainStage::ReadingRetained { recovery } => before && recovery@ == record
                    && action == (DiskAction::ReadJournal { path: m.retained->0 }),
                RetainStage::RemovingPending(sub) => {
                    &&& after
                    &&& journal_removal_fits(sub, action, pending)
                    &&& !(sub.stage is RemovingJournal) ==> !disk.has(pending)
                },
                RetainStage::Moving => before && action == (DiskAction::Rename {
                    from: m.pending.path,
                    to: m.retained->0,
                }),
                RetainStage::RemovingStaged(sub) => after && !disk.has(pending) && removal_fits(
                    sub,
                    action,
                    journal_staged_of(pending),
                ),
                RetainStage::Syncing => after && !disk.has(pending) && action is SyncParent,
            }
        },
        Progress::End(Ok(path)) => {
            &&& path is Some && path->0@ == retained
            &&& disk.record(retained) == Some(record)
            &&& !disk.has(pending)
        },
        Progress::End(Err(_)) => disk.record(pending) == Some(record) || disk.record(retained)
            == Some(record),
    }
}

/// Moving a record from the pending journal to the retained one never loses it: at every point
/// one of the two holds the whole record, and when the operation succeeds the retained one does and
/// the pending one is gone. No name of a file is touched.
pub proof fn retaining_never_loses_the_record(
    m: RetainRecovery,
    action: DiskAction,
    before: Disk,
    reply: DiskReply,
    after: Disk,
    pending: Seq<char>,
    retained: Seq<char>,
    record: RecoveryView,
)
    requires
        apart(before, pending, retained),
        retention_fits(Progress::Ask(m, action), before, pending, retained, record),
        truthful(before, action, reply),
        follows(before, action, reply, after),
    ensures
        after.files == before.files,
        after.record(pending) == Some(record) || after.record(retained) == Some(record),
        retention_fits(m.next(reply), after, pending, retained, record),
{
    assert(before.files.remove(pending) =~= before.files);
    assert(before.files.remove(journal_staged_of(pending)) =~= before.files);
}

/// Whether the release of a source that has come some way fits the disk.
pub open spec fn retirement_fits(
    progress: Progress<RetireSource, Option<RolloutPath>>,
    disk: Disk,
    journal: Seq<char>,
    record: RecoveryView,
) -> bool {
    match progress {
        Progress::Ask(m, action) => {
            let source = record.preserved_source_path;
            let marked = disk.record(journal) == Some(record.retiring());
            &&& m.journal.wf()
            &&& m.journal.path@ == journal
            &&& match m.stage {
                RetireStage::Reading => action == (DiskAction::ReadJournal {
                    path: m.journal.path,
                }) && disk.record(journal) == Some(record),
                RetireStage::CheckingSource(it) => it.recovery@ == record && action == (
                DiskAction::Exists { path: it.source() }),
                RetireStage::Comparing(it) => it.recovery@ == record && action is SameFile,
                RetireStage::Fingerprinting(it) => it.recovery@ == record && action == (
                DiskAction::Fingerprint { path: it.source() }),
                RetireStage::Marking(it, sub) => it.recovery@ == record && journal_fits(
                    sub,
                    action,
                    disk,
                    journal,
                    record.retiring(),
                ),
                RetireStage::Refingerprinting(it) => it.recovery@ == record && marked && action == (
                DiskAction::Fingerprint { path: it.source() }),
                RetireStage::Removing(it) => it.recovery@ == record && marked && action == (
                DiskAction::RemoveFile { path: it.source() }),
                RetireStage::Syncing(it) => it.recovery@ == record && action is SyncParent
                    && !disk.files.dom().contains(source),
                RetireStage::RemovingJournal(it, sub) => it.recovery@ == record
                    && journal_removal_fits(sub, action, journal) && !disk.files.dom().contains(
                    source,
                ),
            }
            &&& match m.stage {
                RetireStage::Reading => true,
                RetireStage::CheckingSource(it) => fits_record(it.expected, record),
                RetireStage::Comparing(it) => fits_record(it.expected, record),
                RetireStage::Fingerprinting(it) => fits_record(it.expected, record),
                RetireStage::Marking(it, _) => fits_record(it.expected, record),
                RetireStage::Refingerprinting(it) => fits_record(it.expected, record),
                RetireStage::Removing(it) => fits_record(it.expected, record),
                _ => true,
            }
        },
        Progress::End(Ok(path)) => path is Some && !disk.files.dom().contains(
            record.preserved_source_path,
        ),
        Progress::End(Err(_)) => true,
    }
}

/// Whether a source may be released as far as its record goes: the generations have not diverged,
/// and the expected fingerprint is the one taken at publication.
pub open spec fn fits_record(
    expected: crate::recovery::PreservedSourceFingerprint,
    record: RecoveryView,
) -> bool {
    record.publication_fingerprint == Some(expected) && !record.split_generation_detected
}

/// Whether some progress asks for the removal of a path.
pub open spec fn asks_removal(
    progress: Progress<RetireSource, Option<RolloutPath>>,
    path: Seq<char>,
) -> bool {
    progress matches Progress::Ask(_, DiskAction::RemoveFile { path: removed }) && removed@ == path
}

/// A preserved source is released only while it is unchanged: its removal is asked for only where
/// the disk has just reported the fingerprint that it had at publication, its generations have not
/// diverged, and the record on disk already says that retirement has started. Until then its name
/// stays, whatever fails or stops, and so it does where retirement is refused.
#[verifier::rlimit(40)]
pub proof fn only_unchanged_sources_are_released(
    m: RetireSource,
    action: DiskAction,
    before: Disk,
    reply: DiskReply,
    after: Disk,
    journal: Seq<char>,
    record: RecoveryView,
)
    requires
        journal != record.preserved_source_path,
        journal_staged_of(journal) != record.preserved_source_path,
        journal != journal_staged_of(journal),
        !before.files.dom().contains(journal),
        !before.files.dom().contains(journal_staged_of(journal)),
        !before.journals.dom().contains(record.preserved_source_path),
        retirement_fits(Progress::Ask(m, action), before, journal, record),
        truthful(before, action, reply),
        follows(before, action, reply, after),
    ensures
        retirement_fits(m.next(reply), after, journal, record),
        !(m.stage is Removing) ==> after.files == before.files,
        asks_removal(m.next(reply), record.preserved_source_path) ==> {
            &&& before.files.dom().contains(record.preserved_source_path)
            &&& Some(before.prints[before.files[record.preserved_source_path]])
                == record.publication_fingerprint
            &&& !record.split_generation_detected
            &&& after.record(journal) == Some(record.retiring())
        },
{
    assert(before.files.remove(journal) =~= before.files);
    assert(before.files.remove(journal_staged_of(journal)) =~= before.files);
    match m.stage {
        RetireStage::Marking(it, sub) => {
            journals_are_replaced_whole(
                sub,
                action,
                before,
                reply,
                after,
                journal,
                record.retiring(),
            );
        },
        RetireStage::Fingerprinting(it) => {
            assert((crate::recovery::MigrationRecoveryHandle {
                retirement_started: true,
                ..it.recovery
            })@ == record.retiring());
        },
        _ => {},
    }
}

/// Whether a test has found a divergence and marks it.
pub open spec fn is_marking(progress: Progress<VerifySource, ()>) -> bool {
    progress matches Progress::Ask(next, _) && next.stage is Marking
}

/// Whether a test has found a pending publication.
pub open spec fn is_verifying_pending(progress: Progress<EnsureWritable, ()>) -> bool {
    progress matches Progress::Ask(next, _) && next.stage is VerifyingPending
}

/// A source that has changed since publication is never accepted: from the moment at which another
/// fingerprint is found, the test cannot succeed any more.
pub proof fn changed_sources_are_never_accepted(m: VerifySource, reply: DiskReply)
    ensures
        m.stage is Marking ==> m.next(reply) != Progress::<VerifySource, ()>::End(Ok(())),
        m.stage matches VerifyStage::Fingerprinting(recovery, expected) ==> {
            &&& m.next(reply) == Progress::<VerifySource, ()>::End(Ok(())) ==> reply
                == DiskReply::Fingerprint(expected)
            &&& (reply is Fingerprint && reply->Fingerprint_0 != expected) ==> is_marking(
                m.next(reply),
            )
        },
        (m.stage is Validating && (m.stage->Validating_0.split_generation_detected
            || m.stage->Validating_0.retirement_started)) ==> m.next(reply) matches Progress::End(
            Err(_),
        ),
{
}

/// While a divergence is being marked, the journal holds the old record or the marked one; once
/// the mark is there the writer is told so.
pub proof fn divergence_is_marked_durably(
    m: VerifySource,
    action: DiskAction,
    before: Disk,
    reply: DiskReply,
    after: Disk,
    journal: Seq<char>,
    record: RecoveryView,
)
    requires
        m.stage matches VerifyStage::Marking(recovery, sub) && recovery@ == record && journal_fits(
            sub,
            action,
            before,
            journal,
            record.split(),
        ),
        journal != journal_staged_of(journal),
        !before.files.dom().contains(journal),
        !before.files.dom().contains(journal_staged_of(journal)),
        truthful(before, action, reply),
        follows(before, action, reply, after),
    ensures
        after.files == before.files,
        after.record(journal) == before.record(journal) || after.record(journal) == Some(
            record.split(),
        ),
        m.next(reply) matches Progress::End(Err(DiskProblem::Recovery { .. })) ==> after.record(
            journal,
        ) == Some(record.split()),
{
    if let VerifyStage::Marking(recovery, sub) = m.stage {
        journals_are_replaced_whole(sub, action, before, reply, after, journal, record.split());
    }
}

/// A thread whose publication is still pending is never writable.
pub proof fn pending_publications_are_never_writable(m: EnsureWritable, reply: DiskReply)
    ensures
        m.stage is VerifyingPending ==> m.next(reply) != Progress::<EnsureWritable, ()>::End(Ok(())),
        m.stage is CheckingPending && reply == DiskReply::Answer(true) ==> is_verifying_pending(
            m.next(reply),
        ),
{
}

/// Preparing a deletion, and asking whether a generation has to be reconciled, change nothing.
pub proof fn questions_change_nothing(
    prepare: PrepareThreadDelete,
    probe: NeedsReconciliation,
    reply: DiskReply,
)
    ensures
        prepare.begun() matches Progress::Ask(_, action) && read_only(action),
        prepare.next(reply) matches Progress::Ask(_, action) ==> read_only(action),
        probe.begun() matches Progress::Ask(_, action) && read_only(action),
        probe.next(reply) matches Progress::Ask(_, action) ==> read_only(action),
{
}

/// Whether some progress of a deletion asks for the removal of a path.
pub open spec fn asks_source_removal(progress: Progress<RemoveThreadArtifacts, bool>) -> bool {
    progress matches Progress::Ask(next, DiskAction::RemoveFile { .. }) && next.stage
        is RemovingSource
}

/// The deletion of a thread removes a preserved source only where the source was found to belong
/// to that thread.
pub proof fn deletion_removes_only_its_own_source(m: RemoveThreadArtifacts, reply: DiskReply)
    ensures
        asks_source_removal(m.next(reply)) ==> m.stage is AskingOwner && reply == DiskReply::Thread(
            m.prepared.thread_id,
        ),
{
}

/// A second name is removed only where the visible rollout was found to name the same file.
pub proof fn aliases_are_removed_only_while_the_source_is_visible(
    m: RemoveAlias,
    action: DiskAction,
    before: Disk,
    reply: DiskReply,
    after: Disk,
    legacy: int,
)
    requires
        m.rollout_path@ != m.preserved_source_path@,
        before.names(m.rollout_path@, legacy),
        action == match m.stage {
            AliasStage::Checking => DiskAction::Exists { path: m.preserved_source_path },
            AliasStage::Comparing => DiskAction::SameFile {
                left: m.rollout_path,
                right: m.preserved_source_path,
            },
            AliasStage::Removing => DiskAction::RemoveFile { path: m.preserved_source_path },
            AliasStage::Syncing => DiskAction::SyncParent { path: m.preserved_source_path },
        },
        truthful(before, action, reply),
        follows(before, action, reply, after),
    ensures
        after.names(m.rollout_path@, legacy),
        m.next(reply) matches Progress::Ask(_, DiskAction::RemoveFile { .. }) ==> before.names(
            m.preserved_source_path@,
            legacy,
        ),
{
}

} // verus!
