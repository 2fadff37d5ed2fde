//! What the deletion of a thread leaves of its migration.

use crate::deletion::may_lack_source;
use crate::deletion::PrepareStage;
use crate::deletion::PrepareThreadDelete;
use crate::deletion::PreparedThreadDeleteMigrationArtifacts;
use crate::deletion::RemovalStage;
use crate::deletion::RemoveThreadArtifacts;
use crate::disk::follows;
use crate::disk::record_view;
use crate::disk::truthful;
use crate::disk::Disk;
use crate::disk::DiskAction;
use crate::disk::DiskReply;
use crate::disk::Progress;
use crate::error::ThreadId;
use crate::publish::JournalPaths;
use crate::publish::JournalStage;
use crate::publish_laws::journal_fits;
use crate::publish_laws::journals_are_replaced_whole;
use crate::recovery::RecoveryView;
use crate::retention::RemoveStage;
use crate::retention_laws::journal_removal_fits;
use vstd::prelude::*;

verus! {

/// Whether the paths of the journals of a thread are whole, and the retained journal and the file
/// in which it is written have names of their own, which are no names of rollouts.
pub open spec fn journals_lie_apart(
    pending: JournalPaths,
    retained: JournalPaths,
    disk: Disk,
) -> bool {
    &&& pending.wf() && pending.staged is Some
    &&& retained.wf() && retained.staged is Some && retained.parent is Some
    &&& retained.path@ != retained.staged->0@
    &&& !disk.files.dom().contains(retained.path@)
    &&& !disk.files.dom().contains(retained.staged->0@)
}

/// Whether the disk is as prepared artifacts say: no journal is pending or half written, and the
/// retained journal is there, or not, with the record that was read.
pub open spec fn prepared_of(p: PreparedThreadDeleteMigrationArtifacts, disk: Disk) -> bool {
    &&& !disk.has(p.pending.path@)
    &&& !disk.has(p.pending.staged->0@)
    &&& !disk.has(p.retained.staged->0@)
    &&& disk.has(p.retained.path@) == p.retained_journal_present
    &&& disk.record(p.retained.path@) == record_view(p.recovery)
}

/// Whether a preparation that has come some way fits the disk. Where it has ended well, the disk
/// is as the artifacts say, and a source that is not there is one whose record may outlive it.
pub open spec fn preparation_fits(
    progress: Progress<PrepareThreadDelete, PreparedThreadDeleteMigrationArtifacts>,
    disk: Disk,
    thread_id: ThreadId,
    pending: JournalPaths,
    retained: JournalPaths,
) -> bool {
    match progress {
        Progress::Ask(m, action) => {
            let first = !disk.has(pending.path@);
            let second = first && !disk.has(pending.staged->0@);
            let third = second && !disk.has(retained.staged->0@);
            let there = third && disk.has(retained.path@);
            &&& m.thread_id == thread_id && m.pending == pending && m.retained == retained
            &&& match m.stage {
                PrepareStage::CheckingPending => action == (DiskAction::Exists {
                    path: pending.path,
                }),
                PrepareStage::CheckingPendingStaged => first && action == (DiskAction::Exists {
                    path: pending.staged->0,
                }),
                PrepareStage::CheckingRetainedStaged => second && action == (DiskAction::Exists {
                    path: retained.staged->0,
                }),
                PrepareStage::CheckingRetained => third && action == (DiskAction::Exists {
                    path: retained.path,
                }),
                PrepareStage::Reading => there && action == (DiskAction::ReadJournal {
                    path: retained.path,
                }),
                PrepareStage::Validating(recovery) => there && action is Validate && disk.record(
                    retained.path@,
                ) == Some(recovery@),
                PrepareStage::CheckingSource(recovery) => there && action == (DiskAction::Exists {
                    path: recovery.preserved_source_path,
                }) && disk.record(retained.path@) == Some(recovery@),
            }
        },
        Progress::End(Ok(p)) => {
            &&& p.thread_id == thread_id && p.pending == pending && p.retained == retained
            &&& prepared_of(p, disk)
            &&& p.recovery matches Some(recovery) ==> may_lack_source(recovery) || disk.has(
                recovery.preserved_source_path@,
            )
        },
        Progress::End(Err(_)) => true,
    }
}

/// What a preparation reports is what the disk holds, and the preparation leaves the disk as it
/// was.
pub proof fn preparations_report_what_is_there(
    m: PrepareThreadDelete,
    action: DiskAction,
    before: Disk,
    reply: DiskReply,
    after: Disk,
)
    requires
        m.pending.staged is Some,
        m.retained.staged is Some,
        preparation_fits(
            Progress::Ask(m, action),
            before,
            m.thread_id,
            m.pending,
            m.retained,
        ),
        truthful(before, action, reply),
        follows(before, action, reply, after),
    ensures
        after.files == before.files,
        after.journals == before.journals,
        preparation_fits(m.next(reply), after, m.thread_id, m.pending, m.retained),
{
}

/// Whether nothing is left of prepared artifacts: neither the retained journal, nor a file in
/// which it is written, nor the preserved source.
pub open spec fn nothing_is_left(p: PreparedThreadDeleteMigrationArtifacts, disk: Disk) -> bool {
    &&& !disk.has(p.retained.path@)
    &&& !disk.has(p.retained.staged->0@)
    &&& source_is_gone(p, disk)
}

/// Whether the preserved source that prepared artifacts name is gone.
pub open spec fn source_is_gone(p: PreparedThreadDeleteMigrationArtifacts, disk: Disk) -> bool {
    p.recovery matches Some(recovery) ==> !disk.has(recovery.preserved_source_path@)
}

/// Whether a preserved source is the one that prepared artifacts name, and its name is that of no
/// journal.
pub open spec fn is_own_source(
    p: PreparedThreadDeleteMigrationArtifacts,
    recovery: RecoveryView,
    disk: Disk,
) -> bool {
    &&& record_view(p.recovery) == Some(recovery)
    &&& recovery.preserved_source_path != p.retained.path@
    &&& recovery.preserved_source_path != p.retained.staged->0@
    &&& !disk.journals.dom().contains(recovery.preserved_source_path)
}

/// Whether the artifacts were prepared for the disk as it is.
pub open spec fn removal_may_begin(
    p: PreparedThreadDeleteMigrationArtifacts,
    disk: Disk,
) -> bool {
    &&& journals_lie_apart(p.pending, p.retained, disk)
    &&& prepared_of(p, disk)
    &&& p.recovery matches Some(recovery) ==> is_own_source(p, recovery@, disk)
}

/// Whether a removal that has come some way fits the disk. It has not failed, and where it has
/// ended nothing is left.
pub open spec fn removal_is_on_its_way(
    progress: Progress<RemoveThreadArtifacts, bool>,
    p: PreparedThreadDeleteMigrationArtifacts,
    disk: Disk,
) -> bool {
    match progress {
        Progress::Ask(m, action) => {
            let retained = p.retained.path@;
            &&& m.prepared == p
            &&& journals_lie_apart(p.pending, p.retained, disk)
            &&& match m.stage {
                RemovalStage::CheckingPending => removal_may_begin(p, disk) && action == (
                DiskAction::Exists { path: p.pending.path }),
                RemovalStage::CheckingPendingStaged => removal_may_begin(p, disk) && action == (
                DiskAction::Exists { path: p.pending.staged->0 }),
                RemovalStage::CheckingRetainedStaged => removal_may_begin(p, disk) && action == (
                DiskAction::Exists { path: p.retained.staged->0 }),
                RemovalStage::CheckingRetained => removal_may_begin(p, disk) && action == (
                DiskAction::Exists { path: p.retained.path }),
                RemovalStage::Reading => removal_may_begin(p, disk) && p.retained_journal_present
                    && action == (DiskAction::ReadJournal { path: p.retained.path }),
                RemovalStage::Marking(recovery, sub) => {
                    &&& p.retained_journal_present
                    &&& is_own_source(p, recovery@, disk)
                    &&& !may_lack_source(recovery)
                    &&& sub.journal == p.retained
                    &&& journal_fits(sub, action, disk, retained, recovery@.retiring())
                    &&& sub.stage is Reading ==> disk.record(retained) == Some(recovery@)
                },
                RemovalStage::CheckingSource(recovery) => {
                    &&& p.retained_journal_present
                    &&& is_own_source(p, recovery@, disk)
                    &&& action == (DiskAction::Exists { path: recovery.preserved_source_path })
                },
                RemovalStage::AskingOwner(recovery) => {
                    &&& p.retained_journal_present
                    &&& is_own_source(p, recovery@, disk)
                    &&& action == (DiskAction::SourceThread { recovery })
                },
                RemovalStage::RemovingSource(recovery) => {
                    &&& p.retained_journal_present
                    &&& is_own_source(p, recovery@, disk)
                    &&& action == (DiskAction::RemoveFile {
                        path: recovery.preserved_source_path,
                    })
                },
                RemovalStage::SyncingSource => p.retained_journal_present && source_is_gone(p, disk)
                    && action is SyncParent,
                RemovalStage::RemovingJournal(sub) => {
                    &&& p.retained_journal_present
                    &&& source_is_gone(p, disk)
                    &&& sub.journal == p.retained
                    &&& journal_removal_fits(sub, action, retained)
                    &&& !(sub.stage is RemovingJournal) ==> !disk.has(retained)
                    &&& sub.stage is Syncing ==> !disk.has(p.retained.staged->0@)
                },
            }
        },
        Progress::End(Ok(removed)) => removed == p.retained_journal_present && nothing_is_left(
            p,
            disk,
        ),
        Progress::End(Err(_)) => false,
    }
}

/// How many replies a removal takes at most from where it stands.
pub open spec fn replies_to_come(progress: Progress<RemoveThreadArtifacts, bool>) -> nat {
    match progress {
        Progress::End(_) => 0,
        Progress::Ask(m, _) => match m.stage {
            RemovalStage::CheckingPending => 22,
            RemovalStage::CheckingPendingStaged => 21,
            RemovalStage::CheckingRetainedStaged => 20,
            RemovalStage::CheckingRetained => 19,
            RemovalStage::Reading => 18,
            RemovalStage::Marking(_, sub) => match sub.stage {
                JournalStage::Reading => 17,
                JournalStage::CheckingParent => 16,
                JournalStage::CreatingParent { .. } => 15,
                JournalStage::SyncingParent => 14,
                JournalStage::WritingStaged => 13,
                JournalStage::Moving => 12,
                JournalStage::Syncing => 11,
            },
            RemovalStage::CheckingSource(_) => 10,
            RemovalStage::AskingOwner(_) => 9,
            RemovalStage::RemovingSource(_) => 8,
            RemovalStage::SyncingSource => 7,
            RemovalStage::RemovingJournal(sub) => match sub.stage {
                RemoveStage::RemovingJournal(it) => if it.removing {
                    4
                } else {
                    5
                },
                RemoveStage::RemovingStaged(it) => if it.removing {
                    2
                } else {
                    3
                },
                RemoveStage::Syncing => 1,
            },
        },
    }
}

/// Whether a reply carries out what was asked: it is no failure, and a source that is asked about
/// belongs to the thread.
pub open spec fn granted(reply: DiskReply, thread_id: ThreadId) -> bool {
    match reply {
        DiskReply::Failed(_) => false,
        DiskReply::Rejected(_) => false,
        DiskReply::Thread(owner) => owner == thread_id,
        _ => true,
    }
}

/// A removal whose actions are carried out goes on, in fewer and fewer steps, until nothing is
/// left.
proof fn lemma_removal_goes_on(
    m: RemoveThreadArtifacts,
    action: DiskAction,
    before: Disk,
    reply: DiskReply,
    after: Disk,
)
    requires
        removal_is_on_its_way(Progress::Ask(m, action), m.prepared, before),
        truthful(before, action, reply),
        granted(reply, m.prepared.thread_id),
        follows(before, action, reply, after),
    ensures
        removal_is_on_its_way(m.next(reply), m.prepared, after),
        replies_to_come(m.next(reply)) < replies_to_come(Progress::Ask(m, action)),
{
    let p = m.prepared;
    let retained = p.retained.path@;
    let staged = p.retained.staged->0@;
    assert(before.files.remove(retained) =~= before.files);
    assert(before.files.remove(staged) =~= before.files);
    match m.stage {
        RemovalStage::Marking(recovery, sub) => {
            journals_are_replaced_whole(
                sub,
                action,
                before,
                reply,
                after,
                retained,
                recovery@.retiring(),
            );
        },
        RemovalStage::Reading => {
            if let DiskReply::Journal(Some(recovery)) = reply {
                assert((crate::recovery::MigrationRecoveryHandle {
                    retirement_started: true,
                    ..recovery
                })@ == recovery@.retiring());
            }
        },
        _ => {},
    }
}

/// Where a removal stands after some replies.
pub open spec fn removal_after(
    progress: Progress<RemoveThreadArtifacts, bool>,
    replies: Seq<DiskReply>,
) -> Progress<RemoveThreadArtifacts, bool>
    decreases replies.len(),
{
    match progress {
        Progress::Ask(m, _) if replies.len() > 0 => removal_after(
            m.next(replies.first()),
            replies.drop_first(),
        ),
        _ => progress,
    }
}

/// Whether every action that a removal asks for is carried out on the disk: `disks` are the disks
/// before the first action and behind each of them.
pub open spec fn carried_out(
    progress: Progress<RemoveThreadArtifacts, bool>,
    thread_id: ThreadId,
    disks: Seq<Disk>,
    replies: Seq<DiskReply>,
) -> bool
    decreases replies.len(),
{
    &&& disks.len() == replies.len() + 1
    &&& replies.len() > 0 ==> match progress {
        Progress::Ask(m, action) => {
            &&& truthful(disks[0], action, replies.first())
            &&& granted(replies.first(), thread_id)
            &&& follows(disks[0], action, replies.first(), disks[1])
            &&& carried_out(
                m.next(replies.first()),
                thread_id,
                disks.drop_first(),
                replies.drop_first(),
            )
        },
        Progress::End(_) => false,
    }
}

proof fn lemma_removal_ends(
    progress: Progress<RemoveThreadArtifacts, bool>,
    p: PreparedThreadDeleteMigrationArtifacts,
    disks: Seq<Disk>,
    replies: Seq<DiskReply>,
)
    requires
        carried_out(progress, p.thread_id, disks, replies),
        removal_is_on_its_way(progress, p, disks[0]),
    ensures
        removal_is_on_its_way(removal_after(progress, replies), p, disks.last()),
        replies.len() + replies_to_come(removal_after(progress, replies)) <= replies_to_come(
            progress,
        ),
    decreases replies.len(),
{
    if replies.len() > 0 {
        if let Progress::Ask(m, action) = progress {
            lemma_removal_goes_on(m, action, disks[0], replies.first(), disks[1]);
            lemma_removal_ends(
                m.next(replies.first()),
                p,
                disks.drop_first(),
                replies.drop_first(),
            );
            assert(disks.drop_first().last() == disks.last());
        }
    }
}

/// The deletion of a thread removes what was prepared: where nothing has changed since, the source
/// belongs to the thread and the disk carries out what it is asked for, the removal never fails.
/// It takes at most 22 replies, and when it has ended neither the retained journal nor the
/// preserved source is left. It does not matter whether the record carries the mark of a
/// retirement or that of a split, nor whether a late writer has changed the source.
pub proof fn deletions_remove_the_source_and_its_record(
    prepared: PreparedThreadDeleteMigrationArtifacts,
    disks: Seq<Disk>,
    replies: Seq<DiskReply>,
)
    requires
        disks.len() > 0,
        removal_may_begin(prepared, disks[0]),
        carried_out(
            (RemoveThreadArtifacts { prepared, stage: RemovalStage::CheckingPending }).begun(),
            prepared.thread_id,
            disks,
            replies,
        ),
    ensures
        match removal_after(
            (RemoveThreadArtifacts { prepared, stage: RemovalStage::CheckingPending }).begun(),
            replies,
        ) {
            Progress::Ask(..) => replies.len() < 22,
            Progress::End(result) => {
                &&& result == Ok::<bool, crate::refusals::DiskProblem>(
                    prepared.retained_journal_present,
                )
                &&& nothing_is_left(prepared, disks.last())
            },
        },
{
    lemma_removal_ends(
        (RemoveThreadArtifacts { prepared, stage: RemovalStage::CheckingPending }).begun(),
        prepared,
        disks,
        replies,
    );
}

} // verus!
