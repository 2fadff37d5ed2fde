//! What holds of the disk at every point of a publication.

use crate::disk::follows;
use crate::disk::truthful;
use crate::disk::Disk;
use crate::disk::DiskAction;
use crate::disk::DiskReply;
use crate::disk::Progress;
use crate::paths::journal_staged_of;
use crate::publish::JournalStage;
use crate::publish::JournalWrite;
use crate::publish::PreserveSource;
use crate::publish::PreserveStage;
use crate::publish::PublishRollout;
use crate::publish::PublishStage;
use crate::recovery::MigrationRecoveryHandle;
use crate::recovery::RecoveryView;
use crate::publish::JournalPaths;
use crate::refusals::DiskProblem;
use crate::refusals::Refusal;
use vstd::prelude::*;

verus! {

/// The names that a publication works with.
pub struct Names {
    pub rollout: Seq<char>,
    pub published: Seq<char>,
    pub staged: Seq<char>,
    pub preserved: Seq<char>,
    pub journal: Seq<char>,
}

impl Names {
    /// Whether the names are different from each other, but that the rollout may be published
    /// under its own name.
    pub open spec fn distinct(self) -> bool {
        let pending = journal_staged_of(self.journal);
        &&& self.rollout != self.preserved
        &&& self.rollout != self.staged
        &&& self.preserved != self.staged
        &&& self.published != self.preserved
        &&& self.published != self.staged
        &&& self.journal != self.rollout && self.journal != self.published && self.journal
            != self.preserved && self.journal != self.staged
        &&& pending != self.rollout && pending != self.published && pending != self.preserved
            && pending != self.staged && pending != self.journal
    }
}

/// The names that a machine works with.
pub open spec fn names_of(p: PublishRollout) -> Names {
    Names {
        rollout: p.rollout_path@,
        published: p.published_rollout_path@,
        staged: p.staged_path@,
        preserved: p.preserved_source_path@,
        journal: p.journal.path@,
    }
}

/// Whether a legacy file is still visible as the rollout, or can be found again: it keeps its
/// second name, and the journal says where it is, what was published in its place, and what its
/// fingerprint was.
pub open spec fn recoverable(disk: Disk, names: Names, legacy: int) -> bool {
    ||| disk.names(names.rollout, legacy)
    ||| {
        &&& disk.names(names.preserved, legacy)
        &&& disk.record(names.journal) is Some
        &&& disk.record(names.journal)->0.rollout_path == names.rollout
        &&& disk.record(names.journal)->0.published() == names.published
        &&& disk.record(names.journal)->0.preserved_source_path == names.preserved
        &&& disk.record(names.journal)->0.publication_fingerprint is Some
    }
}

/// Whether a machine that preserves the source and asks for an action fits the disk.
pub open spec fn preserve_fits(
    sub: PreserveSource,
    action: DiskAction,
    disk: Disk,
    names: Names,
    legacy: int,
) -> bool {
    &&& sub.rollout_path@ == names.rollout
    &&& sub.preserved_source_path@ == names.preserved
    &&& match sub.stage {
        PreserveStage::Linking => action == (DiskAction::HardLink {
            from: sub.rollout_path,
            to: sub.preserved_source_path,
        }),
        PreserveStage::ComparingExisting => action == sub.compare(),
        PreserveStage::ComparingLinked => action == sub.compare() && disk.names(
            names.preserved,
            legacy,
        ),
        PreserveStage::Syncing => action == (DiskAction::SyncParent {
            path: sub.preserved_source_path,
        }) && disk.names(names.preserved, legacy),
    }
}

/// Whether a machine that writes a journal and asks for an action fits the disk.
pub open spec fn journal_fits(
    sub: JournalWrite,
    action: DiskAction,
    disk: Disk,
    path: Seq<char>,
    record: RecoveryView,
) -> bool {
    &&& sub.journal.wf()
    &&& sub.journal.path@ == path
    &&& sub.recovery@ == record
    &&& match sub.stage {
        JournalStage::Reading => action == (DiskAction::ReadJournal { path: sub.journal.path }),
        JournalStage::CheckingParent => action is Exists,
        JournalStage::CreatingParent { .. } => action is CreateDirectories,
        JournalStage::SyncingParent => action is SyncParent,
        JournalStage::WritingStaged => sub.journal.staged is Some && action == (
        DiskAction::WriteJournalFile { path: sub.journal.staged->0, recovery: sub.recovery }),
        JournalStage::Moving => {
            &&& sub.journal.staged is Some
            &&& action == (DiskAction::Rename { from: sub.journal.staged->0, to: sub.journal.path })
            &&& disk.record(sub.journal.staged->0@) == Some(record)
        },
        JournalStage::Syncing => action is SyncParent && disk.record(path) == Some(record),
    }
}

/// Whether a publication that has come some way fits the disk.
pub open spec fn publication_fits(
    progress: Progress<PublishRollout, MigrationRecoveryHandle>,
    disk: Disk,
    names: Names,
    record: RecoveryView,
    legacy: int,
) -> bool {
    match progress {
        Progress::Ask(p, action) => {
            let kept = disk.names(names.preserved, legacy);
            let visible = disk.names(names.rollout, legacy);
            let recorded = disk.record(names.journal) == Some(record);
            &&& p.wf()
            &&& p.recovery@ == record
            &&& names_of(p) == names
            &&& match p.stage {
                PublishStage::CheckingTarget => action is Exists && visible,
                PublishStage::Preserving(sub) => visible && preserve_fits(
                    sub,
                    action,
                    disk,
                    names,
                    legacy,
                ),
                PublishStage::Fingerprinting => action is Fingerprint && visible && kept,
                PublishStage::Journaling(sub) => visible && kept && journal_fits(
                    sub,
                    action,
                    disk,
                    names.journal,
                    record,
                ),
                PublishStage::Publishing => action == (DiskAction::Rename {
                    from: p.staged_path,
                    to: p.published_rollout_path,
                }) && visible && kept && recorded,
                PublishStage::Syncing => action is SyncParent && kept && recorded,
            }
        },
        Progress::End(Ok(recovery)) => {
            &&& recovery@ == record
            &&& disk.names(names.preserved, legacy)
            &&& disk.record(names.journal) == Some(record)
        },
        Progress::End(Err(_)) => recoverable(disk, names, legacy),
    }
}

/// Writing a journal never leaves a torn record in its place: at every point the journal holds
/// what it held before or the whole new record, and when the operation succeeds it holds the new
/// one. Names of files are not touched.
pub proof fn journals_are_replaced_whole(
    sub: JournalWrite,
    action: DiskAction,
    before: Disk,
    reply: DiskReply,
    after: Disk,
    path: Seq<char>,
    record: RecoveryView,
)
    requires
        journal_fits(sub, action, before, path, record),
        path != journal_staged_of(path),
        !before.files.dom().contains(path),
        !before.files.dom().contains(journal_staged_of(path)),
        truthful(before, action, reply),
        follows(before, action, reply, after),
    ensures
        after.files == before.files,
        after.record(path) == before.record(path) || after.record(path) == Some(record),
        match sub.next(reply) {
            Progress::Ask(next, asked) => journal_fits(next, asked, after, path, record),
            Progress::End(Ok(_)) => after.record(path) == Some(record),
            Progress::End(Err(_)) => true,
        },
{
}

/// Before a publication begins, the legacy file is visible.
pub proof fn publication_begins_with_the_source_visible(
    p: PublishRollout,
    disk: Disk,
    legacy: int,
)
    requires
        p.wf(),
        disk.names(p.rollout_path@, legacy),
    ensures
        publication_fits(p.begun(), disk, names_of(p), p.recovery@, legacy),
{
}

/// A publication never loses the legacy source, wherever it stops: after every step, and also
/// where the step failed or the program stopped in the middle of it, the source is still visible
/// as the rollout, or its second name and the journal are there to find it again.
#[verifier::rlimit(60)]
pub proof fn publication_never_loses_the_source(
    p: PublishRollout,
    action: DiskAction,
    before: Disk,
    reply: DiskReply,
    after: Disk,
    names: Names,
    record: RecoveryView,
    legacy: int,
)
    requires
        names.distinct(),
        !before.files.dom().contains(names.journal),
        !before.files.dom().contains(journal_staged_of(names.journal)),
        publication_fits(Progress::Ask(p, action), before, names, record, legacy),
        truthful(before, action, reply),
        follows(before, action, reply, after),
    ensures
        recoverable(after, names, legacy),
        publication_fits(p.next(reply), after, names, record, legacy),
        !after.files.dom().contains(names.journal),
        !after.files.dom().contains(journal_staged_of(names.journal)),
{
    match p.stage {
        PublishStage::Journaling(sub) => {
            journals_are_replaced_whole(sub, action, before, reply, after, names.journal, record);
        },
        PublishStage::Publishing => {
            assert(record.rollout_path == names.rollout);
            assert(record.published() == names.published);
        },
        PublishStage::Syncing => {
            assert(record.rollout_path == names.rollout);
            assert(record.published() == names.published);
        },
        _ => {},
    }
}

/// Preserving a source again changes nothing where its second name is already there, and a
/// different file under that name is refused and stays.
pub proof fn preserved_links_are_reused(
    sub: PreserveSource,
    disk: Disk,
    reply: DiskReply,
    after: Disk,
)
    requires
        sub.stage == PreserveStage::Linking,
        disk.has(sub.preserved_source_path@),
        truthful(
            disk,
            DiskAction::HardLink { from: sub.rollout_path, to: sub.preserved_source_path },
            reply,
        ),
        follows(
            disk,
            DiskAction::HardLink { from: sub.rollout_path, to: sub.preserved_source_path },
            reply,
            after,
        ),
    ensures
        after.files == disk.files && after.journals == disk.journals,
        reply is AlreadyExists ==> sub.next(reply) == Progress::<PreserveSource, ()>::Ask(
            sub.at(PreserveStage::ComparingExisting),
            sub.compare(),
        ),
        sub.at(PreserveStage::ComparingExisting).next(DiskReply::Answer(true)) == Progress::<
            PreserveSource,
            (),
        >::End(Ok(())),
        sub.at(PreserveStage::ComparingExisting).next(DiskReply::Answer(false)) == Progress::<
            PreserveSource,
            (),
        >::End(
            Err(
                DiskProblem::Refused {
                    refusal: Refusal::DifferentFilePreserved,
                    path: sub.preserved_source_path,
                },
            ),
        ),
{
}

/// A record that a journal already holds is not written again.
pub proof fn recorded_records_are_not_written_again(
    journal: JournalPaths,
    recovery: MigrationRecoveryHandle,
    existing: MigrationRecoveryHandle,
)
    requires
        existing@ == recovery@,
    ensures
        JournalWrite::begun(journal, recovery) matches Progress::Ask(sub, action) && action == (
        DiskAction::ReadJournal { path: journal.path }) && sub.next(
            DiskReply::Journal(Some(existing)),
        ) == Progress::<JournalWrite, ()>::End(Ok(())),
{
}

} // verus!
