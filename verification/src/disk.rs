//! What the store asks of the disk, one action at a time, and what an action does to it.
//!
//! An operation of several steps is a machine: it names the action that it asks for, and goes on
//! from the reply. The program around the library performs the action and hands the reply back.

use crate::error::migration_error;
use crate::error::migration_failure;
use crate::error::ThreadId;
use crate::error::ThreadStoreError;
use crate::error::ThreadStoreResult;
use crate::paths::parent_of;
use crate::paths::RolloutPath;
use crate::recovery::MigrationRecoveryHandle;
use crate::recovery::PreservedSourceFingerprint;
use crate::recovery::RecoveryView;
use crate::refusals::DiskProblem;
use vstd::prelude::*;

verus! {

/// Something that is asked of the disk.
#[allow(inconsistent_fields)]
#[derive(Debug, PartialEq, Eq)]
pub enum DiskAction {
    /// Does anything exist under this path?
    Exists { path: RolloutPath },
    /// Give a file a second name, unless the name is taken.
    HardLink { from: RolloutPath, to: RolloutPath },
    /// Do two paths name the same file?
    SameFile { left: RolloutPath, right: RolloutPath },
    /// What is the fingerprint of a file?
    Fingerprint { path: RolloutPath },
    /// What record does a journal hold? Nothing where there is no journal or an empty one.
    ReadJournal { path: RolloutPath },
    /// Create a directory and its parents.
    CreateDirectories { path: RolloutPath },
    /// Write a record into a file, replacing what the file held, and make that durable.
    WriteJournalFile { path: RolloutPath, recovery: MigrationRecoveryHandle },
    /// Give a file another name, replacing what had that name.
    Rename { from: RolloutPath, to: RolloutPath },
    /// Remove a name.
    RemoveFile { path: RolloutPath },
    /// Make the directory that holds a path durable.
    SyncParent { path: RolloutPath },
    /// Can a recovery record be followed?
    Validate {
        thread_id: ThreadId,
        journal_path: RolloutPath,
        recovery: MigrationRecoveryHandle,
        selected: Option<RolloutPath>,
        require_publication_fingerprint: bool,
    },
    /// Which thread does the preserved source of a record belong to?
    SourceThread { recovery: MigrationRecoveryHandle },
}

/// What the disk replies.
#[derive(Debug, PartialEq, Eq)]
pub enum DiskReply {
    Done,
    Answer(bool),
    AlreadyExists,
    Fingerprint(PreservedSourceFingerprint),
    Journal(Option<MigrationRecoveryHandle>),
    Thread(ThreadId),
    Rejected(ThreadStoreError),
    Failed(String),
}

/// Where an operation stands: it asks for an action, or it has ended.
#[derive(Debug)]
pub enum Progress<M, T> {
    Ask(M, DiskAction),
    End(Result<T, DiskProblem>),
}

/// The problem that a reply stands for, where it does not carry the operation on.
pub open spec fn reply_problem(reply: DiskReply) -> DiskProblem {
    match reply {
        DiskReply::Failed(message) => DiskProblem::Io(message),
        DiskReply::Rejected(error) => DiskProblem::Rejected(error),
        _ => DiskProblem::UnexpectedReply,
    }
}

/// The problem that a reply stands for, where it does not carry the operation on.
pub fn problem_of(reply: DiskReply) -> (r: DiskProblem)
    ensures
        r == reply_problem(reply),
{
    match reply {
        DiskReply::Failed(message) => DiskProblem::Io(message),
        DiskReply::Rejected(error) => DiskProblem::Rejected(error),
        _ => DiskProblem::UnexpectedReply,
    }
}

/// The directory to make durable when the name of a path has changed.
pub fn sync_parent_directory(path: &RolloutPath) -> (r: ThreadStoreResult<RolloutPath>)
    ensures
        r is Ok == parent_of(path@) is Some,
        r is Ok ==> r->Ok_0@ == parent_of(path@)->0,
        r is Err ==> r->Err_0@ == migration_failure("rollout path has no parent directory"@),
{
    match path.parent() {
        Some(parent) => Ok(parent),
        None => Err(migration_error("rollout path has no parent directory")),
    }
}

/// The part of a disk that the migration of one thread sees: which file each name stands for,
/// which record each journal holds, and the fingerprint of each file. A torn or empty journal
/// holds no record.
#[verifier::ext_equal]
pub struct Disk {
    pub files: Map<Seq<char>, int>,
    pub journals: Map<Seq<char>, Option<RecoveryView>>,
    pub prints: Map<int, PreservedSourceFingerprint>,
}

impl Disk {
    /// Whether anything exists under a path.
    pub open spec fn has(self, path: Seq<char>) -> bool {
        self.files.dom().contains(path) || self.journals.dom().contains(path)
    }

    /// Whether a path names a certain file.
    pub open spec fn names(self, path: Seq<char>, file: int) -> bool {
        self.files.dom().contains(path) && self.files[path] == file
    }

    /// The record that a journal holds.
    pub open spec fn record(self, path: Seq<char>) -> Option<RecoveryView> {
        if self.journals.dom().contains(path) {
            self.journals[path]
        } else {
            None
        }
    }
}

/// A map in which a name has moved.
pub open spec fn moved<V>(map: Map<Seq<char>, V>, from: Seq<char>, to: Seq<char>) -> Map<
    Seq<char>,
    V,
> {
    if map.dom().contains(from) {
        map.remove(from).insert(to, map[from])
    } else {
        map
    }
}

/// Whether two disks have the same names, files and journals.
pub open spec fn same_layout(a: Disk, b: Disk) -> bool {
    a.files == b.files && a.journals == b.journals
}

/// The disk behind an action that took effect.
pub open spec fn performed(disk: Disk, action: DiskAction) -> Disk {
    match action {
        DiskAction::HardLink { from, to } => Disk {
            files: disk.files.insert(to@, disk.files[from@]),
            ..disk
        },
        DiskAction::WriteJournalFile { path, recovery } => Disk {
            journals: disk.journals.insert(path@, Some(recovery@)),
            ..disk
        },
        DiskAction::Rename { from, to } => Disk {
            files: moved(disk.files, from@, to@),
            journals: moved(disk.journals, from@, to@),
            ..disk
        },
        DiskAction::RemoveFile { path } => Disk {
            files: disk.files.remove(path@),
            journals: disk.journals.remove(path@),
            ..disk
        },
        _ => disk,
    }
}

/// Whether an action can change names, files or journals.
pub open spec fn changes_layout(action: DiskAction) -> bool {
    match action {
        DiskAction::HardLink { .. } => true,
        DiskAction::WriteJournalFile { .. } => true,
        DiskAction::Rename { .. } => true,
        DiskAction::RemoveFile { .. } => true,
        _ => false,
    }
}

/// Whether a reply tells the truth about the disk before the action.
pub open spec fn truthful(disk: Disk, action: DiskAction, reply: DiskReply) -> bool {
    match reply {
        DiskReply::Failed(_) => true,
        DiskReply::Rejected(_) => !changes_layout(action),
        DiskReply::Thread(_) => action is SourceThread,
        DiskReply::Done => match action {
            DiskAction::HardLink { from, to } => disk.files.dom().contains(from@) && !disk.has(to@),
            DiskAction::Rename { from, .. } => disk.has(from@),
            DiskAction::CreateDirectories { .. } => true,
            DiskAction::WriteJournalFile { .. } => true,
            DiskAction::RemoveFile { .. } => true,
            DiskAction::SyncParent { .. } => true,
            DiskAction::Validate { .. } => true,
            _ => false,
        },
        DiskReply::AlreadyExists => action matches DiskAction::HardLink { to, .. } && disk.has(to@),
        DiskReply::Answer(yes) => match action {
            DiskAction::Exists { path } => yes == disk.has(path@),
            DiskAction::SameFile { left, right } => {
                &&& disk.files.dom().contains(left@)
                &&& disk.files.dom().contains(right@)
                &&& yes == (disk.files[left@] == disk.files[right@])
            },
            _ => false,
        },
        DiskReply::Fingerprint(fingerprint) => {
            action matches DiskAction::Fingerprint { path } && disk.files.dom().contains(path@)
                && disk.prints.dom().contains(disk.files[path@])
                && disk.prints[disk.files[path@]] == fingerprint
        },
        DiskReply::Journal(record) => action matches DiskAction::ReadJournal { path }
            && disk.record(path@) == record_view(record),
    }
}

/// The view of an optional record.
pub open spec fn record_view(record: Option<MigrationRecoveryHandle>) -> Option<RecoveryView> {
    match record {
        Some(recovery) => Some(recovery@),
        None => None,
    }
}

/// Whether a disk may look like `after` once an action was tried on `before` and a reply came
/// back, or the program stopped before it came back. A failed action may have taken effect all
/// the same, and a record whose writing failed may be torn. What the files hold may have changed
/// at any time, because writers that know of no lock append to them.
pub open spec fn follows(before: Disk, action: DiskAction, reply: DiskReply, after: Disk) -> bool {
    match reply {
        DiskReply::Done => same_layout(after, performed(before, action)),
        DiskReply::Failed(_) => {
            ||| same_layout(after, before)
            ||| truthful(before, action, DiskReply::Done) && same_layout(
                after,
                performed(before, action),
            )
            ||| action matches DiskAction::WriteJournalFile { path, .. } && after.files
                == before.files && after.journals == before.journals.insert(path@, None)
        },
        _ => same_layout(after, before),
    }
}

} // verus!
