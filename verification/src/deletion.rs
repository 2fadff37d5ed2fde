//! The migration artifacts of a thread that is being deleted.

use crate::disk::problem_of;
use crate::disk::record_view;
use crate::disk::reply_problem;
use crate::disk::DiskAction;
use crate::disk::DiskReply;
use crate::disk::Progress;
use crate::error::ThreadId;
use crate::paths::RolloutPath;
use crate::publish::JournalPaths;
use crate::publish::JournalWrite;
use crate::recovery::MigrationRecoveryHandle;
use crate::refusals::DeletionRefusal;
use crate::refusals::DiskProblem;
use crate::retention::RemoveJournal;
use vstd::prelude::*;

verus! {

/// Artifacts that may be removed with their thread.
///
/// Preparing changes nothing, so that a deletion of many threads can test every thread before it
/// removes anything. The locks are held from preparation to removal.
#[derive(Debug)]
pub struct PreparedThreadDeleteMigrationArtifacts {
    pub thread_id: ThreadId,
    pub pending: JournalPaths,
    pub retained: JournalPaths,
    pub retained_journal_present: bool,
    pub recovery: Option<MigrationRecoveryHandle>,
}

/// Finds the artifacts of one thread. A pending or half-written journal means that a publication
/// or a retirement may have been interrupted, and forbids the deletion. A retained record is
/// accepted only where it can be followed and its source is there, or is known to be on its way
/// out.
#[derive(Debug)]
pub struct PrepareThreadDelete {
    pub thread_id: ThreadId,
    pub pending: JournalPaths,
    pub retained: JournalPaths,
    pub stage: PrepareStage,
}

/// The steps of the preparation.
#[derive(Debug)]
pub enum PrepareStage {
    CheckingPending,
    CheckingPendingStaged,
    CheckingRetainedStaged,
    CheckingRetained,
    Reading,
    Validating(MigrationRecoveryHandle),
    CheckingSource(MigrationRecoveryHandle),
}

/// Whether a record may outlive its source: a retirement or a deletion may have removed the source
/// and stopped before it removed the record.
pub open spec fn may_lack_source(recovery: MigrationRecoveryHandle) -> bool {
    recovery.retirement_started || recovery.split_generation_detected
}

impl PrepareThreadDelete {
    pub open spec fn at(self, stage: PrepareStage) -> PrepareThreadDelete {
        PrepareThreadDelete { stage, ..self }
    }

    pub open spec fn refused(self, refusal: DeletionRefusal) -> Progress<
        PrepareThreadDelete,
        PreparedThreadDeleteMigrationArtifacts,
    > {
        Progress::End(Err(DiskProblem::Deletion { thread_id: self.thread_id, refusal }))
    }

    pub open spec fn prepared(
        self,
        retained_journal_present: bool,
        recovery: Option<MigrationRecoveryHandle>,
    ) -> Progress<PrepareThreadDelete, PreparedThreadDeleteMigrationArtifacts> {
        Progress::End(
            Ok(
                PreparedThreadDeleteMigrationArtifacts {
                    thread_id: self.thread_id,
                    pending: self.pending,
                    retained: self.retained,
                    retained_journal_present,
                    recovery,
                },
            ),
        )
    }

    /// Where the operation begins.
    pub open spec fn begun(self) -> Progress<
        PrepareThreadDelete,
        PreparedThreadDeleteMigrationArtifacts,
    > {
        Progress::Ask(
            self.at(PrepareStage::CheckingPending),
            DiskAction::Exists { path: self.pending.path },
        )
    }

    /// Where the operation goes from a reply.
    pub open spec fn next(self, reply: DiskReply) -> Progress<
        PrepareThreadDelete,
        PreparedThreadDeleteMigrationArtifacts,
    > {
        match (self.stage, reply) {
            (PrepareStage::CheckingPending, DiskReply::Answer(exists)) => if exists {
                self.refused(DeletionRefusal::PendingMigration)
            } else {
                match self.pending.staged {
                    None => Progress::End(Err(DiskProblem::JournalWithoutName)),
                    Some(staged) => Progress::Ask(
                        self.at(PrepareStage::CheckingPendingStaged),
                        DiskAction::Exists { path: staged },
                    ),
                }
            },
            (PrepareStage::CheckingPendingStaged, DiskReply::Answer(exists)) => if exists {
                self.refused(DeletionRefusal::PendingMigration)
            } else {
                match self.retained.staged {
                    None => Progress::End(Err(DiskProblem::JournalWithoutName)),
                    Some(staged) => Progress::Ask(
                        self.at(PrepareStage::CheckingRetainedStaged),
                        DiskAction::Exists { path: staged },
                    ),
                }
            },
            (PrepareStage::CheckingRetainedStaged, DiskReply::Answer(exists)) => if exists {
                self.refused(DeletionRefusal::IncompleteUpdate)
            } else {
                Progress::Ask(
                    self.at(PrepareStage::CheckingRetained),
                    DiskAction::Exists { path: self.retained.path },
                )
            },
            (PrepareStage::CheckingRetained, DiskReply::Answer(exists)) => if exists {
                Progress::Ask(
                    self.at(PrepareStage::Reading),
                    DiskAction::ReadJournal { path: self.retained.path },
                )
            } else {
                self.prepared(false, None)
            },
            (PrepareStage::Reading, DiskReply::Journal(None)) => self.prepared(true, None),
            (PrepareStage::Reading, DiskReply::Journal(Some(recovery))) => Progress::Ask(
                self.at(PrepareStage::Validating(recovery)),
                DiskAction::Validate {
                    thread_id: self.thread_id,
                    journal_path: self.retained.path,
                    recovery,
                    selected: None,
                    require_publication_fingerprint: true,
                },
            ),
            (PrepareStage::Validating(recovery), DiskReply::Done) => Progress::Ask(
                self.at(PrepareStage::CheckingSource(recovery)),
                DiskAction::Exists { path: recovery.preserved_source_path },
            ),
            (PrepareStage::CheckingSource(recovery), DiskReply::Answer(exists)) => if !exists
                && !may_lack_source(recovery) {
                self.refused(
                    DeletionRefusal::SourceMissing { path: recovery.preserved_source_path },
                )
            } else {
                self.prepared(true, Some(recovery))
            },
            (_, reply) => Progress::End(Err(reply_problem(reply))),
        }
    }

    /// The preparation for one thread.
    pub fn new(home: &RolloutPath, thread_id: ThreadId) -> (r: PrepareThreadDelete)
        ensures
            r.thread_id == thread_id,
            r.pending.wf() && r.pending.path@ == crate::paths::pending_journal_of(home@, thread_id),
            r.retained.wf() && r.retained.path@ == crate::paths::retained_journal_of(
                home@,
                thread_id,
            ),
            r.stage is CheckingPending,
    {
        PrepareThreadDelete {
            thread_id,
            pending: JournalPaths::new(&crate::paths::migration_journal_path(home, thread_id)),
            retained: JournalPaths::new(
                &crate::paths::retained_migration_recovery_path(home, thread_id),
            ),
            stage: PrepareStage::CheckingPending,
        }
    }

    /// Begins the operation.
    pub fn begin(self) -> (r: Progress<PrepareThreadDelete, PreparedThreadDeleteMigrationArtifacts>)
        ensures
            r == self.begun(),
    {
        let action = DiskAction::Exists { path: self.pending.path.clone() };
        Progress::Ask(PrepareThreadDelete { stage: PrepareStage::CheckingPending, ..self }, action)
    }

    fn refuse(self, refusal: DeletionRefusal) -> (r: Progress<
        PrepareThreadDelete,
        PreparedThreadDeleteMigrationArtifacts,
    >)
        ensures
            r == self.refused(refusal),
    {
        Progress::End(Err(DiskProblem::Deletion { thread_id: self.thread_id, refusal }))
    }

    fn prepare(
        self,
        retained_journal_present: bool,
        recovery: Option<MigrationRecoveryHandle>,
    ) -> (r: Progress<PrepareThreadDelete, PreparedThreadDeleteMigrationArtifacts>)
        ensures
            r == self.prepared(retained_journal_present, recovery),
    {
        Progress::End(
            Ok(
                PreparedThreadDeleteMigrationArtifacts {
                    thread_id: self.thread_id,
                    pending: self.pending,
                    retained: self.retained,
                    retained_journal_present,
                    recovery,
                },
            ),
        )
    }

    /// Carries the operation on from a reply.
    pub fn advance(self, reply: DiskReply) -> (r: Progress<
        PrepareThreadDelete,
        PreparedThreadDeleteMigrationArtifacts,
    >)
        ensures
            r == self.next(reply),
    {
        let PrepareThreadDelete { thread_id, pending, retained, stage } = self;
        let this = PrepareThreadDelete {
            thread_id,
            pending,
            retained,
            stage: PrepareStage::CheckingPending,
        };
        match (stage, reply) {
            (PrepareStage::CheckingPending, DiskReply::Answer(exists)) => {
                if exists {
                    return this.refuse(DeletionRefusal::PendingMigration);
                }
                let action = match &this.pending.staged {
                    None => {
                        return Progress::End(Err(DiskProblem::JournalWithoutName));
                    },
                    Some(staged) => DiskAction::Exists { path: staged.clone() },
                };
                Progress::Ask(
                    PrepareThreadDelete { stage: PrepareStage::CheckingPendingStaged, ..this },
                    action,
                )
            },
            (PrepareStage::CheckingPendingStaged, DiskReply::Answer(exists)) => {
                if exists {
                    return this.refuse(DeletionRefusal::PendingMigration);
                }
                let action = match &this.retained.staged {
                    None => {
                        return Progress::End(Err(DiskProblem::JournalWithoutName));
                    },
                    Some(staged) => DiskAction::Exists { path: staged.clone() },
                };
                Progress::Ask(
                    PrepareThreadDelete { stage: PrepareStage::CheckingRetainedStaged, ..this },
                    action,
                )
            },
            (PrepareStage::CheckingRetainedStaged, DiskReply::Answer(exists)) => {
                if exists {
                    return this.refuse(DeletionRefusal::IncompleteUpdate);
                }
                let action = DiskAction::Exists { path: this.retained.path.clone() };
                Progress::Ask(
                    PrepareThreadDelete { stage: PrepareStage::CheckingRetained, ..this },
                    action,
                )
            },
            (PrepareStage::CheckingRetained, DiskReply::Answer(exists)) => {
                if !exists {
                    return this.prepare(false, None);
                }
                let action = DiskAction::ReadJournal { path: this.retained.path.clone() };
                Progress::Ask(PrepareThreadDelete { stage: PrepareStage::Reading, ..this }, action)
            },
            (PrepareStage::Reading, DiskReply::Journal(None)) => this.prepare(true, None),
            (PrepareStage::Reading, DiskReply::Journal(Some(recovery))) => {
                let action = DiskAction::Validate {
                    thread_id: this.thread_id,
                    journal_path: this.retained.path.clone(),
                    recovery: recovery.clone(),
                    selected: None,
                    require_publication_fingerprint: true,
                };
                Progress::Ask(
                    PrepareThreadDelete { stage: PrepareStage::Validating(recovery), ..this },
                    action,
                )
            },
            (PrepareStage::Validating(recovery), DiskReply::Done) => {
                let action = DiskAction::Exists { path: recovery.preserved_source_path.clone() };
                Progress::Ask(
                    PrepareThreadDelete { stage: PrepareStage::CheckingSource(recovery), ..this },
                    action,
                )
            },
            (PrepareStage::CheckingSource(recovery), DiskReply::Answer(exists)) => {
                if !exists && !recovery.retirement_started && !recovery.split_generation_detected {
                    this.refuse(
                        DeletionRefusal::SourceMissing { path: recovery.preserved_source_path },
                    )
                } else {
                    this.prepare(true, Some(recovery))
                }
            },
            (_, reply) => Progress::End(Err(problem_of(reply))),
        }
    }
}

/// Removes prepared artifacts. The mark that retirement has started comes first, so that a stop
/// between the removal of the source and that of the record can be retried. A source that a late
/// writer has changed goes too: the deletion of the whole thread was asked for. Where the record
/// already says that the generations have split it stays as it is, for it cannot take both marks,
/// and that mark alone lets a deletion be retried without the source.
#[derive(Debug)]
pub struct RemoveThreadArtifacts {
    pub prepared: PreparedThreadDeleteMigrationArtifacts,
    pub stage: RemovalStage,
}

/// The steps of the removal.
#[derive(Debug)]
pub enum RemovalStage {
    CheckingPending,
    CheckingPendingStaged,
    CheckingRetainedStaged,
    CheckingRetained,
    Reading,
    Marking(MigrationRecoveryHandle, JournalWrite),
    CheckingSource(MigrationRecoveryHandle),
    AskingOwner(MigrationRecoveryHandle),
    RemovingSource(MigrationRecoveryHandle),
    SyncingSource,
    RemovingJournal(RemoveJournal),
}

impl RemoveThreadArtifacts {
    pub open spec fn at(self, stage: RemovalStage) -> RemoveThreadArtifacts {
        RemoveThreadArtifacts { stage, ..self }
    }

    pub open spec fn refused(self, refusal: DeletionRefusal) -> Progress<
        RemoveThreadArtifacts,
        bool,
    > {
        Progress::End(Err(DiskProblem::Deletion { thread_id: self.prepared.thread_id, refusal }))
    }

    pub open spec fn marking(
        self,
        recovery: MigrationRecoveryHandle,
        progress: Progress<JournalWrite, ()>,
    ) -> Progress<RemoveThreadArtifacts, bool> {
        match progress {
            Progress::Ask(sub, action) => Progress::Ask(
                self.at(RemovalStage::Marking(recovery, sub)),
                action,
            ),
            Progress::End(Ok(_)) => self.checking_source(recovery),
            Progress::End(Err(problem)) => Progress::End(Err(problem)),
        }
    }

    pub open spec fn checking_source(self, recovery: MigrationRecoveryHandle) -> Progress<
        RemoveThreadArtifacts,
        bool,
    > {
        Progress::Ask(
            self.at(RemovalStage::CheckingSource(recovery)),
            DiskAction::Exists { path: recovery.preserved_source_path },
        )
    }

    pub open spec fn removing_journal(self, progress: Progress<RemoveJournal, ()>) -> Progress<
        RemoveThreadArtifacts,
        bool,
    > {
        match progress {
            Progress::Ask(sub, action) => Progress::Ask(
                self.at(RemovalStage::RemovingJournal(sub)),
                action,
            ),
            Progress::End(Ok(_)) => Progress::End(Ok(true)),
            Progress::End(Err(problem)) => Progress::End(Err(problem)),
        }
    }

    pub open spec fn journal_removal_begun(self) -> Progress<RemoveThreadArtifacts, bool> {
        self.removing_journal(RemoveJournal::begun(self.prepared.retained))
    }

    /// Where the operation begins.
    pub open spec fn begun(self) -> Progress<RemoveThreadArtifacts, bool> {
        Progress::Ask(
            self.at(RemovalStage::CheckingPending),
            DiskAction::Exists { path: self.prepared.pending.path },
        )
    }

    /// Where the operation goes from a reply.
    pub open spec fn next(self, reply: DiskReply) -> Progress<RemoveThreadArtifacts, bool> {
        match (self.stage, reply) {
            (RemovalStage::CheckingPending, DiskReply::Answer(exists)) => if exists {
                self.refused(DeletionRefusal::StateChanged)
            } else {
                match self.prepared.pending.staged {
                    None => Progress::End(Err(DiskProblem::JournalWithoutName)),
                    Some(staged) => Progress::Ask(
                        self.at(RemovalStage::CheckingPendingStaged),
                        DiskAction::Exists { path: staged },
                    ),
                }
            },
            (RemovalStage::CheckingPendingStaged, DiskReply::Answer(exists)) => if exists {
                self.refused(DeletionRefusal::StateChanged)
            } else {
                match self.prepared.retained.staged {
                    None => Progress::End(Err(DiskProblem::JournalWithoutName)),
                    Some(staged) => Progress::Ask(
                        self.at(RemovalStage::CheckingRetainedStaged),
                        DiskAction::Exists { path: staged },
                    ),
                }
            },
            (RemovalStage::CheckingRetainedStaged, DiskReply::Answer(exists)) => if exists {
                self.refused(DeletionRefusal::StateChanged)
            } else {
                Progress::Ask(
                    self.at(RemovalStage::CheckingRetained),
                    DiskAction::Exists { path: self.prepared.retained.path },
                )
            },
            (RemovalStage::CheckingRetained, DiskReply::Answer(exists)) => if exists
                != self.prepared.retained_journal_present {
                self.refused(DeletionRefusal::JournalChanged)
            } else if !exists {
                Progress::End(Ok(false))
            } else {
                Progress::Ask(
                    self.at(RemovalStage::Reading),
                    DiskAction::ReadJournal { path: self.prepared.retained.path },
                )
            },
            (RemovalStage::Reading, DiskReply::Journal(current)) => if record_view(current)
                != record_view(self.prepared.recovery) {
                self.refused(DeletionRefusal::RecoveryChanged)
            } else {
                match current {
                    None => self.journal_removal_begun(),
                    Some(recovery) => if may_lack_source(recovery) {
                        self.checking_source(recovery)
                    } else {
                        self.marking(
                            recovery,
                            JournalWrite::begun(
                                self.prepared.retained,
                                MigrationRecoveryHandle { retirement_started: true, ..recovery },
                            ),
                        )
                    },
                }
            },
            (RemovalStage::Marking(recovery, sub), reply) => self.marking(
                recovery,
                sub.next(reply),
            ),
            (RemovalStage::CheckingSource(recovery), DiskReply::Answer(exists)) => if exists {
                Progress::Ask(
                    self.at(RemovalStage::AskingOwner(recovery)),
                    DiskAction::SourceThread { recovery },
                )
            } else {
                self.journal_removal_begun()
            },
            (RemovalStage::AskingOwner(recovery), DiskReply::Thread(owner)) => if owner
                == self.prepared.thread_id {
                Progress::Ask(
                    self.at(RemovalStage::RemovingSource(recovery)),
                    DiskAction::RemoveFile { path: recovery.preserved_source_path },
                )
            } else {
                self.refused(
                    DeletionRefusal::OwnerChanged { path: recovery.preserved_source_path },
                )
            },
            (RemovalStage::RemovingSource(recovery), DiskReply::Done) => Progress::Ask(
                self.at(RemovalStage::SyncingSource),
                DiskAction::SyncParent { path: recovery.preserved_source_path },
            ),
            (RemovalStage::SyncingSource, DiskReply::Done) => self.journal_removal_begun(),
            (RemovalStage::RemovingJournal(sub), reply) => self.removing_journal(sub.next(reply)),
            (_, reply) => Progress::End(Err(reply_problem(reply))),
        }
    }

    /// Begins the operation.
    pub fn begin(prepared: PreparedThreadDeleteMigrationArtifacts) -> (r: Progress<
        RemoveThreadArtifacts,
        bool,
    >)
        ensures
            r == (RemoveThreadArtifacts { prepared, stage: RemovalStage::CheckingPending }).begun(),
    {
        let action = DiskAction::Exists { path: prepared.pending.path.clone() };
        Progress::Ask(
            RemoveThreadArtifacts { prepared, stage: RemovalStage::CheckingPending },
            action,
        )
    }

    fn refuse(self, refusal: DeletionRefusal) -> (r: Progress<RemoveThreadArtifacts, bool>)
        ensures
            r == self.refused(refusal),
    {
        Progress::End(Err(DiskProblem::Deletion { thread_id: self.prepared.thread_id, refusal }))
    }

    fn check_source(self, recovery: MigrationRecoveryHandle) -> (r: Progress<
        RemoveThreadArtifacts,
        bool,
    >)
        ensures
            r == self.checking_source(recovery),
    {
        let action = DiskAction::Exists { path: recovery.preserved_source_path.clone() };
        Progress::Ask(
            RemoveThreadArtifacts { stage: RemovalStage::CheckingSource(recovery), ..self },
            action,
        )
    }

    fn mark(self, recovery: MigrationRecoveryHandle, progress: Progress<JournalWrite, ()>) -> (r:
        Progress<RemoveThreadArtifacts, bool>)
        ensures
            r == self.marking(recovery, progress),
    {
        match progress {
            Progress::Ask(sub, action) => Progress::Ask(
                RemoveThreadArtifacts { stage: RemovalStage::Marking(recovery, sub), ..self },
                action,
            ),
            Progress::End(Ok(_)) => self.check_source(recovery),
            Progress::End(Err(problem)) => Progress::End(Err(problem)),
        }
    }

    fn remove_journal(self, progress: Progress<RemoveJournal, ()>) -> (r: Progress<
        RemoveThreadArtifacts,
        bool,
    >)
        ensures
            r == self.removing_journal(progress),
    {
        match progress {
            Progress::Ask(sub, action) => Progress::Ask(
                RemoveThreadArtifacts { stage: RemovalStage::RemovingJournal(sub), ..self },
                action,
            ),
            Progress::End(Ok(_)) => Progress::End(Ok(true)),
            Progress::End(Err(problem)) => Progress::End(Err(problem)),
        }
    }

    fn begin_journal_removal(self) -> (r: Progress<RemoveThreadArtifacts, bool>)
        ensures
            r == self.journal_removal_begun(),
    {
        let sub = RemoveJournal::begin(&self.prepared.retained);
        self.remove_journal(sub)
    }

    /// Carries the operation on from a reply.
    pub fn advance(self, reply: DiskReply) -> (r: Progress<RemoveThreadArtifacts, bool>)
        ensures
            r == self.next(reply),
    {
        let RemoveThreadArtifacts { prepared, stage } = self;
        let this = RemoveThreadArtifacts { prepared, stage: RemovalStage::CheckingPending };
        match (stage, reply) {
            (RemovalStage::CheckingPending, DiskReply::Answer(exists)) => {
                if exists {
                    return this.refuse(DeletionRefusal::StateChanged);
                }
                let action = match &this.prepared.pending.staged {
                    None => {
                        return Progress::End(Err(DiskProblem::JournalWithoutName));
                    },
                    Some(staged) => DiskAction::Exists { path: staged.clone() },
                };
                Progress::Ask(
                    RemoveThreadArtifacts { stage: RemovalStage::CheckingPendingStaged, ..this },
                    action,
                )
            },
            (RemovalStage::CheckingPendingStaged, DiskReply::Answer(exists)) => {
                if exists {
                    return this.refuse(DeletionRefusal::StateChanged);
                }
                let action = match &this.prepared.retained.staged {
                    None => {
                        return Progress::End(Err(DiskProblem::JournalWithoutName));
                    },
                    Some(staged) => DiskAction::Exists { path: staged.clone() },
                };
                Progress::Ask(
                    RemoveThreadArtifacts { stage: RemovalStage::CheckingRetainedStaged, ..this },
                    action,
                )
            },
            (RemovalStage::CheckingRetainedStaged, DiskReply::Answer(exists)) => {
                if exists {
                    return this.refuse(DeletionRefusal::StateChanged);
                }
                let action = DiskAction::Exists { path: this.prepared.retained.path.clone() };
                Progress::Ask(
                    RemoveThreadArtifacts { stage: RemovalStage::CheckingRetained, ..this },
                    action,
                )
            },
            (RemovalStage::CheckingRetained, DiskReply::Answer(exists)) => {
                if exists != this.prepared.retained_journal_present {
                    return this.refuse(DeletionRefusal::JournalChanged);
                }
                if !exists {
                    return Progress::End(Ok(false));
                }
                let action = DiskAction::ReadJournal { path: this.prepared.retained.path.clone() };
                Progress::Ask(
                    RemoveThreadArtifacts { stage: RemovalStage::Reading, ..this },
                    action,
                )
            },
            (RemovalStage::Reading, DiskReply::Journal(current)) => {
                let same: bool = match (&current, &this.prepared.recovery) {
                    (Some(a), Some(b)) => a.same(b),
                    (None, None) => true,
                    _ => false,
                };
                if !same {
                    return this.refuse(DeletionRefusal::RecoveryChanged);
                }
                match current {
                    None => this.begin_journal_removal(),
                    Some(recovery) => {
                        if recovery.retirement_started || recovery.split_generation_detected {
                            this.check_source(recovery)
                        } else {
                            let retiring = recovery.clone().begin_retirement();
                            let sub = JournalWrite::begin(&this.prepared.retained, &retiring);
                            this.mark(recovery, sub)
                        }
                    },
                }
            },
            (RemovalStage::Marking(recovery, sub), reply) => this.mark(
                recovery,
                sub.advance(reply),
            ),
            (RemovalStage::CheckingSource(recovery), DiskReply::Answer(exists)) => {
                if exists {
                    let action = DiskAction::SourceThread { recovery: recovery.clone() };
                    Progress::Ask(
                        RemoveThreadArtifacts {
                            stage: RemovalStage::AskingOwner(recovery),
                            ..this
                        },
                        action,
                    )
                } else {
                    this.begin_journal_removal()
                }
            },
            (RemovalStage::AskingOwner(recovery), DiskReply::Thread(owner)) => {
                if owner == this.prepared.thread_id {
                    let action = DiskAction::RemoveFile {
                        path: recovery.preserved_source_path.clone(),
                    };
                    Progress::Ask(
                        RemoveThreadArtifacts {
                            stage: RemovalStage::RemovingSource(recovery),
                            ..this
                        },
                        action,
                    )
                } else {
                    this.refuse(
                        DeletionRefusal::OwnerChanged { path: recovery.preserved_source_path },
                    )
                }
            },
            (RemovalStage::RemovingSource(recovery), DiskReply::Done) => Progress::Ask(
                RemoveThreadArtifacts { stage: RemovalStage::SyncingSource, ..this },
                DiskAction::SyncParent { path: recovery.preserved_source_path },
            ),
            (RemovalStage::SyncingSource, DiskReply::Done) => this.begin_journal_removal(),
            (RemovalStage::RemovingJournal(sub), reply) => this.remove_journal(sub.advance(reply)),
            (_, reply) => Progress::End(Err(problem_of(reply))),
        }
    }
}

} // verus!
