//! What happens to the preserved source and its record after publication: the record is retained,
//! the source is released when it is safe, and both go when the thread is deleted.

use crate::disk::problem_of;
use crate::disk::reply_problem;
use crate::disk::DiskAction;
use crate::disk::DiskReply;
use crate::disk::Progress;
use crate::paths::file_name_of;
use crate::paths::retained_from_pending;
use crate::paths::retained_path_from_pending_journal;
use crate::paths::RolloutPath;
use crate::publish::JournalPaths;
use crate::recovery::MigrationRecoveryHandle;
use crate::refusals::DiskProblem;
use crate::refusals::Refusal;
use vstd::prelude::*;

verus! {

/// Removes a file where it exists.
#[derive(Debug)]
pub struct RemoveIfPresent {
    pub path: RolloutPath,
    pub removing: bool,
}

impl RemoveIfPresent {
    /// Where the operation begins.
    pub open spec fn begun(path: RolloutPath) -> Progress<RemoveIfPresent, ()> {
        Progress::Ask(RemoveIfPresent { path, removing: false }, DiskAction::Exists { path })
    }

    /// Where the operation goes from a reply.
    pub open spec fn next(self, reply: DiskReply) -> Progress<RemoveIfPresent, ()> {
        match (self.removing, reply) {
            (false, DiskReply::Answer(true)) => Progress::Ask(
                RemoveIfPresent { removing: true, ..self },
                DiskAction::RemoveFile { path: self.path },
            ),
            (false, DiskReply::Answer(false)) => Progress::End(Ok(())),
            (true, DiskReply::Done) => Progress::End(Ok(())),
            (_, reply) => Progress::End(Err(reply_problem(reply))),
        }
    }

    /// Begins the operation.
    pub fn begin(path: &RolloutPath) -> (r: Progress<RemoveIfPresent, ()>)
        ensures
            r == RemoveIfPresent::begun(*path),
    {
        Progress::Ask(
            RemoveIfPresent { path: path.clone(), removing: false },
            DiskAction::Exists { path: path.clone() },
        )
    }

    /// Carries the operation on from a reply.
    pub fn advance(self, reply: DiskReply) -> (r: Progress<RemoveIfPresent, ()>)
        ensures
            r == self.next(reply),
    {
        match (self.removing, reply) {
            (false, DiskReply::Answer(true)) => {
                let action = DiskAction::RemoveFile { path: self.path.clone() };
                Progress::Ask(RemoveIfPresent { removing: true, ..self }, action)
            },
            (false, DiskReply::Answer(false)) => Progress::End(Ok(())),
            (true, DiskReply::Done) => Progress::End(Ok(())),
            (_, reply) => Progress::End(Err(problem_of(reply))),
        }
    }
}

/// Removes a journal and the file in which it is written.
#[derive(Debug)]
pub struct RemoveJournal {
    pub journal: JournalPaths,
    pub stage: RemoveStage,
}

/// The steps of removing a journal.
#[derive(Debug)]
pub enum RemoveStage {
    RemovingJournal(RemoveIfPresent),
    RemovingStaged(RemoveIfPresent),
    Syncing,
}

impl RemoveJournal {
    pub open spec fn removing_journal(self, progress: Progress<RemoveIfPresent, ()>) -> Progress<
        RemoveJournal,
        (),
    > {
        match progress {
            Progress::Ask(sub, action) => Progress::Ask(
                RemoveJournal { stage: RemoveStage::RemovingJournal(sub), ..self },
                action,
            ),
            Progress::End(Ok(_)) => match self.journal.staged {
                None => Progress::End(Err(DiskProblem::JournalWithoutName)),
                Some(staged) => self.removing_staged(RemoveIfPresent::begun(staged)),
            },
            Progress::End(Err(problem)) => Progress::End(Err(problem)),
        }
    }

    pub open spec fn removing_staged(self, progress: Progress<RemoveIfPresent, ()>) -> Progress<
        RemoveJournal,
        (),
    > {
        match progress {
            Progress::Ask(sub, action) => Progress::Ask(
                RemoveJournal { stage: RemoveStage::RemovingStaged(sub), ..self },
                action,
            ),
            Progress::End(Ok(_)) => Progress::Ask(
                RemoveJournal { stage: RemoveStage::Syncing, ..self },
                DiskAction::SyncParent { path: self.journal.path },
            ),
            Progress::End(Err(problem)) => Progress::End(Err(problem)),
        }
    }

    /// Where the operation begins.
    pub open spec fn begun(journal: JournalPaths) -> Progress<RemoveJournal, ()> {
        RemoveJournal { journal, stage: RemoveStage::Syncing }.removing_journal(
            RemoveIfPresent::begun(journal.path),
        )
    }

    /// Where the operation goes from a reply.
    pub open spec fn next(self, reply: DiskReply) -> Progress<RemoveJournal, ()> {
        match (self.stage, reply) {
            (RemoveStage::RemovingJournal(sub), reply) => self.removing_journal(sub.next(reply)),
            (RemoveStage::RemovingStaged(sub), reply) => self.removing_staged(sub.next(reply)),
            (RemoveStage::Syncing, DiskReply::Done) => Progress::End(Ok(())),
            (_, reply) => Progress::End(Err(reply_problem(reply))),
        }
    }

    fn remove_journal(self, progress: Progress<RemoveIfPresent, ()>) -> (r: Progress<
        RemoveJournal,
        (),
    >)
        ensures
            r == self.removing_journal(progress),
    {
        match progress {
            Progress::Ask(sub, action) => Progress::Ask(
                RemoveJournal { stage: RemoveStage::RemovingJournal(sub), ..self },
                action,
            ),
            Progress::End(Ok(_)) => {
                let sub = match &self.journal.staged {
                    None => {
                        return Progress::End(Err(DiskProblem::JournalWithoutName));
                    },
                    Some(staged) => RemoveIfPresent::begin(staged),
                };
                self.remove_staged(sub)
            },
            Progress::End(Err(problem)) => Progress::End(Err(problem)),
        }
    }

    fn remove_staged(self, progress: Progress<RemoveIfPresent, ()>) -> (r: Progress<
        RemoveJournal,
        (),
    >)
        ensures
            r == self.removing_staged(progress),
    {
        match progress {
            Progress::Ask(sub, action) => Progress::Ask(
                RemoveJournal { stage: RemoveStage::RemovingStaged(sub), ..self },
                action,
            ),
            Progress::End(Ok(_)) => {
                let action = DiskAction::SyncParent { path: self.journal.path.clone() };
                Progress::Ask(RemoveJournal { stage: RemoveStage::Syncing, ..self }, action)
            },
            Progress::End(Err(problem)) => Progress::End(Err(problem)),
        }
    }

    /// Begins the operation.
    pub fn begin(journal: &JournalPaths) -> (r: Progress<RemoveJournal, ()>)
        ensures
            r == RemoveJournal::begun(*journal),
    {
        let sub = RemoveIfPresent::begin(&journal.path);
        RemoveJournal { journal: journal.clone(), stage: RemoveStage::Syncing }.remove_journal(sub)
    }

    /// Carries the operation on from a reply.
    pub fn advance(self, reply: DiskReply) -> (r: Progress<RemoveJournal, ()>)
        ensures
            r == self.next(reply),
    {
        let RemoveJournal { journal, stage } = self;
        let this = RemoveJournal { journal, stage: RemoveStage::Syncing };
        match (stage, reply) {
            (RemoveStage::RemovingJournal(sub), reply) => this.remove_journal(sub.advance(reply)),
            (RemoveStage::RemovingStaged(sub), reply) => this.remove_staged(sub.advance(reply)),
            (RemoveStage::Syncing, DiskReply::Done) => Progress::End(Ok(())),
            (_, reply) => Progress::End(Err(problem_of(reply))),
        }
    }
}

/// Removes the second name of a source that was not published, where the visible path still names
/// the same file. A different file under that name is never taken for debris.
#[derive(Debug)]
pub struct RemoveAlias {
    pub rollout_path: RolloutPath,
    pub preserved_source_path: RolloutPath,
    pub stage: AliasStage,
}

/// The steps of removing a second name.
#[derive(Clone, Copy, Debug, PartialEq, Eq, Structural)]
pub enum AliasStage {
    Checking,
    Comparing,
    Removing,
    Syncing,
}

impl RemoveAlias {
    /// Where the operation begins.
    pub open spec fn begun(
        rollout_path: RolloutPath,
        preserved_source_path: RolloutPath,
    ) -> Progress<RemoveAlias, ()> {
        Progress::Ask(
            RemoveAlias { rollout_path, preserved_source_path, stage: AliasStage::Checking },
            DiskAction::Exists { path: preserved_source_path },
        )
    }

    /// Where the operation goes from a reply.
    pub open spec fn next(self, reply: DiskReply) -> Progress<RemoveAlias, ()> {
        match (self.stage, reply) {
            (AliasStage::Checking, DiskReply::Answer(false)) => Progress::End(Ok(())),
            (AliasStage::Checking, DiskReply::Answer(true)) => Progress::Ask(
                RemoveAlias { stage: AliasStage::Comparing, ..self },
                DiskAction::SameFile { left: self.rollout_path, right: self.preserved_source_path },
            ),
            (AliasStage::Comparing, DiskReply::Answer(false)) => Progress::End(
                Err(
                    DiskProblem::Refused {
                        refusal: Refusal::DifferentAliasPreserved,
                        path: self.preserved_source_path,
                    },
                ),
            ),
            (AliasStage::Comparing, DiskReply::Answer(true)) => Progress::Ask(
                RemoveAlias { stage: AliasStage::Removing, ..self },
                DiskAction::RemoveFile { path: self.preserved_source_path },
            ),
            (AliasStage::Removing, DiskReply::Done) => Progress::Ask(
                RemoveAlias { stage: AliasStage::Syncing, ..self },
                DiskAction::SyncParent { path: self.preserved_source_path },
            ),
            (AliasStage::Syncing, DiskReply::Done) => Progress::End(Ok(())),
            (_, reply) => Progress::End(Err(reply_problem(reply))),
        }
    }

    /// Begins the operation.
    pub fn begin(rollout_path: &RolloutPath, preserved_source_path: &RolloutPath) -> (r: Progress<
        RemoveAlias,
        (),
    >)
        ensures
            r == RemoveAlias::begun(*rollout_path, *preserved_source_path),
    {
        Progress::Ask(
            RemoveAlias {
                rollout_path: rollout_path.clone(),
                preserved_source_path: preserved_source_path.clone(),
                stage: AliasStage::Checking,
            },
            DiskAction::Exists { path: preserved_source_path.clone() },
        )
    }

    /// Carries the operation on from a reply.
    pub fn advance(self, reply: DiskReply) -> (r: Progress<RemoveAlias, ()>)
        ensures
            r == self.next(reply),
    {
        match (self.stage, reply) {
            (AliasStage::Checking, DiskReply::Answer(false)) => Progress::End(Ok(())),
            (AliasStage::Checking, DiskReply::Answer(true)) => {
                let action = DiskAction::SameFile {
                    left: self.rollout_path.clone(),
                    right: self.preserved_source_path.clone(),
                };
                Progress::Ask(RemoveAlias { stage: AliasStage::Comparing, ..self }, action)
            },
            (AliasStage::Comparing, DiskReply::Answer(false)) => Progress::End(
                Err(
                    DiskProblem::Refused {
                        refusal: Refusal::DifferentAliasPreserved,
                        path: self.preserved_source_path,
                    },
                ),
            ),
            (AliasStage::Comparing, DiskReply::Answer(true)) => {
                let action = DiskAction::RemoveFile { path: self.preserved_source_path.clone() };
                Progress::Ask(RemoveAlias { stage: AliasStage::Removing, ..self }, action)
            },
            (AliasStage::Removing, DiskReply::Done) => {
                let action = DiskAction::SyncParent { path: self.preserved_source_path.clone() };
                Progress::Ask(RemoveAlias { stage: AliasStage::Syncing, ..self }, action)
            },
            (AliasStage::Syncing, DiskReply::Done) => Progress::End(Ok(())),
            (_, reply) => Progress::End(Err(problem_of(reply))),
        }
    }
}

/// Moves the journal of a finished publication into the retained record. An empty journal has no
/// preserved source to manage and is removed.
#[derive(Debug)]
pub struct RetainRecovery {
    pub pending: JournalPaths,
    pub retained: Option<RolloutPath>,
    pub stage: RetainStage,
}

/// The steps of retaining a record.
#[derive(Debug)]
pub enum RetainStage {
    ReadingPending,
    RemovingEmpty(RemoveJournal),
    CheckingRetained { recovery: MigrationRecoveryHandle },
    ReadingRetained { recovery: MigrationRecoveryHandle },
    RemovingPending(RemoveJournal),
    Moving,
    RemovingStaged(RemoveIfPresent),
    Syncing,
}

impl RetainRecovery {
    /// Whether the retained record is the one that follows from the pending journal.
    pub open spec fn wf(self) -> bool {
        let name = file_name_of(self.pending.path@);
        &&& self.pending.wf()
        &&& self.retained is Some == (name is Some && ".pending"@.is_suffix_of(name->0))
        &&& self.retained is Some ==> self.retained->0@ == retained_from_pending(
            self.pending.path@,
        )
    }

    pub open spec fn at(self, stage: RetainStage) -> RetainRecovery {
        RetainRecovery { stage, ..self }
    }

    pub open spec fn removing_empty(self, progress: Progress<RemoveJournal, ()>) -> Progress<
        RetainRecovery,
        Option<RolloutPath>,
    > {
        match progress {
            Progress::Ask(sub, action) => Progress::Ask(
                self.at(RetainStage::RemovingEmpty(sub)),
                action,
            ),
            Progress::End(Ok(_)) => Progress::End(Ok(None)),
            Progress::End(Err(problem)) => Progress::End(Err(problem)),
        }
    }

    pub open spec fn removing_pending(self, progress: Progress<RemoveJournal, ()>) -> Progress<
        RetainRecovery,
        Option<RolloutPath>,
    > {
        match progress {
            Progress::Ask(sub, action) => Progress::Ask(
                self.at(RetainStage::RemovingPending(sub)),
                action,
            ),
            Progress::End(Ok(_)) => Progress::End(Ok(self.retained)),
            Progress::End(Err(problem)) => Progress::End(Err(problem)),
        }
    }

    pub open spec fn removing_staged(self, progress: Progress<RemoveIfPresent, ()>) -> Progress<
        RetainRecovery,
        Option<RolloutPath>,
    > {
        match progress {
            Progress::Ask(sub, action) => Progress::Ask(
                self.at(RetainStage::RemovingStaged(sub)),
                action,
            ),
            Progress::End(Ok(_)) => match self.retained {
                Some(retained) => Progress::Ask(
                    self.at(RetainStage::Syncing),
                    DiskAction::SyncParent { path: retained },
                ),
                None => Progress::End(Err(DiskProblem::NotPending)),
            },
            Progress::End(Err(problem)) => Progress::End(Err(problem)),
        }
    }

    /// Where the operation begins.
    pub open spec fn begun(self) -> Progress<RetainRecovery, Option<RolloutPath>> {
        Progress::Ask(
            self.at(RetainStage::ReadingPending),
            DiskAction::ReadJournal { path: self.pending.path },
        )
    }

    /// Where the operation goes from a reply.
    pub open spec fn next(self, reply: DiskReply) -> Progress<RetainRecovery, Option<RolloutPath>> {
        match (self.stage, reply) {
            (RetainStage::ReadingPending, DiskReply::Journal(None)) => self.removing_empty(
                RemoveJournal::begun(self.pending),
            ),
            (RetainStage::ReadingPending, DiskReply::Journal(Some(recovery))) => {
                match self.retained {
                    Some(retained) => Progress::Ask(
                        self.at(RetainStage::CheckingRetained { recovery }),
                        DiskAction::Exists { path: retained },
                    ),
                    None => Progress::End(Err(DiskProblem::NotPending)),
                }
            },
            (RetainStage::RemovingEmpty(sub), reply) => self.removing_empty(sub.next(reply)),
            (RetainStage::CheckingRetained { recovery }, DiskReply::Answer(exists)) => {
                match self.retained {
                    Some(retained) => if exists {
                        Progress::Ask(
                            self.at(RetainStage::ReadingRetained { recovery }),
                            DiskAction::ReadJournal { path: retained },
                        )
                    } else {
                        Progress::Ask(
                            self.at(RetainStage::Moving),
                            DiskAction::Rename { from: self.pending.path, to: retained },
                        )
                    },
                    None => Progress::End(Err(DiskProblem::NotPending)),
                }
            },
            (RetainStage::ReadingRetained { .. }, DiskReply::Journal(None)) => Progress::End(
                Err(DiskProblem::RetainedEmpty),
            ),
            (RetainStage::ReadingRetained { recovery }, DiskReply::Journal(Some(existing))) => {
                match self.retained {
                    Some(retained) => if existing@ == recovery@ {
                        self.removing_pending(RemoveJournal::begun(self.pending))
                    } else {
                        Progress::End(
                            Err(
                                DiskProblem::Refused {
                                    refusal: Refusal::RetainedRecordConflicts,
                                    path: retained,
                                },
                            ),
                        )
                    },
                    None => Progress::End(Err(DiskProblem::NotPending)),
                }
            },
            (RetainStage::RemovingPending(sub), reply) => self.removing_pending(sub.next(reply)),
            (RetainStage::Moving, DiskReply::Done) => match self.pending.staged {
                Some(staged) => self.removing_staged(RemoveIfPresent::begun(staged)),
                None => Progress::End(Err(DiskProblem::JournalWithoutName)),
            },
            (RetainStage::RemovingStaged(sub), reply) => self.removing_staged(sub.next(reply)),
            (RetainStage::Syncing, DiskReply::Done) => Progress::End(Ok(self.retained)),
            (_, reply) => Progress::End(Err(reply_problem(reply))),
        }
    }

    /// The operation on a pending journal.
    pub fn new(pending_journal_path: &RolloutPath) -> (r: RetainRecovery)
        ensures
            r.wf(),
            r.pending.path == *pending_journal_path,
            r.stage is ReadingPending,
    {
        let retained: Option<RolloutPath> = match retained_path_from_pending_journal(
            pending_journal_path,
        ) {
            Ok(path) => Some(path),
            Err(_) => None,
        };
        RetainRecovery {
            pending: JournalPaths::new(pending_journal_path),
            retained,
            stage: RetainStage::ReadingPending,
        }
    }

    /// Begins the operation.
    pub fn begin(self) -> (r: Progress<RetainRecovery, Option<RolloutPath>>)
        ensures
            r == self.begun(),
    {
        let action = DiskAction::ReadJournal { path: self.pending.path.clone() };
        Progress::Ask(RetainRecovery { stage: RetainStage::ReadingPending, ..self }, action)
    }

    fn remove_empty(self, progress: Progress<RemoveJournal, ()>) -> (r: Progress<
        RetainRecovery,
        Option<RolloutPath>,
    >)
        ensures
            r == self.removing_empty(progress),
    {
        match progress {
            Progress::Ask(sub, action) => Progress::Ask(
                RetainRecovery { stage: RetainStage::RemovingEmpty(sub), ..self },
                action,
            ),
            Progress::End(Ok(_)) => Progress::End(Ok(None)),
            Progress::End(Err(problem)) => Progress::End(Err(problem)),
        }
    }

    fn remove_pending(self, progress: Progress<RemoveJournal, ()>) -> (r: Progress<
        RetainRecovery,
        Option<RolloutPath>,
    >)
        ensures
            r == self.removing_pending(progress),
    {
        match progress {
            Progress::Ask(sub, action) => Progress::Ask(
                RetainRecovery { stage: RetainStage::RemovingPending(sub), ..self },
                action,
            ),
            Progress::End(Ok(_)) => Progress::End(Ok(self.retained)),
            Progress::End(Err(problem)) => Progress::End(Err(problem)),
        }
    }

    fn remove_staged(self, progress: Progress<RemoveIfPresent, ()>) -> (r: Progress<
        RetainRecovery,
        Option<RolloutPath>,
    >)
        ensures
            r == self.removing_staged(progress),
    {
        match progress {
            Progress::Ask(sub, action) => Progress::Ask(
                RetainRecovery { stage: RetainStage::RemovingStaged(sub), ..self },
                action,
            ),
            Progress::End(Ok(_)) => {
                let action = match &self.retained {
                    Some(retained) => DiskAction::SyncParent { path: retained.clone() },
                    None => {
                        return Progress::End(Err(DiskProblem::NotPending));
                    },
                };
                Progress::Ask(RetainRecovery { stage: RetainStage::Syncing, ..self }, action)
            },
            Progress::End(Err(problem)) => Progress::End(Err(problem)),
        }
    }

    /// Carries the operation on from a reply.
    pub fn advance(self, reply: DiskReply) -> (r: Progress<RetainRecovery, Option<RolloutPath>>)
        ensures
            r == self.next(reply),
    {
        let RetainRecovery { pending, retained, stage } = self;
        match (stage, reply) {
            (RetainStage::ReadingPending, DiskReply::Journal(None)) => {
                let sub = RemoveJournal::begin(&pending);
                RetainRecovery { pending, retained, stage: RetainStage::Syncing }.remove_empty(sub)
            },
            (RetainStage::ReadingPending, DiskReply::Journal(Some(recovery))) => {
                let action = match &retained {
                    Some(path) => DiskAction::Exists { path: path.clone() },
                    None => {
                        return Progress::End(Err(DiskProblem::NotPending));
                    },
                };
                Progress::Ask(
                    RetainRecovery {
                        pending,
                        retained,
                        stage: RetainStage::CheckingRetained { recovery },
                    },
                    action,
                )
            },
            (RetainStage::RemovingEmpty(sub), reply) => {
                let progress = sub.advance(reply);
                RetainRecovery { pending, retained, stage: RetainStage::Syncing }.remove_empty(
                    progress,
                )
            },
            (RetainStage::CheckingRetained { recovery }, DiskReply::Answer(exists)) => {
                let path: RolloutPath = match &retained {
                    Some(path) => path.clone(),
                    None => {
                        return Progress::End(Err(DiskProblem::NotPending));
                    },
                };
                if exists {
                    Progress::Ask(
                        RetainRecovery {
                            pending,
                            retained,
                            stage: RetainStage::ReadingRetained { recovery },
                        },
                        DiskAction::ReadJournal { path },
                    )
                } else {
                    let action = DiskAction::Rename { from: pending.path.clone(), to: path };
                    Progress::Ask(
                        RetainRecovery { pending, retained, stage: RetainStage::Moving },
                        action,
                    )
                }
            },
            (RetainStage::ReadingRetained { .. }, DiskReply::Journal(None)) => Progress::End(
                Err(DiskProblem::RetainedEmpty),
            ),
            (RetainStage::ReadingRetained { recovery }, DiskReply::Journal(Some(existing))) => {
                let path: RolloutPath = match &retained {
                    Some(path) => path.clone(),
                    None => {
                        return Progress::End(Err(DiskProblem::NotPending));
                    },
                };
                if existing.same(&recovery) {
                    let sub = RemoveJournal::begin(&pending);
                    RetainRecovery {
                        pending,
                        retained,
                        stage: RetainStage::Syncing,
                    }.remove_pending(sub)
                } else {
                    Progress::End(
                        Err(
                            DiskProblem::Refused {
                                refusal: Refusal::RetainedRecordConflicts,
                                path,
                            },
                        ),
                    )
                }
            },
            (RetainStage::RemovingPending(sub), reply) => {
                let progress = sub.advance(reply);
                RetainRecovery { pending, retained, stage: RetainStage::Syncing }.remove_pending(
                    progress,
                )
            },
            (RetainStage::Moving, DiskReply::Done) => {
                let sub = match &pending.staged {
                    Some(staged) => RemoveIfPresent::begin(staged),
                    None => {
                        return Progress::End(Err(DiskProblem::JournalWithoutName));
                    },
                };
                RetainRecovery { pending, retained, stage: RetainStage::Syncing }.remove_staged(sub)
            },
            (RetainStage::RemovingStaged(sub), reply) => {
                let progress = sub.advance(reply);
                RetainRecovery { pending, retained, stage: RetainStage::Syncing }.remove_staged(
                    progress,
                )
            },
            (RetainStage::Syncing, DiskReply::Done) => Progress::End(Ok(retained)),
            (_, reply) => Progress::End(Err(problem_of(reply))),
        }
    }
}

} // verus!
