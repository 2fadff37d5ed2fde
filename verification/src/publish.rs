//! Publishing a migrated rollout: the steps on disk, in the order that keeps the legacy source.
//!
//! A migration can stop between publishing the rollout and finishing its metadata. The journal is
//! the durable handoff between the two, so it is written before the rollout is replaced and stays
//! until both are complete.

use crate::disk::problem_of;
use crate::disk::reply_problem;
use crate::disk::DiskAction;
use crate::disk::DiskReply;
use crate::disk::Progress;
use crate::paths::file_name_of;
use crate::paths::journal_staged_of;
use crate::paths::migration_journal_staged_path;
use crate::paths::parent_of;
use crate::paths::RolloutPath;
use crate::recovery::find_journal_conflict;
use crate::recovery::fresh_recovery;
use crate::recovery::journal_conflict;
use crate::recovery::opt_path;
use crate::recovery::MigrationRecoveryHandle;
use crate::recovery::PreservedSourceFingerprint;
use crate::refusals::DiskProblem;
use crate::refusals::Refusal;
use vstd::prelude::*;

verus! {

/// Gives the current source a second, deterministic name that survives publication.
///
/// Finding the same link there already is fine: a retry reuses it. A different file under that
/// name is never overwritten, because it could be the only copy that an older process writes to.
#[derive(Debug)]
pub struct PreserveSource {
    pub rollout_path: RolloutPath,
    pub preserved_source_path: RolloutPath,
    pub stage: PreserveStage,
}

/// The steps of preserving a source.
#[derive(Clone, Copy, Debug, PartialEq, Eq, Structural)]
pub enum PreserveStage {
    Linking,
    ComparingExisting,
    ComparingLinked,
    Syncing,
}

impl PreserveSource {
    pub open spec fn at(self, stage: PreserveStage) -> PreserveSource {
        PreserveSource { stage, ..self }
    }

    pub open spec fn compare(self) -> DiskAction {
        DiskAction::SameFile { left: self.rollout_path, right: self.preserved_source_path }
    }

    /// Where the operation begins.
    pub open spec fn begun(
        rollout_path: RolloutPath,
        preserved_source_path: RolloutPath,
    ) -> Progress<PreserveSource, ()> {
        Progress::Ask(
            PreserveSource { rollout_path, preserved_source_path, stage: PreserveStage::Linking },
            DiskAction::HardLink { from: rollout_path, to: preserved_source_path },
        )
    }

    /// Where the operation goes from a reply.
    pub open spec fn next(self, reply: DiskReply) -> Progress<PreserveSource, ()> {
        match (self.stage, reply) {
            (PreserveStage::Linking, DiskReply::Done) => Progress::Ask(
                self.at(PreserveStage::ComparingLinked),
                self.compare(),
            ),
            (PreserveStage::Linking, DiskReply::AlreadyExists) => Progress::Ask(
                self.at(PreserveStage::ComparingExisting),
                self.compare(),
            ),
            (PreserveStage::ComparingExisting, DiskReply::Answer(same)) => if same {
                Progress::End(Ok(()))
            } else {
                Progress::End(
                    Err(
                        DiskProblem::Refused {
                            refusal: Refusal::DifferentFilePreserved,
                            path: self.preserved_source_path,
                        },
                    ),
                )
            },
            (PreserveStage::ComparingLinked, DiskReply::Answer(same)) => if same {
                Progress::Ask(
                    self.at(PreserveStage::Syncing),
                    DiskAction::SyncParent { path: self.preserved_source_path },
                )
            } else {
                Progress::End(
                    Err(
                        DiskProblem::Refused {
                            refusal: Refusal::ChangedWhileLinking,
                            path: self.preserved_source_path,
                        },
                    ),
                )
            },
            (PreserveStage::Syncing, DiskReply::Done) => Progress::End(Ok(())),
            (_, reply) => Progress::End(Err(reply_problem(reply))),
        }
    }

    /// Begins the operation.
    pub fn begin(rollout_path: &RolloutPath, preserved_source_path: &RolloutPath) -> (r: Progress<
        PreserveSource,
        (),
    >)
        ensures
            r == PreserveSource::begun(*rollout_path, *preserved_source_path),
    {
        Progress::Ask(
            PreserveSource {
                rollout_path: rollout_path.clone(),
                preserved_source_path: preserved_source_path.clone(),
                stage: PreserveStage::Linking,
            },
            DiskAction::HardLink {
                from: rollout_path.clone(),
                to: preserved_source_path.clone(),
            },
        )
    }

    /// Carries the operation on from a reply.
    pub fn advance(self, reply: DiskReply) -> (r: Progress<PreserveSource, ()>)
        ensures
            r == self.next(reply),
    {
        match (self.stage, reply) {
            (PreserveStage::Linking, DiskReply::Done) => {
                let question = DiskAction::SameFile {
                    left: self.rollout_path.clone(),
                    right: self.preserved_source_path.clone(),
                };
                Progress::Ask(
                    PreserveSource { stage: PreserveStage::ComparingLinked, ..self },
                    question,
                )
            },
            (PreserveStage::Linking, DiskReply::AlreadyExists) => {
                let question = DiskAction::SameFile {
                    left: self.rollout_path.clone(),
                    right: self.preserved_source_path.clone(),
                };
                Progress::Ask(
                    PreserveSource { stage: PreserveStage::ComparingExisting, ..self },
                    question,
                )
            },
            (PreserveStage::ComparingExisting, DiskReply::Answer(same)) => {
                if same {
                    Progress::End(Ok(()))
                } else {
                    Progress::End(
                        Err(
                            DiskProblem::Refused {
                                refusal: Refusal::DifferentFilePreserved,
                                path: self.preserved_source_path,
                            },
                        ),
                    )
                }
            },
            (PreserveStage::ComparingLinked, DiskReply::Answer(same)) => {
                if same {
                    let action = DiskAction::SyncParent { path: self.preserved_source_path.clone() };
                    Progress::Ask(PreserveSource { stage: PreserveStage::Syncing, ..self }, action)
                } else {
                    Progress::End(
                        Err(
                            DiskProblem::Refused {
                                refusal: Refusal::ChangedWhileLinking,
                                path: self.preserved_source_path,
                            },
                        ),
                    )
                }
            },
            (PreserveStage::Syncing, DiskReply::Done) => Progress::End(Ok(())),
            (_, reply) => Progress::End(Err(problem_of(reply))),
        }
    }
}

/// A journal, with the directory that holds it and the file in which it is written before it
/// takes its place, where it has them.
#[derive(Debug, PartialEq, Eq)]
pub struct JournalPaths {
    pub path: RolloutPath,
    pub parent: Option<RolloutPath>,
    pub staged: Option<RolloutPath>,
}

/// A copy of an optional path.
pub fn copy_path(path: &Option<RolloutPath>) -> (r: Option<RolloutPath>)
    ensures
        r == *path,
{
    match path {
        Some(p) => Some(p.clone()),
        None => None,
    }
}

impl JournalPaths {
    /// Whether the paths beside the journal are those that follow from its own path.
    pub open spec fn wf(self) -> bool {
        &&& opt_path(self.parent) == parent_of(self.path@)
        &&& self.staged is Some == file_name_of(self.path@) is Some
        &&& self.staged is Some ==> self.staged->0@ == journal_staged_of(self.path@)
    }

    /// The journal at a path.
    pub fn new(path: &RolloutPath) -> (r: JournalPaths)
        ensures
            r.wf(),
            r.path == *path,
    {
        let staged: Option<RolloutPath> = match migration_journal_staged_path(path) {
            Ok(staged) => Some(staged),
            Err(_) => None,
        };
        JournalPaths { path: path.clone(), parent: path.parent(), staged }
    }
}

impl Clone for JournalPaths {
    fn clone(&self) -> (r: Self)
        ensures
            r == *self,
    {
        JournalPaths {
            path: self.path.clone(),
            parent: copy_path(&self.parent),
            staged: copy_path(&self.staged),
        }
    }
}

/// Writes a recovery record into a journal, unless the record on disk forbids it: the record is
/// written beside the journal, made durable, and moved into place.
#[derive(Debug)]
pub struct JournalWrite {
    pub journal: JournalPaths,
    pub recovery: MigrationRecoveryHandle,
    pub stage: JournalStage,
}

/// The steps of writing a journal.
#[derive(Clone, Copy, Debug, PartialEq, Eq, Structural)]
pub enum JournalStage {
    Reading,
    CheckingParent,
    CreatingParent { existed: bool },
    SyncingParent,
    WritingStaged,
    Moving,
    Syncing,
}

impl JournalWrite {
    /// Where the operation begins: it asks what the journal holds.
    pub open spec fn begun(
        journal: JournalPaths,
        recovery: MigrationRecoveryHandle,
    ) -> Progress<JournalWrite, ()> {
        Progress::Ask(
            JournalWrite { journal, recovery, stage: JournalStage::Reading },
            DiskAction::ReadJournal { path: journal.path },
        )
    }

    pub open spec fn at(self, stage: JournalStage) -> JournalWrite {
        JournalWrite { stage, ..self }
    }

    pub open spec fn written(self) -> Progress<JournalWrite, ()> {
        match self.journal.parent {
            None => Progress::End(Err(DiskProblem::JournalWithoutParent)),
            Some(parent) => Progress::Ask(
                self.at(JournalStage::CheckingParent),
                DiskAction::Exists { path: parent },
            ),
        }
    }

    pub open spec fn staged_written(self) -> Progress<JournalWrite, ()> {
        match self.journal.staged {
            None => Progress::End(Err(DiskProblem::JournalWithoutName)),
            Some(staged) => Progress::Ask(
                self.at(JournalStage::WritingStaged),
                DiskAction::WriteJournalFile { path: staged, recovery: self.recovery },
            ),
        }
    }

    /// Where the operation goes from a reply.
    pub open spec fn next(self, reply: DiskReply) -> Progress<JournalWrite, ()> {
        match (self.stage, reply) {
            (JournalStage::Reading, DiskReply::Journal(None)) => self.written(),
            (JournalStage::Reading, DiskReply::Journal(Some(existing))) => if existing@
                == self.recovery@ {
                Progress::End(Ok(()))
            } else {
                match journal_conflict(existing@, self.recovery@) {
                    Some(conflict) => Progress::End(
                        Err(
                            DiskProblem::Refused {
                                refusal: Refusal::Journal(conflict),
                                path: existing.preserved_source_path,
                            },
                        ),
                    ),
                    None => self.written(),
                }
            },
            (JournalStage::CheckingParent, DiskReply::Answer(existed)) => match self.journal.parent {
                Some(parent) => Progress::Ask(
                    self.at(JournalStage::CreatingParent { existed }),
                    DiskAction::CreateDirectories { path: parent },
                ),
                None => Progress::End(Err(DiskProblem::JournalWithoutParent)),
            },
            (JournalStage::CreatingParent { existed }, DiskReply::Done) => if existed {
                self.staged_written()
            } else {
                match self.journal.parent {
                    Some(parent) => Progress::Ask(
                        self.at(JournalStage::SyncingParent),
                        DiskAction::SyncParent { path: parent },
                    ),
                    None => Progress::End(Err(DiskProblem::JournalWithoutParent)),
                }
            },
            (JournalStage::SyncingParent, DiskReply::Done) => self.staged_written(),
            (JournalStage::WritingStaged, DiskReply::Done) => match self.journal.staged {
                Some(staged) => Progress::Ask(
                    self.at(JournalStage::Moving),
                    DiskAction::Rename { from: staged, to: self.journal.path },
                ),
                None => Progress::End(Err(DiskProblem::JournalWithoutName)),
            },
            (JournalStage::Moving, DiskReply::Done) => Progress::Ask(
                self.at(JournalStage::Syncing),
                DiskAction::SyncParent { path: self.journal.path },
            ),
            (JournalStage::Syncing, DiskReply::Done) => Progress::End(Ok(())),
            (_, reply) => Progress::End(Err(reply_problem(reply))),
        }
    }

    /// Begins the operation.
    pub fn begin(journal: &JournalPaths, recovery: &MigrationRecoveryHandle) -> (r: Progress<
        JournalWrite,
        (),
    >)
        ensures
            r == JournalWrite::begun(*journal, *recovery),
    {
        Progress::Ask(
            JournalWrite {
                journal: journal.clone(),
                recovery: recovery.clone(),
                stage: JournalStage::Reading,
            },
            DiskAction::ReadJournal { path: journal.path.clone() },
        )
    }

    fn write(self) -> (r: Progress<JournalWrite, ()>)
        ensures
            r == self.written(),
    {
        let action = match &self.journal.parent {
            None => {
                return Progress::End(Err(DiskProblem::JournalWithoutParent));
            },
            Some(parent) => DiskAction::Exists { path: parent.clone() },
        };
        Progress::Ask(JournalWrite { stage: JournalStage::CheckingParent, ..self }, action)
    }

    fn write_staged(self) -> (r: Progress<JournalWrite, ()>)
        ensures
            r == self.staged_written(),
    {
        let action = match &self.journal.staged {
            None => {
                return Progress::End(Err(DiskProblem::JournalWithoutName));
            },
            Some(staged) => DiskAction::WriteJournalFile {
                path: staged.clone(),
                recovery: self.recovery.clone(),
            },
        };
        Progress::Ask(JournalWrite { stage: JournalStage::WritingStaged, ..self }, action)
    }

    /// Carries the operation on from a reply.
    pub fn advance(self, reply: DiskReply) -> (r: Progress<JournalWrite, ()>)
        ensures
            r == self.next(reply),
    {
        match (self.stage, reply) {
            (JournalStage::Reading, DiskReply::Journal(None)) => self.write(),
            (JournalStage::Reading, DiskReply::Journal(Some(existing))) => {
                if existing.same(&self.recovery) {
                    return Progress::End(Ok(()));
                }
                match find_journal_conflict(&existing, &self.recovery) {
                    Some(conflict) => Progress::End(
                        Err(
                            DiskProblem::Refused {
                                refusal: Refusal::Journal(conflict),
                                path: existing.preserved_source_path,
                            },
                        ),
                    ),
                    None => self.write(),
                }
            },
            (JournalStage::CheckingParent, DiskReply::Answer(existed)) => {
                let action = match &self.journal.parent {
                    Some(parent) => DiskAction::CreateDirectories { path: parent.clone() },
                    None => {
                        return Progress::End(Err(DiskProblem::JournalWithoutParent));
                    },
                };
                Progress::Ask(
                    JournalWrite { stage: JournalStage::CreatingParent { existed }, ..self },
                    action,
                )
            },
            (JournalStage::CreatingParent { existed }, DiskReply::Done) => {
                if existed {
                    return self.write_staged();
                }
                let action = match &self.journal.parent {
                    Some(parent) => DiskAction::SyncParent { path: parent.clone() },
                    None => {
                        return Progress::End(Err(DiskProblem::JournalWithoutParent));
                    },
                };
                Progress::Ask(JournalWrite { stage: JournalStage::SyncingParent, ..self }, action)
            },
            (JournalStage::SyncingParent, DiskReply::Done) => self.write_staged(),
            (JournalStage::WritingStaged, DiskReply::Done) => {
                let action = match &self.journal.staged {
                    Some(staged) => DiskAction::Rename {
                        from: staged.clone(),
                        to: self.journal.path.clone(),
                    },
                    None => {
                        return Progress::End(Err(DiskProblem::JournalWithoutName));
                    },
                };
                Progress::Ask(JournalWrite { stage: JournalStage::Moving, ..self }, action)
            },
            (JournalStage::Moving, DiskReply::Done) => {
                let action = DiskAction::SyncParent { path: self.journal.path.clone() };
                Progress::Ask(JournalWrite { stage: JournalStage::Syncing, ..self }, action)
            },
            (JournalStage::Syncing, DiskReply::Done) => Progress::End(Ok(())),
            (_, reply) => Progress::End(Err(problem_of(reply))),
        }
    }
}

/// Publishes staged bytes, once the legacy file has a durable second name and its fingerprint has
/// reached the journal.
#[derive(Debug)]
pub struct PublishRollout {
    pub rollout_path: RolloutPath,
    pub published_rollout_path: RolloutPath,
    pub staged_path: RolloutPath,
    pub preserved_source_path: RolloutPath,
    pub journal: JournalPaths,
    pub expected_source_fingerprint: PreservedSourceFingerprint,
    pub recovery: MigrationRecoveryHandle,
    pub stage: PublishStage,
}

/// The steps of publishing.
#[derive(Debug)]
pub enum PublishStage {
    CheckingTarget,
    Preserving(PreserveSource),
    Fingerprinting,
    Journaling(JournalWrite),
    Publishing,
    Syncing,
}

impl PublishRollout {
    /// Whether the record to be written is that of this publication.
    pub open spec fn wf(self) -> bool {
        self.journal.wf() && self.recovery@ == fresh_recovery(
            self.rollout_path@,
            self.published_rollout_path@,
            self.preserved_source_path@,
        ).fingerprinted(self.expected_source_fingerprint)
    }

    pub open spec fn at(self, stage: PublishStage) -> PublishRollout {
        PublishRollout { stage, ..self }
    }

    pub open spec fn preserving(self, progress: Progress<PreserveSource, ()>) -> Progress<
        PublishRollout,
        MigrationRecoveryHandle,
    > {
        match progress {
            Progress::Ask(sub, action) => Progress::Ask(
                self.at(PublishStage::Preserving(sub)),
                action,
            ),
            Progress::End(Ok(_)) => Progress::Ask(
                self.at(PublishStage::Fingerprinting),
                DiskAction::Fingerprint { path: self.preserved_source_path },
            ),
            Progress::End(Err(problem)) => Progress::End(Err(problem)),
        }
    }

    pub open spec fn journaling(self, progress: Progress<JournalWrite, ()>) -> Progress<
        PublishRollout,
        MigrationRecoveryHandle,
    > {
        match progress {
            Progress::Ask(sub, action) => Progress::Ask(
                self.at(PublishStage::Journaling(sub)),
                action,
            ),
            Progress::End(Ok(_)) => Progress::Ask(
                self.at(PublishStage::Publishing),
                DiskAction::Rename { from: self.staged_path, to: self.published_rollout_path },
            ),
            Progress::End(Err(problem)) => Progress::End(Err(problem)),
        }
    }

    pub open spec fn preserve_begun(self) -> Progress<PublishRollout, MigrationRecoveryHandle> {
        self.preserving(PreserveSource::begun(self.rollout_path, self.preserved_source_path))
    }

    /// Where the operation begins.
    pub open spec fn begun(self) -> Progress<PublishRollout, MigrationRecoveryHandle> {
        if self.published_rollout_path@ == self.rollout_path@ {
            self.preserve_begun()
        } else {
            Progress::Ask(
                self.at(PublishStage::CheckingTarget),
                DiskAction::Exists { path: self.published_rollout_path },
            )
        }
    }

    /// Where the operation goes from a reply.
    pub open spec fn next(self, reply: DiskReply) -> Progress<
        PublishRollout,
        MigrationRecoveryHandle,
    > {
        match (self.stage, reply) {
            (PublishStage::CheckingTarget, DiskReply::Answer(exists)) => if exists {
                Progress::End(
                    Err(
                        DiskProblem::Refused {
                            refusal: Refusal::TargetExists,
                            path: self.published_rollout_path,
                        },
                    ),
                )
            } else {
                self.preserve_begun()
            },
            (PublishStage::Preserving(sub), reply) => self.preserving(sub.next(reply)),
            (PublishStage::Fingerprinting, DiskReply::Fingerprint(found)) => if found
                == self.expected_source_fingerprint {
                self.journaling(JournalWrite::begun(self.journal, self.recovery))
            } else {
                Progress::End(
                    Err(
                        DiskProblem::Refused {
                            refusal: Refusal::ChangedBeforePinning,
                            path: self.rollout_path,
                        },
                    ),
                )
            },
            (PublishStage::Journaling(sub), reply) => self.journaling(sub.next(reply)),
            (PublishStage::Publishing, DiskReply::Done) => Progress::Ask(
                self.at(PublishStage::Syncing),
                DiskAction::SyncParent { path: self.published_rollout_path },
            ),
            (PublishStage::Syncing, DiskReply::Done) => Progress::End(Ok(self.recovery)),
            (_, reply) => Progress::End(Err(reply_problem(reply))),
        }
    }

    /// The publication of a staged rollout under a name, with the legacy source preserved under
    /// another.
    pub fn new(
        rollout_path: &RolloutPath,
        published_rollout_path: &RolloutPath,
        staged_path: &RolloutPath,
        preserved_source_path: &RolloutPath,
        journal_path: &RolloutPath,
        expected_source_fingerprint: PreservedSourceFingerprint,
    ) -> (r: PublishRollout)
        ensures
            r.wf(),
            r.rollout_path == *rollout_path,
            r.published_rollout_path == *published_rollout_path,
            r.staged_path == *staged_path,
            r.preserved_source_path == *preserved_source_path,
            r.journal.path == *journal_path,
            r.expected_source_fingerprint == expected_source_fingerprint,
            r.stage is CheckingTarget,
    {
        let recovery = MigrationRecoveryHandle::new_with_published_path(
            rollout_path.clone(),
            published_rollout_path.clone(),
            preserved_source_path.clone(),
        ).with_publication_fingerprint(expected_source_fingerprint);
        PublishRollout {
            rollout_path: rollout_path.clone(),
            published_rollout_path: published_rollout_path.clone(),
            staged_path: staged_path.clone(),
            preserved_source_path: preserved_source_path.clone(),
            journal: JournalPaths::new(journal_path),
            expected_source_fingerprint,
            recovery,
            stage: PublishStage::CheckingTarget,
        }
    }

    fn preserve(self, progress: Progress<PreserveSource, ()>) -> (r: Progress<
        PublishRollout,
        MigrationRecoveryHandle,
    >)
        ensures
            r == self.preserving(progress),
    {
        match progress {
            Progress::Ask(sub, action) => Progress::Ask(
                PublishRollout { stage: PublishStage::Preserving(sub), ..self },
                action,
            ),
            Progress::End(Ok(_)) => {
                let action = DiskAction::Fingerprint { path: self.preserved_source_path.clone() };
                Progress::Ask(
                    PublishRollout { stage: PublishStage::Fingerprinting, ..self },
                    action,
                )
            },
            Progress::End(Err(problem)) => Progress::End(Err(problem)),
        }
    }

    fn write_journal(self, progress: Progress<JournalWrite, ()>) -> (r: Progress<
        PublishRollout,
        MigrationRecoveryHandle,
    >)
        ensures
            r == self.journaling(progress),
    {
        match progress {
            Progress::Ask(sub, action) => Progress::Ask(
                PublishRollout { stage: PublishStage::Journaling(sub), ..self },
                action,
            ),
            Progress::End(Ok(_)) => {
                let action = DiskAction::Rename {
                    from: self.staged_path.clone(),
                    to: self.published_rollout_path.clone(),
                };
                Progress::Ask(PublishRollout { stage: PublishStage::Publishing, ..self }, action)
            },
            Progress::End(Err(problem)) => Progress::End(Err(problem)),
        }
    }

    /// Begins the operation.
    pub fn begin(self) -> (r: Progress<PublishRollout, MigrationRecoveryHandle>)
        ensures
            r == self.begun(),
    {
        if self.published_rollout_path.same(&self.rollout_path) {
            let sub = PreserveSource::begin(&self.rollout_path, &self.preserved_source_path);
            self.preserve(sub)
        } else {
            let action = DiskAction::Exists { path: self.published_rollout_path.clone() };
            Progress::Ask(PublishRollout { stage: PublishStage::CheckingTarget, ..self }, action)
        }
    }

    /// Carries the operation on from a reply.
    pub fn advance(self, reply: DiskReply) -> (r: Progress<PublishRollout, MigrationRecoveryHandle>)
        ensures
            r == self.next(reply),
    {
        let PublishRollout {
            rollout_path,
            published_rollout_path,
            staged_path,
            preserved_source_path,
            journal,
            expected_source_fingerprint,
            recovery,
            stage,
        } = self;
        let this = PublishRollout {
            rollout_path,
            published_rollout_path,
            staged_path,
            preserved_source_path,
            journal,
            expected_source_fingerprint,
            recovery,
            stage: PublishStage::Syncing,
        };
        match (stage, reply) {
            (PublishStage::CheckingTarget, DiskReply::Answer(exists)) => {
                if exists {
                    return Progress::End(
                        Err(
                            DiskProblem::Refused {
                                refusal: Refusal::TargetExists,
                                path: this.published_rollout_path,
                            },
                        ),
                    );
                }
                let sub = PreserveSource::begin(&this.rollout_path, &this.preserved_source_path);
                this.preserve(sub)
            },
            (PublishStage::Preserving(sub), reply) => this.preserve(sub.advance(reply)),
            (PublishStage::Fingerprinting, DiskReply::Fingerprint(found)) => {
                if found == this.expected_source_fingerprint {
                    let sub = JournalWrite::begin(&this.journal, &this.recovery);
                    this.write_journal(sub)
                } else {
                    Progress::End(
                        Err(
                            DiskProblem::Refused {
                                refusal: Refusal::ChangedBeforePinning,
                                path: this.rollout_path,
                            },
                        ),
                    )
                }
            },
            (PublishStage::Journaling(sub), reply) => this.write_journal(sub.advance(reply)),
            (PublishStage::Publishing, DiskReply::Done) => {
                let action = DiskAction::SyncParent { path: this.published_rollout_path.clone() };
                Progress::Ask(PublishRollout { stage: PublishStage::Syncing, ..this }, action)
            },
            (PublishStage::Syncing, DiskReply::Done) => Progress::End(Ok(this.recovery)),
            (_, reply) => Progress::End(Err(problem_of(reply))),
        }
    }
}

} // verus!
