//! Releasing a preserved legacy source, once older writers are known to be quiet.

use crate::disk::problem_of;
use crate::disk::reply_problem;
use crate::disk::DiskAction;
use crate::disk::DiskReply;
use crate::disk::Progress;
use crate::paths::RolloutPath;
use crate::publish::JournalPaths;
use crate::publish::JournalWrite;
use crate::recovery::MigrationRecoveryHandle;
use crate::recovery::PreservedSourceFingerprint;
use crate::refusals::DiskProblem;
use crate::refusals::Refusal;
use crate::retention::RemoveJournal;
use vstd::prelude::*;

verus! {

/// Releases one preserved source. The caller has verified the format of the visible rollout and
/// has asserted that older writers are quiet.
///
/// A durable mark that retirement has started makes the removal retryable, without taking a
/// missing source for proof that it was safely retired.
#[derive(Debug)]
pub struct RetireSource {
    pub current_rollout_path: RolloutPath,
    pub journal: JournalPaths,
    pub stage: RetireStage,
}

/// The steps of releasing a source.
#[derive(Debug)]
pub enum RetireStage {
    Reading,
    CheckingSource(Retiring),
    Comparing(Retiring),
    Fingerprinting(Retiring),
    Marking(Retiring, JournalWrite),
    Refingerprinting(Retiring),
    Removing(Retiring),
    Syncing(Retiring),
    RemovingJournal(Retiring, RemoveJournal),
}

/// A record whose source is being released, with the fingerprint that the source must still have.
#[derive(Debug)]
pub struct Retiring {
    pub recovery: MigrationRecoveryHandle,
    pub expected: PreservedSourceFingerprint,
}

impl Retiring {
    pub open spec fn source(self) -> RolloutPath {
        self.recovery.preserved_source_path
    }

    pub open spec fn refused<M>(self, refusal: Refusal) -> Progress<M, Option<RolloutPath>> {
        Progress::End(Err(DiskProblem::Refused { refusal, path: self.source() }))
    }

    fn refuse<M>(self, refusal: Refusal) -> (r: Progress<M, Option<RolloutPath>>)
        ensures
            r == self.refused::<M>(refusal),
    {
        Progress::End(
            Err(DiskProblem::Refused { refusal, path: self.recovery.preserved_source_path }),
        )
    }

    fn path(&self) -> (r: RolloutPath)
        ensures
            r == self.source(),
    {
        self.recovery.preserved_source_path.clone()
    }
}

impl RetireSource {
    pub open spec fn at(self, stage: RetireStage) -> RetireSource {
        RetireSource { stage, ..self }
    }

    pub open spec fn marking(
        self,
        it: Retiring,
        progress: Progress<JournalWrite, ()>,
    ) -> Progress<RetireSource, Option<RolloutPath>> {
        match progress {
            Progress::Ask(sub, action) => Progress::Ask(
                self.at(RetireStage::Marking(it, sub)),
                action,
            ),
            Progress::End(Ok(_)) => Progress::Ask(
                self.at(RetireStage::Refingerprinting(it)),
                DiskAction::Fingerprint { path: it.source() },
            ),
            Progress::End(Err(problem)) => Progress::End(Err(problem)),
        }
    }

    pub open spec fn removing_journal(
        self,
        it: Retiring,
        progress: Progress<RemoveJournal, ()>,
    ) -> Progress<RetireSource, Option<RolloutPath>> {
        match progress {
            Progress::Ask(sub, action) => Progress::Ask(
                self.at(RetireStage::RemovingJournal(it, sub)),
                action,
            ),
            Progress::End(Ok(_)) => Progress::End(Ok(Some(it.source()))),
            Progress::End(Err(problem)) => Progress::End(Err(problem)),
        }
    }

    /// Where the operation begins.
    pub open spec fn begun(self) -> Progress<RetireSource, Option<RolloutPath>> {
        Progress::Ask(
            self.at(RetireStage::Reading),
            DiskAction::ReadJournal { path: self.journal.path },
        )
    }

    /// Where the operation goes from a reply.
    pub open spec fn next(self, reply: DiskReply) -> Progress<RetireSource, Option<RolloutPath>> {
        match (self.stage, reply) {
            (RetireStage::Reading, DiskReply::Journal(None)) => Progress::End(Ok(None)),
            (RetireStage::Reading, DiskReply::Journal(Some(recovery))) => {
                let path = recovery.preserved_source_path;
                if recovery.split_generation_detected {
                    Progress::End(
                        Err(DiskProblem::Refused { refusal: Refusal::SplitGeneration, path }),
                    )
                } else {
                    match recovery.publication_fingerprint {
                        None => Progress::End(
                            Err(DiskProblem::Refused { refusal: Refusal::NoFingerprint, path }),
                        ),
                        Some(expected) => Progress::Ask(
                            self.at(RetireStage::CheckingSource(Retiring { recovery, expected })),
                            DiskAction::Exists { path },
                        ),
                    }
                }
            },
            (RetireStage::CheckingSource(it), DiskReply::Answer(exists)) => if exists {
                Progress::Ask(
                    self.at(RetireStage::Comparing(it)),
                    DiskAction::SameFile { left: self.current_rollout_path, right: it.source() },
                )
            } else if it.recovery.retirement_started {
                self.removing_journal(it, RemoveJournal::begun(self.journal))
            } else {
                it.refused(Refusal::SourceDisappeared)
            },
            (RetireStage::Comparing(it), DiskReply::Answer(same)) => if same {
                Progress::End(
                    Err(
                        DiskProblem::Refused {
                            refusal: Refusal::LegacyStillVisible,
                            path: self.current_rollout_path,
                        },
                    ),
                )
            } else {
                Progress::Ask(
                    self.at(RetireStage::Fingerprinting(it)),
                    DiskAction::Fingerprint { path: it.source() },
                )
            },
            (RetireStage::Fingerprinting(it), DiskReply::Fingerprint(found)) => if found
                == it.expected {
                self.marking(
                    it,
                    JournalWrite::begun(
                        self.journal,
                        MigrationRecoveryHandle { retirement_started: true, ..it.recovery },
                    ),
                )
            } else {
                it.refused(Refusal::ChangedAfterPublication)
            },
            (RetireStage::Marking(it, sub), reply) => self.marking(it, sub.next(reply)),
            (RetireStage::Refingerprinting(it), DiskReply::Fingerprint(found)) => if found
                == it.expected {
                Progress::Ask(
                    self.at(RetireStage::Removing(it)),
                    DiskAction::RemoveFile { path: it.source() },
                )
            } else {
                it.refused(Refusal::ChangedWhileRetiring)
            },
            (RetireStage::Removing(it), DiskReply::Done) => Progress::Ask(
                self.at(RetireStage::Syncing(it)),
                DiskAction::SyncParent { path: it.source() },
            ),
            (RetireStage::Syncing(it), DiskReply::Done) => self.removing_journal(
                it,
                RemoveJournal::begun(self.journal),
            ),
            (RetireStage::RemovingJournal(it, sub), reply) => self.removing_journal(
                it,
                sub.next(reply),
            ),
            (_, reply) => Progress::End(Err(reply_problem(reply))),
        }
    }

    /// The release of the source that a retained record names.
    pub fn new(current_rollout_path: &RolloutPath, retained_journal_path: &RolloutPath) -> (r:
        RetireSource)
        ensures
            r.current_rollout_path == *current_rollout_path,
            r.journal.path == *retained_journal_path,
            r.journal.wf(),
            r.stage is Reading,
    {
        RetireSource {
            current_rollout_path: current_rollout_path.clone(),
            journal: JournalPaths::new(retained_journal_path),
            stage: RetireStage::Reading,
        }
    }

    /// Begins the operation.
    pub fn begin(self) -> (r: Progress<RetireSource, Option<RolloutPath>>)
        ensures
            r == self.begun(),
    {
        let action = DiskAction::ReadJournal { path: self.journal.path.clone() };
        Progress::Ask(RetireSource { stage: RetireStage::Reading, ..self }, action)
    }

    fn mark(self, it: Retiring, progress: Progress<JournalWrite, ()>) -> (r: Progress<
        RetireSource,
        Option<RolloutPath>,
    >)
        ensures
            r == self.marking(it, progress),
    {
        match progress {
            Progress::Ask(sub, action) => Progress::Ask(
                RetireSource { stage: RetireStage::Marking(it, sub), ..self },
                action,
            ),
            Progress::End(Ok(_)) => {
                let action = DiskAction::Fingerprint { path: it.path() };
                Progress::Ask(
                    RetireSource { stage: RetireStage::Refingerprinting(it), ..self },
                    action,
                )
            },
            Progress::End(Err(problem)) => Progress::End(Err(problem)),
        }
    }

    fn remove_journal(self, it: Retiring, progress: Progress<RemoveJournal, ()>) -> (r: Progress<
        RetireSource,
        Option<RolloutPath>,
    >)
        ensures
            r == self.removing_journal(it, progress),
    {
        match progress {
            Progress::Ask(sub, action) => Progress::Ask(
                RetireSource { stage: RetireStage::RemovingJournal(it, sub), ..self },
                action,
            ),
            Progress::End(Ok(_)) => Progress::End(Ok(Some(it.recovery.preserved_source_path))),
            Progress::End(Err(problem)) => Progress::End(Err(problem)),
        }
    }

    /// Carries the operation on from a reply.
    pub fn advance(self, reply: DiskReply) -> (r: Progress<RetireSource, Option<RolloutPath>>)
        ensures
            r == self.next(reply),
    {
        let RetireSource { current_rollout_path, journal, stage } = self;
        let this = RetireSource { current_rollout_path, journal, stage: RetireStage::Reading };
        match (stage, reply) {
            (RetireStage::Reading, DiskReply::Journal(None)) => Progress::End(Ok(None)),
            (RetireStage::Reading, DiskReply::Journal(Some(recovery))) => {
                let path: RolloutPath = recovery.preserved_source_path.clone();
                if recovery.split_generation_detected {
                    return Progress::End(
                        Err(DiskProblem::Refused { refusal: Refusal::SplitGeneration, path }),
                    );
                }
                match recovery.publication_fingerprint {
                    None => Progress::End(
                        Err(DiskProblem::Refused { refusal: Refusal::NoFingerprint, path }),
                    ),
                    Some(expected) => Progress::Ask(
                        RetireSource {
                            stage: RetireStage::CheckingSource(Retiring { recovery, expected }),
                            ..this
                        },
                        DiskAction::Exists { path },
                    ),
                }
            },
            (RetireStage::CheckingSource(it), DiskReply::Answer(exists)) => {
                if exists {
                    let action = DiskAction::SameFile {
                        left: this.current_rollout_path.clone(),
                        right: it.path(),
                    };
                    Progress::Ask(
                        RetireSource { stage: RetireStage::Comparing(it), ..this },
                        action,
                    )
                } else if it.recovery.retirement_started {
                    let sub = RemoveJournal::begin(&this.journal);
                    this.remove_journal(it, sub)
                } else {
                    it.refuse(Refusal::SourceDisappeared)
                }
            },
            (RetireStage::Comparing(it), DiskReply::Answer(same)) => {
                if same {
                    return Progress::End(
                        Err(
                            DiskProblem::Refused {
                                refusal: Refusal::LegacyStillVisible,
                                path: this.current_rollout_path,
                            },
                        ),
                    );
                }
                let action = DiskAction::Fingerprint { path: it.path() };
                Progress::Ask(
                    RetireSource { stage: RetireStage::Fingerprinting(it), ..this },
                    action,
                )
            },
            (RetireStage::Fingerprinting(it), DiskReply::Fingerprint(found)) => {
                if found == it.expected {
                    let retiring = it.recovery.clone().begin_retirement();
                    let sub = JournalWrite::begin(&this.journal, &retiring);
                    this.mark(it, sub)
                } else {
                    it.refuse(Refusal::ChangedAfterPublication)
                }
            },
            (RetireStage::Marking(it, sub), reply) => this.mark(it, sub.advance(reply)),
            (RetireStage::Refingerprinting(it), DiskReply::Fingerprint(found)) => {
                if found == it.expected {
                    let action = DiskAction::RemoveFile { path: it.path() };
                    Progress::Ask(
                        RetireSource { stage: RetireStage::Removing(it), ..this },
                        action,
                    )
                } else {
                    it.refuse(Refusal::ChangedWhileRetiring)
                }
            },
            (RetireStage::Removing(it), DiskReply::Done) => {
                let action = DiskAction::SyncParent { path: it.path() };
                Progress::Ask(RetireSource { stage: RetireStage::Syncing(it), ..this }, action)
            },
            (RetireStage::Syncing(it), DiskReply::Done) => {
                let sub = RemoveJournal::begin(&this.journal);
                this.remove_journal(it, sub)
            },
            (RetireStage::RemovingJournal(it, sub), reply) => this.remove_journal(
                it,
                sub.advance(reply),
            ),
            (_, reply) => Progress::End(Err(problem_of(reply))),
        }
    }
}

} // verus!
