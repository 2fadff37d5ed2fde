//! Whether the visible generation of a migrated thread may be written to.

use crate::disk::problem_of;
use crate::disk::reply_problem;
use crate::disk::DiskAction;
use crate::disk::DiskReply;
use crate::disk::Progress;
use crate::error::ThreadId;
use crate::paths::RolloutPath;
use crate::publish::JournalPaths;
use crate::publish::JournalWrite;
use crate::recovery::MigrationRecoveryHandle;
use crate::recovery::PreservedSourceFingerprint;
use crate::refusals::DiskProblem;
use crate::refusals::RecoveryRefusal;
use vstd::prelude::*;

verus! {

/// Compares the preserved legacy source with the fingerprint that it had at publication, and
/// durably marks a divergence. The mark stays: once either generation has moved on, neither may
/// be silently discarded or resumed as if it were complete.
#[derive(Debug)]
pub struct VerifySource {
    pub thread_id: ThreadId,
    pub journal: JournalPaths,
    pub selected: RolloutPath,
    pub stage: VerifyStage,
}

/// The steps of the comparison.
#[derive(Debug)]
pub enum VerifyStage {
    Reading,
    Validating(MigrationRecoveryHandle),
    Fingerprinting(MigrationRecoveryHandle, PreservedSourceFingerprint),
    Marking(MigrationRecoveryHandle, JournalWrite),
}

impl VerifySource {
    pub open spec fn at(self, stage: VerifyStage) -> VerifySource {
        VerifySource { stage, ..self }
    }

    pub open spec fn refused(self, refusal: RecoveryRefusal) -> Progress<VerifySource, ()> {
        Progress::End(Err(DiskProblem::Recovery { thread_id: self.thread_id, refusal }))
    }

    pub open spec fn marking(
        self,
        recovery: MigrationRecoveryHandle,
        progress: Progress<JournalWrite, ()>,
    ) -> Progress<VerifySource, ()> {
        match progress {
            Progress::Ask(sub, action) => Progress::Ask(
                self.at(VerifyStage::Marking(recovery, sub)),
                action,
            ),
            Progress::End(Ok(_)) => self.refused(
                RecoveryRefusal::ChangedByOlderWriter { path: recovery.preserved_source_path },
            ),
            Progress::End(Err(problem)) => Progress::End(Err(problem)),
        }
    }

    /// Where the operation begins.
    pub open spec fn begun(
        thread_id: ThreadId,
        journal: JournalPaths,
        selected: RolloutPath,
    ) -> Progress<VerifySource, ()> {
        Progress::Ask(
            VerifySource { thread_id, journal, selected, stage: VerifyStage::Reading },
            DiskAction::ReadJournal { path: journal.path },
        )
    }

    /// Where the operation goes from a reply.
    pub open spec fn next(self, reply: DiskReply) -> Progress<VerifySource, ()> {
        match (self.stage, reply) {
            (VerifyStage::Reading, DiskReply::Journal(None)) => Progress::End(Ok(())),
            (VerifyStage::Reading, DiskReply::Journal(Some(recovery))) => Progress::Ask(
                self.at(VerifyStage::Validating(recovery)),
                DiskAction::Validate {
                    thread_id: self.thread_id,
                    journal_path: self.journal.path,
                    recovery,
                    selected: Some(self.selected),
                    require_publication_fingerprint: true,
                },
            ),
            (VerifyStage::Validating(recovery), DiskReply::Done) => {
                if recovery.split_generation_detected {
                    self.refused(
                        RecoveryRefusal::Diverged { path: recovery.preserved_source_path },
                    )
                } else if recovery.retirement_started {
                    self.refused(RecoveryRefusal::RetirementIncomplete)
                } else {
                    match recovery.publication_fingerprint {
                        None => self.refused(RecoveryRefusal::NoPublicationFingerprint),
                        Some(expected) => Progress::Ask(
                            self.at(VerifyStage::Fingerprinting(recovery, expected)),
                            DiskAction::Fingerprint { path: recovery.preserved_source_path },
                        ),
                    }
                }
            },
            (
                VerifyStage::Fingerprinting(recovery, expected),
                DiskReply::Fingerprint(found),
            ) => if found == expected {
                Progress::End(Ok(()))
            } else {
                self.marking(
                    recovery,
                    JournalWrite::begun(
                        self.journal,
                        MigrationRecoveryHandle { split_generation_detected: true, ..recovery },
                    ),
                )
            },
            (VerifyStage::Marking(recovery, sub), reply) => self.marking(recovery, sub.next(reply)),
            (_, reply) => Progress::End(Err(reply_problem(reply))),
        }
    }

    /// Begins the operation.
    pub fn begin(thread_id: ThreadId, journal: &JournalPaths, selected: &RolloutPath) -> (r:
        Progress<VerifySource, ()>)
        ensures
            r == VerifySource::begun(thread_id, *journal, *selected),
    {
        Progress::Ask(
            VerifySource {
                thread_id,
                journal: journal.clone(),
                selected: selected.clone(),
                stage: VerifyStage::Reading,
            },
            DiskAction::ReadJournal { path: journal.path.clone() },
        )
    }

    fn refuse(self, refusal: RecoveryRefusal) -> (r: Progress<VerifySource, ()>)
        ensures
            r == self.refused(refusal),
    {
        Progress::End(Err(DiskProblem::Recovery { thread_id: self.thread_id, refusal }))
    }

    fn mark(
        self,
        recovery: MigrationRecoveryHandle,
        progress: Progress<JournalWrite, ()>,
    ) -> (r: Progress<VerifySource, ()>)
        ensures
            r == self.marking(recovery, progress),
    {
        match progress {
            Progress::Ask(sub, action) => Progress::Ask(
                VerifySource { stage: VerifyStage::Marking(recovery, sub), ..self },
                action,
            ),
            Progress::End(Ok(_)) => self.refuse(
                RecoveryRefusal::ChangedByOlderWriter { path: recovery.preserved_source_path },
            ),
            Progress::End(Err(problem)) => Progress::End(Err(problem)),
        }
    }

    /// Carries the operation on from a reply.
    pub fn advance(self, reply: DiskReply) -> (r: Progress<VerifySource, ()>)
        ensures
            r == self.next(reply),
    {
        let VerifySource { thread_id, journal, selected, stage } = self;
        let this = VerifySource { thread_id, journal, selected, stage: VerifyStage::Reading };
        match (stage, reply) {
            (VerifyStage::Reading, DiskReply::Journal(None)) => Progress::End(Ok(())),
            (VerifyStage::Reading, DiskReply::Journal(Some(recovery))) => {
                let action = DiskAction::Validate {
                    thread_id: this.thread_id,
                    journal_path: this.journal.path.clone(),
                    recovery: recovery.clone(),
                    selected: Some(this.selected.clone()),
                    require_publication_fingerprint: true,
                };
                Progress::Ask(
                    VerifySource { stage: VerifyStage::Validating(recovery), ..this },
                    action,
                )
            },
            (VerifyStage::Validating(recovery), DiskReply::Done) => {
                if recovery.split_generation_detected {
                    return this.refuse(
                        RecoveryRefusal::Diverged { path: recovery.preserved_source_path },
                    );
                }
                if recovery.retirement_started {
                    return this.refuse(RecoveryRefusal::RetirementIncomplete);
                }
                match recovery.publication_fingerprint {
                    None => this.refuse(RecoveryRefusal::NoPublicationFingerprint),
                    Some(expected) => {
                        let action = DiskAction::Fingerprint {
                            path: recovery.preserved_source_path.clone(),
                        };
                        Progress::Ask(
                            VerifySource {
                                stage: VerifyStage::Fingerprinting(recovery, expected),
                                ..this
                            },
                            action,
                        )
                    },
                }
            },
            (
                VerifyStage::Fingerprinting(recovery, expected),
                DiskReply::Fingerprint(found),
            ) => {
                if found == expected {
                    return Progress::End(Ok(()));
                }
                let split = recovery.clone().mark_split_generation();
                let sub = JournalWrite::begin(&this.journal, &split);
                this.mark(recovery, sub)
            },
            (VerifyStage::Marking(recovery, sub), reply) => this.mark(recovery, sub.advance(reply)),
            (_, reply) => Progress::End(Err(problem_of(reply))),
        }
    }
}

/// Fails closed where a migrated thread has an unfinished publication or a diverged legacy
/// generation. This runs under the writer lock of the thread, before it is resumed and around
/// every durable write.
#[derive(Debug)]
pub struct EnsureWritable {
    pub thread_id: ThreadId,
    pub pending: JournalPaths,
    pub retained: JournalPaths,
    pub selected: RolloutPath,
    pub stage: WritableStage,
}

/// The steps of the test.
#[derive(Debug)]
pub enum WritableStage {
    CheckingPending,
    VerifyingPending(VerifySource),
    VerifyingRetained(VerifySource),
}

impl EnsureWritable {
    pub open spec fn at(self, stage: WritableStage) -> EnsureWritable {
        EnsureWritable { stage, ..self }
    }

    pub open spec fn verifying_pending(self, progress: Progress<VerifySource, ()>) -> Progress<
        EnsureWritable,
        (),
    > {
        match progress {
            Progress::Ask(sub, action) => Progress::Ask(
                self.at(WritableStage::VerifyingPending(sub)),
                action,
            ),
            Progress::End(Ok(_)) => Progress::End(
                Err(
                    DiskProblem::Recovery {
                        thread_id: self.thread_id,
                        refusal: RecoveryRefusal::PublicationPending,
                    },
                ),
            ),
            Progress::End(Err(problem)) => Progress::End(Err(problem)),
        }
    }

    pub open spec fn verifying_retained(self, progress: Progress<VerifySource, ()>) -> Progress<
        EnsureWritable,
        (),
    > {
        match progress {
            Progress::Ask(sub, action) => Progress::Ask(
                self.at(WritableStage::VerifyingRetained(sub)),
                action,
            ),
            Progress::End(result) => Progress::End(result),
        }
    }

    /// Where the operation begins.
    pub open spec fn begun(self) -> Progress<EnsureWritable, ()> {
        Progress::Ask(
            self.at(WritableStage::CheckingPending),
            DiskAction::Exists { path: self.pending.path },
        )
    }

    /// Where the operation goes from a reply.
    pub open spec fn next(self, reply: DiskReply) -> Progress<EnsureWritable, ()> {
        match (self.stage, reply) {
            (WritableStage::CheckingPending, DiskReply::Answer(exists)) => if exists {
                self.verifying_pending(
                    VerifySource::begun(self.thread_id, self.pending, self.selected),
                )
            } else {
                self.verifying_retained(
                    VerifySource::begun(self.thread_id, self.retained, self.selected),
                )
            },
            (WritableStage::VerifyingPending(sub), reply) => self.verifying_pending(
                sub.next(reply),
            ),
            (WritableStage::VerifyingRetained(sub), reply) => self.verifying_retained(
                sub.next(reply),
            ),
            (_, reply) => Progress::End(Err(reply_problem(reply))),
        }
    }

    /// The test for one thread, whose writer is about to use the selected rollout.
    pub fn new(home: &RolloutPath, thread_id: ThreadId, selected: &RolloutPath) -> (r:
        EnsureWritable)
        ensures
            r.thread_id == thread_id,
            r.pending.wf() && r.pending.path@ == crate::paths::pending_journal_of(home@, thread_id),
            r.retained.wf() && r.retained.path@ == crate::paths::retained_journal_of(
                home@,
                thread_id,
            ),
            r.selected == *selected,
            r.stage is CheckingPending,
    {
        EnsureWritable {
            thread_id,
            pending: JournalPaths::new(&crate::paths::migration_journal_path(home, thread_id)),
            retained: JournalPaths::new(
                &crate::paths::retained_migration_recovery_path(home, thread_id),
            ),
            selected: selected.clone(),
            stage: WritableStage::CheckingPending,
        }
    }

    /// Begins the operation.
    pub fn begin(self) -> (r: Progress<EnsureWritable, ()>)
        ensures
            r == self.begun(),
    {
        let action = DiskAction::Exists { path: self.pending.path.clone() };
        Progress::Ask(EnsureWritable { stage: WritableStage::CheckingPending, ..self }, action)
    }

    fn verify_pending(self, progress: Progress<VerifySource, ()>) -> (r: Progress<
        EnsureWritable,
        (),
    >)
        ensures
            r == self.verifying_pending(progress),
    {
        match progress {
            Progress::Ask(sub, action) => Progress::Ask(
                EnsureWritable { stage: WritableStage::VerifyingPending(sub), ..self },
                action,
            ),
            Progress::End(Ok(_)) => Progress::End(
                Err(
                    DiskProblem::Recovery {
                        thread_id: self.thread_id,
                        refusal: RecoveryRefusal::PublicationPending,
                    },
                ),
            ),
            Progress::End(Err(problem)) => Progress::End(Err(problem)),
        }
    }

    fn verify_retained(self, progress: Progress<VerifySource, ()>) -> (r: Progress<
        EnsureWritable,
        (),
    >)
        ensures
            r == self.verifying_retained(progress),
    {
        match progress {
            Progress::Ask(sub, action) => Progress::Ask(
                EnsureWritable { stage: WritableStage::VerifyingRetained(sub), ..self },
                action,
            ),
            Progress::End(result) => Progress::End(result),
        }
    }

    /// Carries the operation on from a reply.
    pub fn advance(self, reply: DiskReply) -> (r: Progress<EnsureWritable, ()>)
        ensures
            r == self.next(reply),
    {
        let EnsureWritable { thread_id, pending, retained, selected, stage } = self;
        let this = EnsureWritable {
            thread_id,
            pending,
            retained,
            selected,
            stage: WritableStage::CheckingPending,
        };
        match (stage, reply) {
            (WritableStage::CheckingPending, DiskReply::Answer(exists)) => {
                if exists {
                    let sub = VerifySource::begin(this.thread_id, &this.pending, &this.selected);
                    this.verify_pending(sub)
                } else {
                    let sub = VerifySource::begin(this.thread_id, &this.retained, &this.selected);
                    this.verify_retained(sub)
                }
            },
            (WritableStage::VerifyingPending(sub), reply) => this.verify_pending(
                sub.advance(reply),
            ),
            (WritableStage::VerifyingRetained(sub), reply) => this.verify_retained(
                sub.advance(reply),
            ),
            (_, reply) => Progress::End(Err(problem_of(reply))),
        }
    }
}

/// Asks, without changing anything, whether a retained generation has to be reconciled.
#[derive(Debug)]
pub struct NeedsReconciliation {
    pub thread_id: ThreadId,
    pub retained_path: RolloutPath,
    pub selected: RolloutPath,
    pub stage: ReconciliationStage,
}

/// The steps of the question.
#[derive(Debug)]
pub enum ReconciliationStage {
    Reading,
    Validating(MigrationRecoveryHandle),
    Fingerprinting(PreservedSourceFingerprint),
}

impl NeedsReconciliation {
    /// Where the operation begins.
    pub open spec fn begun(self) -> Progress<NeedsReconciliation, bool> {
        Progress::Ask(
            NeedsReconciliation { stage: ReconciliationStage::Reading, ..self },
            DiskAction::ReadJournal { path: self.retained_path },
        )
    }

    /// Where the operation goes from a reply.
    pub open spec fn next(self, reply: DiskReply) -> Progress<NeedsReconciliation, bool> {
        match (self.stage, reply) {
            (ReconciliationStage::Reading, DiskReply::Journal(None)) => Progress::End(Ok(false)),
            (ReconciliationStage::Reading, DiskReply::Journal(Some(recovery))) => Progress::Ask(
                NeedsReconciliation { stage: ReconciliationStage::Validating(recovery), ..self },
                DiskAction::Validate {
                    thread_id: self.thread_id,
                    journal_path: self.retained_path,
                    recovery,
                    selected: Some(self.selected),
                    require_publication_fingerprint: true,
                },
            ),
            (ReconciliationStage::Validating(recovery), DiskReply::Done) => {
                if recovery.split_generation_detected || recovery.retirement_started {
                    Progress::End(Ok(true))
                } else {
                    match recovery.publication_fingerprint {
                        None => Progress::End(
                            Err(
                                DiskProblem::Recovery {
                                    thread_id: self.thread_id,
                                    refusal: RecoveryRefusal::NoPublicationFingerprint,
                                },
                            ),
                        ),
                        Some(expected) => Progress::Ask(
                            NeedsReconciliation {
                                stage: ReconciliationStage::Fingerprinting(expected),
                                ..self
                            },
                            DiskAction::Fingerprint { path: recovery.preserved_source_path },
                        ),
                    }
                }
            },
            (
                ReconciliationStage::Fingerprinting(expected),
                DiskReply::Fingerprint(found),
            ) => Progress::End(Ok(found != expected)),
            (_, reply) => Progress::End(Err(reply_problem(reply))),
        }
    }

    /// The question about one thread, whose visible rollout is the selected one.
    pub fn new(home: &RolloutPath, thread_id: ThreadId, selected: &RolloutPath) -> (r:
        NeedsReconciliation)
        ensures
            r.thread_id == thread_id,
            r.retained_path@ == crate::paths::retained_journal_of(home@, thread_id),
            r.selected == *selected,
            r.stage is Reading,
    {
        NeedsReconciliation {
            thread_id,
            retained_path: crate::paths::retained_migration_recovery_path(home, thread_id),
            selected: selected.clone(),
            stage: ReconciliationStage::Reading,
        }
    }

    /// Begins the operation.
    pub fn begin(self) -> (r: Progress<NeedsReconciliation, bool>)
        ensures
            r == self.begun(),
    {
        let action = DiskAction::ReadJournal { path: self.retained_path.clone() };
        Progress::Ask(
            NeedsReconciliation { stage: ReconciliationStage::Reading, ..self },
            action,
        )
    }

    /// Carries the operation on from a reply.
    pub fn advance(self, reply: DiskReply) -> (r: Progress<NeedsReconciliation, bool>)
        ensures
            r == self.next(reply),
    {
        let NeedsReconciliation { thread_id, retained_path, selected, stage } = self;
        match (stage, reply) {
            (ReconciliationStage::Reading, DiskReply::Journal(None)) => Progress::End(Ok(false)),
            (ReconciliationStage::Reading, DiskReply::Journal(Some(recovery))) => {
                let action = DiskAction::Validate {
                    thread_id,
                    journal_path: retained_path.clone(),
                    recovery: recovery.clone(),
                    selected: Some(selected.clone()),
                    require_publication_fingerprint: true,
                };
                Progress::Ask(
                    NeedsReconciliation {
                        thread_id,
                        retained_path,
                        selected,
                        stage: ReconciliationStage::Validating(recovery),
                    },
                    action,
                )
            },
            (ReconciliationStage::Validating(recovery), DiskReply::Done) => {
                if recovery.split_generation_detected || recovery.retirement_started {
                    return Progress::End(Ok(true));
                }
                match recovery.publication_fingerprint {
                    None => Progress::End(
                        Err(
                            DiskProblem::Recovery {
                                thread_id,
                                refusal: RecoveryRefusal::NoPublicationFingerprint,
                            },
                        ),
                    ),
                    Some(expected) => Progress::Ask(
                        NeedsReconciliation {
                            thread_id,
                            retained_path,
                            selected,
                            stage: ReconciliationStage::Fingerprinting(expected),
                        },
                        DiskAction::Fingerprint { path: recovery.preserved_source_path },
                    ),
                }
            },
            (
                ReconciliationStage::Fingerprinting(expected),
                DiskReply::Fingerprint(found),
            ) => Progress::End(Ok(found != expected)),
            (_, reply) => Progress::End(Err(problem_of(reply))),
        }
    }
}

} // verus!
