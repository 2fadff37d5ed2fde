//! Picking a migration up where it stopped: behind publication it is finished, before publication
//! what it left behind is removed.

use crate::error::ThreadId;
use crate::limiter::counted_sum;
use crate::operations::store_problem_of;
use crate::operations::store_reply_problem;
use crate::operations::Artifact;
use crate::operations::FileRef;
use crate::operations::Step;
use crate::operations::StoreAction;
use crate::operations::StoreProblem;
use crate::operations::StoreReply;
use crate::paths::is_compressed;
use crate::paths::rollout_path_is_compressed;
use crate::paths::RolloutPath;
use crate::recovery::MigrationRecoveryHandle;
use crate::rollout::ThreadHistoryMode;
use vstd::prelude::*;

verus! {

/// Finishes a migration that stopped behind publication.
#[derive(Debug)]
pub struct RecoverPublished {
    pub thread_id: ThreadId,
    pub rollout_path: RolloutPath,
    pub journal_path: RolloutPath,
    /// The record in the journal, once it has been read and can be followed.
    pub recovery: Option<MigrationRecoveryHandle>,
    pub stage: RecoverStage,
}

/// The steps of recovery.
#[derive(Debug)]
pub enum RecoverStage {
    ReadingJournal,
    Validating,
    CheckingSource,
    Verifying,
    ReadingMetadata,
    Decompressing,
    MeasuringDecompressed,
    MeasuringRollout { decompressed: u64 },
    Accounting,
    MeasuringProjected,
    ReadingProjection { expected_length: u64 },
    DeletingProjection,
    Projecting,
    RemovingStaged,
    RemovingCompressed,
    RemovingDecompressed,
    Finishing,
}

impl RecoverPublished {
    pub open spec fn at(self, stage: RecoverStage) -> RecoverPublished {
        RecoverPublished { stage, ..self }
    }

    /// The source of the migration, as the record names it.
    pub open spec fn source(self) -> RolloutPath {
        match self.recovery {
            Some(recovery) => recovery.rollout_path,
            None => self.rollout_path,
        }
    }

    pub open spec fn decompressed(self) -> FileRef {
        FileRef::Beside { rollout_path: self.rollout_path, artifact: Artifact::Decompressed }
    }

    /// The file whose history is indexed.
    pub open spec fn projected(self) -> FileRef {
        if is_compressed(self.rollout_path@) {
            self.decompressed()
        } else {
            FileRef::Path(self.rollout_path)
        }
    }

    pub open spec fn reading_metadata(self) -> Step<RecoverPublished, RolloutPath> {
        Step::Ask(
            self.at(RecoverStage::ReadingMetadata),
            StoreAction::ReadMetadata { path: self.rollout_path },
        )
    }

    pub open spec fn measuring(self) -> Step<RecoverPublished, RolloutPath> {
        Step::Ask(
            self.at(RecoverStage::MeasuringProjected),
            StoreAction::FileLength { file: self.projected() },
        )
    }

    pub open spec fn removing_staged(self) -> Step<RecoverPublished, RolloutPath> {
        Step::Ask(
            self.at(RecoverStage::RemovingStaged),
            StoreAction::RemoveIfPresent {
                file: FileRef::Beside { rollout_path: self.source(), artifact: Artifact::Staged },
            },
        )
    }

    pub open spec fn finishing(self) -> Step<RecoverPublished, RolloutPath> {
        Step::Ask(
            self.at(RecoverStage::Finishing),
            StoreAction::FinishPublished {
                thread_id: self.thread_id,
                source_rollout_path: self.source(),
                published_rollout_path: self.rollout_path,
                journal_path: self.journal_path,
            },
        )
    }

    /// Where the operation begins.
    pub open spec fn begun(self) -> Step<RecoverPublished, RolloutPath> {
        Step::Ask(
            RecoverPublished { stage: RecoverStage::ReadingJournal, recovery: None, ..self },
            StoreAction::ReadJournal { path: self.journal_path },
        )
    }

    /// Where the operation goes from a reply.
    pub open spec fn next(self, reply: StoreReply) -> Step<RecoverPublished, RolloutPath> {
        match (self.stage, reply) {
            (RecoverStage::ReadingJournal, StoreReply::Journal(None)) => self.reading_metadata(),
            (RecoverStage::ReadingJournal, StoreReply::Journal(Some(recovery))) => Step::Ask(
                RecoverPublished {
                    stage: RecoverStage::Validating,
                    recovery: Some(recovery),
                    ..self
                },
                StoreAction::Validate {
                    thread_id: self.thread_id,
                    journal_path: self.journal_path,
                    recovery,
                    selected: Some(self.rollout_path),
                    require_publication_fingerprint: true,
                },
            ),
            (RecoverStage::Validating, StoreReply::Done) => match self.recovery {
                Some(recovery) => Step::Ask(
                    self.at(RecoverStage::CheckingSource),
                    StoreAction::Exists { path: recovery.preserved_source_path },
                ),
                None => self.reading_metadata(),
            },
            (RecoverStage::CheckingSource, StoreReply::Answer(exists)) => match self.recovery {
                Some(recovery) => if exists {
                    Step::Ask(
                        self.at(RecoverStage::Verifying),
                        StoreAction::VerifyUnchanged {
                            thread_id: self.thread_id,
                            journal_path: self.journal_path,
                            selected: self.rollout_path,
                        },
                    )
                } else {
                    Step::End(
                        Err(StoreProblem::SourceMissing { path: recovery.preserved_source_path }),
                    )
                },
                None => self.reading_metadata(),
            },
            (RecoverStage::Verifying, StoreReply::Done) => self.reading_metadata(),
            (
                RecoverStage::ReadingMetadata,
                StoreReply::Metadata { id, history_mode },
            ) => if id != self.thread_id || history_mode != ThreadHistoryMode::PaginatedRefsV1 {
                Step::End(Err(StoreProblem::NotPaginated { path: self.rollout_path }))
            } else if is_compressed(self.rollout_path@) {
                Step::Ask(
                    self.at(RecoverStage::Decompressing),
                    StoreAction::Decompress { rollout_path: self.rollout_path },
                )
            } else {
                self.measuring()
            },
            (RecoverStage::Decompressing, StoreReply::Done) => Step::Ask(
                self.at(RecoverStage::MeasuringDecompressed),
                StoreAction::FileLength { file: self.decompressed() },
            ),
            (RecoverStage::MeasuringDecompressed, StoreReply::Length(decompressed)) => Step::Ask(
                self.at(RecoverStage::MeasuringRollout { decompressed }),
                StoreAction::FileLength { file: FileRef::Path(self.rollout_path) },
            ),
            (RecoverStage::MeasuringRollout { decompressed }, StoreReply::Length(length)) => {
                Step::Ask(
                    self.at(RecoverStage::Accounting),
                    StoreAction::Account { bytes: counted_sum(length, decompressed) },
                )
            },
            (RecoverStage::Accounting, StoreReply::Done) => self.measuring(),
            (RecoverStage::MeasuringProjected, StoreReply::Length(expected_length)) => Step::Ask(
                self.at(RecoverStage::ReadingProjection { expected_length }),
                StoreAction::ProjectionState { thread_id: self.thread_id },
            ),
            (
                RecoverStage::ReadingProjection { expected_length },
                StoreReply::Projection(state),
            ) => if state is Some && (state->0).0 == expected_length {
                self.removing_staged()
            } else {
                Step::Ask(
                    self.at(RecoverStage::DeletingProjection),
                    StoreAction::DeleteProjection { thread_id: self.thread_id },
                )
            },
            (RecoverStage::DeletingProjection, StoreReply::Done) => Step::Ask(
                self.at(RecoverStage::Projecting),
                StoreAction::Project { thread_id: self.thread_id, file: self.projected() },
            ),
            (RecoverStage::Projecting, StoreReply::Done) => self.removing_staged(),
            (RecoverStage::RemovingStaged, StoreReply::Done) => Step::Ask(
                self.at(RecoverStage::RemovingCompressed),
                StoreAction::RemoveIfPresent {
                    file: FileRef::Beside {
                        rollout_path: self.source(),
                        artifact: Artifact::CompressedStaged,
                    },
                },
            ),
            (RecoverStage::RemovingCompressed, StoreReply::Done) => if is_compressed(
                self.rollout_path@,
            ) {
                Step::Ask(
                    self.at(RecoverStage::RemovingDecompressed),
                    StoreAction::RemoveIfPresent { file: self.decompressed() },
                )
            } else {
                self.finishing()
            },
            (RecoverStage::RemovingDecompressed, StoreReply::Done) => self.finishing(),
            (RecoverStage::Finishing, StoreReply::Done) => Step::End(Ok(self.rollout_path)),
            (_, reply) => Step::End(Err(store_reply_problem(reply))),
        }
    }

    fn source_path(&self) -> (r: RolloutPath)
        ensures
            r == self.source(),
    {
        match &self.recovery {
            Some(recovery) => recovery.rollout_path.clone(),
            None => self.rollout_path.clone(),
        }
    }

    fn decompressed_file(&self) -> (r: FileRef)
        ensures
            r == self.decompressed(),
    {
        FileRef::Beside {
            rollout_path: self.rollout_path.clone(),
            artifact: Artifact::Decompressed,
        }
    }

    fn projected_file(&self) -> (r: FileRef)
        ensures
            r == self.projected(),
    {
        if rollout_path_is_compressed(&self.rollout_path) {
            self.decompressed_file()
        } else {
            FileRef::Path(self.rollout_path.clone())
        }
    }

    fn read_metadata(self) -> (r: Step<RecoverPublished, RolloutPath>)
        ensures
            r == self.reading_metadata(),
    {
        let action = StoreAction::ReadMetadata { path: self.rollout_path.clone() };
        Step::Ask(RecoverPublished { stage: RecoverStage::ReadingMetadata, ..self }, action)
    }

    fn measure(self) -> (r: Step<RecoverPublished, RolloutPath>)
        ensures
            r == self.measuring(),
    {
        let action = StoreAction::FileLength { file: self.projected_file() };
        Step::Ask(RecoverPublished { stage: RecoverStage::MeasuringProjected, ..self }, action)
    }

    fn remove_staged(self) -> (r: Step<RecoverPublished, RolloutPath>)
        ensures
            r == self.removing_staged(),
    {
        let action = StoreAction::RemoveIfPresent {
            file: FileRef::Beside {
                rollout_path: self.source_path(),
                artifact: Artifact::Staged,
            },
        };
        Step::Ask(RecoverPublished { stage: RecoverStage::RemovingStaged, ..self }, action)
    }

    fn finish(self) -> (r: Step<RecoverPublished, RolloutPath>)
        ensures
            r == self.finishing(),
    {
        let action = StoreAction::FinishPublished {
            thread_id: self.thread_id,
            source_rollout_path: self.source_path(),
            published_rollout_path: self.rollout_path.clone(),
            journal_path: self.journal_path.clone(),
        };
        Step::Ask(RecoverPublished { stage: RecoverStage::Finishing, ..self }, action)
    }

    /// The recovery of a published rollout with a pending journal.
    pub fn new(thread_id: ThreadId, rollout_path: &RolloutPath, journal_path: &RolloutPath) -> (r:
        RecoverPublished)
        ensures
            r.thread_id == thread_id,
            r.rollout_path == *rollout_path,
            r.journal_path == *journal_path,
            r.recovery is None,
            r.stage is ReadingJournal,
    {
        RecoverPublished {
            thread_id,
            rollout_path: rollout_path.clone(),
            journal_path: journal_path.clone(),
            recovery: None,
            stage: RecoverStage::ReadingJournal,
        }
    }

    /// Begins the operation.
    pub fn begin(self) -> (r: Step<RecoverPublished, RolloutPath>)
        ensures
            r == self.begun(),
    {
        let action = StoreAction::ReadJournal { path: self.journal_path.clone() };
        Step::Ask(
            RecoverPublished { stage: RecoverStage::ReadingJournal, recovery: None, ..self },
            action,
        )
    }

    /// Carries the operation on from a reply.
    pub fn advance(self, reply: StoreReply) -> (r: Step<RecoverPublished, RolloutPath>)
        ensures
            r == self.next(reply),
    {
        let RecoverPublished { thread_id, rollout_path, journal_path, recovery, stage } = self;
        let this = RecoverPublished {
            thread_id,
            rollout_path,
            journal_path,
            recovery,
            stage: RecoverStage::ReadingJournal,
        };
        match (stage, reply) {
            (RecoverStage::ReadingJournal, StoreReply::Journal(None)) => this.read_metadata(),
            (RecoverStage::ReadingJournal, StoreReply::Journal(Some(found))) => {
                let action = StoreAction::Validate {
                    thread_id,
                    journal_path: this.journal_path.clone(),
                    recovery: found.clone(),
                    selected: Some(this.rollout_path.clone()),
                    require_publication_fingerprint: true,
                };
                Step::Ask(
                    RecoverPublished {
                        stage: RecoverStage::Validating,
                        recovery: Some(found),
                        ..this
                    },
                    action,
                )
            },
            (RecoverStage::Validating, StoreReply::Done) => {
                let action = match &this.recovery {
                    Some(recovery) => StoreAction::Exists {
                        path: recovery.preserved_source_path.clone(),
                    },
                    None => {
                        return this.read_metadata();
                    },
                };
                Step::Ask(RecoverPublished { stage: RecoverStage::CheckingSource, ..this }, action)
            },
            (RecoverStage::CheckingSource, StoreReply::Answer(exists)) => {
                let source: RolloutPath = match &this.recovery {
                    Some(recovery) => recovery.preserved_source_path.clone(),
                    None => {
                        return this.read_metadata();
                    },
                };
                if !exists {
                    return Step::End(Err(StoreProblem::SourceMissing { path: source }));
                }
                let action = StoreAction::VerifyUnchanged {
                    thread_id,
                    journal_path: this.journal_path.clone(),
                    selected: this.rollout_path.clone(),
                };
                Step::Ask(RecoverPublished { stage: RecoverStage::Verifying, ..this }, action)
            },
            (RecoverStage::Verifying, StoreReply::Done) => this.read_metadata(),
            (RecoverStage::ReadingMetadata, StoreReply::Metadata { id, history_mode }) => {
                if id != thread_id || history_mode != ThreadHistoryMode::PaginatedRefsV1 {
                    return Step::End(Err(StoreProblem::NotPaginated { path: this.rollout_path }));
                }
                if !rollout_path_is_compressed(&this.rollout_path) {
                    return this.measure();
                }
                let action = StoreAction::Decompress { rollout_path: this.rollout_path.clone() };
                Step::Ask(RecoverPublished { stage: RecoverStage::Decompressing, ..this }, action)
            },
            (RecoverStage::Decompressing, StoreReply::Done) => {
                let action = StoreAction::FileLength { file: this.decompressed_file() };
                Step::Ask(
                    RecoverPublished { stage: RecoverStage::MeasuringDecompressed, ..this },
                    action,
                )
            },
            (RecoverStage::MeasuringDecompressed, StoreReply::Length(decompressed)) => {
                let action = StoreAction::FileLength {
                    file: FileRef::Path(this.rollout_path.clone()),
                };
                Step::Ask(
                    RecoverPublished {
                        stage: RecoverStage::MeasuringRollout { decompressed },
                        ..this
                    },
                    action,
                )
            },
            (RecoverStage::MeasuringRollout { decompressed }, StoreReply::Length(length)) => {
                Step::Ask(
                    RecoverPublished { stage: RecoverStage::Accounting, ..this },
                    StoreAction::Account { bytes: length.saturating_add(decompressed) },
                )
            },
            (RecoverStage::Accounting, StoreReply::Done) => this.measure(),
            (RecoverStage::MeasuringProjected, StoreReply::Length(expected_length)) => Step::Ask(
                RecoverPublished {
                    stage: RecoverStage::ReadingProjection { expected_length },
                    ..this
                },
                StoreAction::ProjectionState { thread_id },
            ),
            (
                RecoverStage::ReadingProjection { expected_length },
                StoreReply::Projection(state),
            ) => {
                let covered: bool = match state {
                    Some((next_byte_offset, _)) => next_byte_offset == expected_length,
                    None => false,
                };
                if covered {
                    return this.remove_staged();
                }
                Step::Ask(
                    RecoverPublished { stage: RecoverStage::DeletingProjection, ..this },
                    StoreAction::DeleteProjection { thread_id },
                )
            },
            (RecoverStage::DeletingProjection, StoreReply::Done) => {
                let action = StoreAction::Project { thread_id, file: this.projected_file() };
                Step::Ask(RecoverPublished { stage: RecoverStage::Projecting, ..this }, action)
            },
            (RecoverStage::Projecting, StoreReply::Done) => this.remove_staged(),
            (RecoverStage::RemovingStaged, StoreReply::Done) => {
                let action = StoreAction::RemoveIfPresent {
                    file: FileRef::Beside {
                        rollout_path: this.source_path(),
                        artifact: Artifact::CompressedStaged,
                    },
                };
                Step::Ask(
                    RecoverPublished { stage: RecoverStage::RemovingCompressed, ..this },
                    action,
                )
            },
            (RecoverStage::RemovingCompressed, StoreReply::Done) => {
                if !rollout_path_is_compressed(&this.rollout_path) {
                    return this.finish();
                }
                let action = StoreAction::RemoveIfPresent { file: this.decompressed_file() };
                Step::Ask(
                    RecoverPublished { stage: RecoverStage::RemovingDecompressed, ..this },
                    action,
                )
            },
            (RecoverStage::RemovingDecompressed, StoreReply::Done) => this.finish(),
            (RecoverStage::Finishing, StoreReply::Done) => Step::End(Ok(this.rollout_path)),
            (_, reply) => Step::End(Err(store_problem_of(reply))),
        }
    }
}

/// Removes what a migration left behind that failed before publication. What has crossed the
/// visible format gate is left for recovery.
#[derive(Debug)]
pub struct CleanUpUnpublished {
    pub thread_id: ThreadId,
    pub source_history_mode: ThreadHistoryMode,
    pub projection_was_replaced: bool,
    pub rollout_path: RolloutPath,
    pub journal_path: RolloutPath,
    /// The record in the journal, once it has been read.
    pub recovery: Option<MigrationRecoveryHandle>,
    pub stage: CleanUpStage,
}

/// The steps of cleaning up.
#[derive(Clone, Copy, Debug, PartialEq, Eq, Structural)]
pub enum CleanUpStage {
    ReadingJournal,
    Validating,
    CheckingPublished,
    ReadingPublished,
    ReadingRollout,
    DeletingProjection,
    RemovingStaged,
    RemovingRewritten,
    RemovingCompressed,
    RemovingDecompressed,
    Projecting,
    RemovingAlias,
    RemovingJournal,
}

impl CleanUpUnpublished {
    pub open spec fn at(self, stage: CleanUpStage) -> CleanUpUnpublished {
        CleanUpUnpublished { stage, ..self }
    }

    pub open spec fn beside(self, artifact: Artifact) -> StoreAction {
        StoreAction::RemoveIfPresent {
            file: FileRef::Beside { rollout_path: self.rollout_path, artifact },
        }
    }

    pub open spec fn reading_rollout(self) -> Step<CleanUpUnpublished, ()> {
        Step::Ask(
            self.at(CleanUpStage::ReadingRollout),
            StoreAction::ReadMetadata { path: self.rollout_path },
        )
    }

    /// Whether the indexed history of the old rollout is put back.
    pub open spec fn restores(self) -> bool {
        self.source_history_mode == ThreadHistoryMode::Paginated && self.projection_was_replaced
    }

    pub open spec fn removing_journal(self) -> Step<CleanUpUnpublished, ()> {
        Step::Ask(
            self.at(CleanUpStage::RemovingJournal),
            StoreAction::RemoveJournal { path: self.journal_path },
        )
    }

    pub open spec fn removing_alias(self) -> Step<CleanUpUnpublished, ()> {
        match self.recovery {
            Some(recovery) => Step::Ask(
                self.at(CleanUpStage::RemovingAlias),
                StoreAction::RemoveAlias {
                    rollout_path: self.rollout_path,
                    preserved_source_path: recovery.preserved_source_path,
                },
            ),
            None => self.removing_journal(),
        }
    }

    /// Where the operation begins.
    pub open spec fn begun(self) -> Step<CleanUpUnpublished, ()> {
        Step::Ask(
            CleanUpUnpublished { stage: CleanUpStage::ReadingJournal, recovery: None, ..self },
            StoreAction::ReadJournal { path: self.journal_path },
        )
    }

    /// Where the operation goes from a reply.
    pub open spec fn next(self, reply: StoreReply) -> Step<CleanUpUnpublished, ()> {
        match (self.stage, reply) {
            (CleanUpStage::ReadingJournal, StoreReply::Journal(None)) => self.reading_rollout(),
            (CleanUpStage::ReadingJournal, StoreReply::Journal(Some(recovery))) => Step::Ask(
                CleanUpUnpublished {
                    stage: CleanUpStage::Validating,
                    recovery: Some(recovery),
                    ..self
                },
                StoreAction::Validate {
                    thread_id: self.thread_id,
                    journal_path: self.journal_path,
                    recovery,
                    selected: None,
                    require_publication_fingerprint: false,
                },
            ),
            (CleanUpStage::Validating, StoreReply::Done) => match self.recovery {
                Some(recovery) => Step::Ask(
                    self.at(CleanUpStage::CheckingPublished),
                    StoreAction::Exists { path: published_of(recovery) },
                ),
                None => self.reading_rollout(),
            },
            (CleanUpStage::CheckingPublished, StoreReply::Answer(exists)) => match self.recovery {
                Some(recovery) => if exists {
                    Step::Ask(
                        self.at(CleanUpStage::ReadingPublished),
                        StoreAction::ReadMetadata { path: published_of(recovery) },
                    )
                } else {
                    self.reading_rollout()
                },
                None => self.reading_rollout(),
            },
            (
                CleanUpStage::ReadingPublished,
                StoreReply::Metadata { id, history_mode },
            ) => if id == self.thread_id && history_mode == ThreadHistoryMode::PaginatedRefsV1 {
                Step::End(Ok(()))
            } else {
                self.reading_rollout()
            },
            (CleanUpStage::ReadingPublished, StoreReply::Failed(_)) => self.reading_rollout(),
            (CleanUpStage::ReadingRollout, StoreReply::Failed(_)) => Step::End(Ok(())),
            (CleanUpStage::ReadingRollout, StoreReply::Metadata { history_mode, .. }) => {
                if history_mode == ThreadHistoryMode::PaginatedRefsV1 {
                    Step::End(Ok(()))
                } else if self.source_history_mode != ThreadHistoryMode::Paginated
                    || self.projection_was_replaced {
                    Step::Ask(
                        self.at(CleanUpStage::DeletingProjection),
                        StoreAction::DeleteProjection { thread_id: self.thread_id },
                    )
                } else {
                    Step::Ask(
                        self.at(CleanUpStage::RemovingStaged),
                        self.beside(Artifact::Staged),
                    )
                }
            },
            (CleanUpStage::DeletingProjection, StoreReply::Done) => Step::Ask(
                self.at(CleanUpStage::RemovingStaged),
                self.beside(Artifact::Staged),
            ),
            (CleanUpStage::RemovingStaged, StoreReply::Done) => Step::Ask(
                self.at(CleanUpStage::RemovingRewritten),
                self.beside(Artifact::Rewritten),
            ),
            (CleanUpStage::RemovingRewritten, StoreReply::Done) => Step::Ask(
                self.at(CleanUpStage::RemovingCompressed),
                self.beside(Artifact::CompressedStaged),
            ),
            (CleanUpStage::RemovingCompressed, StoreReply::Done) => Step::Ask(
                self.at(CleanUpStage::RemovingDecompressed),
                self.beside(Artifact::Decompressed),
            ),
            (CleanUpStage::RemovingDecompressed, StoreReply::Done) => if self.restores() {
                Step::Ask(
                    self.at(CleanUpStage::Projecting),
                    StoreAction::Project {
                        thread_id: self.thread_id,
                        file: FileRef::Path(self.rollout_path),
                    },
                )
            } else {
                self.removing_alias()
            },
            (CleanUpStage::Projecting, StoreReply::Done) => self.removing_alias(),
            (CleanUpStage::RemovingAlias, StoreReply::Done) => self.removing_journal(),
            (CleanUpStage::RemovingJournal, StoreReply::Done) => Step::End(Ok(())),
            (_, reply) => Step::End(Err(store_reply_problem(reply))),
        }
    }

    fn remove_beside(self, stage: CleanUpStage, artifact: Artifact) -> (r: Step<
        CleanUpUnpublished,
        (),
    >)
        ensures
            r == Step::<CleanUpUnpublished, ()>::Ask(self.at(stage), self.beside(artifact)),
    {
        let action = StoreAction::RemoveIfPresent {
            file: FileRef::Beside { rollout_path: self.rollout_path.clone(), artifact },
        };
        Step::Ask(CleanUpUnpublished { stage, ..self }, action)
    }

    fn read_rollout(self) -> (r: Step<CleanUpUnpublished, ()>)
        ensures
            r == self.reading_rollout(),
    {
        let action = StoreAction::ReadMetadata { path: self.rollout_path.clone() };
        Step::Ask(CleanUpUnpublished { stage: CleanUpStage::ReadingRollout, ..self }, action)
    }

    fn remove_journal(self) -> (r: Step<CleanUpUnpublished, ()>)
        ensures
            r == self.removing_journal(),
    {
        let action = StoreAction::RemoveJournal { path: self.journal_path.clone() };
        Step::Ask(CleanUpUnpublished { stage: CleanUpStage::RemovingJournal, ..self }, action)
    }

    fn remove_alias(self) -> (r: Step<CleanUpUnpublished, ()>)
        ensures
            r == self.removing_alias(),
    {
        let action = match &self.recovery {
            Some(recovery) => StoreAction::RemoveAlias {
                rollout_path: self.rollout_path.clone(),
                preserved_source_path: recovery.preserved_source_path.clone(),
            },
            None => {
                return self.remove_journal();
            },
        };
        Step::Ask(CleanUpUnpublished { stage: CleanUpStage::RemovingAlias, ..self }, action)
    }

    /// The cleaning up behind a migration of a rollout.
    pub fn new(
        thread_id: ThreadId,
        source_history_mode: ThreadHistoryMode,
        projection_was_replaced: bool,
        rollout_path: &RolloutPath,
        journal_path: &RolloutPath,
    ) -> (r: CleanUpUnpublished)
        ensures
            r.thread_id == thread_id,
            r.source_history_mode == source_history_mode,
            r.projection_was_replaced == projection_was_replaced,
            r.rollout_path == *rollout_path,
            r.journal_path == *journal_path,
            r.recovery is None,
            r.stage is ReadingJournal,
    {
        CleanUpUnpublished {
            thread_id,
            source_history_mode,
            projection_was_replaced,
            rollout_path: rollout_path.clone(),
            journal_path: journal_path.clone(),
            recovery: None,
            stage: CleanUpStage::ReadingJournal,
        }
    }

    /// Begins the operation.
    pub fn begin(self) -> (r: Step<CleanUpUnpublished, ()>)
        ensures
            r == self.begun(),
    {
        let action = StoreAction::ReadJournal { path: self.journal_path.clone() };
        Step::Ask(
            CleanUpUnpublished { stage: CleanUpStage::ReadingJournal, recovery: None, ..self },
            action,
        )
    }

    /// Carries the operation on from a reply.
    pub fn advance(self, reply: StoreReply) -> (r: Step<CleanUpUnpublished, ()>)
        ensures
            r == self.next(reply),
    {
        match (self.stage, reply) {
            (CleanUpStage::ReadingJournal, StoreReply::Journal(None)) => self.read_rollout(),
            (CleanUpStage::ReadingJournal, StoreReply::Journal(Some(found))) => {
                let action = StoreAction::Validate {
                    thread_id: self.thread_id,
                    journal_path: self.journal_path.clone(),
                    recovery: found.clone(),
                    selected: None,
                    require_publication_fingerprint: false,
                };
                Step::Ask(
                    CleanUpUnpublished {
                        stage: CleanUpStage::Validating,
                        recovery: Some(found),
                        ..self
                    },
                    action,
                )
            },
            (CleanUpStage::Validating, StoreReply::Done) => {
                let action = match &self.recovery {
                    Some(recovery) => StoreAction::Exists { path: copy_published(recovery) },
                    None => {
                        return self.read_rollout();
                    },
                };
                Step::Ask(
                    CleanUpUnpublished { stage: CleanUpStage::CheckingPublished, ..self },
                    action,
                )
            },
            (CleanUpStage::CheckingPublished, StoreReply::Answer(exists)) => {
                let action = match &self.recovery {
                    Some(recovery) => StoreAction::ReadMetadata { path: copy_published(recovery) },
                    None => {
                        return self.read_rollout();
                    },
                };
                if !exists {
                    return self.read_rollout();
                }
                Step::Ask(
                    CleanUpUnpublished { stage: CleanUpStage::ReadingPublished, ..self },
                    action,
                )
            },
            (CleanUpStage::ReadingPublished, StoreReply::Metadata { id, history_mode }) => {
                if id == self.thread_id && history_mode == ThreadHistoryMode::PaginatedRefsV1 {
                    Step::End(Ok(()))
                } else {
                    self.read_rollout()
                }
            },
            (CleanUpStage::ReadingPublished, StoreReply::Failed(_)) => self.read_rollout(),
            (CleanUpStage::ReadingRollout, StoreReply::Failed(_)) => Step::End(Ok(())),
            (CleanUpStage::ReadingRollout, StoreReply::Metadata { history_mode, .. }) => {
                if history_mode == ThreadHistoryMode::PaginatedRefsV1 {
                    return Step::End(Ok(()));
                }
                if self.source_history_mode != ThreadHistoryMode::Paginated
                    || self.projection_was_replaced {
                    let action = StoreAction::DeleteProjection { thread_id: self.thread_id };
                    return Step::Ask(
                        CleanUpUnpublished { stage: CleanUpStage::DeletingProjection, ..self },
                        action,
                    );
                }
                self.remove_beside(CleanUpStage::RemovingStaged, Artifact::Staged)
            },
            (CleanUpStage::DeletingProjection, StoreReply::Done) => self.remove_beside(
                CleanUpStage::RemovingStaged,
                Artifact::Staged,
            ),
            (CleanUpStage::RemovingStaged, StoreReply::Done) => self.remove_beside(
                CleanUpStage::RemovingRewritten,
                Artifact::Rewritten,
            ),
            (CleanUpStage::RemovingRewritten, StoreReply::Done) => self.remove_beside(
                CleanUpStage::RemovingCompressed,
                Artifact::CompressedStaged,
            ),
            (CleanUpStage::RemovingCompressed, StoreReply::Done) => self.remove_beside(
                CleanUpStage::RemovingDecompressed,
                Artifact::Decompressed,
            ),
            (CleanUpStage::RemovingDecompressed, StoreReply::Done) => {
                if self.source_history_mode == ThreadHistoryMode::Paginated
                    && self.projection_was_replaced {
                    let action = StoreAction::Project {
                        thread_id: self.thread_id,
                        file: FileRef::Path(self.rollout_path.clone()),
                    };
                    return Step::Ask(
                        CleanUpUnpublished { stage: CleanUpStage::Projecting, ..self },
                        action,
                    );
                }
                self.remove_alias()
            },
            (CleanUpStage::Projecting, StoreReply::Done) => self.remove_alias(),
            (CleanUpStage::RemovingAlias, StoreReply::Done) => self.remove_journal(),
            (CleanUpStage::RemovingJournal, StoreReply::Done) => Step::End(Ok(())),
            (_, reply) => Step::End(Err(store_problem_of(reply))),
        }
    }
}

/// The path under which a record says that its rollout was published.
pub open spec fn published_of(recovery: MigrationRecoveryHandle) -> RolloutPath {
    match recovery.published_rollout_path {
        Some(path) => path,
        None => recovery.rollout_path,
    }
}

fn copy_published(recovery: &MigrationRecoveryHandle) -> (r: RolloutPath)
    ensures
        r == published_of(*recovery),
{
    match &recovery.published_rollout_path {
        Some(path) => path.clone(),
        None => recovery.rollout_path.clone(),
    }
}

} // verus!
