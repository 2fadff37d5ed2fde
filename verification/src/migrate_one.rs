//! The migration of one rollout: from the legacy source to a published rollout with references.

use crate::error::ThreadId;
use crate::limiter::counted_sum;
use crate::operations::store_problem_of;
use crate::operations::store_problem_view;
use crate::operations::store_reply_problem;
use crate::operations::Artifact;
use crate::operations::ConversionKind;
use crate::operations::FileRef;
use crate::operations::PublishedMigration;
use crate::operations::StoreAction;
use crate::operations::StoreProblem;
use crate::operations::StoreReply;
use crate::paths::file_name_of;
use crate::paths::is_compressed;
use crate::paths::plain_path;
use crate::paths::plain_rollout_path;
use crate::paths::preserved_legacy_rollout_path;
use crate::paths::preserved_of;
use crate::paths::rollout_id_in_path;
use crate::paths::rollout_path_is_compressed;
use crate::paths::thread_id_from_rollout_filename;
use crate::paths::RolloutPath;
use crate::recovery::fresh_recovery;
use crate::recovery::MigrationRecoveryHandle;
use crate::recovery::PreservedSourceFingerprint;
use crate::report::RolloutMigrationFailure;
use crate::report::RolloutMigrationFailureReason;
use crate::rollout::ThreadHistoryMode;
use vstd::prelude::*;

verus! {

/// Whether a rollout belongs to a subagent.
#[derive(Clone, Copy, Debug, PartialEq, Eq, Structural)]
pub enum RolloutMigrationKind {
    Ordinary,
    Subagent,
}

/// A problem, with the reason that a report gives for it.
#[derive(Debug, PartialEq, Eq)]
pub struct ClassifiedProblem {
    pub reason: RolloutMigrationFailureReason,
    pub problem: StoreProblem,
}

impl ClassifiedProblem {
    /// The failure that a report speaks of.
    pub fn to_failure(self) -> (r: RolloutMigrationFailure)
        ensures
            r.reason == self.reason,
            r.error@ == store_problem_view(self.problem),
    {
        RolloutMigrationFailure::new(self.reason, self.problem.to_error())
    }
}

/// Where the migration of one rollout stands.
#[derive(Debug)]
pub enum MigrateStep {
    Ask(MigrateOne, StoreAction),
    End(Result<PublishedMigration, ClassifiedProblem>),
}

/// The migration of one rollout. The caller holds its writer lock.
#[derive(Debug)]
pub struct MigrateOne {
    /// Whether there is an index.
    pub has_state_db: bool,
    pub thread_id: ThreadId,
    pub rollout_id: ThreadId,
    pub source_history_mode: ThreadHistoryMode,
    pub kind: RolloutMigrationKind,
    pub rollout_path: RolloutPath,
    pub published_rollout_path: RolloutPath,
    pub preserved_source_path: RolloutPath,
    pub journal_path: RolloutPath,
    pub retained_path: RolloutPath,
    pub recovery: MigrationRecoveryHandle,
    /// The fingerprint and the size that the source had when it was read.
    pub fingerprint: PreservedSourceFingerprint,
    pub size: u64,
    pub stage: MigrateStage,
}

/// The steps of a migration.
#[derive(Clone, Copy, Debug, PartialEq, Eq, Structural)]
pub enum MigrateStage {
    Getting,
    Journaling,
    ReadingSource,
    Decompressing,
    MeasuringDecompressed,
    AccountingDecompressed,
    FindingHead,
    ScanningIds,
    SelectingContext,
    AccountingContext { bounded: bool },
    Converting,
    RewritingBoundary { ordinal: u64 },
    MeasuringStaged { ordinal: u64 },
    SyncingStaged { length: u64, ordinal: u64 },
    DeletingProjection { length: u64, ordinal: u64 },
    Projecting { length: u64, ordinal: u64 },
    ReadingProjection { length: u64, ordinal: u64 },
    RereadingSource,
    Publishing,
    VerifyingPending,
    RemovingDecompressed,
    Finishing,
    VerifyingRetained,
}

/// The reason that a report gives where a step fails.
pub open spec fn reason_at(stage: MigrateStage) -> RolloutMigrationFailureReason {
    match stage {
        MigrateStage::Getting => RolloutMigrationFailureReason::Unknown,
        MigrateStage::Journaling => RolloutMigrationFailureReason::RolloutPublishFailed,
        MigrateStage::ReadingSource => RolloutMigrationFailureReason::RolloutReadFailed,
        MigrateStage::Decompressing => RolloutMigrationFailureReason::RolloutReadFailed,
        MigrateStage::MeasuringDecompressed => RolloutMigrationFailureReason::RolloutReadFailed,
        MigrateStage::AccountingDecompressed => RolloutMigrationFailureReason::RolloutReadFailed,
        MigrateStage::FindingHead => RolloutMigrationFailureReason::RolloutReadFailed,
        MigrateStage::ScanningIds => RolloutMigrationFailureReason::RolloutReadFailed,
        MigrateStage::SelectingContext => {
            RolloutMigrationFailureReason::LegacyRolloutConversionFailed
        },
        MigrateStage::AccountingContext { .. } => {
            RolloutMigrationFailureReason::LegacyRolloutConversionFailed
        },
        MigrateStage::Converting => RolloutMigrationFailureReason::LegacyRolloutConversionFailed,
        MigrateStage::RewritingBoundary { .. } => {
            RolloutMigrationFailureReason::LegacyRolloutConversionFailed
        },
        MigrateStage::MeasuringStaged { .. } => {
            RolloutMigrationFailureReason::LegacyRolloutConversionFailed
        },
        MigrateStage::SyncingStaged { .. } => {
            RolloutMigrationFailureReason::LegacyRolloutConversionFailed
        },
        MigrateStage::DeletingProjection { .. } => {
            RolloutMigrationFailureReason::SqliteMaterializationFailed
        },
        MigrateStage::Projecting { .. } => {
            RolloutMigrationFailureReason::SqliteMaterializationFailed
        },
        MigrateStage::ReadingProjection { .. } => {
            RolloutMigrationFailureReason::SqliteMaterializationFailed
        },
        _ => RolloutMigrationFailureReason::RolloutPublishFailed,
    }
}

fn reason_of(stage: MigrateStage) -> (r: RolloutMigrationFailureReason)
    ensures
        r == reason_at(stage),
{
    match stage {
        MigrateStage::Getting => RolloutMigrationFailureReason::Unknown,
        MigrateStage::Journaling => RolloutMigrationFailureReason::RolloutPublishFailed,
        MigrateStage::ReadingSource | MigrateStage::Decompressing
        | MigrateStage::MeasuringDecompressed | MigrateStage::AccountingDecompressed
        | MigrateStage::FindingHead | MigrateStage::ScanningIds => {
            RolloutMigrationFailureReason::RolloutReadFailed
        },
        MigrateStage::SelectingContext | MigrateStage::AccountingContext { .. }
        | MigrateStage::Converting | MigrateStage::RewritingBoundary { .. }
        | MigrateStage::MeasuringStaged { .. } | MigrateStage::SyncingStaged { .. } => {
            RolloutMigrationFailureReason::LegacyRolloutConversionFailed
        },
        MigrateStage::DeletingProjection { .. } | MigrateStage::Projecting { .. }
        | MigrateStage::ReadingProjection { .. } => {
            RolloutMigrationFailureReason::SqliteMaterializationFailed
        },
        _ => RolloutMigrationFailureReason::RolloutPublishFailed,
    }
}

impl MigrateOne {
    /// Whether the paths and the record are those that follow from the rollout.
    pub open spec fn wf(self) -> bool {
        &&& rollout_id_in_path(self.rollout_path@) == Some(self.rollout_id)
        &&& self.published_rollout_path@ == if is_compressed(self.rollout_path@) {
            plain_path(self.rollout_path@)
        } else {
            self.rollout_path@
        }
        &&& self.preserved_source_path@ == preserved_of(self.rollout_path@)
        &&& self.recovery@ == fresh_recovery(
            self.rollout_path@,
            self.published_rollout_path@,
            self.preserved_source_path@,
        )
    }

    pub open spec fn at(self, stage: MigrateStage) -> MigrateOne {
        MigrateOne { stage, ..self }
    }

    pub open spec fn ask(self, stage: MigrateStage, action: StoreAction) -> MigrateStep {
        MigrateStep::Ask(self.at(stage), action)
    }

    pub open spec fn failed(self, problem: StoreProblem) -> MigrateStep {
        MigrateStep::End(Err(ClassifiedProblem { reason: reason_at(self.stage), problem }))
    }

    pub open spec fn beside(self, artifact: Artifact) -> FileRef {
        FileRef::Beside { rollout_path: self.rollout_path, artifact }
    }

    /// The file from which the source is read.
    pub open spec fn source_file(self) -> FileRef {
        if is_compressed(self.rollout_path@) {
            self.beside(Artifact::Decompressed)
        } else {
            FileRef::Path(self.rollout_path)
        }
    }

    /// Whether the rollout is that of a legacy subagent.
    pub open spec fn legacy_subagent(self) -> bool {
        self.source_history_mode == ThreadHistoryMode::Legacy && self.kind
            == RolloutMigrationKind::Subagent
    }

    pub open spec fn journaling(self) -> MigrateStep {
        self.ask(
            MigrateStage::Journaling,
            StoreAction::WriteJournal { path: self.journal_path, recovery: self.recovery },
        )
    }

    pub open spec fn finding_head(self) -> MigrateStep {
        self.ask(MigrateStage::FindingHead, StoreAction::FindHead { file: self.source_file() })
    }

    pub open spec fn converting(self, bounded: bool) -> MigrateStep {
        self.ask(
            MigrateStage::Converting,
            StoreAction::Convert {
                file: self.source_file(),
                kind: if self.source_history_mode == ThreadHistoryMode::Paginated {
                    ConversionKind::PaginatedUpgrade
                } else if bounded {
                    ConversionKind::BoundedSubagent
                } else {
                    ConversionKind::Canonical
                },
            },
        )
    }

    pub open spec fn measuring_staged(self, ordinal: u64) -> MigrateStep {
        self.ask(
            MigrateStage::MeasuringStaged { ordinal },
            StoreAction::FileLength { file: self.beside(Artifact::Staged) },
        )
    }

    pub open spec fn finishing(self) -> MigrateStep {
        self.ask(
            MigrateStage::Finishing,
            StoreAction::FinishPublished {
                thread_id: self.thread_id,
                source_rollout_path: self.rollout_path,
                published_rollout_path: self.published_rollout_path,
                journal_path: self.journal_path,
            },
        )
    }

    /// Where the migration begins.
    pub open spec fn begun(self) -> MigrateStep {
        if self.has_state_db {
            self.ask(MigrateStage::Getting, StoreAction::GetThread { thread_id: self.thread_id })
        } else {
            self.journaling()
        }
    }

    /// Where the migration goes from a reply.
    pub open spec fn next(self, reply: StoreReply) -> MigrateStep {
        match (self.stage, reply) {
            (MigrateStage::Getting, StoreReply::Thread(None)) => MigrateStep::End(
                Err(
                    ClassifiedProblem {
                        reason: RolloutMigrationFailureReason::MissingSqliteMetadata,
                        problem: StoreProblem::MissingMetadata { thread_id: self.thread_id },
                    },
                ),
            ),
            (MigrateStage::Getting, StoreReply::Thread(Some(_))) => self.journaling(),
            (MigrateStage::Journaling, StoreReply::Done) => self.ask(
                MigrateStage::ReadingSource,
                StoreAction::SourceMetadata { path: self.rollout_path },
            ),
            (MigrateStage::ReadingSource, StoreReply::Source { fingerprint, size }) => {
                let read = MigrateOne { fingerprint, size, ..self };
                if is_compressed(self.rollout_path@) {
                    read.ask(
                        MigrateStage::Decompressing,
                        StoreAction::Decompress { rollout_path: self.rollout_path },
                    )
                } else {
                    read.finding_head()
                }
            },
            (MigrateStage::Decompressing, StoreReply::Done) => self.ask(
                MigrateStage::MeasuringDecompressed,
                StoreAction::FileLength { file: self.beside(Artifact::Decompressed) },
            ),
            (MigrateStage::MeasuringDecompressed, StoreReply::Length(length)) => self.ask(
                MigrateStage::AccountingDecompressed,
                StoreAction::Account { bytes: counted_sum(self.size, length) },
            ),
            (MigrateStage::AccountingDecompressed, StoreReply::Done) => self.finding_head(),
            (MigrateStage::FindingHead, StoreReply::Done) => self.ask(
                MigrateStage::ScanningIds,
                StoreAction::ScanItemIds { file: self.source_file() },
            ),
            (MigrateStage::FindingHead, StoreReply::Classified(failure)) => MigrateStep::End(
                Err(
                    ClassifiedProblem {
                        reason: failure.reason,
                        problem: StoreProblem::Rejected(failure.error),
                    },
                ),
            ),
            (MigrateStage::ScanningIds, StoreReply::Done) => if self.legacy_subagent() {
                self.ask(
                    MigrateStage::SelectingContext,
                    StoreAction::SelectContext { file: self.source_file() },
                )
            } else {
                self.converting(false)
            },
            (MigrateStage::SelectingContext, StoreReply::Answer(bounded)) => self.ask(
                MigrateStage::AccountingContext { bounded },
                StoreAction::Account { bytes: self.size },
            ),
            (MigrateStage::AccountingContext { bounded }, StoreReply::Done) => self.converting(
                bounded,
            ),
            (MigrateStage::Converting, StoreReply::Converted { next_ordinal }) => {
                if self.legacy_subagent() {
                    self.ask(
                        MigrateStage::RewritingBoundary { ordinal: next_ordinal },
                        StoreAction::RewriteBoundary { boundary: next_ordinal },
                    )
                } else {
                    self.measuring_staged(next_ordinal)
                }
            },
            (MigrateStage::RewritingBoundary { ordinal }, StoreReply::Done) => {
                self.measuring_staged(ordinal)
            },
            (MigrateStage::MeasuringStaged { ordinal }, StoreReply::Length(length)) => self.ask(
                MigrateStage::SyncingStaged { length, ordinal },
                StoreAction::SyncStaged,
            ),
            (MigrateStage::SyncingStaged { length, ordinal }, StoreReply::Done) => self.ask(
                MigrateStage::DeletingProjection { length, ordinal },
                StoreAction::DeleteProjection { thread_id: self.thread_id },
            ),
            (MigrateStage::DeletingProjection { length, ordinal }, StoreReply::Done) => self.ask(
                MigrateStage::Projecting { length, ordinal },
                StoreAction::Project {
                    thread_id: self.thread_id,
                    file: self.beside(Artifact::Staged),
                },
            ),
            (MigrateStage::Projecting { length, ordinal }, StoreReply::Done) => self.ask(
                MigrateStage::ReadingProjection { length, ordinal },
                StoreAction::ProjectionState { thread_id: self.thread_id },
            ),
            (
                MigrateStage::ReadingProjection { length, ordinal },
                StoreReply::Projection(state),
            ) => match state {
                None => self.failed(StoreProblem::NoProjection),
                Some((next_byte_offset, next_ordinal)) => if next_byte_offset != length
                    || next_ordinal != ordinal {
                    self.failed(StoreProblem::IncompleteProjection)
                } else {
                    self.ask(
                        MigrateStage::RereadingSource,
                        StoreAction::SourceMetadata { path: self.rollout_path },
                    )
                },
            },
            (MigrateStage::RereadingSource, StoreReply::Source { fingerprint, .. }) => {
                if fingerprint != self.fingerprint {
                    self.failed(StoreProblem::ChangedWhileStaging)
                } else {
                    self.ask(
                        MigrateStage::Publishing,
                        StoreAction::Publish {
                            rollout_path: self.rollout_path,
                            published_rollout_path: self.published_rollout_path,
                            preserved_source_path: self.preserved_source_path,
                            journal_path: self.journal_path,
                            expected_source_fingerprint: self.fingerprint,
                        },
                    )
                }
            },
            (MigrateStage::Publishing, StoreReply::Done) => self.ask(
                MigrateStage::VerifyingPending,
                StoreAction::VerifyUnchanged {
                    thread_id: self.thread_id,
                    journal_path: self.journal_path,
                    selected: self.published_rollout_path,
                },
            ),
            (MigrateStage::VerifyingPending, StoreReply::Done) => if is_compressed(
                self.rollout_path@,
            ) {
                self.ask(
                    MigrateStage::RemovingDecompressed,
                    StoreAction::RemoveIfPresent { file: self.beside(Artifact::Decompressed) },
                )
            } else {
                self.finishing()
            },
            (MigrateStage::RemovingDecompressed, StoreReply::Done) => self.finishing(),
            (MigrateStage::Finishing, StoreReply::Done) => self.ask(
                MigrateStage::VerifyingRetained,
                StoreAction::VerifyUnchanged {
                    thread_id: self.thread_id,
                    journal_path: self.retained_path,
                    selected: self.published_rollout_path,
                },
            ),
            (MigrateStage::VerifyingRetained, StoreReply::Done) => MigrateStep::End(
                Ok(
                    PublishedMigration {
                        rollout_path: self.published_rollout_path,
                        preserved_source_path: self.preserved_source_path,
                    },
                ),
            ),
            (_, reply) => self.failed(store_reply_problem(reply)),
        }
    }

    /// The migration of a rollout, whose file name must end with the identifier of a rollout.
    pub fn new(
        has_state_db: bool,
        thread_id: ThreadId,
        source_history_mode: ThreadHistoryMode,
        kind: RolloutMigrationKind,
        rollout_path: &RolloutPath,
        journal_path: &RolloutPath,
        retained_path: &RolloutPath,
    ) -> (r: Result<MigrateOne, ClassifiedProblem>)
        ensures
            r is Ok <==> rollout_id_in_path(rollout_path@) is Some,
            r is Err ==> r->Err_0 == (ClassifiedProblem {
                reason: RolloutMigrationFailureReason::InvalidSessionMetadata,
                problem: StoreProblem::WithoutRolloutId { path: *rollout_path },
            }),
            r is Ok ==> {
                &&& r->Ok_0.wf()
                &&& r->Ok_0.has_state_db == has_state_db
                &&& r->Ok_0.thread_id == thread_id
                &&& r->Ok_0.source_history_mode == source_history_mode
                &&& r->Ok_0.kind == kind
                &&& r->Ok_0.rollout_path == *rollout_path
                &&& r->Ok_0.journal_path == *journal_path
                &&& r->Ok_0.retained_path == *retained_path
                &&& r->Ok_0.stage is Getting
            },
    {
        let rollout_id: ThreadId = match thread_id_from_rollout_filename(rollout_path) {
            Some(id) => id,
            None => {
                return Err(
                    ClassifiedProblem {
                        reason: RolloutMigrationFailureReason::InvalidSessionMetadata,
                        problem: StoreProblem::WithoutRolloutId { path: rollout_path.clone() },
                    },
                );
            },
        };
        let published: RolloutPath = if rollout_path_is_compressed(rollout_path) {
            plain_rollout_path(rollout_path)
        } else {
            rollout_path.clone()
        };
        let preserved: RolloutPath = match preserved_legacy_rollout_path(rollout_path) {
            Ok(path) => path,
            Err(_) => {
                assert(file_name_of(rollout_path@) is Some);
                rollout_path.clone()
            },
        };
        let recovery = MigrationRecoveryHandle::new_with_published_path(
            rollout_path.clone(),
            published.clone(),
            preserved.clone(),
        );
        Ok(
            MigrateOne {
                has_state_db,
                thread_id,
                rollout_id,
                source_history_mode,
                kind,
                rollout_path: rollout_path.clone(),
                published_rollout_path: published,
                preserved_source_path: preserved,
                journal_path: journal_path.clone(),
                retained_path: retained_path.clone(),
                recovery,
                fingerprint: PreservedSourceFingerprint { size_bytes: 0, modified_at_ns: 0 },
                size: 0,
                stage: MigrateStage::Getting,
            },
        )
    }

    fn go(self, stage: MigrateStage, action: StoreAction) -> (r: MigrateStep)
        ensures
            r == self.ask(stage, action),
    {
        MigrateStep::Ask(MigrateOne { stage, ..self }, action)
    }

    fn fail(self, problem: StoreProblem) -> (r: MigrateStep)
        ensures
            r == self.failed(problem),
    {
        MigrateStep::End(Err(ClassifiedProblem { reason: reason_of(self.stage), problem }))
    }

    fn file_beside(&self, artifact: Artifact) -> (r: FileRef)
        ensures
            r == self.beside(artifact),
    {
        FileRef::Beside { rollout_path: self.rollout_path.clone(), artifact }
    }

    fn source(&self) -> (r: FileRef)
        ensures
            r == self.source_file(),
    {
        if rollout_path_is_compressed(&self.rollout_path) {
            self.file_beside(Artifact::Decompressed)
        } else {
            FileRef::Path(self.rollout_path.clone())
        }
    }

    fn is_legacy_subagent(&self) -> (r: bool)
        ensures
            r == self.legacy_subagent(),
    {
        self.source_history_mode == ThreadHistoryMode::Legacy && self.kind
            == RolloutMigrationKind::Subagent
    }

    fn write_journal(self) -> (r: MigrateStep)
        ensures
            r == self.journaling(),
    {
        let action = StoreAction::WriteJournal {
            path: self.journal_path.clone(),
            recovery: self.recovery.clone(),
        };
        self.go(MigrateStage::Journaling, action)
    }

    fn find_head(self) -> (r: MigrateStep)
        ensures
            r == self.finding_head(),
    {
        let action = StoreAction::FindHead { file: self.source() };
        self.go(MigrateStage::FindingHead, action)
    }

    fn convert(self, bounded: bool) -> (r: MigrateStep)
        ensures
            r == self.converting(bounded),
    {
        let kind = if self.source_history_mode == ThreadHistoryMode::Paginated {
            ConversionKind::PaginatedUpgrade
        } else if bounded {
            ConversionKind::BoundedSubagent
        } else {
            ConversionKind::Canonical
        };
        let action = StoreAction::Convert { file: self.source(), kind };
        self.go(MigrateStage::Converting, action)
    }

    fn measure_staged(self, ordinal: u64) -> (r: MigrateStep)
        ensures
            r == self.measuring_staged(ordinal),
    {
        let action = StoreAction::FileLength { file: self.file_beside(Artifact::Staged) };
        self.go(MigrateStage::MeasuringStaged { ordinal }, action)
    }

    fn finish(self) -> (r: MigrateStep)
        ensures
            r == self.finishing(),
    {
        let action = StoreAction::FinishPublished {
            thread_id: self.thread_id,
            source_rollout_path: self.rollout_path.clone(),
            published_rollout_path: self.published_rollout_path.clone(),
            journal_path: self.journal_path.clone(),
        };
        self.go(MigrateStage::Finishing, action)
    }

    /// Begins the migration.
    pub fn begin(self) -> (r: MigrateStep)
        ensures
            r == self.begun(),
    {
        if self.has_state_db {
            let action = StoreAction::GetThread { thread_id: self.thread_id };
            self.go(MigrateStage::Getting, action)
        } else {
            self.write_journal()
        }
    }

    /// Carries the migration on from a reply.
    pub fn advance(self, reply: StoreReply) -> (r: MigrateStep)
        ensures
            r == self.next(reply),
    {
        match (self.stage, reply) {
            (MigrateStage::Getting, StoreReply::Thread(None)) => MigrateStep::End(
                Err(
                    ClassifiedProblem {
                        reason: RolloutMigrationFailureReason::MissingSqliteMetadata,
                        problem: StoreProblem::MissingMetadata { thread_id: self.thread_id },
                    },
                ),
            ),
            (MigrateStage::Getting, StoreReply::Thread(Some(_))) => self.write_journal(),
            (MigrateStage::Journaling, StoreReply::Done) => {
                let action = StoreAction::SourceMetadata { path: self.rollout_path.clone() };
                self.go(MigrateStage::ReadingSource, action)
            },
            (MigrateStage::ReadingSource, StoreReply::Source { fingerprint, size }) => {
                let read = MigrateOne { fingerprint, size, ..self };
                if rollout_path_is_compressed(&read.rollout_path) {
                    let action = StoreAction::Decompress { rollout_path: read.rollout_path.clone() };
                    read.go(MigrateStage::Decompressing, action)
                } else {
                    read.find_head()
                }
            },
            (MigrateStage::Decompressing, StoreReply::Done) => {
                let action = StoreAction::FileLength {
                    file: self.file_beside(Artifact::Decompressed),
                };
                self.go(MigrateStage::MeasuringDecompressed, action)
            },
            (MigrateStage::MeasuringDecompressed, StoreReply::Length(length)) => {
                let action = StoreAction::Account { bytes: self.size.saturating_add(length) };
                self.go(MigrateStage::AccountingDecompressed, action)
            },
            (MigrateStage::AccountingDecompressed, StoreReply::Done) => self.find_head(),
            (MigrateStage::FindingHead, StoreReply::Done) => {
                let action = StoreAction::ScanItemIds { file: self.source() };
                self.go(MigrateStage::ScanningIds, action)
            },
            (MigrateStage::FindingHead, StoreReply::Classified(failure)) => MigrateStep::End(
                Err(
                    ClassifiedProblem {
                        reason: failure.reason,
                        problem: StoreProblem::Rejected(failure.error),
                    },
                ),
            ),
            (MigrateStage::ScanningIds, StoreReply::Done) => {
                if self.is_legacy_subagent() {
                    let action = StoreAction::SelectContext { file: self.source() };
                    self.go(MigrateStage::SelectingContext, action)
                } else {
                    self.convert(false)
                }
            },
            (MigrateStage::SelectingContext, StoreReply::Answer(bounded)) => {
                let action = StoreAction::Account { bytes: self.size };
                self.go(MigrateStage::AccountingContext { bounded }, action)
            },
            (MigrateStage::AccountingContext { bounded }, StoreReply::Done) => self.convert(
                bounded,
            ),
            (MigrateStage::Converting, StoreReply::Converted { next_ordinal }) => {
                if self.is_legacy_subagent() {
                    self.go(
                        MigrateStage::RewritingBoundary { ordinal: next_ordinal },
                        StoreAction::RewriteBoundary { boundary: next_ordinal },
                    )
                } else {
                    self.measure_staged(next_ordinal)
                }
            },
            (MigrateStage::RewritingBoundary { ordinal }, StoreReply::Done) => {
                self.measure_staged(ordinal)
            },
            (MigrateStage::MeasuringStaged { ordinal }, StoreReply::Length(length)) => self.go(
                MigrateStage::SyncingStaged { length, ordinal },
                StoreAction::SyncStaged,
            ),
            (MigrateStage::SyncingStaged { length, ordinal }, StoreReply::Done) => {
                let action = StoreAction::DeleteProjection { thread_id: self.thread_id };
                self.go(MigrateStage::DeletingProjection { length, ordinal }, action)
            },
            (MigrateStage::DeletingProjection { length, ordinal }, StoreReply::Done) => {
                let action = StoreAction::Project {
                    thread_id: self.thread_id,
                    file: self.file_beside(Artifact::Staged),
                };
                self.go(MigrateStage::Projecting { length, ordinal }, action)
            },
            (MigrateStage::Projecting { length, ordinal }, StoreReply::Done) => {
                let action = StoreAction::ProjectionState { thread_id: self.thread_id };
                self.go(MigrateStage::ReadingProjection { length, ordinal }, action)
            },
            (
                MigrateStage::ReadingProjection { length, ordinal },
                StoreReply::Projection(state),
            ) => match state {
                None => self.fail(StoreProblem::NoProjection),
                Some((next_byte_offset, next_ordinal)) => {
                    if next_byte_offset != length || next_ordinal != ordinal {
                        return self.fail(StoreProblem::IncompleteProjection);
                    }
                    let action = StoreAction::SourceMetadata { path: self.rollout_path.clone() };
                    self.go(MigrateStage::RereadingSource, action)
                },
            },
            (MigrateStage::RereadingSource, StoreReply::Source { fingerprint, .. }) => {
                if fingerprint != self.fingerprint {
                    return self.fail(StoreProblem::ChangedWhileStaging);
                }
                let action = StoreAction::Publish {
                    rollout_path: self.rollout_path.clone(),
                    published_rollout_path: self.published_rollout_path.clone(),
                    preserved_source_path: self.preserved_source_path.clone(),
                    journal_path: self.journal_path.clone(),
                    expected_source_fingerprint: self.fingerprint,
                };
                self.go(MigrateStage::Publishing, action)
            },
            (MigrateStage::Publishing, StoreReply::Done) => {
                let action = StoreAction::VerifyUnchanged {
                    thread_id: self.thread_id,
                    journal_path: self.journal_path.clone(),
                    selected: self.published_rollout_path.clone(),
                };
                self.go(MigrateStage::VerifyingPending, action)
            },
            (MigrateStage::VerifyingPending, StoreReply::Done) => {
                if rollout_path_is_compressed(&self.rollout_path) {
                    let action = StoreAction::RemoveIfPresent {
                        file: self.file_beside(Artifact::Decompressed),
                    };
                    self.go(MigrateStage::RemovingDecompressed, action)
                } else {
                    self.finish()
                }
            },
            (MigrateStage::RemovingDecompressed, StoreReply::Done) => self.finish(),
            (MigrateStage::Finishing, StoreReply::Done) => {
                let action = StoreAction::VerifyUnchanged {
                    thread_id: self.thread_id,
                    journal_path: self.retained_path.clone(),
                    selected: self.published_rollout_path.clone(),
                };
                self.go(MigrateStage::VerifyingRetained, action)
            },
            (MigrateStage::VerifyingRetained, StoreReply::Done) => MigrateStep::End(
                Ok(
                    PublishedMigration {
                        rollout_path: self.published_rollout_path,
                        preserved_source_path: self.preserved_source_path,
                    },
                ),
            ),
            (_, reply) => self.fail(store_problem_of(reply)),
        }
    }
}

} // verus!
