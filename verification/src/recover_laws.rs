//! How migrations that stopped are picked up or cleaned up, step by step.

use crate::error::ThreadId;
use crate::error::ThreadStoreError;
use crate::operations::Artifact;
use crate::operations::FileRef;
use crate::operations::Step;
use crate::operations::StoreAction;
use crate::operations::StoreProblem;
use crate::operations::StoreReply;
use crate::paths::is_compressed;
use crate::paths::RolloutPath;
use crate::recover::CleanUpUnpublished;
use crate::recover::RecoverPublished;
use crate::recovery::MigrationRecoveryHandle;
use crate::rollout::ThreadHistoryMode;
use vstd::prelude::*;

verus! {

/// The recovery of a published rollout reads its record. With one, the record is validated for the
/// rollout, its source has to exist, and the source has to be unchanged; without one it goes on.
pub proof fn recoveries_hold_their_record_against_the_source(
    m: RecoverPublished,
    recovery: MigrationRecoveryHandle,
    rejection: ThreadStoreError,
)
    requires
        m.stage is ReadingJournal,
        m.recovery is None,
    ensures
        ({
            let read = m.next(StoreReply::Journal(Some(recovery)));
            let valid = read->Ask_0.next(StoreReply::Done);
            let present = valid->Ask_0.next(StoreReply::Answer(true));
            let verified = present->Ask_0.next(StoreReply::Done);
            let empty = m.next(StoreReply::Journal(None));
            &&& m.begun() == Step::<RecoverPublished, RolloutPath>::Ask(
                m,
                StoreAction::ReadJournal { path: m.journal_path },
            )
            &&& empty is Ask && empty->Ask_1 == (StoreAction::ReadMetadata {
                path: m.rollout_path,
            })
            &&& read is Ask && read->Ask_1 == (StoreAction::Validate {
                thread_id: m.thread_id,
                journal_path: m.journal_path,
                recovery,
                selected: Some(m.rollout_path),
                require_publication_fingerprint: true,
            })
            &&& read->Ask_0.next(StoreReply::Rejected(rejection)) == Step::<
                RecoverPublished,
                RolloutPath,
            >::End(Err(StoreProblem::Rejected(rejection)))
            &&& valid is Ask && valid->Ask_1 == (StoreAction::Exists {
                path: recovery.preserved_source_path,
            })
            &&& valid->Ask_0.next(StoreReply::Answer(false)) == Step::<
                RecoverPublished,
                RolloutPath,
            >::End(Err(StoreProblem::SourceMissing { path: recovery.preserved_source_path }))
            &&& present is Ask && present->Ask_1 == (StoreAction::VerifyUnchanged {
                thread_id: m.thread_id,
                journal_path: m.journal_path,
                selected: m.rollout_path,
            })
            &&& verified is Ask && verified->Ask_1 == (StoreAction::ReadMetadata {
                path: m.rollout_path,
            })
        }),
{
}

/// What is recovered has to be the migrated rollout of the thread. A compressed one is decompressed
/// beside it and both lengths are accounted for; then what is projected is measured.
pub proof fn recoveries_need_the_migrated_rollout(
    m: RecoverPublished,
    id: ThreadId,
    history_mode: ThreadHistoryMode,
    decompressed_length: u64,
    length: u64,
)
    requires
        m.stage is ReadingMetadata,
    ensures
        ({
            let decompressed = FileRef::Beside {
                rollout_path: m.rollout_path,
                artifact: Artifact::Decompressed,
            };
            let read = m.next(StoreReply::Metadata { id, history_mode });
            let unpacked = read->Ask_0.next(StoreReply::Done);
            let measured = unpacked->Ask_0.next(StoreReply::Length(decompressed_length));
            let both = measured->Ask_0.next(StoreReply::Length(length));
            let accounted = both->Ask_0.next(StoreReply::Done);
            let own = id == m.thread_id && history_mode == ThreadHistoryMode::PaginatedRefsV1;
            let total = if length + decompressed_length > u64::MAX {
                u64::MAX
            } else {
                (length + decompressed_length) as u64
            };
            &&& !own ==> read == Step::<RecoverPublished, RolloutPath>::End(
                Err(StoreProblem::NotPaginated { path: m.rollout_path }),
            )
            &&& own && !is_compressed(m.rollout_path@) ==> read is Ask && read->Ask_1 == (
            StoreAction::FileLength { file: FileRef::Path(m.rollout_path) })
            &&& own && is_compressed(m.rollout_path@) ==> {
                &&& read is Ask && read->Ask_1 == (StoreAction::Decompress {
                    rollout_path: m.rollout_path,
                })
                &&& unpacked is Ask && unpacked->Ask_1 == (StoreAction::FileLength {
                    file: decompressed,
                })
                &&& measured is Ask && measured->Ask_1 == (StoreAction::FileLength {
                    file: FileRef::Path(m.rollout_path),
                })
                &&& both is Ask && both->Ask_1 == (StoreAction::Account { bytes: total })
                &&& accounted is Ask && accounted->Ask_1 == (StoreAction::FileLength {
                    file: decompressed,
                })
            }
        }),
{
}

/// A projection that covers the rollout is kept; any other, or none, is made anew.
pub proof fn recoveries_keep_whole_projections(
    m: RecoverPublished,
    expected: u64,
    covered: u64,
    ordinal: u64,
)
    requires
        m.stage is MeasuringProjected,
    ensures
        ({
            let source = match m.recovery {
                Some(recovery) => recovery.rollout_path,
                None => m.rollout_path,
            };
            let staged = StoreAction::RemoveIfPresent {
                file: FileRef::Beside { rollout_path: source, artifact: Artifact::Staged },
            };
            let measured = m.next(StoreReply::Length(expected));
            let none = measured->Ask_0.next(StoreReply::Projection(None));
            let some = measured->Ask_0.next(StoreReply::Projection(Some((covered, ordinal))));
            let deleted = none->Ask_0.next(StoreReply::Done);
            let projected = deleted->Ask_0.next(StoreReply::Done);
            &&& measured is Ask && measured->Ask_1 == (StoreAction::ProjectionState {
                thread_id: m.thread_id,
            })
            &&& covered == expected ==> some is Ask && some->Ask_1 == staged
            &&& covered != expected ==> some == none
            &&& none is Ask && none->Ask_1 == (StoreAction::DeleteProjection {
                thread_id: m.thread_id,
            })
            &&& deleted is Ask && deleted->Ask_1 == (StoreAction::Project {
                thread_id: m.thread_id,
                file: if is_compressed(m.rollout_path@) {
                    FileRef::Beside {
                        rollout_path: m.rollout_path,
                        artifact: Artifact::Decompressed,
                    }
                } else {
                    FileRef::Path(m.rollout_path)
                },
            })
            &&& projected is Ask && projected->Ask_1 == staged
        }),
{
}

/// What a migration left beside its source is removed, and what was decompressed; then the migration
/// is finished, and the recovery ends with the rollout.
pub proof fn recoveries_remove_what_was_left_and_finish(m: RecoverPublished)
    requires
        m.stage is RemovingStaged,
    ensures
        ({
            let source = match m.recovery {
                Some(recovery) => recovery.rollout_path,
                None => m.rollout_path,
            };
            let staged = m.next(StoreReply::Done);
            let compressed = staged->Ask_0.next(StoreReply::Done);
            let finishing = if is_compressed(m.rollout_path@) {
                compressed->Ask_0.next(StoreReply::Done)
            } else {
                compressed
            };
            &&& staged is Ask && staged->Ask_1 == (StoreAction::RemoveIfPresent {
                file: FileRef::Beside {
                    rollout_path: source,
                    artifact: Artifact::CompressedStaged,
                },
            })
            &&& compressed is Ask && finishing is Ask
            &&& is_compressed(m.rollout_path@) ==> compressed->Ask_1 == (
            StoreAction::RemoveIfPresent {
                file: FileRef::Beside {
                    rollout_path: m.rollout_path,
                    artifact: Artifact::Decompressed,
                },
            })
            &&& finishing->Ask_1 == (StoreAction::FinishPublished {
                thread_id: m.thread_id,
                source_rollout_path: source,
                published_rollout_path: m.rollout_path,
                journal_path: m.journal_path,
            })
            &&& finishing->Ask_0.next(StoreReply::Done) == Step::<
                RecoverPublished,
                RolloutPath,
            >::End(Ok(m.rollout_path))
        }),
{
}

/// A failure or a refusal ends a recovery, with what was said.
pub proof fn recoveries_end_with_the_failure_they_are_told(
    m: RecoverPublished,
    error: String,
    rejection: ThreadStoreError,
)
    ensures
        m.next(StoreReply::Failed(error)) == Step::<RecoverPublished, RolloutPath>::End(
            Err(StoreProblem::Failed(error)),
        ),
        m.next(StoreReply::Rejected(rejection)) == Step::<RecoverPublished, RolloutPath>::End(
            Err(StoreProblem::Rejected(rejection)),
        ),
{
}

/// Nothing is cleaned up behind a publication: where the recorded rollout exists and is the migrated
/// one of the thread, or the rollout itself is a migrated one or cannot be read, all stays as it is.
pub proof fn published_migrations_are_not_cleaned_up(
    m: CleanUpUnpublished,
    recovery: MigrationRecoveryHandle,
    id: ThreadId,
    history_mode: ThreadHistoryMode,
    error: String,
)
    requires
        m.stage is ReadingJournal,
        m.recovery is None,
    ensures
        ({
            let published = match recovery.published_rollout_path {
                Some(path) => path,
                None => recovery.rollout_path,
            };
            let read = m.next(StoreReply::Journal(Some(recovery)));
            let valid = read->Ask_0.next(StoreReply::Done);
            let there = valid->Ask_0.next(StoreReply::Answer(true));
            let missing = valid->Ask_0.next(StoreReply::Answer(false));
            let head = there->Ask_0.next(StoreReply::Metadata { id, history_mode });
            let rollout = m.next(StoreReply::Journal(None));
            let ended = Step::<CleanUpUnpublished, ()>::End(Ok(()));
            &&& m.begun() == Step::<CleanUpUnpublished, ()>::Ask(
                m,
                StoreAction::ReadJournal { path: m.journal_path },
            )
            &&& read is Ask && read->Ask_1 == (StoreAction::Validate {
                thread_id: m.thread_id,
                journal_path: m.journal_path,
                recovery,
                selected: None,
                require_publication_fingerprint: false,
            })
            &&& valid is Ask && valid->Ask_1 == (StoreAction::Exists { path: published })
            &&& there is Ask && there->Ask_1 == (StoreAction::ReadMetadata { path: published })
            &&& missing is Ask && missing->Ask_1 == (StoreAction::ReadMetadata {
                path: m.rollout_path,
            })
            &&& id == m.thread_id && history_mode == ThreadHistoryMode::PaginatedRefsV1 ==> head
                == ended
            &&& id != m.thread_id || history_mode != ThreadHistoryMode::PaginatedRefsV1 ==> head
                == missing
            &&& there->Ask_0.next(StoreReply::Failed(error)) == missing
            &&& rollout is Ask && rollout->Ask_1 == (StoreAction::ReadMetadata {
                path: m.rollout_path,
            })
            &&& rollout->Ask_0.next(StoreReply::Failed(error)) == ended
            &&& rollout->Ask_0.next(
                StoreReply::Metadata { id, history_mode: ThreadHistoryMode::PaginatedRefsV1 },
            ) == ended
        }),
{
}

/// What a migration left behind before publication is removed: the projection, unless it is still that
/// of a paginated source, and every temporary file. The projection of a paginated source is made anew
/// where it was replaced.
pub proof fn unpublished_migrations_are_cleaned_up(
    m: CleanUpUnpublished,
    id: ThreadId,
    history_mode: ThreadHistoryMode,
)
    requires
        m.stage is ReadingRollout,
        history_mode != ThreadHistoryMode::PaginatedRefsV1,
    ensures
        ({
            let beside = |artifact: Artifact|
                StoreAction::RemoveIfPresent {
                    file: FileRef::Beside { rollout_path: m.rollout_path, artifact },
                };
            let read = m.next(StoreReply::Metadata { id, history_mode });
            let paginated = m.source_history_mode == ThreadHistoryMode::Paginated;
            let deletes = !paginated || m.projection_was_replaced;
            let staged = if deletes {
                read->Ask_0.next(StoreReply::Done)
            } else {
                read
            };
            let rewritten = staged->Ask_0.next(StoreReply::Done);
            let compressed = rewritten->Ask_0.next(StoreReply::Done);
            let decompressed = compressed->Ask_0.next(StoreReply::Done);
            let after = decompressed->Ask_0.next(StoreReply::Done);
            &&& read is Ask && staged is Ask
            &&& deletes ==> read->Ask_1 == (StoreAction::DeleteProjection {
                thread_id: m.thread_id,
            })
            &&& staged->Ask_1 == beside(Artifact::Staged)
            &&& rewritten is Ask && rewritten->Ask_1 == beside(Artifact::Rewritten)
            &&& compressed is Ask && compressed->Ask_1 == beside(Artifact::CompressedStaged)
            &&& decompressed is Ask && decompressed->Ask_1 == beside(Artifact::Decompressed)
            &&& after is Ask
            &&& paginated && m.projection_was_replaced ==> after->Ask_1 == (
            StoreAction::Project {
                thread_id: m.thread_id,
                file: FileRef::Path(m.rollout_path),
            }) && after->Ask_0.stage is Projecting
            &&& !(paginated && m.projection_was_replaced) && m.recovery is None ==> after->Ask_1
                == (StoreAction::RemoveJournal { path: m.journal_path })
            &&& !(paginated && m.projection_was_replaced) && m.recovery is Some ==> after->Ask_1
                == (StoreAction::RemoveAlias {
                rollout_path: m.rollout_path,
                preserved_source_path: m.recovery->0.preserved_source_path,
            })
        }),
{
}

/// At last the second name of the source is removed, where a record names one, and then the record.
pub proof fn cleaning_up_ends_with_the_record(m: CleanUpUnpublished, error: String)
    ensures
        ({
            let journal = StoreAction::RemoveJournal { path: m.journal_path };
            let step = m.next(StoreReply::Done);
            &&& m.stage is Projecting && m.recovery is Some ==> step is Ask && step->Ask_1 == (
            StoreAction::RemoveAlias {
                rollout_path: m.rollout_path,
                preserved_source_path: m.recovery->0.preserved_source_path,
            })
            &&& m.stage is Projecting && m.recovery is None ==> step is Ask && step->Ask_1
                == journal
            &&& m.stage is RemovingAlias ==> step is Ask && step->Ask_1 == journal
            &&& m.stage is RemovingJournal ==> step == Step::<CleanUpUnpublished, ()>::End(Ok(()))
            &&& !(m.stage is ReadingPublished) && !(m.stage is ReadingRollout) ==> m.next(
                StoreReply::Failed(error),
            ) == Step::<CleanUpUnpublished, ()>::End(Err(StoreProblem::Failed(error)))
        }),
{
}

} // verus!
