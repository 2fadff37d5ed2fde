//! The steps of a migration, of finishing it and of releasing its source, and what ends them early.

use crate::error::migration_failure;
use crate::error::ThreadId;
use crate::error::ThreadStoreError;
use crate::finish::FinishPublished;
use crate::finish::FinishStage;
use crate::finish::PromoteName;
use crate::migrate_one::ClassifiedProblem;
use crate::migrate_one::MigrateOne;
use crate::migrate_one::MigrateStage;
use crate::migrate_one::MigrateStep;
use crate::migrate_one::RolloutMigrationKind;
use crate::operations::store_problem_view;
use crate::operations::Artifact;
use crate::operations::ConversionKind;
use crate::operations::FileRef;
use crate::operations::PublishedMigration;
use crate::operations::Step;
use crate::operations::StoreAction;
use crate::operations::StoreProblem;
use crate::operations::StoreReply;
use crate::operations::ThreadRow;
use crate::paths::file_name_of;
use crate::paths::is_compressed;
use crate::paths::plain_path;
use crate::paths::RolloutPath;
use crate::recovery::MigrationRecoveryHandle;
use crate::recovery::PreservedSourceFingerprint;
use crate::report::PreservedSourceRetirementOutcome;
use crate::report::PreservedSourceRetirementStatus;
use crate::report::RolloutMigrationFailure;
use crate::report::RolloutMigrationFailureReason;
use crate::retire_thread::reports_retirement;
use crate::retire_thread::Retained;
use crate::retire_thread::RetireAction;
use crate::retire_thread::RetireReply;
use crate::retire_thread::RetireStep;
use crate::retire_thread::RetireThread;
use crate::retire_thread::RetireThreadStage;
use crate::retire_thread::RetirementRefusal;
use crate::retire_thread::RetirementVerdict;
use crate::rollout::ThreadHistoryMode;
use crate::text::is_blank_text;
use vstd::prelude::*;

verus! {

/// A migration begins with the row of the thread, where there is an index, and writes its record
/// before anything else. A thread that the index does not know is not migrated.
pub proof fn migrations_begin_with_their_record(m: MigrateOne, row: ThreadRow)
    ensures
        ({
            let begun = m.begun();
            let record = StoreAction::WriteJournal { path: m.journal_path, recovery: m.recovery };
            let known = begun->Ask_0.next(StoreReply::Thread(Some(row)));
            &&& begun is Ask
            &&& !m.has_state_db ==> begun->Ask_1 == record
            &&& m.has_state_db ==> {
                &&& begun->Ask_1 == (StoreAction::GetThread { thread_id: m.thread_id })
                &&& known is Ask && known->Ask_1 == record
                &&& begun->Ask_0.next(StoreReply::Thread(None)) == MigrateStep::End(
                    Err(
                        ClassifiedProblem {
                            reason: RolloutMigrationFailureReason::MissingSqliteMetadata,
                            problem: StoreProblem::MissingMetadata { thread_id: m.thread_id },
                        },
                    ),
                )
            }
        }),
{
}

/// The source is looked at before it is read. A compressed one is decompressed beside the rollout and
/// both sizes are accounted for; a plain one is read as it is.
pub proof fn sources_are_looked_at_before_they_are_read(
    m: MigrateOne,
    fingerprint: PreservedSourceFingerprint,
    size: u64,
    length: u64,
)
    requires
        m.stage is Journaling,
    ensures
        ({
            let decompressed = FileRef::Beside {
                rollout_path: m.rollout_path,
                artifact: Artifact::Decompressed,
            };
            let recorded = m.next(StoreReply::Done);
            let read = recorded->Ask_0.next(StoreReply::Source { fingerprint, size });
            let unpacked = read->Ask_0.next(StoreReply::Done);
            let measured = unpacked->Ask_0.next(StoreReply::Length(length));
            let accounted = measured->Ask_0.next(StoreReply::Done);
            let total = if size + length > u64::MAX {
                u64::MAX
            } else {
                (size + length) as u64
            };
            &&& recorded is Ask && recorded->Ask_1 == (StoreAction::SourceMetadata {
                path: m.rollout_path,
            })
            &&& read is Ask
            &&& read->Ask_0.fingerprint == fingerprint && read->Ask_0.size == size
            &&& !is_compressed(m.rollout_path@) ==> read->Ask_1 == (StoreAction::FindHead {
                file: FileRef::Path(m.rollout_path),
            })
            &&& is_compressed(m.rollout_path@) ==> {
                &&& read->Ask_1 == (StoreAction::Decompress { rollout_path: m.rollout_path })
                &&& unpacked is Ask && unpacked->Ask_1 == (StoreAction::FileLength {
                    file: decompressed,
                })
                &&& measured is Ask && measured->Ask_1 == (StoreAction::Account { bytes: total })
                &&& accounted is Ask && accounted->Ask_1 == (StoreAction::FindHead {
                    file: decompressed,
                })
            }
        }),
{
}

/// After the head and the identifiers, the source is converted: a paginated source is upgraded, a
/// legacy subagent selects its context first and may be bounded, and anything else is made canonical.
pub proof fn sources_are_converted_by_their_kind(
    m: MigrateOne,
    bounded: bool,
    failure: RolloutMigrationFailure,
)
    requires
        m.stage is FindingHead,
    ensures
        ({
            let file = if is_compressed(m.rollout_path@) {
                FileRef::Beside { rollout_path: m.rollout_path, artifact: Artifact::Decompressed }
            } else {
                FileRef::Path(m.rollout_path)
            };
            let found = m.next(StoreReply::Done);
            let scanned = found->Ask_0.next(StoreReply::Done);
            let selected = scanned->Ask_0.next(StoreReply::Answer(bounded));
            let accounted = selected->Ask_0.next(StoreReply::Done);
            let subagent = m.source_history_mode == ThreadHistoryMode::Legacy && m.kind
                == RolloutMigrationKind::Subagent;
            let upgrade = m.source_history_mode == ThreadHistoryMode::Paginated;
            &&& found is Ask && found->Ask_1 == (StoreAction::ScanItemIds { file })
            &&& m.next(StoreReply::Classified(failure)) == MigrateStep::End(
                Err(
                    ClassifiedProblem {
                        reason: failure.reason,
                        problem: StoreProblem::Rejected(failure.error),
                    },
                ),
            )
            &&& scanned is Ask
            &&& upgrade ==> scanned->Ask_1 == (StoreAction::Convert {
                file,
                kind: ConversionKind::PaginatedUpgrade,
            })
            &&& !upgrade && !subagent ==> scanned->Ask_1 == (StoreAction::Convert {
                file,
                kind: ConversionKind::Canonical,
            })
            &&& subagent ==> {
                &&& scanned->Ask_1 == (StoreAction::SelectContext { file })
                &&& selected is Ask && selected->Ask_1 == (StoreAction::Account { bytes: m.size })
                &&& accounted is Ask && accounted->Ask_1 == (StoreAction::Convert {
                    file,
                    kind: if bounded {
                        ConversionKind::BoundedSubagent
                    } else {
                        ConversionKind::Canonical
                    },
                })
            }
        }),
{
}

/// The converted history of a legacy subagent gets its boundary. Then the staged file is measured and
/// made durable, the old projection is deleted, and the staged file is projected.
pub proof fn converted_histories_are_staged_and_projected(
    m: MigrateOne,
    next_ordinal: u64,
    length: u64,
)
    requires
        m.stage is Converting,
    ensures
        ({
            let staged = FileRef::Beside {
                rollout_path: m.rollout_path,
                artifact: Artifact::Staged,
            };
            let subagent = m.source_history_mode == ThreadHistoryMode::Legacy && m.kind
                == RolloutMigrationKind::Subagent;
            let converted = m.next(StoreReply::Converted { next_ordinal });
            let measuring = if subagent {
                converted->Ask_0.next(StoreReply::Done)
            } else {
                converted
            };
            let measured = measuring->Ask_0.next(StoreReply::Length(length));
            let synced = measured->Ask_0.next(StoreReply::Done);
            let deleted = synced->Ask_0.next(StoreReply::Done);
            let projected = deleted->Ask_0.next(StoreReply::Done);
            &&& converted is Ask && measuring is Ask
            &&& subagent ==> converted->Ask_1 == (StoreAction::RewriteBoundary {
                boundary: next_ordinal,
            })
            &&& measuring->Ask_1 == (StoreAction::FileLength { file: staged })
            &&& measured is Ask && measured->Ask_1 == StoreAction::SyncStaged
            &&& synced is Ask && synced->Ask_1 == (StoreAction::DeleteProjection {
                thread_id: m.thread_id,
            })
            &&& deleted is Ask && deleted->Ask_1 == (StoreAction::Project {
                thread_id: m.thread_id,
                file: staged,
            })
            &&& projected is Ask && projected->Ask_1 == (StoreAction::ProjectionState {
                thread_id: m.thread_id,
            })
            &&& projected->Ask_0.stage == (MigrateStage::ReadingProjection {
                length,
                ordinal: next_ordinal,
            })
        }),
{
}

/// The projection has to cover the staged file to its last byte and ordinal, and the source has to be
/// what was read, before anything is published.
pub proof fn whole_projections_of_unchanged_sources_are_published(
    m: MigrateOne,
    length: u64,
    ordinal: u64,
    projected_length: u64,
    projected_ordinal: u64,
    fingerprint: PreservedSourceFingerprint,
    size: u64,
)
    requires
        m.stage == (MigrateStage::ReadingProjection { length, ordinal }),
    ensures
        ({
            let failed = |reason: RolloutMigrationFailureReason, problem: StoreProblem|
                MigrateStep::End(Err(ClassifiedProblem { reason, problem }));
            let read = m.next(
                StoreReply::Projection(Some((projected_length, projected_ordinal))),
            );
            let reread = read->Ask_0.next(StoreReply::Source { fingerprint, size });
            let whole = projected_length == length && projected_ordinal == ordinal;
            &&& m.next(StoreReply::Projection(None)) == failed(
                RolloutMigrationFailureReason::SqliteMaterializationFailed,
                StoreProblem::NoProjection,
            )
            &&& !whole ==> read == failed(
                RolloutMigrationFailureReason::SqliteMaterializationFailed,
                StoreProblem::IncompleteProjection,
            )
            &&& whole ==> {
                &&& read is Ask && read->Ask_1 == (StoreAction::SourceMetadata {
                    path: m.rollout_path,
                })
                &&& fingerprint != m.fingerprint ==> reread == failed(
                    RolloutMigrationFailureReason::RolloutPublishFailed,
                    StoreProblem::ChangedWhileStaging,
                )
                &&& fingerprint == m.fingerprint ==> reread is Ask && reread->Ask_1 == (
                StoreAction::Publish {
                    rollout_path: m.rollout_path,
                    published_rollout_path: m.published_rollout_path,
                    preserved_source_path: m.preserved_source_path,
                    journal_path: m.journal_path,
                    expected_source_fingerprint: m.fingerprint,
                })
            }
        }),
{
}

/// What is published is verified against the pending record, finished, and verified against the
/// retained record. What was decompressed goes before it is finished. The end names what was published
/// and what was preserved.
pub proof fn published_migrations_are_verified_and_finished(m: MigrateOne)
    requires
        m.stage is Publishing,
    ensures
        ({
            let published = m.next(StoreReply::Done);
            let verified = published->Ask_0.next(StoreReply::Done);
            let finishing = if is_compressed(m.rollout_path@) {
                verified->Ask_0.next(StoreReply::Done)
            } else {
                verified
            };
            let finished = finishing->Ask_0.next(StoreReply::Done);
            &&& published is Ask && published->Ask_1 == (StoreAction::VerifyUnchanged {
                thread_id: m.thread_id,
                journal_path: m.journal_path,
                selected: m.published_rollout_path,
            })
            &&& verified is Ask && finishing is Ask
            &&& is_compressed(m.rollout_path@) ==> verified->Ask_1 == (
            StoreAction::RemoveIfPresent {
                file: FileRef::Beside {
                    rollout_path: m.rollout_path,
                    artifact: Artifact::Decompressed,
                },
            })
            &&& finishing->Ask_1 == (StoreAction::FinishPublished {
                thread_id: m.thread_id,
                source_rollout_path: m.rollout_path,
                published_rollout_path: m.published_rollout_path,
                journal_path: m.journal_path,
            })
            &&& finished is Ask && finished->Ask_1 == (StoreAction::VerifyUnchanged {
                thread_id: m.thread_id,
                journal_path: m.retained_path,
                selected: m.published_rollout_path,
            })
            &&& finished->Ask_0.next(StoreReply::Done) == MigrateStep::End(
                Ok(
                    PublishedMigration {
                        rollout_path: m.published_rollout_path,
                        preserved_source_path: m.preserved_source_path,
                    },
                ),
            )
        }),
{
}

/// A failed migration is reported by how far it came: reading the source, converting it, projecting
/// it, or publishing it. What was said is kept.
pub proof fn failed_migrations_are_reported_by_how_far_they_came(
    m: MigrateOne,
    error: String,
    rejection: ThreadStoreError,
)
    ensures
        ({
            let reads = m.stage is ReadingSource || m.stage is Decompressing || m.stage
                is MeasuringDecompressed || m.stage is AccountingDecompressed || m.stage
                is FindingHead || m.stage is ScanningIds;
            let converts = m.stage is SelectingContext || m.stage is AccountingContext || m.stage
                is Converting || m.stage is RewritingBoundary || m.stage is MeasuringStaged
                || m.stage is SyncingStaged;
            let projects = m.stage is DeletingProjection || m.stage is Projecting || m.stage
                is ReadingProjection;
            let reason = if m.stage is Getting {
                RolloutMigrationFailureReason::Unknown
            } else if reads {
                RolloutMigrationFailureReason::RolloutReadFailed
            } else if converts {
                RolloutMigrationFailureReason::LegacyRolloutConversionFailed
            } else if projects {
                RolloutMigrationFailureReason::SqliteMaterializationFailed
            } else {
                RolloutMigrationFailureReason::RolloutPublishFailed
            };
            &&& m.next(StoreReply::Failed(error)) == MigrateStep::End(
                Err(ClassifiedProblem { reason, problem: StoreProblem::Failed(error) }),
            )
            &&& m.next(StoreReply::Rejected(rejection)) == MigrateStep::End(
                Err(ClassifiedProblem { reason, problem: StoreProblem::Rejected(rejection) }),
            )
        }),
{
}

/// The index is marked with the new mode, under the title that the thread was given, or else its
/// legacy name; a blank one is none. A paginated thread with a name keeps it, and without an index
/// there is nothing to mark.
pub proof fn threads_are_marked_under_their_name(m: PromoteName, row: ThreadRow, error: String)
    requires
        !m.marking,
    ensures
        ({
            let named = (row.history_mode == ThreadHistoryMode::Paginated || row.history_mode
                == ThreadHistoryMode::PaginatedRefsV1) && (m.target_history_mode
                == ThreadHistoryMode::Paginated || m.target_history_mode
                == ThreadHistoryMode::PaginatedRefsV1) && row.name is Some && !is_blank_text(
                row.name->0@,
            );
            let given = if row.distinct_title is Some {
                row.distinct_title
            } else {
                m.legacy_name
            };
            let step = m.next(StoreReply::Thread(Some(row)));
            let missing = Step::<PromoteName, ()>::End(
                Err(StoreProblem::MissingMetadata { thread_id: m.thread_id }),
            );
            &&& m.has_state_db ==> m.begun() == Step::<PromoteName, ()>::Ask(
                m,
                StoreAction::GetThread { thread_id: m.thread_id },
            )
            &&& !m.has_state_db ==> m.begun() == Step::<PromoteName, ()>::End(Ok(()))
            &&& m.next(StoreReply::Thread(None)) == missing
            &&& named ==> step == Step::<PromoteName, ()>::End(Ok(()))
            &&& !named ==> {
                &&& step is Ask
                &&& step->Ask_1 is MarkPaginated
                &&& step->Ask_1->MarkPaginated_thread_id == m.thread_id
                &&& step->Ask_1->mode == m.target_history_mode
                &&& given is Some && !is_blank_text(given->0@) ==> step->Ask_1->MarkPaginated_name
                    == given
                &&& given is None || is_blank_text(given->0@) ==> step->Ask_1->MarkPaginated_name
                    is None
                &&& step->Ask_0.next(StoreReply::Answer(true)) == Step::<PromoteName, ()>::End(
                    Ok(()),
                )
                &&& step->Ask_0.next(StoreReply::Answer(false)) == missing
                &&& step->Ask_0.next(StoreReply::Failed(error)) == Step::<PromoteName, ()>::End(
                    Err(StoreProblem::Failed(error)),
                )
            }
        }),
{
}

/// A published rollout under another name takes the place of its source in the index. The index may
/// name the published rollout already, the source, or a source that is gone under the same plain name;
/// any other path has changed.
pub proof fn published_rollouts_take_the_place_of_their_source(
    m: FinishPublished,
    row: ThreadRow,
    exists: bool,
)
    requires
        m.stage is Getting,
        m.has_state_db,
        m.source_rollout_path@ != m.published_rollout_path@,
    ensures
        ({
            let found = m.next(StoreReply::Thread(Some(row)));
            let checked = found->Ask_0.next(StoreReply::Answer(exists));
            let replace = StoreAction::ReplaceRolloutPath {
                thread_id: m.thread_id,
                expected: row.rollout_path,
                published: m.published_rollout_path,
            };
            let changed = Step::<FinishPublished, ()>::End(
                Err(StoreProblem::PathChanged { path: row.rollout_path }),
            );
            let lookup = StoreAction::GetThread { thread_id: m.thread_id };
            let at_published = row.rollout_path@ == m.published_rollout_path@;
            let at_source = !at_published && row.rollout_path@ == m.source_rollout_path@;
            let elsewhere = !at_published && !at_source;
            let named_alike = file_name_of(plain_path(row.rollout_path@)) == file_name_of(
                plain_path(m.source_rollout_path@),
            );
            &&& m.begun() == Step::<FinishPublished, ()>::Ask(m, lookup)
            &&& m.next(StoreReply::Thread(None)) == Step::<FinishPublished, ()>::End(
                Err(StoreProblem::MissingMetadata { thread_id: m.thread_id }),
            )
            &&& found is Ask
            &&& at_published ==> found->Ask_1 == lookup && found->Ask_0.stage is Promoting
            &&& at_source ==> {
                &&& found->Ask_1 == replace
                &&& found->Ask_0.next(StoreReply::Answer(true)) is Ask
                &&& found->Ask_0.next(StoreReply::Answer(true))->Ask_1 == lookup
                &&& found->Ask_0.next(StoreReply::Answer(true))->Ask_0.stage is Promoting
                &&& found->Ask_0.next(StoreReply::Answer(false)) == changed
            }
            &&& elsewhere ==> {
                &&& found->Ask_1 == (StoreAction::Exists { path: row.rollout_path })
                &&& !exists && named_alike ==> checked is Ask && checked->Ask_1 == replace
                &&& exists || !named_alike ==> checked == changed
            }
        }),
{
}

/// Once the thread is marked, a source under another name is removed, durably; then the record is
/// retained, and the migration is finished. Under its own name the record is retained right away.
pub proof fn finished_migrations_retain_their_record(
    m: FinishPublished,
    sub: PromoteName,
    reply: StoreReply,
    problem: StoreProblem,
)
    requires
        m.stage == FinishStage::Promoting(sub),
    ensures
        sub.next(reply) == Step::<PromoteName, ()>::End(Ok(())) ==> {
            let marked = m.next(reply);
            let removed = marked->Ask_0.next(StoreReply::Done);
            let retaining = if m.source_rollout_path@ != m.published_rollout_path@ {
                removed->Ask_0.next(StoreReply::Done)
            } else {
                marked
            };
            &&& marked is Ask && retaining is Ask
            &&& m.source_rollout_path@ != m.published_rollout_path@ ==> {
                &&& marked->Ask_1 == (StoreAction::RemoveIfPresent {
                    file: FileRef::Path(m.source_rollout_path),
                })
                &&& removed is Ask && removed->Ask_1 == (StoreAction::SyncParent {
                    path: m.source_rollout_path,
                })
            }
            &&& retaining->Ask_1 == (StoreAction::Retain { journal_path: m.journal_path })
            &&& retaining->Ask_0.next(StoreReply::Done) == Step::<FinishPublished, ()>::End(Ok(()))
        },
        sub.next(reply) == Step::<PromoteName, ()>::End(Err(problem)) ==> m.next(reply)
            == Step::<FinishPublished, ()>::End(Err(problem)),
{
}

/// A migration that keeps the name of its rollout, or has no index, goes straight to marking the
/// thread.
pub proof fn migrations_in_place_only_mark_the_thread(m: FinishPublished)
    requires
        m.source_rollout_path@ == m.published_rollout_path@ || !m.has_state_db,
    ensures
        m.begun() is Ask,
        m.has_state_db ==> m.begun()->Ask_1 == (StoreAction::GetThread { thread_id: m.thread_id })
            && m.begun()->Ask_0.stage is Promoting
            && m.begun()->Ask_0.stage->Promoting_0.target_history_mode
            == ThreadHistoryMode::PaginatedRefsV1
            && m.begun()->Ask_0.stage->Promoting_0.legacy_name == m.legacy_name,
        !m.has_state_db && m.source_rollout_path@ == m.published_rollout_path@ ==> m.begun()->Ask_1
            == (StoreAction::Retain { journal_path: m.journal_path }),
        !m.has_state_db && m.source_rollout_path@ != m.published_rollout_path@ ==> m.begun()->Ask_1
            == (StoreAction::RemoveIfPresent { file: FileRef::Path(m.source_rollout_path) }),
{
}

/// A thread without a retained record has nothing to release. With one, the record is validated, and
/// the rollout that it names is found, where it stands or elsewhere; without it the release is
/// refused.
pub proof fn releases_find_the_rollout_of_their_record(
    thread_id: ThreadId,
    recovery: MigrationRecoveryHandle,
    path: RolloutPath,
)
    ensures
        ({
            let m = RetireThread { thread_id, stage: RetireThreadStage::Reading };
            let recorded = match recovery.published_rollout_path {
                Some(path) => path,
                None => recovery.rollout_path,
            };
            let read = m.next(RetireReply::Record(Some(recovery)));
            let valid = read->Ask_0.next(RetireReply::Done);
            let there = valid->Ask_0.next(RetireReply::Answer(true));
            let gone = valid->Ask_0.next(RetireReply::Answer(false));
            let found = gone->Ask_0.next(RetireReply::Found(Some(path)));
            let lock = RetireAction::Lock { thread_id };
            &&& m.begun() == RetireStep::Ask(m, RetireAction::ReadRetained { thread_id })
            &&& m.next(RetireReply::Record(None)) == RetireStep::End(Ok(None))
            &&& read is Ask && read->Ask_1 == (RetireAction::Validate {
                thread_id,
                recovery,
                selected: None,
            })
            &&& valid is Ask && valid->Ask_1 == (RetireAction::Exists { path: recorded })
            &&& there is Ask && there->Ask_1 == lock
            &&& there->Ask_0.stage == RetireThreadStage::Locking(
                Retained { recovery, current: recorded },
            )
            &&& gone is Ask && gone->Ask_1 == (RetireAction::FindCurrent { path: recorded })
            &&& found is Ask && found->Ask_1 == lock
            &&& found->Ask_0.stage == RetireThreadStage::Locking(
                Retained { recovery, current: path },
            )
            &&& gone->Ask_0.next(RetireReply::Found(None)) == RetireStep::End(
                Ok(
                    Some(
                        RetirementVerdict {
                            thread_id,
                            rollout_path: recovery.rollout_path,
                            preserved_source_path: recovery.preserved_source_path,
                            refusal: Some(RetirementRefusal::MissingRollout),
                        },
                    ),
                ),
            )
        }),
{
}

/// Under the lock the rollout is found once more, and its head has to name the thread and the
/// reference format; the record is validated for it; and only then is the source released.
pub proof fn releases_need_the_migrated_rollout_of_the_thread(
    thread_id: ThreadId,
    retained: Retained,
    path: RolloutPath,
    id: ThreadId,
    history_mode: ThreadHistoryMode,
    error: String,
    rejection: ThreadStoreError,
)
    ensures
        ({
            let m = RetireThread { thread_id, stage: RetireThreadStage::Locking(retained) };
            let refused = |current: RolloutPath, refusal: RetirementRefusal|
                RetireStep::End(
                    Ok(
                        Some(
                            RetirementVerdict {
                                thread_id,
                                rollout_path: current,
                                preserved_source_path: retained.recovery.preserved_source_path,
                                refusal: Some(refusal),
                            },
                        ),
                    ),
                );
            let locked = m.next(RetireReply::Done);
            let there = locked->Ask_0.next(RetireReply::Answer(true));
            let gone = locked->Ask_0.next(RetireReply::Answer(false));
            let found = gone->Ask_0.next(RetireReply::Found(Some(path)));
            let read = there->Ask_0.next(RetireReply::Metadata { id, history_mode });
            let valid = read->Ask_0.next(RetireReply::Done);
            &&& m.next(RetireReply::Rejected(ThreadStoreError::Conflict { message: error }))
                == refused(retained.current, RetirementRefusal::Given(error))
            &&& locked is Ask && locked->Ask_1 == (RetireAction::Exists { path: retained.current })
            &&& there is Ask && there->Ask_1 == (RetireAction::ReadMetadata {
                path: retained.current,
            })
            &&& gone is Ask && gone->Ask_1 == (RetireAction::FindCurrent {
                path: retained.current,
            })
            &&& found is Ask && found->Ask_1 == (RetireAction::ReadMetadata { path })
            &&& gone->Ask_0.next(RetireReply::Found(None)) == there
            &&& there->Ask_0.next(RetireReply::Failed(error)) == refused(
                retained.current,
                RetirementRefusal::Unreadable(error),
            )
            &&& id != thread_id ==> read == refused(
                retained.current,
                RetirementRefusal::OtherThread,
            )
            &&& id == thread_id && history_mode != ThreadHistoryMode::PaginatedRefsV1 ==> read
                == refused(retained.current, RetirementRefusal::NotGated(history_mode))
            &&& id == thread_id && history_mode == ThreadHistoryMode::PaginatedRefsV1 ==> {
                &&& read is Ask && read->Ask_1 == (RetireAction::Validate {
                    thread_id,
                    recovery: retained.recovery,
                    selected: Some(retained.current),
                })
                &&& read->Ask_0.next(RetireReply::Rejected(rejection)) == refused(
                    retained.current,
                    RetirementRefusal::Invalid(rejection),
                )
                &&& valid is Ask && valid->Ask_1 == (RetireAction::Retire {
                    thread_id,
                    current: retained.current,
                })
            }
        }),
{
}

/// A released source is reported by its name; a record that is gone by then is nothing to report; a
/// conflict is a refusal with what was said; other failures end the release.
pub proof fn released_sources_are_reported(
    thread_id: ThreadId,
    retained: Retained,
    path: RolloutPath,
    message: String,
)
    ensures
        ({
            let m = RetireThread { thread_id, stage: RetireThreadStage::Retiring(retained) };
            &&& m.next(RetireReply::Retired(Some(path))) == RetireStep::End(
                Ok(
                    Some(
                        RetirementVerdict {
                            thread_id,
                            rollout_path: retained.current,
                            preserved_source_path: path,
                            refusal: None,
                        },
                    ),
                ),
            )
            &&& m.next(RetireReply::Retired(None)) == RetireStep::End(Ok(None))
            &&& m.next(RetireReply::Rejected(ThreadStoreError::Conflict { message }))
                == RetireStep::End(
                Ok(
                    Some(
                        RetirementVerdict {
                            thread_id,
                            rollout_path: retained.current,
                            preserved_source_path: retained.recovery.preserved_source_path,
                            refusal: Some(RetirementRefusal::Given(message)),
                        },
                    ),
                ),
            )
            &&& m.next(RetireReply::Failed(message)) == RetireStep::End(
                Err(StoreProblem::Failed(message)),
            )
            &&& m.next(RetireReply::Rejected(ThreadStoreError::Internal { message }))
                == RetireStep::End(
                Err(StoreProblem::Rejected(ThreadStoreError::Internal { message })),
            )
        }),
{
}

/// A verdict is reported for its thread and its paths: as retired where nothing speaks against it, and
/// as refused otherwise, with a message either way.
pub proof fn verdicts_are_reported_as_they_are(
    outcome: PreservedSourceRetirementOutcome,
    it: RetirementVerdict,
)
    requires
        reports_retirement(outcome, it),
    ensures
        outcome.thread_id == it.thread_id,
        outcome.rollout_path == it.rollout_path,
        outcome.preserved_source_path == it.preserved_source_path,
        outcome.status == PreservedSourceRetirementStatus::Retired <==> it.refusal is None,
        outcome.status == PreservedSourceRetirementStatus::Refused <==> it.refusal is Some,
        outcome.message is Some,
        it.refusal matches Some(RetirementRefusal::Given(message)) ==> outcome.message->0@
            == message@,
        it.refusal matches Some(RetirementRefusal::Invalid(error)) ==> outcome.message->0@
            == error@.printed(),
        it.refusal matches Some(RetirementRefusal::NotGated(mode)) ==> outcome.message->0@
            == "current rollout is not gated paginated_refs_v1 (found "@ + mode.name() + ")"@,
        it.refusal matches Some(RetirementRefusal::Unreadable(error)) ==> outcome.message->0@
            == "current rollout could not be validated: "@ + error@,
{
}

/// What changed under a migration is a conflict that names the path; everything else is a failed
/// migration, and a rejection is handed on.
pub proof fn store_problems_are_reported_by_their_kind(
    thread_id: ThreadId,
    path: RolloutPath,
    message: String,
    rejection: ThreadStoreError,
)
    ensures
        store_problem_view(StoreProblem::Rejected(rejection)) == rejection@,
        store_problem_view(StoreProblem::Failed(message)) == migration_failure(message@),
        store_problem_view(StoreProblem::MissingMetadata { thread_id }) == migration_failure(
            "thread "@ + thread_id.text() + " is missing its SQLite metadata"@,
        ),
        store_problem_view(StoreProblem::PathChanged { path }) is Conflict,
        store_problem_view(StoreProblem::SourceMissing { path }) is Conflict,
        store_problem_view(StoreProblem::NotPaginated { path }) is Conflict,
        store_problem_view(StoreProblem::ChangedWhileStaging) is Conflict,
        store_problem_view(StoreProblem::WithoutRolloutId { path }) == migration_failure(
            "rollout filename does not contain a physical rollout ID: "@ + path@,
        ),
        store_problem_view(StoreProblem::NoProjection) is Internal,
        store_problem_view(StoreProblem::IncompleteProjection) is Internal,
        store_problem_view(StoreProblem::RolloutWithoutName) is Internal,
        store_problem_view(StoreProblem::UnexpectedReply) is Internal,
{
}

} // verus!
