//! What is done with preserved sources and their records, in which order, and what stops it.

use crate::deletion::PrepareThreadDelete;
use crate::deletion::PreparedThreadDeleteMigrationArtifacts;
use crate::deletion::RemovalStage;
use crate::deletion::RemoveThreadArtifacts;
use crate::disk::DiskAction;
use crate::disk::DiskReply;
use crate::disk::Progress;
use crate::error::ThreadId;
use crate::error::ThreadStoreError;
use crate::generation::EnsureWritable;
use crate::generation::NeedsReconciliation;
use crate::generation::VerifySource;
use crate::generation::VerifyStage;
use crate::generation::WritableStage;
use crate::paths::RolloutPath;
use crate::publish::JournalPaths;
use crate::publish::JournalWrite;
use crate::publish::PreserveSource;
use crate::publish::PublishRollout;
use crate::publish::PublishStage;
use crate::recovery::journal_conflict;
use crate::recovery::MigrationRecoveryHandle;
use crate::recovery::PreservedSourceFingerprint;
use crate::refusals::DeletionRefusal;
use crate::refusals::DiskProblem;
use crate::refusals::RecoveryRefusal;
use crate::refusals::Refusal;
use crate::retention::RemoveAlias;
use crate::retention::RemoveIfPresent;
use crate::retention::RemoveJournal;
use crate::retention::RetainRecovery;
use crate::retention::RetainStage;
use crate::retirement::RetireSource;
use crate::retirement::RetireStage;
use crate::retirement::Retiring;
use vstd::prelude::*;

verus! {

/// A file is removed exactly where it exists.
pub proof fn present_files_are_removed(path: RolloutPath, error: String)
    ensures
        ({
            let begun = RemoveIfPresent::begun(path);
            let found = begun->Ask_0.next(DiskReply::Answer(true));
            let ended = Progress::<RemoveIfPresent, ()>::End(Ok(()));
            let failed = Progress::<RemoveIfPresent, ()>::End(Err(DiskProblem::Io(error)));
            &&& begun is Ask && begun->Ask_1 == (DiskAction::Exists { path })
            &&& begun->Ask_0.next(DiskReply::Answer(false)) == ended
            &&& begun->Ask_0.next(DiskReply::Failed(error)) == failed
            &&& found is Ask && found->Ask_1 == (DiskAction::RemoveFile { path })
            &&& found->Ask_0.next(DiskReply::Done) == ended
            &&& found->Ask_0.next(DiskReply::Failed(error)) == failed
        }),
{
}

/// A journal is removed with its staged file, and then its directory is made durable. Where neither
/// exists only the directory is made durable.
pub proof fn journals_are_removed_with_their_staged_file(
    journal: JournalPaths,
    staged: RolloutPath,
    error: String,
)
    requires
        journal.staged == Some(staged),
    ensures
        ({
            let begun = RemoveJournal::begun(journal);
            let found = begun->Ask_0.next(DiskReply::Answer(true));
            let gone = begun->Ask_0.next(DiskReply::Answer(false));
            let removed = found->Ask_0.next(DiskReply::Done);
            let found_staged = removed->Ask_0.next(DiskReply::Answer(true));
            let no_staged = removed->Ask_0.next(DiskReply::Answer(false));
            let removed_staged = found_staged->Ask_0.next(DiskReply::Done);
            &&& begun is Ask && begun->Ask_1 == (DiskAction::Exists { path: journal.path })
            &&& found is Ask && found->Ask_1 == (DiskAction::RemoveFile { path: journal.path })
            &&& removed is Ask && removed->Ask_1 == (DiskAction::Exists { path: staged })
            &&& gone == removed
            &&& found_staged is Ask && found_staged->Ask_1 == (DiskAction::RemoveFile {
                path: staged,
            })
            &&& removed_staged is Ask && removed_staged->Ask_1 == (DiskAction::SyncParent {
                path: journal.path,
            })
            &&& no_staged == removed_staged
            &&& removed_staged->Ask_0.next(DiskReply::Done) == Progress::<RemoveJournal, ()>::End(
                Ok(()),
            )
            &&& found->Ask_0.next(DiskReply::Failed(error)) == Progress::<RemoveJournal, ()>::End(
                Err(DiskProblem::Io(error)),
            )
            &&& removed_staged->Ask_0.next(DiskReply::Failed(error)) == Progress::<
                RemoveJournal,
                (),
            >::End(Err(DiskProblem::Io(error)))
        }),
{
}

/// A second name is removed, durably, exactly where it exists and names the visible file.
pub proof fn aliases_of_the_visible_file_are_removed(
    rollout_path: RolloutPath,
    preserved_source_path: RolloutPath,
    error: String,
)
    ensures
        ({
            let begun = RemoveAlias::begun(rollout_path, preserved_source_path);
            let found = begun->Ask_0.next(DiskReply::Answer(true));
            let same = found->Ask_0.next(DiskReply::Answer(true));
            let removed = same->Ask_0.next(DiskReply::Done);
            let ended = Progress::<RemoveAlias, ()>::End(Ok(()));
            &&& begun is Ask && begun->Ask_1 == (DiskAction::Exists { path: preserved_source_path })
            &&& begun->Ask_0.next(DiskReply::Answer(false)) == ended
            &&& found is Ask && found->Ask_1 == (DiskAction::SameFile {
                left: rollout_path,
                right: preserved_source_path,
            })
            &&& found->Ask_0.next(DiskReply::Answer(false)) == Progress::<RemoveAlias, ()>::End(
                Err(
                    DiskProblem::Refused {
                        refusal: Refusal::DifferentAliasPreserved,
                        path: preserved_source_path,
                    },
                ),
            )
            &&& same is Ask && same->Ask_1 == (DiskAction::RemoveFile {
                path: preserved_source_path,
            })
            &&& removed is Ask && removed->Ask_1 == (DiskAction::SyncParent {
                path: preserved_source_path,
            })
            &&& removed->Ask_0.next(DiskReply::Done) == ended
            &&& same->Ask_0.next(DiskReply::Failed(error)) == Progress::<RemoveAlias, ()>::End(
                Err(DiskProblem::Io(error)),
            )
        }),
{
}

/// A pending record becomes the retained one: by moving it where there is none yet, and by removing
/// it where the retained one says the same. Another record is never replaced.
pub proof fn pending_records_become_the_retained_ones(
    m: RetainRecovery,
    retained: RolloutPath,
    staged: RolloutPath,
    recovery: MigrationRecoveryHandle,
    existing: MigrationRecoveryHandle,
)
    requires
        m.stage is ReadingPending,
        m.retained == Some(retained),
        m.pending.staged == Some(staged),
    ensures
        ({
            let read = m.next(DiskReply::Journal(Some(recovery)));
            let moving = read->Ask_0.next(DiskReply::Answer(false));
            let moved = moving->Ask_0.next(DiskReply::Done);
            let clean = moved->Ask_0.next(DiskReply::Answer(false));
            let reading = read->Ask_0.next(DiskReply::Answer(true));
            let compared = reading->Ask_0.next(DiskReply::Journal(Some(existing)));
            &&& m.begun() == Progress::<RetainRecovery, Option<RolloutPath>>::Ask(
                m,
                DiskAction::ReadJournal { path: m.pending.path },
            )
            &&& read is Ask && read->Ask_1 == (DiskAction::Exists { path: retained })
            &&& moving is Ask && moving->Ask_1 == (DiskAction::Rename {
                from: m.pending.path,
                to: retained,
            })
            &&& moved is Ask && moved->Ask_1 == (DiskAction::Exists { path: staged })
            &&& clean is Ask && clean->Ask_1 == (DiskAction::SyncParent { path: retained })
            &&& clean->Ask_0.next(DiskReply::Done) == Progress::<
                RetainRecovery,
                Option<RolloutPath>,
            >::End(Ok(Some(retained)))
            &&& reading is Ask && reading->Ask_1 == (DiskAction::ReadJournal { path: retained })
            &&& reading->Ask_0.next(DiskReply::Journal(None)) == Progress::<
                RetainRecovery,
                Option<RolloutPath>,
            >::End(Err(DiskProblem::RetainedEmpty))
            &&& existing@ != recovery@ ==> compared == Progress::<
                RetainRecovery,
                Option<RolloutPath>,
            >::End(
                Err(
                    DiskProblem::Refused {
                        refusal: Refusal::RetainedRecordConflicts,
                        path: retained,
                    },
                ),
            )
            &&& existing@ == recovery@ ==> compared is Ask && compared->Ask_1 == (
            DiskAction::Exists { path: m.pending.path }) && compared->Ask_0.stage is RemovingPending
        }),
{
}

/// An empty pending record is removed and nothing is retained. A removed pending record ends the
/// retention with the retained one.
pub proof fn empty_pending_records_are_removed(
    m: RetainRecovery,
    sub: RemoveJournal,
    error: String,
)
    requires
        sub.stage is Syncing,
    ensures
        m.stage is ReadingPending ==> {
            let empty = m.next(DiskReply::Journal(None));
            &&& empty is Ask && empty->Ask_1 == (DiskAction::Exists { path: m.pending.path })
            &&& empty->Ask_0.stage is RemovingEmpty
            &&& m.next(DiskReply::Failed(error)) == Progress::<
                RetainRecovery,
                Option<RolloutPath>,
            >::End(Err(DiskProblem::Io(error)))
        },
        m.stage == RetainStage::RemovingEmpty(sub) ==> m.next(DiskReply::Done) == Progress::<
            RetainRecovery,
            Option<RolloutPath>,
        >::End(Ok(None)),
        m.stage == RetainStage::RemovingPending(sub) ==> m.next(DiskReply::Done) == Progress::<
            RetainRecovery,
            Option<RolloutPath>,
        >::End(Ok(m.retained)),
{
}

/// What keeps a preserved source from being released: nothing was retained, its generations diverged,
/// its fingerprint is unknown, it is gone although retirement has not started, it is still what is
/// visible, or it has changed.
pub proof fn sources_are_released_only_where_nothing_speaks_against_it(
    m: RetireSource,
    recovery: MigrationRecoveryHandle,
    expected: PreservedSourceFingerprint,
    found: PreservedSourceFingerprint,
)
    requires
        m.stage is Reading,
    ensures
        ({
            let read = m.next(DiskReply::Journal(Some(recovery)));
            let path = recovery.preserved_source_path;
            let refused = |refusal: Refusal, path: RolloutPath|
                Progress::<RetireSource, Option<RolloutPath>>::End(
                    Err(DiskProblem::Refused { refusal, path }),
                );
            let present = read->Ask_0.next(DiskReply::Answer(true));
            let absent = read->Ask_0.next(DiskReply::Answer(false));
            let apart = present->Ask_0.next(DiskReply::Answer(false));
            let printed = apart->Ask_0.next(DiskReply::Fingerprint(found));
            &&& m.begun() == Progress::<RetireSource, Option<RolloutPath>>::Ask(
                m,
                DiskAction::ReadJournal { path: m.journal.path },
            )
            &&& m.next(DiskReply::Journal(None)) == Progress::<
                RetireSource,
                Option<RolloutPath>,
            >::End(Ok(None))
            &&& recovery.split_generation_detected ==> read == refused(
                Refusal::SplitGeneration,
                path,
            )
            &&& !recovery.split_generation_detected && recovery.publication_fingerprint is None
                ==> read == refused(Refusal::NoFingerprint, path)
            &&& !recovery.split_generation_detected && recovery.publication_fingerprint == Some(
                expected,
            ) ==> {
                &&& read is Ask && read->Ask_1 == (DiskAction::Exists { path })
                &&& present is Ask && present->Ask_1 == (DiskAction::SameFile {
                    left: m.current_rollout_path,
                    right: path,
                })
                &&& !recovery.retirement_started ==> absent == refused(
                    Refusal::SourceDisappeared,
                    path,
                )
                &&& recovery.retirement_started ==> absent is Ask && absent->Ask_1 == (
                DiskAction::Exists { path: m.journal.path })
                &&& present->Ask_0.next(DiskReply::Answer(true)) == refused(
                    Refusal::LegacyStillVisible,
                    m.current_rollout_path,
                )
                &&& apart is Ask && apart->Ask_1 == (DiskAction::Fingerprint { path })
                &&& found != expected ==> printed == refused(Refusal::ChangedAfterPublication, path)
                &&& found == expected ==> {
                    &&& printed is Ask
                    &&& printed->Ask_1 == (DiskAction::ReadJournal { path: m.journal.path })
                    &&& printed->Ask_0.stage is Marking
                    &&& printed->Ask_0.stage->Marking_1.recovery == (MigrationRecoveryHandle {
                        retirement_started: true,
                        ..recovery
                    })
                }
            }
        }),
{
}

/// Once the start of retirement is recorded, the source is looked at once more, removed, its directory
/// made durable, and the record removed. The end names the source.
pub proof fn marked_sources_are_removed_with_their_record(
    m: RetireSource,
    it: Retiring,
    write: JournalWrite,
    sub: RemoveJournal,
    found: PreservedSourceFingerprint,
)
    requires
        write.stage is Syncing,
        sub.stage is Syncing,
    ensures
        ({
            let path = it.recovery.preserved_source_path;
            let at = |stage: RetireStage|
                RetireSource {
                    current_rollout_path: m.current_rollout_path,
                    journal: m.journal,
                    stage,
                };
            let marked = at(RetireStage::Marking(it, write)).next(DiskReply::Done);
            let checked = marked->Ask_0.next(DiskReply::Fingerprint(found));
            let removed = checked->Ask_0.next(DiskReply::Done);
            let synced = removed->Ask_0.next(DiskReply::Done);
            &&& marked is Ask && marked->Ask_1 == (DiskAction::Fingerprint { path })
            &&& found != it.expected ==> checked == Progress::<
                RetireSource,
                Option<RolloutPath>,
            >::End(
                Err(DiskProblem::Refused { refusal: Refusal::ChangedWhileRetiring, path }),
            )
            &&& found == it.expected ==> {
                &&& checked is Ask && checked->Ask_1 == (DiskAction::RemoveFile { path })
                &&& removed is Ask && removed->Ask_1 == (DiskAction::SyncParent { path })
                &&& synced is Ask && synced->Ask_1 == (DiskAction::Exists { path: m.journal.path })
            }
            &&& at(RetireStage::RemovingJournal(it, sub)).next(DiskReply::Done) == Progress::<
                RetireSource,
                Option<RolloutPath>,
            >::End(Ok(Some(path)))
        }),
{
}

/// A migrated rollout may be written where no record speaks of a source, or where the source is
/// unchanged. What was found to have diverged, is being retired or has no fingerprint is refused; a
/// source that changed is recorded as diverged.
pub proof fn unchanged_sources_let_writers_in(
    thread_id: ThreadId,
    journal: JournalPaths,
    selected: RolloutPath,
    recovery: MigrationRecoveryHandle,
    found: PreservedSourceFingerprint,
    rejection: ThreadStoreError,
)
    ensures
        ({
            let begun = VerifySource::begun(thread_id, journal, selected);
            let read = begun->Ask_0.next(DiskReply::Journal(Some(recovery)));
            let valid = read->Ask_0.next(DiskReply::Done);
            let refused = |refusal: RecoveryRefusal|
                Progress::<VerifySource, ()>::End(
                    Err(DiskProblem::Recovery { thread_id, refusal }),
                );
            let path = recovery.preserved_source_path;
            let printed = valid->Ask_0.next(DiskReply::Fingerprint(found));
            &&& begun is Ask && begun->Ask_1 == (DiskAction::ReadJournal { path: journal.path })
            &&& begun->Ask_0.next(DiskReply::Journal(None)) == Progress::<VerifySource, ()>::End(
                Ok(()),
            )
            &&& read is Ask && read->Ask_1 == (DiskAction::Validate {
                thread_id,
                journal_path: journal.path,
                recovery,
                selected: Some(selected),
                require_publication_fingerprint: true,
            })
            &&& read->Ask_0.next(DiskReply::Rejected(rejection)) == Progress::<
                VerifySource,
                (),
            >::End(Err(DiskProblem::Rejected(rejection)))
            &&& recovery.split_generation_detected ==> valid == refused(
                RecoveryRefusal::Diverged { path },
            )
            &&& !recovery.split_generation_detected && recovery.retirement_started ==> valid
                == refused(RecoveryRefusal::RetirementIncomplete)
            &&& !recovery.split_generation_detected && !recovery.retirement_started
                && recovery.publication_fingerprint is None ==> valid == refused(
                RecoveryRefusal::NoPublicationFingerprint,
            )
            &&& (!recovery.split_generation_detected && !recovery.retirement_started && (
            recovery.publication_fingerprint matches Some(expected))) ==> {
                let expected = recovery.publication_fingerprint->0;
                &&& valid is Ask && valid->Ask_1 == (DiskAction::Fingerprint { path })
                &&& found == expected ==> printed == Progress::<VerifySource, ()>::End(Ok(()))
                &&& found != expected ==> {
                    &&& printed is Ask
                    &&& printed->Ask_1 == (DiskAction::ReadJournal { path: journal.path })
                    &&& printed->Ask_0.stage is Marking
                    &&& printed->Ask_0.stage->Marking_1.recovery == (MigrationRecoveryHandle {
                        split_generation_detected: true,
                        ..recovery
                    })
                }
            }
        }),
{
}

/// A divergence that is recorded refuses the writer, and names the source that changed.
pub proof fn recorded_divergences_refuse_the_writer(
    m: VerifySource,
    recovery: MigrationRecoveryHandle,
    write: JournalWrite,
    error: String,
)
    requires
        m.stage == VerifyStage::Marking(recovery, write),
        write.stage is Syncing,
    ensures
        m.next(DiskReply::Done) == Progress::<VerifySource, ()>::End(
            Err(
                DiskProblem::Recovery {
                    thread_id: m.thread_id,
                    refusal: RecoveryRefusal::ChangedByOlderWriter {
                        path: recovery.preserved_source_path,
                    },
                },
            ),
        ),
        m.next(DiskReply::Failed(error)) == Progress::<VerifySource, ()>::End(
            Err(DiskProblem::Io(error)),
        ),
{
}

/// A thread is writable where it has no pending record and its retained one lets writers in. With a
/// pending record it never is, whatever that record says.
pub proof fn threads_are_writable_only_without_a_pending_record(
    m: EnsureWritable,
    sub: VerifySource,
    reply: DiskReply,
)
    ensures
        m.stage is CheckingPending ==> {
            let pending = m.next(DiskReply::Answer(true));
            let retained = m.next(DiskReply::Answer(false));
            &&& m.begun() == Progress::<EnsureWritable, ()>::Ask(
                m,
                DiskAction::Exists { path: m.pending.path },
            )
            &&& pending is Ask && pending->Ask_1 == (DiskAction::ReadJournal {
                path: m.pending.path,
            })
            &&& pending->Ask_0.stage == WritableStage::VerifyingPending(
                VerifySource {
                    thread_id: m.thread_id,
                    journal: m.pending,
                    selected: m.selected,
                    stage: VerifyStage::Reading,
                },
            )
            &&& retained is Ask && retained->Ask_1 == (DiskAction::ReadJournal {
                path: m.retained.path,
            })
            &&& retained->Ask_0.stage == WritableStage::VerifyingRetained(
                VerifySource {
                    thread_id: m.thread_id,
                    journal: m.retained,
                    selected: m.selected,
                    stage: VerifyStage::Reading,
                },
            )
        },
        m.stage == WritableStage::VerifyingPending(sub) ==> match sub.next(reply) {
            Progress::Ask(next, action) => m.next(reply) is Ask && m.next(reply)->Ask_1 == action
                && m.next(reply)->Ask_0.stage == WritableStage::VerifyingPending(next),
            Progress::End(Ok(_)) => m.next(reply) == Progress::<EnsureWritable, ()>::End(
                Err(
                    DiskProblem::Recovery {
                        thread_id: m.thread_id,
                        refusal: RecoveryRefusal::PublicationPending,
                    },
                ),
            ),
            Progress::End(Err(problem)) => m.next(reply) == Progress::<EnsureWritable, ()>::End(
                Err(problem),
            ),
        },
        m.stage == WritableStage::VerifyingRetained(sub) ==> match sub.next(reply) {
            Progress::Ask(next, action) => m.next(reply) is Ask && m.next(reply)->Ask_1 == action
                && m.next(reply)->Ask_0.stage == WritableStage::VerifyingRetained(next),
            Progress::End(result) => m.next(reply) == Progress::<EnsureWritable, ()>::End(result),
        },
{
}

/// A generation has to be reconciled where its record says that it diverged or is being retired, and
/// else exactly where the source is not what it was at publication. Without a record it has not.
pub proof fn changed_generations_need_reconciliation(
    m: NeedsReconciliation,
    recovery: MigrationRecoveryHandle,
    found: PreservedSourceFingerprint,
)
    requires
        m.stage is Reading,
    ensures
        ({
            let read = m.next(DiskReply::Journal(Some(recovery)));
            let valid = read->Ask_0.next(DiskReply::Done);
            let answer = |needed: bool| Progress::<NeedsReconciliation, bool>::End(Ok(needed));
            let marked = recovery.split_generation_detected || recovery.retirement_started;
            &&& m.begun() == Progress::<NeedsReconciliation, bool>::Ask(
                m,
                DiskAction::ReadJournal { path: m.retained_path },
            )
            &&& m.next(DiskReply::Journal(None)) == answer(false)
            &&& read is Ask && read->Ask_1 == (DiskAction::Validate {
                thread_id: m.thread_id,
                journal_path: m.retained_path,
                recovery,
                selected: Some(m.selected),
                require_publication_fingerprint: true,
            })
            &&& marked ==> valid == answer(true)
            &&& !marked && recovery.publication_fingerprint is None ==> valid == Progress::<
                NeedsReconciliation,
                bool,
            >::End(
                Err(
                    DiskProblem::Recovery {
                        thread_id: m.thread_id,
                        refusal: RecoveryRefusal::NoPublicationFingerprint,
                    },
                ),
            )
            &&& !marked && recovery.publication_fingerprint is Some ==> {
                &&& valid is Ask && valid->Ask_1 == (DiskAction::Fingerprint {
                    path: recovery.preserved_source_path,
                })
                &&& valid->Ask_0.next(DiskReply::Fingerprint(found)) == answer(
                    found != recovery.publication_fingerprint->0,
                )
            }
        }),
{
}

/// A source is preserved by linking it. The link has to name the file of the rollout, whether it was
/// there before or is new; a new one is made durable.
pub proof fn sources_are_preserved_by_a_link_to_the_same_file(
    rollout_path: RolloutPath,
    preserved_source_path: RolloutPath,
    error: String,
)
    ensures
        ({
            let begun = PreserveSource::begun(rollout_path, preserved_source_path);
            let linked = begun->Ask_0.next(DiskReply::Done);
            let existing = begun->Ask_0.next(DiskReply::AlreadyExists);
            let compare = DiskAction::SameFile { left: rollout_path, right: preserved_source_path };
            let ended = Progress::<PreserveSource, ()>::End(Ok(()));
            let refused = |refusal: Refusal|
                Progress::<PreserveSource, ()>::End(
                    Err(DiskProblem::Refused { refusal, path: preserved_source_path }),
                );
            let same = linked->Ask_0.next(DiskReply::Answer(true));
            &&& begun is Ask && begun->Ask_1 == (DiskAction::HardLink {
                from: rollout_path,
                to: preserved_source_path,
            })
            &&& begun->Ask_0.next(DiskReply::Failed(error)) == Progress::<PreserveSource, ()>::End(
                Err(DiskProblem::Io(error)),
            )
            &&& linked is Ask && linked->Ask_1 == compare
            &&& existing is Ask && existing->Ask_1 == compare
            &&& existing->Ask_0.next(DiskReply::Answer(true)) == ended
            &&& existing->Ask_0.next(DiskReply::Answer(false)) == refused(
                Refusal::DifferentFilePreserved,
            )
            &&& same is Ask && same->Ask_1 == (DiskAction::SyncParent {
                path: preserved_source_path,
            })
            &&& same->Ask_0.next(DiskReply::Done) == ended
            &&& linked->Ask_0.next(DiskReply::Answer(false)) == refused(Refusal::ChangedWhileLinking)
        }),
{
}

/// A journal that holds the same record is left alone, and one that holds a record in conflict is
/// refused. Otherwise the directory is made where it is missing, and made durable where it was made.
pub proof fn journals_are_written_only_over_what_they_may_replace(
    journal: JournalPaths,
    recovery: MigrationRecoveryHandle,
    existing: MigrationRecoveryHandle,
    parent: RolloutPath,
    staged: RolloutPath,
)
    requires
        journal.parent == Some(parent),
        journal.staged == Some(staged),
    ensures
        ({
            let begun = JournalWrite::begun(journal, recovery);
            let empty = begun->Ask_0.next(DiskReply::Journal(None));
            let held = begun->Ask_0.next(DiskReply::Journal(Some(existing)));
            let missing = empty->Ask_0.next(DiskReply::Answer(false));
            let there = empty->Ask_0.next(DiskReply::Answer(true));
            let made = missing->Ask_0.next(DiskReply::Done);
            let ready = made->Ask_0.next(DiskReply::Done);
            let conflict = journal_conflict(existing@, recovery@);
            &&& begun is Ask && begun->Ask_1 == (DiskAction::ReadJournal { path: journal.path })
            &&& empty is Ask && empty->Ask_1 == (DiskAction::Exists { path: parent })
            &&& existing@ == recovery@ ==> held == Progress::<JournalWrite, ()>::End(Ok(()))
            &&& existing@ != recovery@ && conflict is None ==> held == empty
            &&& existing@ != recovery@ && conflict is Some ==> held == Progress::<
                JournalWrite,
                (),
            >::End(
                Err(
                    DiskProblem::Refused {
                        refusal: Refusal::Journal(conflict->0),
                        path: existing.preserved_source_path,
                    },
                ),
            )
            &&& missing is Ask && missing->Ask_1 == (DiskAction::CreateDirectories {
                path: parent,
            })
            &&& there is Ask && there->Ask_1 == (DiskAction::CreateDirectories { path: parent })
            &&& made is Ask && made->Ask_1 == (DiskAction::SyncParent { path: parent })
            &&& ready is Ask && ready->Ask_1 == (DiskAction::WriteJournalFile {
                path: staged,
                recovery,
            })
            &&& there->Ask_0.next(DiskReply::Done) == ready
        }),
{
}

/// A record is written to the staged file, moved over the journal, and made durable, in that order.
pub proof fn journals_are_replaced_by_their_staged_file(m: JournalWrite, staged: RolloutPath, error: String)
    requires
        m.journal.staged == Some(staged),
        m.stage is WritingStaged,
    ensures
        ({
            let written = m.next(DiskReply::Done);
            let moved = written->Ask_0.next(DiskReply::Done);
            let failed = Progress::<JournalWrite, ()>::End(Err(DiskProblem::Io(error)));
            &&& written is Ask && written->Ask_1 == (DiskAction::Rename {
                from: staged,
                to: m.journal.path,
            })
            &&& moved is Ask && moved->Ask_1 == (DiskAction::SyncParent { path: m.journal.path })
            &&& moved->Ask_0.next(DiskReply::Done) == Progress::<JournalWrite, ()>::End(Ok(()))
            &&& m.next(DiskReply::Failed(error)) == failed
            &&& written->Ask_0.next(DiskReply::Failed(error)) == failed
            &&& moved->Ask_0.next(DiskReply::Failed(error)) == failed
        }),
{
}

/// A rollout is published under a new name only where that name is free, and under its own name
/// without asking. The source is preserved first.
pub proof fn rollouts_are_published_under_a_free_name(m: PublishRollout)
    ensures
        ({
            let preserving = DiskAction::HardLink {
                from: m.rollout_path,
                to: m.preserved_source_path,
            };
            let begun = m.begun();
            let free = begun->Ask_0.next(DiskReply::Answer(false));
            &&& begun is Ask
            &&& m.published_rollout_path@ == m.rollout_path@ ==> begun->Ask_1 == preserving
            &&& m.published_rollout_path@ != m.rollout_path@ ==> {
                &&& begun->Ask_1 == (DiskAction::Exists { path: m.published_rollout_path })
                &&& free is Ask && free->Ask_1 == preserving
                &&& begun->Ask_0.next(DiskReply::Answer(true)) == Progress::<
                    PublishRollout,
                    MigrationRecoveryHandle,
                >::End(
                    Err(
                        DiskProblem::Refused {
                            refusal: Refusal::TargetExists,
                            path: m.published_rollout_path,
                        },
                    ),
                )
            }
        }),
{
}

/// The preserved source has to be what was read; then the record is written, and only then does the
/// staged rollout take its name, durably. The end is the record.
pub proof fn rollouts_are_published_once_their_record_is_written(
    m: PublishRollout,
    preserve: PreserveSource,
    write: JournalWrite,
    found: PreservedSourceFingerprint,
)
    requires
        preserve.stage is Syncing,
        write.stage is Syncing,
    ensures
        ({
            let at = |stage: PublishStage| PublishRollout { stage, ..m };
            let preserved = at(PublishStage::Preserving(preserve)).next(DiskReply::Done);
            let printed = preserved->Ask_0.next(DiskReply::Fingerprint(found));
            let recorded = at(PublishStage::Journaling(write)).next(DiskReply::Done);
            let published = recorded->Ask_0.next(DiskReply::Done);
            &&& preserved is Ask && preserved->Ask_1 == (DiskAction::Fingerprint {
                path: m.preserved_source_path,
            })
            &&& found != m.expected_source_fingerprint ==> printed == Progress::<
                PublishRollout,
                MigrationRecoveryHandle,
            >::End(
                Err(
                    DiskProblem::Refused {
                        refusal: Refusal::ChangedBeforePinning,
                        path: m.rollout_path,
                    },
                ),
            )
            &&& found == m.expected_source_fingerprint ==> {
                &&& printed is Ask && printed->Ask_1 == (DiskAction::ReadJournal {
                    path: m.journal.path,
                })
                &&& printed->Ask_0.stage is Journaling
                &&& printed->Ask_0.stage->Journaling_0.recovery == m.recovery
            }
            &&& recorded is Ask && recorded->Ask_1 == (DiskAction::Rename {
                from: m.staged_path,
                to: m.published_rollout_path,
            })
            &&& published is Ask && published->Ask_1 == (DiskAction::SyncParent {
                path: m.published_rollout_path,
            })
            &&& published->Ask_0.next(DiskReply::Done) == Progress::<
                PublishRollout,
                MigrationRecoveryHandle,
            >::End(Ok(m.recovery))
        }),
{
}

/// A deletion is refused while a migration is pending or a record is being written. Without a
/// retained record there is nothing to prepare.
pub proof fn deletions_wait_for_pending_migrations(
    m: PrepareThreadDelete,
    pending_staged: RolloutPath,
    retained_staged: RolloutPath,
)
    requires
        m.stage is CheckingPending,
        m.pending.staged == Some(pending_staged),
        m.retained.staged == Some(retained_staged),
    ensures
        ({
            let refused = |refusal: DeletionRefusal|
                Progress::<PrepareThreadDelete, PreparedThreadDeleteMigrationArtifacts>::End(
                    Err(DiskProblem::Deletion { thread_id: m.thread_id, refusal }),
                );
            let one = m.next(DiskReply::Answer(false));
            let two = one->Ask_0.next(DiskReply::Answer(false));
            let three = two->Ask_0.next(DiskReply::Answer(false));
            let record = three->Ask_0.next(DiskReply::Answer(true));
            let none = three->Ask_0.next(DiskReply::Answer(false));
            &&& m.begun() == Progress::<
                PrepareThreadDelete,
                PreparedThreadDeleteMigrationArtifacts,
            >::Ask(m, DiskAction::Exists { path: m.pending.path })
            &&& m.next(DiskReply::Answer(true)) == refused(DeletionRefusal::PendingMigration)
            &&& one is Ask && one->Ask_1 == (DiskAction::Exists { path: pending_staged })
            &&& one->Ask_0.next(DiskReply::Answer(true)) == refused(
                DeletionRefusal::PendingMigration,
            )
            &&& two is Ask && two->Ask_1 == (DiskAction::Exists { path: retained_staged })
            &&& two->Ask_0.next(DiskReply::Answer(true)) == refused(
                DeletionRefusal::IncompleteUpdate,
            )
            &&& three is Ask && three->Ask_1 == (DiskAction::Exists { path: m.retained.path })
            &&& none is End && none->End_0 is Ok
            &&& none->End_0->Ok_0.thread_id == m.thread_id
            &&& none->End_0->Ok_0.pending == m.pending && none->End_0->Ok_0.retained == m.retained
            &&& !none->End_0->Ok_0.retained_journal_present
            &&& none->End_0->Ok_0.recovery is None
            &&& record is Ask && record->Ask_1 == (DiskAction::ReadJournal {
                path: m.retained.path,
            })
        }),
{
}

/// A retained record is validated for the thread, and its source has to exist unless the record says
/// that it may be gone.
pub proof fn deletions_need_the_source_that_their_record_names(
    m: PrepareThreadDelete,
    recovery: MigrationRecoveryHandle,
    exists: bool,
)
    requires
        m.stage is Reading,
    ensures
        ({
            let read = m.next(DiskReply::Journal(Some(recovery)));
            let valid = read->Ask_0.next(DiskReply::Done);
            let checked = valid->Ask_0.next(DiskReply::Answer(exists));
            let empty = m.next(DiskReply::Journal(None));
            let needed = !recovery.retirement_started && !recovery.split_generation_detected;
            &&& empty is End && empty->End_0 is Ok
            &&& empty->End_0->Ok_0.retained_journal_present && empty->End_0->Ok_0.recovery is None
            &&& read is Ask && read->Ask_1 == (DiskAction::Validate {
                thread_id: m.thread_id,
                journal_path: m.retained.path,
                recovery,
                selected: None,
                require_publication_fingerprint: true,
            })
            &&& valid is Ask && valid->Ask_1 == (DiskAction::Exists {
                path: recovery.preserved_source_path,
            })
            &&& !exists && needed ==> checked == Progress::<
                PrepareThreadDelete,
                PreparedThreadDeleteMigrationArtifacts,
            >::End(
                Err(
                    DiskProblem::Deletion {
                        thread_id: m.thread_id,
                        refusal: DeletionRefusal::SourceMissing {
                            path: recovery.preserved_source_path,
                        },
                    },
                ),
            )
            &&& exists || !needed ==> {
                &&& checked is End && checked->End_0 is Ok
                &&& checked->End_0->Ok_0.thread_id == m.thread_id
                &&& checked->End_0->Ok_0.pending == m.pending
                &&& checked->End_0->Ok_0.retained == m.retained
                &&& checked->End_0->Ok_0.retained_journal_present
                &&& checked->End_0->Ok_0.recovery == Some(recovery)
            }
        }),
{
}

/// The artifacts of a thread are removed only where nothing has changed since they were prepared.
pub proof fn removals_stop_where_the_state_has_changed(
    m: RemoveThreadArtifacts,
    pending_staged: RolloutPath,
    retained_staged: RolloutPath,
    exists: bool,
)
    requires
        m.stage is CheckingPending,
        m.prepared.pending.staged == Some(pending_staged),
        m.prepared.retained.staged == Some(retained_staged),
    ensures
        ({
            let refused = |refusal: DeletionRefusal|
                Progress::<RemoveThreadArtifacts, bool>::End(
                    Err(DiskProblem::Deletion { thread_id: m.prepared.thread_id, refusal }),
                );
            let one = m.next(DiskReply::Answer(false));
            let two = one->Ask_0.next(DiskReply::Answer(false));
            let three = two->Ask_0.next(DiskReply::Answer(false));
            let record = three->Ask_0.next(DiskReply::Answer(exists));
            &&& m.begun() == Progress::<RemoveThreadArtifacts, bool>::Ask(
                m,
                DiskAction::Exists { path: m.prepared.pending.path },
            )
            &&& m.next(DiskReply::Answer(true)) == refused(DeletionRefusal::StateChanged)
            &&& one is Ask && one->Ask_1 == (DiskAction::Exists { path: pending_staged })
            &&& one->Ask_0.next(DiskReply::Answer(true)) == refused(DeletionRefusal::StateChanged)
            &&& two is Ask && two->Ask_1 == (DiskAction::Exists { path: retained_staged })
            &&& two->Ask_0.next(DiskReply::Answer(true)) == refused(DeletionRefusal::StateChanged)
            &&& three is Ask && three->Ask_1 == (DiskAction::Exists {
                path: m.prepared.retained.path,
            })
            &&& exists != m.prepared.retained_journal_present ==> record == refused(
                DeletionRefusal::JournalChanged,
            )
            &&& !exists && !m.prepared.retained_journal_present ==> record == Progress::<
                RemoveThreadArtifacts,
                bool,
            >::End(Ok(false))
            &&& exists && m.prepared.retained_journal_present ==> record is Ask && record->Ask_1
                == (DiskAction::ReadJournal { path: m.prepared.retained.path })
        }),
{
}

/// A record that is still the prepared one is marked as being retired, unless it is so marked or has
/// diverged; one that is not stops the removal; an empty one is removed.
pub proof fn removals_mark_the_record_they_prepared(
    m: RemoveThreadArtifacts,
    recovery: MigrationRecoveryHandle,
)
    requires
        m.stage is Reading,
    ensures
        ({
            let read = m.next(DiskReply::Journal(Some(recovery)));
            let empty = m.next(DiskReply::Journal(None));
            let changed = Progress::<RemoveThreadArtifacts, bool>::End(
                Err(
                    DiskProblem::Deletion {
                        thread_id: m.prepared.thread_id,
                        refusal: DeletionRefusal::RecoveryChanged,
                    },
                ),
            );
            let same = m.prepared.recovery is Some && m.prepared.recovery->0@ == recovery@;
            let marked = recovery.retirement_started || recovery.split_generation_detected;
            &&& !same ==> read == changed
            &&& m.prepared.recovery is Some ==> empty == changed
            &&& m.prepared.recovery is None ==> empty is Ask && empty->Ask_1 == (
            DiskAction::Exists { path: m.prepared.retained.path }) && empty->Ask_0.stage
                is RemovingJournal
            &&& same && marked ==> read is Ask && read->Ask_1 == (DiskAction::Exists {
                path: recovery.preserved_source_path,
            })
            &&& same && !marked ==> {
                &&& read is Ask && read->Ask_1 == (DiskAction::ReadJournal {
                    path: m.prepared.retained.path,
                })
                &&& read->Ask_0.stage is Marking
                &&& read->Ask_0.stage->Marking_1.recovery == (MigrationRecoveryHandle {
                    retirement_started: true,
                    ..recovery
                })
            }
        }),
{
}

/// The preserved source is removed, durably, where it exists and belongs to the thread; the record is
/// removed after it, and the removal ends with the answer that there was one.
pub proof fn removals_take_the_source_and_then_the_record(
    m: RemoveThreadArtifacts,
    recovery: MigrationRecoveryHandle,
    owner: ThreadId,
    write: JournalWrite,
    sub: RemoveJournal,
)
    requires
        write.stage is Syncing,
        sub.stage is Syncing,
    ensures
        ({
            let path = recovery.preserved_source_path;
            let at = |stage: RemovalStage| RemoveThreadArtifacts { prepared: m.prepared, stage };
            let marked = at(RemovalStage::Marking(recovery, write)).next(DiskReply::Done);
            let present = marked->Ask_0.next(DiskReply::Answer(true));
            let absent = marked->Ask_0.next(DiskReply::Answer(false));
            let owned = present->Ask_0.next(DiskReply::Thread(owner));
            let removed = owned->Ask_0.next(DiskReply::Done);
            let synced = removed->Ask_0.next(DiskReply::Done);
            &&& marked is Ask && marked->Ask_1 == (DiskAction::Exists { path })
            &&& present is Ask && present->Ask_1 == (DiskAction::SourceThread { recovery })
            &&& absent is Ask && absent->Ask_1 == (DiskAction::Exists {
                path: m.prepared.retained.path,
            })
            &&& owner != m.prepared.thread_id ==> owned == Progress::<
                RemoveThreadArtifacts,
                bool,
            >::End(
                Err(
                    DiskProblem::Deletion {
                        thread_id: m.prepared.thread_id,
                        refusal: DeletionRefusal::OwnerChanged { path },
                    },
                ),
            )
            &&& owner == m.prepared.thread_id ==> {
                &&& owned is Ask && owned->Ask_1 == (DiskAction::RemoveFile { path })
                &&& removed is Ask && removed->Ask_1 == (DiskAction::SyncParent { path })
                &&& synced == absent
            }
            &&& at(RemovalStage::RemovingJournal(sub)).next(DiskReply::Done) == Progress::<
                RemoveThreadArtifacts,
                bool,
            >::End(Ok(true))
        }),
{
}

} // verus!
