//! Which recovery records are followed, which replace others, and what refusals are reported as.

use crate::error::migration_failure;
use crate::error::recovery_refusal;
use crate::error::ErrorView;
use crate::error::ThreadId;
use crate::error::ThreadStoreError;
use crate::paths::file_name_of;
use crate::paths::is_inside;
use crate::paths::is_normalized_absolute;
use crate::paths::parent_of;
use crate::paths::pending_journal_of;
use crate::paths::plain_path;
use crate::paths::preserved_of;
use crate::paths::retained_journal_of;
use crate::paths::RolloutPath;
use crate::recovery::fresh_recovery;
use crate::recovery::is_blank_journal;
use crate::recovery::journal_conflict;
use crate::recovery::JournalConflict;
use crate::recovery::PreservedSourceFingerprint;
use crate::recovery::RecoveryView;
use crate::refusals::problem_view;
use crate::refusals::DeletionRefusal;
use crate::refusals::DiskProblem;
use crate::refusals::RecoveryRefusal;
use crate::refusals::Refusal;
use crate::rollout::ThreadHistoryMode;
use crate::validation::Check;
use crate::validation::CheckAction;
use crate::validation::CheckReply;
use crate::validation::QualifyPath;
use crate::validation::RolloutRoots;
use crate::validation::ValidateRecovery;
use crate::validation::ValidateStage;
use vstd::prelude::*;

verus! {

/// A path qualifies exactly where it is a normalised absolute one that leads into one of the two
/// rollout directories. A path that does not exist is followed by its directory.
pub proof fn paths_qualify_inside_the_rollout_directories(
    thread_id: ThreadId,
    roots: RolloutRoots,
    path: RolloutPath,
    target: RolloutPath,
    root: RolloutPath,
    message: String,
)
    ensures
        ({
            let begun = QualifyPath::begun(thread_id, roots, path);
            let refused = |refusal: RecoveryRefusal|
                Check::<QualifyPath>::End(Err(DiskProblem::Recovery { thread_id, refusal }));
            let visible = begun->Ask_0.next(CheckReply::Answer(true));
            let missing = begun->Ask_0.next(CheckReply::Answer(false));
            let found = visible->Ask_0.next(CheckReply::Path(target));
            let in_sessions = found->Ask_0.next(CheckReply::Path(root));
            let no_sessions = found->Ask_0.next(CheckReply::NotFound(message));
            let in_archived = no_sessions->Ask_0.next(CheckReply::Path(root));
            let passes = Check::<QualifyPath>::End(Ok(()));
            let normalized = path@.len() > 0 && path@[0] == '/' && is_normalized_absolute(path@);
            &&& !normalized ==> begun == refused(RecoveryRefusal::NotNormalized { path })
            &&& normalized ==> {
                &&& begun is Ask && begun->Ask_1 == (CheckAction::Visible { path })
                &&& visible is Ask && visible->Ask_1 == (CheckAction::Canonicalize { path })
                &&& parent_of(path@) is None ==> missing == refused(
                    RecoveryRefusal::WithoutParent { path },
                )
                &&& parent_of(path@) is Some ==> missing is Ask && missing->Ask_1 == (
                CheckAction::CanonicalizeParent { path })
                &&& found is Ask && found->Ask_1 == (CheckAction::Canonicalize {
                    path: roots.sessions,
                })
                &&& is_inside(target@, root@) ==> in_sessions == passes && in_archived == passes
                &&& !is_inside(target@, root@) ==> in_sessions == no_sessions && in_archived
                    == refused(RecoveryRefusal::PathOutside { path })
                &&& no_sessions is Ask && no_sessions->Ask_1 == (CheckAction::Canonicalize {
                    path: roots.archived,
                })
                &&& no_sessions->Ask_0.next(CheckReply::NotFound(message)) == refused(
                    RecoveryRefusal::PathOutside { path },
                )
                &&& found->Ask_0.next(CheckReply::Failed(message)) == Check::<QualifyPath>::End(
                    Err(DiskProblem::Io(message)),
                )
            }
        }),
{
}

/// A record is read only from the pending or the retained journal of the thread, and only where the
/// journal directory lies in the home and the journal in that directory.
pub proof fn records_are_read_from_the_journals_of_the_thread(
    m: ValidateRecovery,
    home: RolloutPath,
    root: RolloutPath,
    journal: RolloutPath,
    message: String,
)
    requires
        m.stage is CanonicalizingHome,
    ensures
        ({
            let own = m.journal_path@ == pending_journal_of(m.home@, m.thread_id)
                || m.journal_path@ == retained_journal_of(m.home@, m.thread_id);
            let refused = |refusal: RecoveryRefusal|
                Check::<ValidateRecovery>::End(
                    Err(DiskProblem::Recovery { thread_id: m.thread_id, refusal }),
                );
            let at_home = m.next(CheckReply::Path(home));
            let at_root = at_home->Ask_0.next(CheckReply::Path(root));
            let at_journal = at_root->Ask_0.next(CheckReply::Path(journal));
            let lies = is_inside(root@, home@) && is_inside(journal@, root@);
            &&& !own ==> m.begun() == refused(
                RecoveryRefusal::ForeignJournal { path: m.journal_path },
            )
            &&& own ==> m.begun() == Check::Ask(m, CheckAction::Canonicalize { path: m.home })
            &&& at_home is Ask && at_home->Ask_1 == (CheckAction::Canonicalize {
                path: m.journal_root,
            })
            &&& at_root is Ask && at_root->Ask_1 == (CheckAction::Canonicalize {
                path: m.journal_path,
            })
            &&& !lies ==> at_journal == refused(
                RecoveryRefusal::JournalOutside { path: m.journal_path },
            )
            &&& lies && m.recovery.version != 1 ==> at_journal == refused(
                RecoveryRefusal::UnsupportedVersion { version: m.recovery.version },
            )
            &&& lies && m.recovery.version == 1 && m.recovery.retirement_started
                && m.recovery.split_generation_detected ==> at_journal == refused(
                RecoveryRefusal::RetiringAndSplit,
            )
            &&& lies && m.recovery.version == 1 && !(m.recovery.retirement_started
                && m.recovery.split_generation_detected) && is_normalized_absolute(
                m.recovery.rollout_path@,
            ) ==> at_journal is Ask && at_journal->Ask_1 == (CheckAction::Visible {
                path: m.recovery.rollout_path,
            })
            &&& m.next(CheckReply::Failed(message)) == Check::<ValidateRecovery>::End(
                Err(DiskProblem::Io(message)),
            )
        }),
{
}

/// The rollout of a record qualifies first, then what was published, which has to be the plain name of
/// the rollout, and then what is selected, where something is.
pub proof fn recorded_paths_qualify_in_turn(
    m: ValidateRecovery,
    sub: QualifyPath,
    reply: CheckReply,
    published: RolloutPath,
)
    requires
        sub.next(reply) == Check::<QualifyPath>::End(Ok(())),
        published == match m.recovery.published_rollout_path {
            Some(path) => path,
            None => m.recovery.rollout_path,
        },
    ensures
        m.stage == ValidateStage::QualifyingRollout(sub) && is_normalized_absolute(published@)
            ==> m.next(reply) is Ask && m.next(reply)->Ask_1 == (CheckAction::Visible {
            path: published,
        }) && m.next(reply)->Ask_0.stage is QualifyingPublished,
        m.stage == ValidateStage::QualifyingPublished(sub) && published@ != plain_path(
            m.recovery.rollout_path@,
        ) ==> m.next(reply) == Check::<ValidateRecovery>::End(
            Err(
                DiskProblem::Recovery {
                    thread_id: m.thread_id,
                    refusal: RecoveryRefusal::OtherTarget { path: published },
                },
            ),
        ),
        m.stage == ValidateStage::QualifyingPublished(sub) && published@ == plain_path(
            m.recovery.rollout_path@,
        ) ==> (m.selected matches Some(selected) ==> is_normalized_absolute(selected@) ==> m.next(
            reply,
        ) is Ask && m.next(reply)->Ask_1 == (CheckAction::Visible { path: selected }) && m.next(
            reply,
        )->Ask_0.stage is QualifyingSelected),
        m.stage == ValidateStage::QualifyingSelected(sub) ==> m.next(reply) is Ask && m.next(
            reply,
        )->Ask_1 == (CheckAction::Visible { path: published }) && m.next(reply)->Ask_0.stage
            is LookingForPublished,
{
}

/// A path that does not qualify ends the validation with its refusal, wherever it stands in the
/// record.
pub proof fn unqualified_paths_end_the_validation(
    m: ValidateRecovery,
    sub: QualifyPath,
    reply: CheckReply,
    problem: DiskProblem,
)
    requires
        sub.next(reply) == Check::<QualifyPath>::End(Err(problem)),
        m.stage == ValidateStage::QualifyingRollout(sub) || m.stage
            == ValidateStage::QualifyingPublished(sub) || m.stage
            == ValidateStage::QualifyingSelected(sub) || m.stage
            == ValidateStage::QualifyingPreserved(sub),
    ensures
        m.next(reply) == Check::<ValidateRecovery>::End(Err(problem)),
{
}

/// The selected rollout has to be what was published, or its only copy under the same plain name; and
/// it has to be the migrated rollout of the thread.
pub proof fn selected_rollouts_are_the_published_generation(
    m: ValidateRecovery,
    selected: RolloutPath,
    published: RolloutPath,
    exists: bool,
    matches: bool,
    id: ThreadId,
    history_mode: ThreadHistoryMode,
)
    requires
        m.stage is LookingForPublished,
        m.selected == Some(selected),
        published == match m.recovery.published_rollout_path {
            Some(path) => path,
            None => m.recovery.rollout_path,
        },
    ensures
        ({
            let looked = m.next(CheckReply::Answer(exists));
            let matched = looked->Ask_0.next(CheckReply::Answer(matches));
            let read = matched->Ask_0.next(CheckReply::Metadata { id, history_mode });
            let named_alike = file_name_of(plain_path(selected@)) == file_name_of(
                plain_path(published@),
            );
            let refused = |refusal: RecoveryRefusal|
                Check::<ValidateRecovery>::End(
                    Err(DiskProblem::Recovery { thread_id: m.thread_id, refusal }),
                );
            let own = matches || (!exists && named_alike);
            &&& looked is Ask && looked->Ask_1 == (CheckAction::PathsMatch {
                left: selected,
                right: published,
            })
            &&& !own ==> matched == refused(RecoveryRefusal::OtherGeneration { path: published })
            &&& own ==> {
                &&& matched is Ask && matched->Ask_1 == (CheckAction::ReadMetadata {
                    path: selected,
                })
                &&& id != m.thread_id || history_mode != ThreadHistoryMode::PaginatedRefsV1 ==> read
                    == refused(RecoveryRefusal::SelectedNotPaginated { path: selected })
                &&& id == m.thread_id && history_mode == ThreadHistoryMode::PaginatedRefsV1 && (
                file_name_of(m.recovery.rollout_path@) is Some && m.recovery.preserved_source_path@
                    != preserved_of(m.recovery.rollout_path@)) ==> read == refused(
                    RecoveryRefusal::OtherPreserved { path: m.recovery.preserved_source_path },
                )
                &&& id == m.thread_id && history_mode == ThreadHistoryMode::PaginatedRefsV1
                    && file_name_of(m.recovery.rollout_path@) is Some
                    && m.recovery.preserved_source_path@ == preserved_of(m.recovery.rollout_path@)
                    && is_normalized_absolute(m.recovery.preserved_source_path@) ==> read is Ask
                    && read->Ask_1 == (CheckAction::Visible {
                    path: m.recovery.preserved_source_path,
                })
            }
        }),
{
}

/// A record needs its fingerprint where one is required. A preserved source and a published rollout
/// that exist have to belong to the thread; a record passes where they do or do not exist.
pub proof fn records_pass_where_their_files_belong_to_the_thread(
    m: ValidateRecovery,
    sub: QualifyPath,
    reply: CheckReply,
    published: RolloutPath,
    owner: ThreadId,
    history_mode: ThreadHistoryMode,
)
    requires
        m.stage == ValidateStage::QualifyingPreserved(sub),
        sub.next(reply) == Check::<QualifyPath>::End(Ok(())),
        published == match m.recovery.published_rollout_path {
            Some(path) => path,
            None => m.recovery.rollout_path,
        },
    ensures
        ({
            let path = m.recovery.preserved_source_path;
            let refused = |refusal: RecoveryRefusal|
                Check::<ValidateRecovery>::End(
                    Err(DiskProblem::Recovery { thread_id: m.thread_id, refusal }),
                );
            let passes = Check::<ValidateRecovery>::End(Ok(()));
            let lacks = m.require_publication_fingerprint && m.recovery.publication_fingerprint
                is None;
            let qualified = m.next(reply);
            let present = qualified->Ask_0.next(CheckReply::Answer(true));
            let absent = qualified->Ask_0.next(CheckReply::Answer(false));
            let owned = present->Ask_0.next(CheckReply::Thread(owner));
            let visible = absent->Ask_0.next(CheckReply::Answer(true));
            let read = visible->Ask_0.next(CheckReply::Metadata { id: owner, history_mode });
            &&& lacks ==> qualified == refused(RecoveryRefusal::NoPublicationFingerprint)
            &&& !lacks ==> {
                &&& qualified is Ask && qualified->Ask_1 == (CheckAction::Exists { path })
                &&& present is Ask && present->Ask_1 == (CheckAction::SourceThread {
                    recovery: m.recovery,
                })
                &&& absent is Ask && absent->Ask_1 == (CheckAction::Exists { path: published })
                &&& owner != m.thread_id ==> owned == refused(
                    RecoveryRefusal::PreservedBelongsTo { owner, path },
                )
                &&& owner == m.thread_id ==> owned == absent
                &&& absent->Ask_0.next(CheckReply::Answer(false)) == passes
                &&& visible is Ask && visible->Ask_1 == (CheckAction::ReadMetadata {
                    path: published,
                })
                &&& owner != m.thread_id ==> read == refused(
                    RecoveryRefusal::PublishedBelongsTo { owner, path: published },
                )
                &&& owner == m.thread_id ==> read == passes
            }
        }),
{
}

/// A record may replace another of the same source where it takes nothing back: not the start of
/// retirement, not the mark of a divergence, and not the fingerprint; and where it does not both
/// retire and diverge. The first thing that it takes back is named.
pub proof fn records_replace_others_only_going_forward(existing: RecoveryView, recovery: RecoveryView)
    ensures
        ({
            let same = existing.version == recovery.version && existing.rollout_path
                == recovery.rollout_path && existing.published_rollout_path
                == recovery.published_rollout_path && existing.preserved_source_path
                == recovery.preserved_source_path;
            let unretires = existing.retirement_started && !recovery.retirement_started;
            let unsplits = existing.split_generation_detected
                && !recovery.split_generation_detected;
            let unprints = existing.publication_fingerprint is Some
                && recovery.publication_fingerprint is None;
            let both = recovery.retirement_started && recovery.split_generation_detected;
            let reprints = existing.publication_fingerprint is Some
                && recovery.publication_fingerprint is Some && existing.publication_fingerprint->0
                != recovery.publication_fingerprint->0;
            let conflict = journal_conflict(existing, recovery);
            &&& conflict is None <==> same && !unretires && !unsplits && !unprints && !both
                && !reprints
            &&& !same ==> conflict == Some(JournalConflict::OtherSource)
            &&& same && unretires ==> conflict == Some(JournalConflict::RetirementInProgress)
            &&& same && !unretires && unsplits ==> conflict == Some(
                JournalConflict::SplitMarkerCleared,
            )
            &&& same && !unretires && !unsplits && unprints ==> conflict == Some(
                JournalConflict::FingerprintCleared,
            )
            &&& same && !unretires && !unsplits && !unprints && both ==> conflict == Some(
                JournalConflict::SplitRetirement,
            )
            &&& same && !unretires && !unsplits && !unprints && !both && reprints ==> conflict
                == Some(JournalConflict::FingerprintChanged)
        }),
{
}

/// A new record names its paths, has no fingerprint and no marks, and leaves out a published path that
/// is the rollout itself. What is published under it is the published path either way.
pub proof fn new_records_name_their_paths(
    rollout: Seq<char>,
    published: Seq<char>,
    preserved: Seq<char>,
    fingerprint: PreservedSourceFingerprint,
)
    ensures
        ({
            let record = fresh_recovery(rollout, published, preserved);
            &&& record.version == 1
            &&& record.rollout_path == rollout
            &&& record.published_rollout_path is None == (published == rollout)
            &&& record.published() == published
            &&& record.preserved_source_path == preserved
            &&& record.publication_fingerprint is None
            &&& !record.retirement_started && !record.split_generation_detected
            &&& record.fingerprinted(fingerprint).publication_fingerprint == Some(fingerprint)
            &&& record.fingerprinted(fingerprint).same_source(record)
            &&& record.retiring().retirement_started && !record.retiring().split_generation_detected
            &&& record.split().split_generation_detected && !record.split().retirement_started
            &&& record.split().same_source(record) && record.retiring().same_source(record)
        }),
{
}

/// A journal is blank exactly where it holds nothing but spaces, tabs, line feeds, form feeds and
/// carriage returns.
pub proof fn blank_journals_hold_white_space_only(bytes: Seq<u8>, byte: u8)
    ensures
        is_blank_journal(Seq::<u8>::empty()),
        is_blank_journal(bytes.push(byte)) == (is_blank_journal(bytes) && (byte == 32 || byte == 9
            || byte == 10 || byte == 12 || byte == 13)),
{
    assert(bytes.push(byte)[bytes.len() as int] == byte);
    if is_blank_journal(bytes.push(byte)) {
        assert forall|i: int| 0 <= i < bytes.len() implies crate::recovery::is_ascii_white_space(
            #[trigger] bytes[i],
        ) by {
            assert(bytes.push(byte)[i] == bytes[i]);
        }
    }
}

/// A refusal is a conflict that names the file; a refused recovery and a refused deletion name the
/// thread; a failure of the disk is a failed migration; a rejection is handed on.
pub proof fn refusals_are_conflicts(
    refusal: Refusal,
    recovery: RecoveryRefusal,
    deletion: DeletionRefusal,
    path: RolloutPath,
    thread_id: ThreadId,
    message: String,
    rejection: ThreadStoreError,
)
    ensures
        problem_view(DiskProblem::Refused { refusal, path }) == ErrorView::Conflict(
            refusal.words() + ": "@ + path@,
        ),
        problem_view(DiskProblem::Deletion { thread_id, refusal: deletion }) == ErrorView::Conflict(
            "thread "@ + thread_id.text() + deletion.words(),
        ),
        problem_view(DiskProblem::Recovery { thread_id, refusal: recovery }) == recovery_refusal(
            thread_id,
            recovery.words(),
        ),
        problem_view(DiskProblem::Recovery { thread_id, refusal: recovery }) is Conflict,
        problem_view(DiskProblem::Io(message)) == migration_failure(message@),
        problem_view(DiskProblem::Rejected(rejection)) == rejection@,
        migration_failure(message@) is Internal,
{
}

} // verus!
