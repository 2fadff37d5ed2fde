//! The steps of a run, of a retirement pass and of the walk that finds rollouts.

use crate::discovery::is_pending;
use crate::discovery::precedes;
use crate::error::migration_failure;
use crate::error::spelled_thread_id;
use crate::error::ErrorView;
use crate::error::ThreadId;
use crate::error::ThreadStoreError;
use crate::id_order::text_before;
use crate::migration_run::pass_at;
use crate::migration_run::pass_steps_to;
use crate::migration_run::pass_threads;
use crate::migration_run::receipts_after;
use crate::migration_run::run_begun;
use crate::migration_run::run_next;
use crate::migration_run::threads_in;
use crate::migration_run::PassAction;
use crate::migration_run::PassReply;
use crate::migration_run::PassStep;
use crate::migration_run::RetirementPass;
use crate::migration_run::RunActionView;
use crate::migration_run::RunReply;
use crate::migration_run::RunStepView;
use crate::migration_run::RunView;
use crate::paths::is_rollout_name;
use crate::paths::plain_path;
use crate::paths::rollout_id_in_path;
use crate::paths::RolloutPath;
use crate::report::selects;
use crate::report::PreservedSourceRetirementOutcome;
use crate::report::RolloutMigrationMode;
use crate::report::RolloutMigrationOutcome;
use crate::report::RolloutMigrationProgress;
use crate::report::RolloutMigrationStatus;
use crate::retire_thread::RetirementVerdict;
use crate::walk::journal_owner;
use crate::walk::DirectoryEntry;
use crate::walk::EntryKind;
use crate::walk::WalkReply;
use crate::walk::WalkStepView;
use crate::walk::WalkView;
use vstd::prelude::*;

verus! {

/// A run that applies takes the maintenance lock first; a dry run does not. Then it knows its rollouts
/// or discovers them.
pub proof fn runs_begin_with_their_lock_and_their_rollouts(
    known: Seq<RolloutPath>,
    found: Vec<RolloutPath>,
    message: String,
)
    ensures
        ({
            let apply = RolloutMigrationMode::Apply;
            let dry = RolloutMigrationMode::DryRun;
            let given = run_begun(apply, Some(known));
            let none = run_begun(apply, None);
            let taken = run_next(apply, none->Ask_0, RunReply::Lock(Ok(true)));
            &&& given is Ask && given->Ask_1 == RunActionView::TakeMaintenanceLock
            &&& none is Ask && none->Ask_1 == RunActionView::TakeMaintenanceLock
            &&& run_next(apply, given->Ask_0, RunReply::Lock(Ok(true))) == RunStepView::Ask(
                RunView::ReadingPending { paths: known },
                RunActionView::PendingThreads,
            )
            &&& taken == RunStepView::Ask(RunView::Discovering, RunActionView::Discover)
            &&& run_next(apply, RunView::Discovering, RunReply::Paths(found)) == RunStepView::Ask(
                RunView::ReadingPending { paths: found@ },
                RunActionView::PendingThreads,
            )
            &&& run_next(apply, none->Ask_0, RunReply::Lock(Ok(false))) == RunStepView::End(
                Err(
                    ErrorView::Conflict(
                        "rollout compression or another migration is already running"@,
                    ),
                ),
            )
            &&& run_next(apply, none->Ask_0, RunReply::Lock(Err(message))) == RunStepView::End(
                Err(migration_failure(message@)),
            )
            &&& run_begun(dry, None) == RunStepView::Ask(
                RunView::Discovering,
                RunActionView::Discover,
            )
            &&& known.len() > 0 ==> run_begun(dry, Some(known)) == RunStepView::Ask(
                RunView::Migrating { paths: known, outcomes: Seq::empty(), handled: 0 },
                RunActionView::MigratePath { path: known[0] },
            )
            &&& known.len() == 0 ==> run_begun(dry, Some(known)) == RunStepView::End(
                Ok(Seq::empty()),
            )
            &&& found@.len() > 0 ==> run_next(
                dry,
                RunView::Discovering,
                RunReply::Paths(found),
            ) == RunStepView::Ask(
                RunView::Migrating { paths: found@, outcomes: Seq::empty(), handled: 0 },
                RunActionView::MigratePath { path: found@[0] },
            )
        }),
{
}

/// Rollouts with a pending migration are handled first, and the names of all their threads are read
/// before the first.
pub proof fn pending_rollouts_are_handled_first(
    mode: RolloutMigrationMode,
    paths: Seq<RolloutPath>,
    pending: Vec<ThreadId>,
)
    ensures
        ({
            let step = run_next(
                mode,
                RunView::ReadingPending { paths },
                RunReply::Threads(pending),
            );
            let first = |path: RolloutPath|
                {
                    let id = rollout_id_in_path(path@);
                    id is Some && pending@.contains(id->0)
                };
            let later = |path: RolloutPath| !is_pending(path, pending@);
            let all = step->Ask_0->ReadingNames_paths;
            &&& step is Ask && step->Ask_0 is ReadingNames
            &&& step->Ask_1 == (RunActionView::ReadNames { thread_ids: threads_in(all) })
            &&& all.len() == paths.filter(
                |path: RolloutPath| is_pending(path, pending@),
            ).len() + paths.filter(later).len()
            &&& forall|i: int|
                0 <= i < paths.filter(|path: RolloutPath| is_pending(path, pending@)).len()
                    ==> first(#[trigger] all[i])
            &&& forall|i: int|
                paths.filter(|path: RolloutPath| is_pending(path, pending@)).len() <= i < all.len()
                    ==> !first(#[trigger] all[i])
        }),
{
    let front = paths.filter(|path: RolloutPath| is_pending(path, pending@));
    let back = paths.filter(|path: RolloutPath| !is_pending(path, pending@));
    let step = run_next(mode, RunView::ReadingPending { paths }, RunReply::Threads(pending));
    let all = step->Ask_0->ReadingNames_paths;
    assert(all == front + back);
    assert forall|i: int| 0 <= i < front.len() implies {
        let id = rollout_id_in_path((#[trigger] all[i])@);
        id is Some && pending@.contains(id->0)
    } by {
        assert(all[i] == front[i]);
        assert(is_pending(front[i], pending@));
    }
    assert forall|i: int| front.len() <= i < all.len() implies {
        let id = rollout_id_in_path((#[trigger] all[i])@);
        !(id is Some && pending@.contains(id->0))
    } by {
        assert(all[i] == back[i - front.len()]);
        assert(!is_pending(back[i - front.len()], pending@));
    }
}

/// The threads of a list of rollouts are those in their names, in order.
pub proof fn threads_are_those_in_the_names(paths: Seq<RolloutPath>, path: RolloutPath)
    ensures
        threads_in(Seq::<RolloutPath>::empty()).len() == 0,
        rollout_id_in_path(path@) is None ==> threads_in(paths.push(path)) == threads_in(paths),
        rollout_id_in_path(path@) matches Some(id) ==> threads_in(paths.push(path)) == threads_in(
            paths,
        ).push(id),
{
    assert(paths.push(path).drop_last() =~= paths);
}

/// Rollouts are handled one after the other. Each outcome is added to the report and told at once,
/// with how many rollouts of how many have been handled; behind the last one the report is done.
pub proof fn runs_report_each_rollout_in_turn(
    mode: RolloutMigrationMode,
    paths: Seq<RolloutPath>,
    outcomes: Seq<RolloutMigrationOutcome>,
    handled: nat,
    outcome: RolloutMigrationOutcome,
    error: ThreadStoreError,
)
    requires
        handled < paths.len() <= usize::MAX,
    ensures
        ({
            let at = RunView::Migrating { paths, outcomes, handled };
            let told = run_next(mode, at, RunReply::Outcome(Some(outcome)));
            let silent = run_next(mode, at, RunReply::Outcome(None));
            let progress = |status: Option<RolloutMigrationStatus>|
                RunActionView::Progress(
                    RolloutMigrationProgress {
                        processed_paths: (handled + 1) as usize,
                        total_paths: paths.len() as usize,
                        outcome_status: status,
                    },
                );
            let after = run_next(mode, told->Ask_0, RunReply::Done);
            &&& told == RunStepView::Ask(
                RunView::Reporting {
                    paths,
                    outcomes: outcomes.push(outcome),
                    handled: handled + 1,
                },
                progress(Some(outcome.status)),
            )
            &&& silent == RunStepView::Ask(
                RunView::Reporting { paths, outcomes, handled: handled + 1 },
                progress(None),
            )
            &&& handled + 1 == paths.len() ==> after == RunStepView::End(Ok(outcomes.push(outcome)))
            &&& handled + 1 < paths.len() ==> after == RunStepView::Ask(
                RunView::Migrating {
                    paths,
                    outcomes: outcomes.push(outcome),
                    handled: handled + 1,
                },
                RunActionView::MigratePath { path: paths[handled as int + 1] },
            )
            &&& run_next(mode, at, RunReply::Rejected(error)) == RunStepView::End(Err(error@))
        }),
        run_next(mode, RunView::ReadingNames { paths }, RunReply::Done) == RunStepView::Ask(
            RunView::Migrating { paths, outcomes: Seq::empty(), handled: 0 },
            RunActionView::MigratePath { path: paths[0] },
        ),
{
}

/// A retirement pass takes the maintenance lock, lists the retained records, and fails where the lock
/// is held or anything is refused.
pub proof fn passes_list_the_retained_records_under_their_lock(
    m: RetirementPass,
    step: PassStep,
    message: String,
    error: ThreadStoreError,
)
    ensures
        m.stage is Locking && pass_steps_to(m, PassReply::Lock(Ok(true)), step) ==> step is Ask
            && step->Ask_1 is RetainedThreads && step->Ask_0.stage is Listing
            && step->Ask_0.selected@ == m.selected@,
        m.stage is Locking && pass_steps_to(m, PassReply::Lock(Ok(false)), step) ==> step is End
            && step->End_0 is Err && step->End_0->Err_0@ is Conflict,
        m.stage is Locking && pass_steps_to(m, PassReply::Lock(Err(message)), step) ==> step is End
            && step->End_0 is Err && step->End_0->Err_0@ == migration_failure(message@),
        pass_steps_to(m, PassReply::Rejected(error), step) ==> step is End && step->End_0 is Err
            && step->End_0->Err_0@ == error@,
{
}

/// A pass retires the threads one after the other. A verdict is added to the receipts, and without one
/// nothing is; behind the last thread the receipts are the report.
pub proof fn passes_retire_each_thread_in_turn(
    m: RetirementPass,
    verdict: Option<RetirementVerdict>,
    step: PassStep,
)
    requires
        m.stage is Retiring,
        m.stage->index < m.stage->thread_ids@.len(),
        pass_steps_to(m, PassReply::Verdict(verdict), step),
    ensures
        ({
            let ids = m.stage->thread_ids@;
            let next = m.stage->index + 1;
            let before = m.stage->Retiring_report.outcomes@;
            let after = if next < ids.len() {
                step->Ask_0.stage->Retiring_report.outcomes@
            } else {
                step->End_0->Ok_0.outcomes@
            };
            &&& next < ids.len() ==> {
                &&& step is Ask && step->Ask_1 == (PassAction::Retire { thread_id: ids[next] })
                &&& step->Ask_0.stage is Retiring && step->Ask_0.stage->index == next
                &&& step->Ask_0.stage->thread_ids@ == ids
            }
            &&& next == ids.len() ==> step is End && step->End_0 is Ok
            &&& verdict is None ==> after == before
            &&& verdict is Some ==> {
                &&& after.len() == before.len() + 1
                &&& forall|i: int| 0 <= i < before.len() ==> #[trigger] after[i] == before[i]
                &&& after.last().thread_id == verdict->0.thread_id
                &&& after.last().rollout_path == verdict->0.rollout_path
                &&& after.last().preserved_source_path == verdict->0.preserved_source_path
            }
        }),
{
    let ids = m.stage->thread_ids@;
    let before = m.stage->Retiring_report.outcomes@;
    let outcomes = choose|outcomes: Seq<PreservedSourceRetirementOutcome>| #[trigger]
        receipts_after(before, verdict, outcomes) && pass_at(
            step,
            m.selected@,
            ids,
            (m.stage->index + 1) as nat,
            outcomes,
        );
    if verdict is Some {
        assert forall|i: int| 0 <= i < before.len() implies #[trigger] outcomes[i] == before[i] by {
            assert(outcomes.drop_last()[i] == outcomes[i]);
        }
    }
}

/// Paths are ordered by their first difference: a separator stands before every other character, and a
/// path before what continues it.
pub proof fn paths_are_ordered_by_their_first_difference(
    common: Seq<char>,
    a: Seq<char>,
    b: Seq<char>,
)
    ensures
        b.len() > 0 ==> precedes(common, common + b),
        !precedes(common + b, common),
        a.len() > 0 && b.len() > 0 && a[0] == '/' && b[0] != '/' ==> precedes(common + a, common + b),
        a.len() > 0 && b.len() > 0 && a[0] != '/' && b[0] != '/' && (a[0] as nat) < (b[0] as nat)
            ==> precedes(common + a, common + b) && !precedes(common + b, common + a),
    decreases common.len(),
{
    if common.len() > 0 {
        let rest = common.skip(1);
        paths_are_ordered_by_their_first_difference(rest, a, b);
        assert((common + a).skip(1) =~= rest + a);
        assert((common + b).skip(1) =~= rest + b);
    } else {
        assert(common + a =~= a);
        assert(common + b =~= b);
    }
}

/// What each entry of a directory comes to: a directory is walked later, a plain rollout is found, a
/// compressed one is found unless its plain rollout exists, and anything else is passed over.
pub proof fn entries_are_taken_by_what_they_are(v: WalkView, entry: DirectoryEntry, exists: bool)
    requires
        v.stage is Reading,
    ensures
        ({
            let step = v.next(WalkReply::Entry(entry));
            let named = entry.kind == EntryKind::File && entry.name is Some && is_rollout_name(
                entry.name->0@,
            );
            let packed = named && ".jsonl.zst"@.is_suffix_of(entry.name->0@);
            let checked = step->Check_0.next(WalkReply::Answer(exists));
            &&& entry.kind == EntryKind::Directory ==> {
                &&& step is Read
                &&& step->Read_0.directories == v.directories.push(entry.path)
                &&& step->Read_0.paths == v.paths
            }
            &&& entry.kind != EntryKind::Directory && !named ==> step is Read
                && step->Read_0.directories == v.directories && step->Read_0.paths == v.paths
            &&& named && !packed ==> step is Read && step->Read_0.directories == v.directories
                && step->Read_0.paths == v.paths.push(entry.path)
            &&& packed ==> {
                &&& step is Check && step->Check_1 == plain_path(entry.path@)
                &&& checked is Read && checked->Read_0.directories == v.directories
                &&& exists ==> checked->Read_0.paths == v.paths
                &&& !exists ==> checked->Read_0.paths == v.paths.push(entry.path)
            }
        }),
{
}

/// A walk goes on with the directory that was found last, and ends where none is left. A directory
/// that is gone is passed over; a failure ends the walk.
pub proof fn walks_end_where_no_directory_is_left(v: WalkView, message: String)
    ensures
        ({
            let next = if v.stage is Opening {
                v.next(WalkReply::NotFound)
            } else {
                v.next(WalkReply::NoMore)
            };
            &&& v.stage is Opening || v.stage is Reading ==> {
                &&& v.directories.len() == 0 ==> next == WalkStepView::Found(v.paths)
                &&& v.directories.len() > 0 ==> {
                    &&& next is Open && next->Open_1 == v.directories.last()
                    &&& next->Open_0.directories == v.directories.drop_last()
                    &&& next->Open_0.paths == v.paths
                }
            }
            &&& v.stage is Opening ==> {
                let opened = v.next(WalkReply::Done);
                opened is Read && opened->Read_0.directories == v.directories
                    && opened->Read_0.paths == v.paths && opened->Read_0.stage is Reading
            }
            &&& v.next(WalkReply::Failed(message)) == WalkStepView::Problem(
                migration_failure(message@),
            )
        }),
{
}

/// The journal of a thread is a file whose name is the thread followed by the suffix.
pub proof fn journals_are_named_after_their_thread(stem: Seq<char>, suffix: Seq<char>)
    ensures
        journal_owner(EntryKind::File, Some(stem + suffix), suffix) == spelled_thread_id(stem),
        journal_owner(EntryKind::Directory, Some(stem + suffix), suffix) is None,
        journal_owner(EntryKind::Other, Some(stem + suffix), suffix) is None,
        journal_owner(EntryKind::File, None, suffix) is None,
{
    let name = stem + suffix;
    assert(name.take(name.len() - suffix.len()) =~= stem);
    assert(name.skip(stem.len() as int) =~= suffix);
}

proof fn lemma_filter_count(ids: Seq<ThreadId>, selected: Seq<ThreadId>, id: ThreadId)
    ensures
        ids.filter(|x: ThreadId| selects(selected, Some(x))).to_multiset().count(id) == (if selects(
            selected,
            Some(id),
        ) {
            ids.to_multiset().count(id)
        } else {
            0
        }),
    decreases ids.len(),
{
    broadcast use vstd::seq_lib::group_to_multiset_ensures;

    reveal(Seq::filter);
    if ids.len() > 0 {
        let rest = ids.drop_last();
        lemma_filter_count(rest, selected, id);
        assert(ids =~= rest.push(ids.last()));
    } else {
        assert(ids =~= Seq::empty());
    }
}

/// A pass retires exactly the threads with a retained record that are asked for, as often as they have
/// one, in the order of their texts, and begins with the first; without any it ends with an empty
/// report. An empty selection asks for all.
pub proof fn passes_retire_the_retained_threads_that_are_asked_for(
    m: RetirementPass,
    retained: Vec<ThreadId>,
    step: PassStep,
)
    requires
        m.stage is Listing,
        pass_steps_to(m, PassReply::Threads(retained), step),
    ensures
        ({
            let ids = if step is Ask {
                step->Ask_0.stage->thread_ids@
            } else {
                Seq::empty()
            };
            &&& step is Ask ==> {
                &&& ids.len() > 0
                &&& step->Ask_1 == (PassAction::Retire { thread_id: ids[0] })
                &&& step->Ask_0.selected@ == m.selected@
                &&& step->Ask_0.stage is Retiring
                &&& step->Ask_0.stage->index == 0
                &&& step->Ask_0.stage->Retiring_report.outcomes@.len() == 0
            }
            &&& step is End ==> step->End_0 is Ok && step->End_0->Ok_0.outcomes@.len() == 0
            &&& forall|i: int, j: int|
                0 <= i < j < ids.len() ==> #[trigger] ids[i] == #[trigger] ids[j] || text_before(
                    ids[i].text(),
                    ids[j].text(),
                )
            &&& forall|id: ThreadId|
                m.selected@.len() == 0 || m.selected@.contains(id)
                    ==> #[trigger] ids.to_multiset().count(id) == retained@.to_multiset().count(id)
            &&& forall|id: ThreadId|
                m.selected@.len() > 0 && !m.selected@.contains(id)
                    ==> #[trigger] ids.to_multiset().count(id) == 0
        }),
{
    let thread_ids = choose|thread_ids: Seq<ThreadId>| #[trigger]
        pass_threads(m.selected@, retained@, thread_ids) && pass_at(
            step,
            m.selected@,
            thread_ids,
            0,
            Seq::empty(),
        );
    let ids = if step is Ask {
        step->Ask_0.stage->thread_ids@
    } else {
        Seq::empty()
    };
    assert(ids =~= thread_ids);
    assert forall|id: ThreadId|
        m.selected@.len() == 0 || m.selected@.contains(
            id,
        ) implies #[trigger] ids.to_multiset().count(id) == retained@.to_multiset().count(id) by {
        lemma_filter_count(retained@, m.selected@, id);
    }
    assert forall|id: ThreadId| m.selected@.len() > 0 && !m.selected@.contains(id) implies
        #[trigger] ids.to_multiset().count(id) == 0 by {
        lemma_filter_count(retained@, m.selected@, id);
    }
}

/// A reply that does not answer what a pass has asked for ends it with an error.
pub proof fn passes_end_on_replies_that_do_not_answer(
    m: RetirementPass,
    retained: Vec<ThreadId>,
    taken: Result<bool, String>,
    step: PassStep,
)
    ensures
        m.stage !is Listing && pass_steps_to(m, PassReply::Threads(retained), step) ==> step is End
            && step->End_0 is Err,
        m.stage !is Locking && pass_steps_to(m, PassReply::Lock(taken), step) ==> step is End
            && step->End_0 is Err,
{
}

} // verus!
