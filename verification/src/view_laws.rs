//! What the views of the types show.

use crate::canonicalizer::effects_of;
use crate::canonicalizer::LegacyRolloutCanonicalizer;
use crate::canonicalizer::LineEffects;
use crate::canonicalizer::Step;
use crate::discovery::path_texts;
use crate::discovery::precedes;
use crate::error::ErrorView;
use crate::error::ThreadId;
use crate::error::ThreadStoreError;
use crate::id_order::parts_at;
use crate::id_order::texts_stand_in_the_order_of_values;
use crate::migration_run::known_paths;
use crate::migration_run::run_action_view;
use crate::migration_run::run_stage_view;
use crate::migration_run::run_step_view;
use crate::migration_run::RolloutMigrationPaths;
use crate::migration_run::RunAction;
use crate::migration_run::RunActionView;
use crate::migration_run::RunStage;
use crate::migration_run::RunStep;
use crate::migration_run::RunStepView;
use crate::migration_run::RunView;
use crate::model_context::fork_step;
use crate::model_context::load_step;
use crate::model_context::scan_step;
use crate::model_context::ContextAction;
use crate::model_context::ContextProblem;
use crate::model_context::ContextScan;
use crate::model_context::ContextStep;
use crate::model_context::ContextStepView;
use crate::model_context::ForkStage;
use crate::model_context::ForkStageView;
use crate::model_context::ForkView;
use crate::model_context::LoadForFork;
use crate::model_context::LoadModelContext;
use crate::model_context::LoadStage;
use crate::model_context::LoadStageView;
use crate::model_context::LoadView;
use crate::model_context::ScanStage;
use crate::model_context::ScanStageView;
use crate::model_context::ScanView;
use crate::occurrence_ids::CandidateOccurrence;
use crate::occurrence_ids::MigrationOccurrenceIds;
use crate::outside::opt_text;
use crate::paths::RolloutPath;
use crate::record::LogicalRolloutRecord;
use crate::recovery::opt_path;
use crate::recovery::MigrationRecoveryHandle;
use crate::replay::comparison_view;
use crate::replay::result_view;
use crate::report::RolloutMigrationOutcome;
use crate::report::RolloutMigrationReport;
use crate::rollback_apply::PlannedCompaction;
use crate::rollback_apply::RollbackPlan;
use crate::rollback_plan::CompactionFrame;
use crate::rollback_plan::RollbackPlanner;
use crate::rollout::RolloutItem;
use crate::run::ascends_by_text;
use crate::run::status_of;
use crate::run::MigrationRun;
use crate::source_owner::answers_owner;
use crate::walk::is_walk_step;
use crate::walk::FindRollouts;
use crate::walk::WalkStep;
use crate::walk::WalkStepView;
use vstd::prelude::*;

verus! {

/// An error is seen by its kind and its message.
pub proof fn errors_are_seen_by_kind_and_message(thread_id: ThreadId, message: String)
    ensures
        (ThreadStoreError::ThreadNotFound { thread_id })@ == ErrorView::ThreadNotFound(thread_id),
        (ThreadStoreError::InvalidRequest { message })@ == ErrorView::InvalidRequest(message@),
        (ThreadStoreError::Conflict { message })@ == ErrorView::Conflict(message@),
        (ThreadStoreError::Internal { message })@ == ErrorView::Internal(message@),
{
}

/// Optional texts and paths are seen by what they hold.
pub proof fn optional_texts_are_seen_by_what_they_hold(text: String, path: RolloutPath)
    ensures
        opt_text(Some(text)) == Some(text@),
        opt_text(None) is None,
        opt_path(Some(path)) == Some(path.text@),
        opt_path(None) is None,
{
}

/// A record is seen by all that it holds: two records look the same exactly where each field does.
pub proof fn records_are_seen_by_all_they_hold(a: MigrationRecoveryHandle, b: MigrationRecoveryHandle)
    ensures
        a@ == b@ <==> {
            &&& a.version == b.version
            &&& a.rollout_path@ == b.rollout_path@
            &&& a.published_rollout_path is Some == b.published_rollout_path is Some
            &&& a.published_rollout_path is Some ==> a.published_rollout_path->0@
                == b.published_rollout_path->0@
            &&& a.preserved_source_path@ == b.preserved_source_path@
            &&& a.publication_fingerprint == b.publication_fingerprint
            &&& a.retirement_started == b.retirement_started
            &&& a.split_generation_detected == b.split_generation_detected
        },
{
}

/// A planner is seen by its lists and maps.
pub proof fn planners_are_seen_by_their_lists(p: RollbackPlanner, f: CompactionFrame, i: int)
    ensures
        p@.owners == p.record_boundaries@,
        p@.boundaries == p.boundaries@,
        p@.stack == p.boundary_stack@,
        p@.active_turn == p.active_turn_id,
        p@.pending_turn == p.pending_turn_records@,
        p@.pending_context == p.pending_context_records@,
        p@.pending_delivery == p.pending_delivery_boundary,
        p@.turns == p.turn_boundaries@,
        p@.calls == p.call_boundaries@,
        p@.facts == p.retained_fact_sources@,
        p@.frames.len() == p.compactions@.len(),
        0 <= i < p.compactions@.len() ==> p@.frames[i] == p.compactions@[i]@,
        f@.record_index == f.record_index && f@.boundary_depth == f.boundary_depth,
        f@.owner == f.owner && f@.has_replacement_history == f.has_replacement_history,
        f@.referenced == f.referenced_item_ids@,
        f@.has_guardian_history == f.has_guardian_history,
        f@.truncations == f.guardian_history_truncations@,
        f@.drop_last_n_user_turns == f.drop_last_n_user_turns,
        f@.context is Some == f.retained_context is Some,
        f.retained_context matches Some(context) ==> f@.context->0 == context.entries@,
{
}

/// A plan is seen by its lists.
pub proof fn plans_are_seen_by_their_lists(plan: RollbackPlan, c: PlannedCompaction, i: int)
    ensures
        plan@.owners == plan.record_boundaries@,
        plan@.alive == plan.boundary_alive@,
        plan@.selected == plan.selected_compaction,
        plan@.requested == plan.requested_item_ids@,
        plan@.frames.len() == plan.compactions@.len(),
        0 <= i < plan.compactions@.len() ==> plan@.frames[i] == plan.compactions@[i]@,
        c@.record_index == c.record_index && c@.rewrite == c.rewrite,
        c@.replaces_context == c.replaces_context,
        c@.truncations == c.guardian_history_truncations@,
        c@.context is Some == c.retained_context is Some,
        c.retained_context matches Some(context) ==> c@.context->0 == context.entries@,
{
}

/// A canonicaliser is seen by its turns and its output, and these by its fields.
pub proof fn canonicalisers_are_seen_by_their_fields(c: LegacyRolloutCanonicalizer)
    ensures
        c.turns().thread_id == c.thread_id,
        c.turns().next_item_index == c.next_item_index,
        c.turns().source_line_index == c.source_line_index,
        c.turns().known_turns == c.known_turn_ids@,
        c.turns().active is Some == c.active_turn is Some,
        c.active_turn matches Some(turn) ==> c.turns().active->0.id == turn.id@
            && c.turns().active->0.explicit == turn.explicit && c.turns().active->0.saw_user
            == turn.saw_user,
        c.turns().reasoning is Some == c.reasoning is Some,
        c.reasoning matches Some(item) ==> c.turns().reasoning->0.id == item.id@
            && c.turns().reasoning->0.summary.len() == item.summary_text@.len()
            && c.turns().reasoning->0.raw.len() == item.raw_content@.len(),
        c.output().next_ordinal == c.next_ordinal,
        c.output().byte_offset == c.output_byte_offset,
        c.output().bytes_written == c.bytes_written,
        c.output().occurrences == c.occurrence_ids@,
        c.output().unresolved is Some == c.unresolved_selected_compaction is Some,
        c.unresolved_selected_compaction matches Some(list) ==> c.output().unresolved->0.len()
            == list@.len(),
{
}

/// The effects of a step are its records, and a failure exactly where it failed, with its message.
pub proof fn effects_are_those_of_their_step(fx: LineEffects, step: Step)
    requires
        effects_of(fx, step),
    ensures
        fx.writes@.len() == step.writes.len(),
        fx.failure is Some <==> step.failure is Some,
        step.failure matches Some(message) ==> fx.failure->0@ == ErrorView::Internal(
            "rollout migration failed: "@ + message,
        ),
{
}

/// The assignment of identifiers is seen by its sets and its candidates.
pub proof fn assignments_are_seen_by_their_sets(
    m: MigrationOccurrenceIds,
    c: CandidateOccurrence,
    i: int,
)
    ensures
        m@.rollout_id == m.rollout_id,
        m@.reserved == m.reserved_ids@,
        m@.generated == m.generated_ids@,
        m@.candidates.len() == m.active_candidates@.len(),
        0 <= i < m.active_candidates@.len() ==> m@.candidates[i] == m.active_candidates@[i]@,
        c@.id == c.id@,
        c@.shape.0 == c.payload@,
        c@.shape.1 is Some == c.metadata is Some,
        c.metadata matches Some(metadata) ==> c@.shape.1 == Some(
            (metadata.user_input_order, metadata.payload@),
        ),
{
}

/// A record that is being read is seen by its bytes and counts.
pub proof fn read_records_are_seen_by_their_bytes(r: LogicalRolloutRecord)
    ensures
        r@.bytes == r.bytes@,
        r@.source_bytes == r.source_bytes,
        r@.logical_bytes == r.logical_bytes,
        r@.lex.in_string == r.in_string && r@.lex.escaped == r.escaped,
        r@.repaired == r.repaired && r@.terminated == r.terminated,
{
}

/// A step of reading a lineage is seen as what it asks for or what it ends with.
pub proof fn reading_steps_are_seen_as_they_are(
    scan: ContextScan,
    load: LoadModelContext,
    fork: LoadForFork,
    action: ContextAction,
    items: Vec<RolloutItem>,
    problem: ContextProblem,
)
    ensures
        scan_step(ContextStep::Ask(scan, action)) == ContextStepView::Ask(scan@, action),
        scan_step(ContextStep::End(Ok(items))) == ContextStepView::<ScanView>::End(Ok(items@)),
        scan_step(ContextStep::End(Err(problem))) == ContextStepView::<ScanView>::End(Err(problem)),
        load_step(ContextStep::Ask(load, action)) == ContextStepView::Ask(load@, action),
        load_step(ContextStep::End(Ok(items))) == ContextStepView::<LoadView>::End(Ok(items@)),
        load_step(ContextStep::End(Err(problem))) == ContextStepView::<LoadView>::End(Err(problem)),
        fork_step(ContextStep::Ask(fork, action)) == ContextStepView::Ask(fork@, action),
        fork_step(ContextStep::End(Ok(items))) == ContextStepView::<ForkView>::End(Ok(items@)),
        fork_step(ContextStep::End(Err(problem))) == ContextStepView::<ForkView>::End(Err(problem)),
{
}

/// The reading of a lineage is seen by its head, its segments and its stage, with the items read so
/// far.
pub proof fn readings_are_seen_by_their_stage(
    scan: ContextScan,
    load: LoadModelContext,
    fork: LoadForFork,
)
    ensures
        scan@.head == scan.head && scan@.segments == scan.segments,
        scan.stage matches ScanStage::OpeningBounded { index } ==> scan@.stage == (
        ScanStageView::OpeningBounded { index }),
        scan.stage matches ScanStage::ReadingBounded { index } ==> scan@.stage == (
        ScanStageView::ReadingBounded { index }),
        scan.stage matches ScanStage::Offering { index } ==> scan@.stage == (
        ScanStageView::Offering { index }),
        scan.stage is Finishing ==> scan@.stage is Finishing,
        scan.stage matches ScanStage::OpeningFull { index, items } ==> scan@.stage == (
        ScanStageView::OpeningFull { index, items: items@ }),
        scan.stage matches ScanStage::ReadingFull { index, items } ==> scan@.stage == (
        ScanStageView::ReadingFull { index, items: items@ }),
        load@.thread_id == load.thread_id,
        load.stage is Resolving ==> load@.stage is Resolving,
        load.stage matches LoadStage::ReadingHead(rollout) ==> load@.stage
            == LoadStageView::ReadingHead(rollout),
        load.stage matches LoadStage::ResolvingLineage(head) ==> load@.stage
            == LoadStageView::ResolvingLineage(head),
        load.stage matches LoadStage::Scanning(scan) ==> load@.stage == LoadStageView::Scanning(
            scan@,
        ),
        load.stage is Loading ==> load@.stage is Loading,
        fork@.history_base == fork.history_base,
        fork.stage matches ForkStage::ReadingHead(path) ==> fork@.stage
            == ForkStageView::ReadingHead(path),
        fork.stage matches ForkStage::Truncating(head) ==> fork@.stage == ForkStageView::Truncating(
            head,
        ),
        fork.stage matches ForkStage::Scanning(scan) ==> fork@.stage == ForkStageView::Scanning(
            scan@,
        ),
{
}

/// A run is seen by its rollouts, its outcomes and how many it has handled; what it asks for is seen
/// as it is, and its end is its report or its error.
pub proof fn runs_are_seen_by_their_rollouts(
    paths: Vec<RolloutPath>,
    run: MigrationRun,
    m: crate::migration_run::RunMigration,
    action: RunAction,
    report: RolloutMigrationReport,
    error: ThreadStoreError,
)
    ensures
        known_paths(RolloutMigrationPaths::Discover) is None,
        known_paths(RolloutMigrationPaths::Known(paths)) == Some(paths@),
        run_stage_view(RunStage::Discovering) is Discovering,
        run_stage_view(RunStage::ReadingPending { paths }) == (RunView::ReadingPending {
            paths: paths@,
        }),
        run_stage_view(RunStage::ReadingNames { paths }) == (RunView::ReadingNames {
            paths: paths@,
        }),
        run_stage_view(RunStage::Migrating { paths, run }) == (RunView::Migrating {
            paths: paths@,
            outcomes: run.report.outcomes@,
            handled: run.processed_paths as nat,
        }),
        run_stage_view(RunStage::Reporting { paths, run }) == (RunView::Reporting {
            paths: paths@,
            outcomes: run.report.outcomes@,
            handled: run.processed_paths as nat,
        }),
        run_step_view(RunStep::Ask(m, action)) == RunStepView::Ask(
            run_stage_view(m.stage),
            run_action_view(action),
        ),
        run_step_view(RunStep::End(Ok(report))) == RunStepView::End(Ok(report.outcomes@)),
        run_step_view(RunStep::End(Err(error))) == RunStepView::End(Err(error@)),
        action is TakeMaintenanceLock ==> run_action_view(action) is TakeMaintenanceLock,
        action is Discover ==> run_action_view(action) is Discover,
        action is PendingThreads ==> run_action_view(action) is PendingThreads,
        action matches RunAction::ReadNames { thread_ids } ==> run_action_view(action) == (
        RunActionView::ReadNames { thread_ids: thread_ids@ }),
        action matches RunAction::MigratePath { path } ==> run_action_view(action) == (
        RunActionView::MigratePath { path }),
        action matches RunAction::Progress(progress) ==> run_action_view(action)
            == RunActionView::Progress(progress),
{
}

/// The status of an outcome is that of the outcome, where there is one.
pub proof fn outcomes_have_their_own_status(outcome: RolloutMigrationOutcome)
    ensures
        status_of(Some(outcome)) == Some(outcome.status),
        status_of(None) is None,
{
}

/// Threads in the order of their texts are in the order of their values.
pub proof fn threads_in_order_ascend(ids: Seq<ThreadId>, i: int, j: int)
    requires
        ascends_by_text(ids),
        0 <= i < j < ids.len(),
    ensures
        ids[i].value <= ids[j].value,
{
    if ids[i].value > ids[j].value {
        texts_stand_in_the_order_of_values(ids[j], ids[i]);
        let a = ids[i].text();
        let b = ids[j].text();
        let k = choose|k: int| #[trigger] parts_at(a, b, k);
        let l = choose|l: int| #[trigger] parts_at(b, a, l);
        if k < l {
            assert(b.take(l)[k] == a.take(l)[k]);
        } else if l < k {
            assert(a.take(k)[l] == b.take(k)[l]);
        }
    }
}

/// Rollouts that are found come in descending order: none stands behind one that it precedes.
pub proof fn found_rollouts_descend(
    step: WalkStep,
    paths: Seq<RolloutPath>,
    found: Vec<RolloutPath>,
    i: int,
    j: int,
)
    requires
        is_walk_step(step, WalkStepView::Found(paths)),
        step == WalkStep::End(Ok(found)),
        0 <= i < j < found@.len(),
    ensures
        !precedes(found@[i]@, found@[j]@),
        found@.to_multiset() == paths.to_multiset(),
{
    let all = path_texts(found@);
    assert(all[i] == found@[i]@);
    assert(all[j] == found@[j]@);
}

/// A step of a walk asks for what the walk waits for, or ends with its failure.
pub proof fn walks_ask_for_what_they_wait_for(
    step: WalkStep,
    v: crate::walk::WalkView,
    path: RolloutPath,
    plain: Seq<char>,
    error: ErrorView,
)
    ensures
        is_walk_step(step, WalkStepView::Open(v, path)) ==> step is Ask && step->Ask_0@ == v
            && step->Ask_1 == (crate::walk::WalkAction::ReadDirectory { path }),
        is_walk_step(step, WalkStepView::Read(v)) ==> step is Ask && step->Ask_0@ == v
            && step->Ask_1 is NextEntry,
        is_walk_step(step, WalkStepView::Check(v, plain)) ==> step is Ask && step->Ask_0@ == v
            && step->Ask_1 is Exists && step->Ask_1->Exists_path@ == plain,
        is_walk_step(step, WalkStepView::Problem(error)) ==> step is End && step->End_0 is Err
            && step->End_0->Err_0@ == error,
{
}

/// A walk is seen by its directories, its rollouts and its stage.
pub proof fn walks_are_seen_by_their_directories(m: FindRollouts)
    ensures
        m@.directories == m.directories@,
        m@.paths == m.paths@,
        m@.stage == m.stage,
{
}

/// An answer about an owner is the owner, the failure, or none, as expected.
pub proof fn owners_are_answered_as_expected(
    thread: ThreadId,
    owner: ThreadId,
    error: ThreadStoreError,
    view: ErrorView,
)
    ensures
        answers_owner(Some(Ok(thread)), Some(Ok(owner))) == (thread == owner),
        answers_owner(Some(Err(error)), Some(Err(view))) == (error@ == view),
        answers_owner(None, None),
        !answers_owner(None, Some(Ok(owner))),
        !answers_owner(None, Some(Err(view))),
        !answers_owner(Some(Ok(thread)), None),
        !answers_owner(Some(Ok(thread)), Some(Err(view))),
        !answers_owner(Some(Err(error)), Some(Ok(owner))),
{
}

/// A comparison is seen by its answer, or by whose item failed and why.
pub proof fn comparisons_are_seen_as_they_are(same: bool, supplied: bool, message: String, error: ThreadStoreError)
    ensures
        comparison_view(Ok(same)) == Ok::<bool, (bool, Seq<char>)>(same),
        comparison_view(Err((supplied, message))) == Err::<bool, (bool, Seq<char>)>(
            (supplied, message@),
        ),
        result_view(Ok(same)) == Ok::<bool, ErrorView>(same),
        result_view(Err(error)) == Err::<bool, ErrorView>(error@),
{
}



} // verus!
