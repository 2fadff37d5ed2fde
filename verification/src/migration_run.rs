//! A migration run and a retirement pass, from their locks to their reports.

use crate::discovery::is_pending;
use crate::discovery::pending_first;
use crate::error::migration_error;
use crate::error::migration_failure;
use crate::error::ErrorView;
use crate::error::ThreadId;
use crate::error::ThreadStoreError;
use crate::error::ThreadStoreResult;
use crate::limiter::RolloutMigrationRateLimiter;
use crate::paths::rollout_id_in_path;
use crate::paths::thread_id_from_rollout_filename;
use crate::paths::RolloutPath;
use crate::report::selects;
use crate::report::PreservedSourceRetirementOutcome;
use crate::report::PreservedSourceRetirementReport;
use crate::report::RolloutMigrationMode;
use crate::report::RolloutMigrationOptions;
use crate::report::RolloutMigrationOutcome;
use crate::report::RolloutMigrationProgress;
use crate::report::RolloutMigrationReport;
use crate::retire_thread::reports_retirement;
use crate::retire_thread::RetirementVerdict;
use crate::run::ascends_by_text;
use crate::run::maintenance_lock_taken;
use crate::run::retirement_order;
use crate::run::status_of;
use crate::run::MigrationRun;
use vstd::prelude::*;

verus! {

/// Where the rollouts of a run come from.
#[derive(Debug)]
pub enum RolloutMigrationPaths {
    /// They are looked for on disk.
    Discover,
    /// They are known.
    Known(Vec<RolloutPath>),
}

/// Something that a run asks for.
#[allow(inconsistent_fields)]
#[derive(Debug)]
pub enum RunAction {
    /// Take the lock that keeps maintenance runs apart.
    TakeMaintenanceLock,
    /// All rollouts on disk.
    Discover,
    /// The threads whose publication is pending.
    PendingThreads,
    /// Read the names that some threads had before.
    ReadNames { thread_ids: Vec<ThreadId> },
    /// Handle one rollout.
    MigratePath { path: RolloutPath },
    /// Tell how far the run has come.
    Progress(RolloutMigrationProgress),
}

/// What a run is told.
#[derive(Debug)]
pub enum RunReply {
    Done,
    /// Whether the lock could be taken.
    Lock(Result<bool, String>),
    Paths(Vec<RolloutPath>),
    Threads(Vec<ThreadId>),
    Outcome(Option<RolloutMigrationOutcome>),
    Rejected(ThreadStoreError),
}

/// A migration run.
#[derive(Debug)]
pub struct RunMigration {
    pub mode: RolloutMigrationMode,
    pub stage: RunStage,
}

/// The steps of a run.
#[allow(inconsistent_fields)]
#[derive(Debug)]
pub enum RunStage {
    Locking { paths: RolloutMigrationPaths },
    Discovering,
    ReadingPending { paths: Vec<RolloutPath> },
    ReadingNames { paths: Vec<RolloutPath> },
    Migrating { paths: Vec<RolloutPath>, run: MigrationRun },
    Reporting { paths: Vec<RolloutPath>, run: MigrationRun },
}

/// Where a run stands: it asks for something, or it has ended.
#[derive(Debug)]
pub enum RunStep {
    Ask(RunMigration, RunAction),
    End(ThreadStoreResult<RolloutMigrationReport>),
}

/// A run by its lists.
#[allow(inconsistent_fields)]
pub enum RunView {
    Locking { known: Option<Seq<RolloutPath>> },
    Discovering,
    ReadingPending { paths: Seq<RolloutPath> },
    ReadingNames { paths: Seq<RolloutPath> },
    Migrating { paths: Seq<RolloutPath>, outcomes: Seq<RolloutMigrationOutcome>, handled: nat },
    Reporting { paths: Seq<RolloutPath>, outcomes: Seq<RolloutMigrationOutcome>, handled: nat },
}

/// The known rollouts, where the rollouts are known.
pub open spec fn known_paths(paths: RolloutMigrationPaths) -> Option<Seq<RolloutPath>> {
    match paths {
        RolloutMigrationPaths::Discover => None,
        RolloutMigrationPaths::Known(paths) => Some(paths@),
    }
}

/// A step by its lists.
pub open spec fn run_stage_view(stage: RunStage) -> RunView {
    match stage {
        RunStage::Locking { paths } => RunView::Locking { known: known_paths(paths) },
        RunStage::Discovering => RunView::Discovering,
        RunStage::ReadingPending { paths } => RunView::ReadingPending { paths: paths@ },
        RunStage::ReadingNames { paths } => RunView::ReadingNames { paths: paths@ },
        RunStage::Migrating { paths, run } => RunView::Migrating {
            paths: paths@,
            outcomes: run.report.outcomes@,
            handled: run.processed_paths as nat,
        },
        RunStage::Reporting { paths, run } => RunView::Reporting {
            paths: paths@,
            outcomes: run.report.outcomes@,
            handled: run.processed_paths as nat,
        },
    }
}

/// What a run asks for, by its lists.
#[allow(inconsistent_fields)]
pub enum RunActionView {
    TakeMaintenanceLock,
    Discover,
    PendingThreads,
    ReadNames { thread_ids: Seq<ThreadId> },
    MigratePath { path: RolloutPath },
    Progress(RolloutMigrationProgress),
}

pub open spec fn run_action_view(action: RunAction) -> RunActionView {
    match action {
        RunAction::TakeMaintenanceLock => RunActionView::TakeMaintenanceLock,
        RunAction::Discover => RunActionView::Discover,
        RunAction::PendingThreads => RunActionView::PendingThreads,
        RunAction::ReadNames { thread_ids } => RunActionView::ReadNames { thread_ids: thread_ids@ },
        RunAction::MigratePath { path } => RunActionView::MigratePath { path },
        RunAction::Progress(progress) => RunActionView::Progress(progress),
    }
}

/// Where a run stands, by its lists.
pub enum RunStepView {
    Ask(RunView, RunActionView),
    End(Result<Seq<RolloutMigrationOutcome>, ErrorView>),
}

/// Where a run stands, by its lists.
pub open spec fn run_step_view(step: RunStep) -> RunStepView {
    match step {
        RunStep::Ask(m, action) => RunStepView::Ask(
            run_stage_view(m.stage),
            run_action_view(action),
        ),
        RunStep::End(Ok(report)) => RunStepView::End(Ok(report.outcomes@)),
        RunStep::End(Err(error)) => RunStepView::End(Err(error@)),
    }
}

/// The threads of some rollouts, by their file names.
pub open spec fn threads_in(paths: Seq<RolloutPath>) -> Seq<ThreadId>
    decreases paths.len(),
{
    if paths.len() == 0 {
        Seq::empty()
    } else {
        let before = threads_in(paths.drop_last());
        match rollout_id_in_path(paths.last()@) {
            Some(id) => before.push(id),
            None => before,
        }
    }
}

/// The threads of some rollouts, by their file names.
pub fn thread_ids_of(paths: &Vec<RolloutPath>) -> (r: Vec<ThreadId>)
    ensures
        r@ == threads_in(paths@),
{
    let mut out: Vec<ThreadId> = Vec::new();
    let mut i: usize = 0;
    assert(paths@.take(0) =~= Seq::<RolloutPath>::empty());
    while i < paths.len()
        invariant
            i <= paths@.len(),
            out@ == threads_in(paths@.take(i as int)),
        decreases paths.len() - i,
    {
        assert(paths@.take(i + 1).drop_last() =~= paths@.take(i as int));
        if let Some(id) = thread_id_from_rollout_filename(&paths[i]) {
            out.push(id);
        }
        i += 1;
    }
    assert(paths@.take(paths@.len() as int) =~= paths@);
    out
}

/// The rollouts in the order in which they are handled, those with an unfinished migration first.
pub open spec fn ordered(paths: Seq<RolloutPath>, pending: Seq<ThreadId>) -> Seq<RolloutPath> {
    paths.filter(|path: RolloutPath| is_pending(path, pending)) + paths.filter(
        |path: RolloutPath| !is_pending(path, pending),
    )
}

/// The run goes on with the rollout at a position, or ends with its report.
pub open spec fn migrating(
    paths: Seq<RolloutPath>,
    outcomes: Seq<RolloutMigrationOutcome>,
    handled: nat,
) -> RunStepView {
    if handled >= paths.len() {
        RunStepView::End(Ok(outcomes))
    } else {
        RunStepView::Ask(
            RunView::Migrating { paths, outcomes, handled },
            RunActionView::MigratePath { path: paths[handled as int] },
        )
    }
}

/// The rollouts of a run are known: where anything is changed, those whose migration was
/// interrupted are asked for.
pub open spec fn paths_known(mode: RolloutMigrationMode, paths: Seq<RolloutPath>) -> RunStepView {
    if mode == RolloutMigrationMode::Apply {
        RunStepView::Ask(RunView::ReadingPending { paths }, RunActionView::PendingThreads)
    } else {
        migrating(paths, Seq::empty(), 0)
    }
}

/// The lock of a run is taken, or not needed.
pub open spec fn locked(
    mode: RolloutMigrationMode,
    known: Option<Seq<RolloutPath>>,
) -> RunStepView {
    match known {
        Some(paths) => paths_known(mode, paths),
        None => RunStepView::Ask(RunView::Discovering, RunActionView::Discover),
    }
}

/// A run, before anything has been asked. Only one that changes anything takes the lock.
pub open spec fn run_begun(
    mode: RolloutMigrationMode,
    known: Option<Seq<RolloutPath>>,
) -> RunStepView {
    if mode == RolloutMigrationMode::Apply {
        RunStepView::Ask(RunView::Locking { known }, RunActionView::TakeMaintenanceLock)
    } else {
        locked(mode, known)
    }
}

/// The error that a reply stands for, where it does not carry a run on.
pub open spec fn run_failure(reply: RunReply) -> ErrorView {
    match reply {
        RunReply::Rejected(error) => error@,
        _ => migration_failure("the reply does not answer the action"@),
    }
}

fn run_error(reply: RunReply) -> (r: ThreadStoreError)
    ensures
        r@ == run_failure(reply),
{
    match reply {
        RunReply::Rejected(error) => error,
        _ => migration_error("the reply does not answer the action"),
    }
}

/// Where a run goes from a reply.
pub open spec fn run_next(
    mode: RolloutMigrationMode,
    stage: RunView,
    reply: RunReply,
) -> RunStepView {
    match (stage, reply) {
        (RunView::Locking { known }, RunReply::Lock(Ok(true))) => locked(mode, known),
        (RunView::Locking { .. }, RunReply::Lock(Ok(false))) => RunStepView::End(
            Err(
                ErrorView::Conflict(
                    "rollout compression or another migration is already running"@,
                ),
            ),
        ),
        (RunView::Locking { .. }, RunReply::Lock(Err(message))) => RunStepView::End(
            Err(migration_failure(message@)),
        ),
        (RunView::Discovering, RunReply::Paths(paths)) => paths_known(mode, paths@),
        (RunView::ReadingPending { paths }, RunReply::Threads(pending)) => {
            let paths = ordered(paths, pending@);
            RunStepView::Ask(
                RunView::ReadingNames { paths },
                RunActionView::ReadNames { thread_ids: threads_in(paths) },
            )
        },
        (RunView::ReadingNames { paths }, RunReply::Done) => migrating(paths, Seq::empty(), 0),
        (RunView::Migrating { paths, outcomes, handled }, RunReply::Outcome(outcome)) => {
            RunStepView::Ask(
                RunView::Reporting {
                    paths,
                    outcomes: match outcome {
                        Some(outcome) => outcomes.push(outcome),
                        None => outcomes,
                    },
                    handled: handled + 1,
                },
                RunActionView::Progress(
                    RolloutMigrationProgress {
                        processed_paths: (handled + 1) as usize,
                        total_paths: paths.len() as usize,
                        outcome_status: status_of(outcome),
                    },
                ),
            )
        },
        (RunView::Reporting { paths, outcomes, handled }, RunReply::Done) => migrating(
            paths,
            outcomes,
            handled,
        ),
        (_, reply) => RunStepView::End(Err(run_failure(reply))),
    }
}

impl RunMigration {
    /// Whether the run knows how many rollouts it has, and has one left where it handles one.
    pub open spec fn wf(self) -> bool {
        match self.stage {
            RunStage::Migrating { paths, run } => run.total_paths == paths@.len()
                && run.processed_paths < run.total_paths,
            RunStage::Reporting { paths, run } => run.total_paths == paths@.len()
                && run.processed_paths <= run.total_paths,
            _ => true,
        }
    }
}

/// Whether a step goes on in the same mode, in good order.
pub open spec fn goes_on(step: RunStep, mode: RolloutMigrationMode) -> bool {
    step matches RunStep::Ask(m, _) ==> m.mode == mode && m.wf()
}

fn migrate(mode: RolloutMigrationMode, paths: Vec<RolloutPath>, run: MigrationRun) -> (r: RunStep)
    requires
        run.total_paths == paths@.len(),
    ensures
        run_step_view(r) == migrating(
            paths@,
            run.report.outcomes@,
            run.processed_paths as nat,
        ),
        goes_on(r, mode),
{
    if run.processed_paths >= paths.len() {
        return RunStep::End(Ok(run.finish()));
    }
    let path: RolloutPath = paths[run.processed_paths].clone();
    RunStep::Ask(
        RunMigration { mode, stage: RunStage::Migrating { paths, run } },
        RunAction::MigratePath { path },
    )
}

fn begin_migrating(mode: RolloutMigrationMode, paths: Vec<RolloutPath>) -> (r: RunStep)
    ensures
        run_step_view(r) == migrating(paths@, Seq::empty(), 0),
        goes_on(r, mode),
{
    let run = MigrationRun::new(paths.len());
    assert(run.report.outcomes@ =~= Seq::<RolloutMigrationOutcome>::empty());
    migrate(mode, paths, run)
}

fn take_paths(mode: RolloutMigrationMode, paths: Vec<RolloutPath>) -> (r: RunStep)
    ensures
        run_step_view(r) == paths_known(mode, paths@),
        goes_on(r, mode),
{
    if mode == RolloutMigrationMode::Apply {
        RunStep::Ask(
            RunMigration { mode, stage: RunStage::ReadingPending { paths } },
            RunAction::PendingThreads,
        )
    } else {
        begin_migrating(mode, paths)
    }
}

fn take_lock(mode: RolloutMigrationMode, paths: RolloutMigrationPaths) -> (r: RunStep)
    ensures
        run_step_view(r) == locked(mode, known_paths(paths)),
        goes_on(r, mode),
{
    match paths {
        RolloutMigrationPaths::Known(paths) => take_paths(mode, paths),
        RolloutMigrationPaths::Discover => RunStep::Ask(
            RunMigration { mode, stage: RunStage::Discovering },
            RunAction::Discover,
        ),
    }
}

impl RunMigration {
    /// Begins a run, with the limiter that it is paced by. A rate that cannot be kept is refused
    /// before anything else.
    pub fn begin(options: &RolloutMigrationOptions, paths: RolloutMigrationPaths) -> (r:
        ThreadStoreResult<(RolloutMigrationRateLimiter, RunStep)>)
        ensures
            match r {
                Ok((limiter, step)) => {
                    &&& run_step_view(step) == run_begun(options.mode, known_paths(paths))
                    &&& goes_on(step, options.mode)
                    &&& limiter.wf() && limiter.bytes_processed == 0
                    &&& limiter.bytes_per_second == match options.max_mib_per_second {
                        Some(rate) => Some((rate * 1048576) as u64),
                        None => None,
                    }
                },
                Err(error) => error@ == ErrorView::InvalidRequest(
                    "--max-mib-per-second must be a positive supported integer"@,
                ),
            },
            r is Err <==> options.max_mib_per_second is Some && (options.max_mib_per_second->0 == 0
                || options.max_mib_per_second->0 * 1048576 > u64::MAX),
    {
        let limiter = match RolloutMigrationRateLimiter::new(options.max_mib_per_second) {
            Ok(limiter) => limiter,
            Err(error) => {
                return Err(error);
            },
        };
        let mode: RolloutMigrationMode = options.mode;
        if mode == RolloutMigrationMode::Apply {
            Ok(
                (
                    limiter,
                    RunStep::Ask(
                        RunMigration { mode, stage: RunStage::Locking { paths } },
                        RunAction::TakeMaintenanceLock,
                    ),
                ),
            )
        } else {
            Ok((limiter, take_lock(mode, paths)))
        }
    }

    /// Carries the run on from a reply.
    pub fn advance(self, reply: RunReply) -> (r: RunStep)
        requires
            self.wf(),
        ensures
            run_step_view(r) == run_next(self.mode, run_stage_view(self.stage), reply),
            goes_on(r, self.mode),
    {
        let mode: RolloutMigrationMode = self.mode;
        match (self.stage, reply) {
            (RunStage::Locking { paths }, RunReply::Lock(lock)) => {
                match maintenance_lock_taken(lock) {
                    Ok(()) => take_lock(mode, paths),
                    Err(error) => RunStep::End(Err(error)),
                }
            },
            (RunStage::Discovering, RunReply::Paths(paths)) => take_paths(mode, paths),
            (RunStage::ReadingPending { paths }, RunReply::Threads(pending)) => {
                let paths: Vec<RolloutPath> = pending_first(&paths, &pending);
                let thread_ids: Vec<ThreadId> = thread_ids_of(&paths);
                RunStep::Ask(
                    RunMigration { mode, stage: RunStage::ReadingNames { paths } },
                    RunAction::ReadNames { thread_ids },
                )
            },
            (RunStage::ReadingNames { paths }, RunReply::Done) => begin_migrating(mode, paths),
            (RunStage::Migrating { paths, run }, RunReply::Outcome(outcome)) => {
                let mut run = run;
                let progress = run.take_outcome(outcome);
                RunStep::Ask(
                    RunMigration { mode, stage: RunStage::Reporting { paths, run } },
                    RunAction::Progress(progress),
                )
            },
            (RunStage::Reporting { paths, run }, RunReply::Done) => migrate(mode, paths, run),
            (_, reply) => RunStep::End(Err(run_error(reply))),
        }
    }
}

/// Something that a retirement pass asks for.
#[derive(Debug)]
pub enum PassAction {
    /// Take the lock that keeps maintenance runs apart.
    TakeMaintenanceLock,
    /// The threads with a retained record.
    RetainedThreads,
    /// Release the preserved source of a thread.
    Retire { thread_id: ThreadId },
}

/// What a retirement pass is told.
#[derive(Debug)]
pub enum PassReply {
    /// Whether the lock could be taken.
    Lock(Result<bool, String>),
    Threads(Vec<ThreadId>),
    Verdict(Option<RetirementVerdict>),
    Rejected(ThreadStoreError),
}

/// A pass over the retained records, once the operator knows that no older writer is left.
#[derive(Debug)]
pub struct RetirementPass {
    pub selected: Vec<ThreadId>,
    pub stage: PassStage,
}

/// The steps of a retirement pass.
#[allow(inconsistent_fields)]
#[derive(Debug)]
pub enum PassStage {
    Locking,
    Listing,
    Retiring { thread_ids: Vec<ThreadId>, index: usize, report: PreservedSourceRetirementReport },
}

/// Where a retirement pass stands: it asks for something, or it has ended.
#[derive(Debug)]
pub enum PassStep {
    Ask(RetirementPass, PassAction),
    End(ThreadStoreResult<PreservedSourceRetirementReport>),
}

/// Whether a step goes on with the thread at a position, or ends with the report.
pub open spec fn pass_at(
    step: PassStep,
    selected: Seq<ThreadId>,
    thread_ids: Seq<ThreadId>,
    index: nat,
    outcomes: Seq<PreservedSourceRetirementOutcome>,
) -> bool {
    if index >= thread_ids.len() {
        step matches PassStep::End(Ok(report)) && report.outcomes@ == outcomes
    } else {
        &&& step matches PassStep::Ask(m, action)
        &&& m.selected@ == selected
        &&& m.stage matches PassStage::Retiring { thread_ids: ids, index: at, report }
        &&& ids@ == thread_ids && at == index && report.outcomes@ == outcomes
        &&& action == (PassAction::Retire { thread_id: thread_ids[index as int] })
    }
}

/// Whether a step ends a pass with an error.
pub open spec fn pass_failed(step: PassStep, error: ErrorView) -> bool {
    step matches PassStep::End(Err(failure)) && failure@ == error
}

/// The receipts of a pass after one more thread.
pub open spec fn receipts_after(
    before: Seq<PreservedSourceRetirementOutcome>,
    verdict: Option<RetirementVerdict>,
    after: Seq<PreservedSourceRetirementOutcome>,
) -> bool {
    match verdict {
        Some(verdict) => {
            &&& after.len() == before.len() + 1
            &&& after.drop_last() == before
            &&& reports_retirement(after.last(), verdict)
        },
        None => after == before,
    }
}

/// Whether the threads of a pass are those with a retained record that are asked for, each once for
/// each record, in the order of their identifiers.
pub open spec fn pass_threads(
    selected: Seq<ThreadId>,
    retained: Seq<ThreadId>,
    thread_ids: Seq<ThreadId>,
) -> bool {
    &&& ascends_by_text(thread_ids)
    &&& thread_ids.to_multiset() == retained.filter(
        |id: ThreadId| selects(selected, Some(id)),
    ).to_multiset()
}

/// Whether a retirement pass may go from a reply to a step.
pub open spec fn pass_steps_to(m: RetirementPass, reply: PassReply, step: PassStep) -> bool {
    match (m.stage, reply) {
        (PassStage::Locking, PassReply::Lock(Ok(true))) => step matches PassStep::Ask(next, action)
            && next.selected@ == m.selected@ && next.stage is Listing && action is RetainedThreads,
        (PassStage::Locking, PassReply::Lock(Ok(false))) => pass_failed(
            step,
            ErrorView::Conflict("rollout compression or another migration is already running"@),
        ),
        (PassStage::Locking, PassReply::Lock(Err(message))) => pass_failed(
            step,
            migration_failure(message@),
        ),
        (PassStage::Listing, PassReply::Threads(retained)) => exists|thread_ids: Seq<ThreadId>|
            #[trigger] pass_threads(m.selected@, retained@, thread_ids) && pass_at(
                step,
                m.selected@,
                thread_ids,
                0,
                Seq::empty(),
            ),
        (PassStage::Retiring { thread_ids, index, report }, PassReply::Verdict(verdict)) => exists|
            outcomes: Seq<PreservedSourceRetirementOutcome>,
        | #[trigger]
            receipts_after(report.outcomes@, verdict, outcomes) && pass_at(
                step,
                m.selected@,
                thread_ids@,
                (index + 1) as nat,
                outcomes,
            ),
        (_, PassReply::Rejected(error)) => pass_failed(step, error@),
        _ => pass_failed(step, migration_failure("the reply does not answer the action"@)),
    }
}

impl RetirementPass {
    /// Whether the pass has a thread left where it handles one.
    pub open spec fn wf(self) -> bool {
        self.stage matches PassStage::Retiring { thread_ids, index, .. } ==> index
            < thread_ids@.len()
    }

    /// Begins a pass over some threads, or over all, with the lock.
    pub fn begin(selected: Vec<ThreadId>) -> (r: PassStep)
        ensures
            r matches PassStep::Ask(m, action) && m.wf() && m.selected@ == selected@
                && m.stage is Locking && action is TakeMaintenanceLock,
    {
        PassStep::Ask(
            RetirementPass { selected, stage: PassStage::Locking },
            PassAction::TakeMaintenanceLock,
        )
    }

    fn retire(
        selected: Vec<ThreadId>,
        thread_ids: Vec<ThreadId>,
        index: usize,
        report: PreservedSourceRetirementReport,
    ) -> (r: PassStep)
        ensures
            pass_at(r, selected@, thread_ids@, index as nat, report.outcomes@),
            r matches PassStep::Ask(m, _) ==> m.wf(),
    {
        if index >= thread_ids.len() {
            return PassStep::End(Ok(report));
        }
        let thread_id: ThreadId = thread_ids[index];
        PassStep::Ask(
            RetirementPass {
                selected,
                stage: PassStage::Retiring { thread_ids, index, report },
            },
            PassAction::Retire { thread_id },
        )
    }

    /// Carries the pass on from a reply.
    pub fn advance(self, reply: PassReply) -> (r: PassStep)
        requires
            self.wf(),
        ensures
            pass_steps_to(self, reply, r),
            r matches PassStep::Ask(m, _) ==> m.wf(),
    {
        let RetirementPass { selected, stage } = self;
        match (stage, reply) {
            (PassStage::Locking, PassReply::Lock(lock)) => match maintenance_lock_taken(lock) {
                Ok(()) => PassStep::Ask(
                    RetirementPass { selected, stage: PassStage::Listing },
                    PassAction::RetainedThreads,
                ),
                Err(error) => PassStep::End(Err(error)),
            },
            (PassStage::Listing, PassReply::Threads(retained)) => {
                let thread_ids: Vec<ThreadId> = retirement_order(&retained, &selected);
                let report = PreservedSourceRetirementReport { outcomes: Vec::new() };
                assert(report.outcomes@ =~= Seq::<PreservedSourceRetirementOutcome>::empty());
                assert(pass_threads(selected@, retained@, thread_ids@));
                Self::retire(selected, thread_ids, 0, report)
            },
            (PassStage::Retiring { thread_ids, index, report }, PassReply::Verdict(verdict)) => {
                let ghost before = report.outcomes@;
                let mut report = report;
                report.take_verdict(verdict);
                assert(receipts_after(before, verdict, report.outcomes@));
                assert(index < thread_ids.len());
                Self::retire(selected, thread_ids, index + 1, report)
            },
            (_, PassReply::Rejected(error)) => PassStep::End(Err(error)),
            _ => PassStep::End(Err(migration_error("the reply does not answer the action"))),
        }
    }
}

/// A dry run takes no lock, looks for no pending publication and reads no name.
pub proof fn dry_runs_take_no_lock(stage: RunView, reply: RunReply, known: Option<Seq<RolloutPath>>)
    requires
        stage !is Locking,
        stage !is ReadingPending,
        stage !is ReadingNames,
    ensures
        ({
            let begun = run_begun(RolloutMigrationMode::DryRun, known);
            let next = run_next(RolloutMigrationMode::DryRun, stage, reply);
            &&& asks_only_to_look(begun)
            &&& asks_only_to_look(next)
        }),
{
}

/// Whether a run goes on without a lock, a pending publication or a name.
pub open spec fn asks_only_to_look(step: RunStepView) -> bool {
    step matches RunStepView::Ask(stage, action) ==> {
        &&& stage !is Locking && stage !is ReadingPending && stage !is ReadingNames
        &&& action !is TakeMaintenanceLock && action !is PendingThreads && action !is ReadNames
    }
}

/// A run handles every rollout once and in order: it never asks for one out of turn, it tells after
/// each how many have been handled, and it ends only when none is left.
pub proof fn runs_handle_every_rollout_in_order(
    mode: RolloutMigrationMode,
    stage: RunView,
    reply: RunReply,
)
    ensures
        run_next(mode, stage, reply) matches RunStepView::Ask(next, action) ==> {
            &&& action matches RunActionView::MigratePath { path } ==> {
                &&& next matches RunView::Migrating { paths, handled, .. } && handled < paths.len()
                    && path == paths[handled as int]
            }
            &&& (stage is Migrating && next is Reporting) ==> {
                &&& next->Reporting_paths == stage->Migrating_paths
                &&& next->Reporting_handled == stage->Migrating_handled + 1
            }
            &&& (stage is Reporting && next is Migrating) ==> {
                &&& next->Migrating_paths == stage->Reporting_paths
                &&& next->Migrating_handled == stage->Reporting_handled
                &&& next->Migrating_outcomes == stage->Reporting_outcomes
            }
        },
        (run_next(mode, stage, reply) matches RunStepView::End(Ok(_)) && stage is Reporting)
            ==> stage->Reporting_handled >= stage->Reporting_paths.len(),
{
}

/// Ordering the rollouts of a run loses none and adds none.
pub proof fn ordering_keeps_every_rollout(paths: Seq<RolloutPath>, pending: Seq<ThreadId>)
    ensures
        ordered(paths, pending).to_multiset() == paths.to_multiset(),
    decreases paths.len(),
{
    let yes = |path: RolloutPath| is_pending(path, pending);
    let no = |path: RolloutPath| !is_pending(path, pending);
    reveal(Seq::filter);
    if paths.len() == 0 {
        assert(ordered(paths, pending) =~= paths);
    } else {
        let rest = paths.drop_last();
        let last = paths.last();
        ordering_keeps_every_rollout(rest, pending);
        let a = rest.filter(yes);
        let b = rest.filter(no);
        vstd::seq_lib::lemma_multiset_commutative(a, b);
        rest.to_multiset_ensures();
        a.to_multiset_ensures();
        b.to_multiset_ensures();
        assert(paths =~= rest.push(last));
        if is_pending(last, pending) {
            assert(paths.filter(yes) =~= a.push(last));
            assert(paths.filter(no) =~= b);
            vstd::seq_lib::lemma_multiset_commutative(a.push(last), b);
            assert(ordered(paths, pending).to_multiset() =~= paths.to_multiset());
        } else {
            assert(paths.filter(yes) =~= a);
            assert(paths.filter(no) =~= b.push(last));
            vstd::seq_lib::lemma_multiset_commutative(a, b.push(last));
            assert(ordered(paths, pending).to_multiset() =~= paths.to_multiset());
        }
    }
}

} // verus!
