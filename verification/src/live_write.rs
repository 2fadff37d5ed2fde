//! How a live recorder is written, flushed and shut down.
//!
//! The index is a view that can be rebuilt. It is brought up to date only after the rollout is
//! durable, so it can lag behind the rollout but never get ahead of it.

use crate::error::ThreadId;
use crate::live_actions::writer_problem_of;
use crate::live_actions::writer_reply_problem;
use crate::live_actions::LiveRecorder;
use crate::live_actions::WriterAction;
use crate::live_actions::WriterProblem;
use crate::live_actions::WriterReply;
use crate::live_actions::WriterStep;
use crate::paths::RolloutPath;
use crate::rollout::ThreadHistoryMode;
use crate::text::texts;
use vstd::prelude::*;

verus! {

/// The modes under which an item is kept on disk.
#[derive(Clone, Copy, Debug, PartialEq, Eq, Structural)]
pub struct PersistedUnder {
    pub legacy: bool,
    pub paginated: bool,
    pub references: bool,
}

impl PersistedUnder {
    /// Whether an item is kept on disk under a mode.
    pub open spec fn keeps(self, history_mode: ThreadHistoryMode) -> bool {
        match history_mode {
            ThreadHistoryMode::Legacy => self.legacy,
            ThreadHistoryMode::Paginated => self.paginated,
            ThreadHistoryMode::PaginatedRefsV1 => self.references,
        }
    }

    /// Whether an item is kept on disk under a mode.
    pub fn is_kept(&self, history_mode: ThreadHistoryMode) -> (r: bool)
        ensures
            r == self.keeps(history_mode),
    {
        match history_mode {
            ThreadHistoryMode::Legacy => self.legacy,
            ThreadHistoryMode::Paginated => self.paginated,
            ThreadHistoryMode::PaginatedRefsV1 => self.references,
        }
    }
}

/// An item to be appended.
#[derive(Debug, PartialEq, Eq)]
pub struct AppendItem {
    pub persisted: PersistedUnder,
    /// The item as JSON.
    pub json: String,
}

/// The JSON of the items that are kept on disk under a mode, in their order.
pub open spec fn kept_items(items: Seq<AppendItem>, history_mode: ThreadHistoryMode) -> Seq<
    Seq<char>,
>
    decreases items.len(),
{
    if items.len() == 0 {
        Seq::empty()
    } else {
        let before = kept_items(items.drop_last(), history_mode);
        if items.last().persisted.keeps(history_mode) {
            before.push(items.last().json@)
        } else {
            before
        }
    }
}

/// The JSON of the items that are kept on disk under a mode, in their order.
pub fn retain_persisted(items: &Vec<AppendItem>, history_mode: ThreadHistoryMode) -> (r: Vec<
    String,
>)
    ensures
        texts(r@) == kept_items(items@, history_mode),
{
    let mut out: Vec<String> = Vec::new();
    let mut i: usize = 0;
    assert(items@.take(0) =~= Seq::<AppendItem>::empty());
    assert(texts(out@) =~= kept_items(items@.take(0), history_mode));
    while i < items.len()
        invariant
            i <= items@.len(),
            texts(out@) == kept_items(items@.take(i as int), history_mode),
        decreases items.len() - i,
    {
        assert(items@.take(i + 1).drop_last() =~= items@.take(i as int));
        if items[i].persisted.is_kept(history_mode) {
            let ghost before = out@;
            let json: String = items[i].json.clone();
            out.push(json);
            assert(texts(out@) =~= texts(before).push(json@));
        }
        i += 1;
    }
    assert(items@.take(items@.len() as int) =~= items@);
    out
}

/// What is written.
///
/// Each write can advance the rollout on disk, so the index is brought up to date after it.
#[derive(Debug)]
pub enum RolloutWriteOp {
    /// Adds records, as turns and events go.
    AppendItems(Vec<AppendItem>),
    /// Makes the thread durable before it has any record but its head.
    Persist,
    /// Writes what the recorder holds and makes it durable.
    Flush,
}

/// Lets the index select the rollout that a recorder writes, where the rollout exists and the
/// index knows the thread. Whatever fails here is passed over.
#[derive(Debug)]
pub struct SyncPath {
    pub thread_id: ThreadId,
    pub rollout_path: RolloutPath,
    pub stage: SyncStage,
}

/// The steps towards an index that selects the rollout.
#[derive(Clone, Copy, Debug, PartialEq, Eq, Structural)]
pub enum SyncStage {
    Finding,
    ReadingIndex,
    Updating,
}

impl SyncPath {
    pub open spec fn ask(self, stage: SyncStage, action: WriterAction) -> WriterStep<SyncPath> {
        WriterStep::Ask(SyncPath { stage, ..self }, action)
    }

    /// The selection, before anything has been asked.
    pub open spec fn begun(self) -> WriterStep<SyncPath> {
        self.ask(SyncStage::Finding, WriterAction::ExistingPath { path: self.rollout_path })
    }

    /// Where the selection goes from a reply.
    pub open spec fn next(self, reply: WriterReply) -> WriterStep<SyncPath> {
        match (self.stage, reply) {
            (SyncStage::Finding, WriterReply::Path(Some(_))) => self.ask(
                SyncStage::ReadingIndex,
                WriterAction::GetSelected { thread_id: self.thread_id },
            ),
            (SyncStage::ReadingIndex, WriterReply::Path(Some(selected))) => if selected@
                != self.rollout_path@ {
                self.ask(
                    SyncStage::Updating,
                    WriterAction::UpdateSelected {
                        thread_id: self.thread_id,
                        path: self.rollout_path,
                    },
                )
            } else {
                WriterStep::End(Ok(()))
            },
            _ => WriterStep::End(Ok(())),
        }
    }

    /// The selection of the rollout that a recorder writes.
    pub fn new(thread_id: ThreadId, rollout_path: &RolloutPath) -> (r: SyncPath)
        ensures
            r == (SyncPath { thread_id, rollout_path: *rollout_path, stage: SyncStage::Finding }),
    {
        SyncPath { thread_id, rollout_path: rollout_path.clone(), stage: SyncStage::Finding }
    }

    fn go(self, stage: SyncStage, action: WriterAction) -> (r: WriterStep<SyncPath>)
        ensures
            r == self.ask(stage, action),
    {
        WriterStep::Ask(SyncPath { stage, ..self }, action)
    }

    /// Begins with the rollout.
    pub fn begin(self) -> (r: WriterStep<SyncPath>)
        ensures
            r == self.begun(),
    {
        let path: RolloutPath = self.rollout_path.clone();
        self.go(SyncStage::Finding, WriterAction::ExistingPath { path })
    }

    /// Carries the selection on from a reply.
    pub fn advance(self, reply: WriterReply) -> (r: WriterStep<SyncPath>)
        ensures
            r == self.next(reply),
    {
        match (self.stage, reply) {
            (SyncStage::Finding, WriterReply::Path(Some(_))) => {
                let thread_id: ThreadId = self.thread_id;
                self.go(SyncStage::ReadingIndex, WriterAction::GetSelected { thread_id })
            },
            (SyncStage::ReadingIndex, WriterReply::Path(Some(selected))) => {
                if selected.same(&self.rollout_path) {
                    WriterStep::End(Ok(()))
                } else {
                    let thread_id: ThreadId = self.thread_id;
                    let path: RolloutPath = self.rollout_path.clone();
                    self.go(
                        SyncStage::Updating,
                        WriterAction::UpdateSelected { thread_id, path },
                    )
                }
            },
            _ => WriterStep::End(Ok(())),
        }
    }
}

/// One write of a live recorder.
#[derive(Debug)]
pub struct WriteAndProject {
    pub thread_id: ThreadId,
    pub op: RolloutWriteOp,
    pub stage: WriteStage,
}

/// The steps of a write.
#[derive(Debug)]
pub enum WriteStage {
    LockingLive,
    FindingRecorder,
    CheckingBefore { recorder: LiveRecorder, items: Vec<String> },
    Recording(LiveRecorder),
    Writing(LiveRecorder),
    CheckingAfter(LiveRecorder),
    Projecting(LiveRecorder),
    Syncing(SyncPath),
}

impl WriteAndProject {
    pub open spec fn ask(self, stage: WriteStage, action: WriterAction) -> WriterStep<
        WriteAndProject,
    > {
        WriterStep::Ask(WriteAndProject { stage, ..self }, action)
    }

    /// The write, before anything has been asked.
    pub open spec fn begun(self) -> WriterStep<WriteAndProject> {
        self.ask(WriteStage::LockingLive, WriterAction::LockLive { thread_id: self.thread_id })
    }

    /// The write itself: items are handed over and then flushed.
    pub open spec fn writing(self, recorder: LiveRecorder, items: Vec<String>) -> WriterStep<
        WriteAndProject,
    > {
        match self.op {
            RolloutWriteOp::AppendItems(_) => self.ask(
                WriteStage::Recording(recorder),
                WriterAction::Record { items },
            ),
            RolloutWriteOp::Persist => self.ask(
                WriteStage::Writing(recorder),
                WriterAction::Persist,
            ),
            RolloutWriteOp::Flush => self.ask(WriteStage::Writing(recorder), WriterAction::Flush),
        }
    }

    /// A write that may go on: a migrated rollout is checked first.
    pub open spec fn checking(self, recorder: LiveRecorder, items: Vec<String>) -> WriterStep<
        WriteAndProject,
    > {
        if recorder.history_mode == ThreadHistoryMode::PaginatedRefsV1 {
            self.ask(
                WriteStage::CheckingBefore { recorder, items },
                WriterAction::EnsureWritable {
                    thread_id: self.thread_id,
                    path: recorder.rollout_path,
                },
            )
        } else {
            self.writing(recorder, items)
        }
    }

    pub open spec fn projecting(self, recorder: LiveRecorder) -> WriterStep<WriteAndProject> {
        self.ask(
            WriteStage::Projecting(recorder),
            WriterAction::Materialize {
                rollout_id: recorder.rollout_id,
                path: recorder.rollout_path,
            },
        )
    }

    /// The selection of the rollout, as part of the write.
    pub open spec fn syncing(self, step: WriterStep<SyncPath>) -> WriterStep<WriteAndProject> {
        match step {
            WriterStep::Ask(sync, action) => self.ask(WriteStage::Syncing(sync), action),
            WriterStep::End(result) => WriterStep::End(result),
        }
    }

    /// A write that is durable and indexed. After an append the index keeps the path it has.
    pub open spec fn written(self, recorder: LiveRecorder) -> WriterStep<WriteAndProject> {
        if self.op is AppendItems {
            WriterStep::End(Ok(()))
        } else {
            self.syncing(
                SyncPath {
                    thread_id: self.thread_id,
                    rollout_path: recorder.rollout_path,
                    stage: SyncStage::Finding,
                }.begun(),
            )
        }
    }

    /// A write that is durable.
    pub open spec fn durable(self, recorder: LiveRecorder) -> WriterStep<WriteAndProject> {
        match recorder.history_mode {
            ThreadHistoryMode::Legacy => self.written(recorder),
            ThreadHistoryMode::Paginated => self.projecting(recorder),
            ThreadHistoryMode::PaginatedRefsV1 => self.ask(
                WriteStage::CheckingAfter(recorder),
                WriterAction::EnsureWritable {
                    thread_id: self.thread_id,
                    path: recorder.rollout_path,
                },
            ),
        }
    }

    /// Whether a step is the one that a live recorder calls for. Of the items that are appended
    /// only those go on that are kept on disk, and where none is, nothing is written.
    pub open spec fn recorder_found(
        self,
        recorder: LiveRecorder,
        step: WriterStep<WriteAndProject>,
    ) -> bool {
        match self.op {
            RolloutWriteOp::AppendItems(items) => {
                let kept = kept_items(items@, recorder.history_mode);
                if kept.len() == 0 {
                    step == WriterStep::<WriteAndProject>::End(Ok(()))
                } else {
                    exists|items: Vec<String>| #[trigger]
                        texts(items@) == kept && step == self.checking(recorder, items)
                }
            },
            _ => exists|items: Vec<String>| #[trigger]
                texts(items@) == Seq::<Seq<char>>::empty() && step == self.checking(
                    recorder,
                    items,
                ),
        }
    }

    /// Where the write goes from a reply, but for the live recorder.
    pub open spec fn next(self, reply: WriterReply) -> WriterStep<WriteAndProject> {
        match (self.stage, reply) {
            (WriteStage::LockingLive, WriterReply::Done) => self.ask(
                WriteStage::FindingRecorder,
                WriterAction::GetRecorder { thread_id: self.thread_id },
            ),
            (WriteStage::FindingRecorder, WriterReply::Recorder(None)) => WriterStep::End(
                Err(WriterProblem::NotLive { thread_id: self.thread_id }),
            ),
            (WriteStage::CheckingBefore { recorder, items }, WriterReply::Done) => self.writing(
                recorder,
                items,
            ),
            (WriteStage::Recording(recorder), WriterReply::Done) => self.ask(
                WriteStage::Writing(recorder),
                WriterAction::Flush,
            ),
            (WriteStage::Writing(recorder), WriterReply::Done) => self.durable(recorder),
            (WriteStage::CheckingAfter(recorder), WriterReply::Done) => self.projecting(recorder),
            (WriteStage::Projecting(recorder), _) => self.written(recorder),
            (WriteStage::Syncing(sync), reply) => self.syncing(sync.next(reply)),
            (_, reply) => WriterStep::End(Err(writer_reply_problem(reply))),
        }
    }

    /// Whether the write may go from a reply to a step.
    pub open spec fn steps_to(self, reply: WriterReply, step: WriterStep<WriteAndProject>) -> bool {
        match (self.stage, reply) {
            (WriteStage::FindingRecorder, WriterReply::Recorder(Some(recorder))) => {
                self.recorder_found(recorder, step)
            },
            _ => step == self.next(reply),
        }
    }
}

impl WriteAndProject {
    /// A write of a live recorder.
    pub fn new(thread_id: ThreadId, op: RolloutWriteOp) -> (r: WriteAndProject)
        ensures
            r.thread_id == thread_id,
            r.op == op,
            r.stage is LockingLive,
    {
        WriteAndProject { thread_id, op, stage: WriteStage::LockingLive }
    }

    fn go(self, stage: WriteStage, action: WriterAction) -> (r: WriterStep<WriteAndProject>)
        ensures
            r == self.ask(stage, action),
    {
        WriterStep::Ask(WriteAndProject { stage, ..self }, action)
    }

    /// Begins with the live writer lock.
    pub fn begin(self) -> (r: WriterStep<WriteAndProject>)
        ensures
            r == self.begun(),
    {
        let thread_id: ThreadId = self.thread_id;
        self.go(WriteStage::LockingLive, WriterAction::LockLive { thread_id })
    }

    fn write(self, recorder: LiveRecorder, items: Vec<String>) -> (r: WriterStep<WriteAndProject>)
        ensures
            r == self.writing(recorder, items),
    {
        match &self.op {
            RolloutWriteOp::AppendItems(_) => self.go(
                WriteStage::Recording(recorder),
                WriterAction::Record { items },
            ),
            RolloutWriteOp::Persist => self.go(
                WriteStage::Writing(recorder),
                WriterAction::Persist,
            ),
            RolloutWriteOp::Flush => self.go(WriteStage::Writing(recorder), WriterAction::Flush),
        }
    }

    fn check(self, recorder: LiveRecorder, items: Vec<String>) -> (r: WriterStep<WriteAndProject>)
        ensures
            r == self.checking(recorder, items),
    {
        if recorder.history_mode == ThreadHistoryMode::PaginatedRefsV1 {
            let action = WriterAction::EnsureWritable {
                thread_id: self.thread_id,
                path: recorder.rollout_path.clone(),
            };
            self.go(WriteStage::CheckingBefore { recorder, items }, action)
        } else {
            self.write(recorder, items)
        }
    }

    fn project(self, recorder: LiveRecorder) -> (r: WriterStep<WriteAndProject>)
        ensures
            r == self.projecting(recorder),
    {
        let action = WriterAction::Materialize {
            rollout_id: recorder.rollout_id,
            path: recorder.rollout_path.clone(),
        };
        self.go(WriteStage::Projecting(recorder), action)
    }

    fn sync(self, step: WriterStep<SyncPath>) -> (r: WriterStep<WriteAndProject>)
        ensures
            r == self.syncing(step),
    {
        match step {
            WriterStep::Ask(sync, action) => self.go(WriteStage::Syncing(sync), action),
            WriterStep::End(result) => WriterStep::End(result),
        }
    }

    fn finish(self, recorder: LiveRecorder) -> (r: WriterStep<WriteAndProject>)
        ensures
            r == self.written(recorder),
    {
        match &self.op {
            RolloutWriteOp::AppendItems(_) => {
                return WriterStep::End(Ok(()));
            },
            _ => {},
        }
        let sync = SyncPath::new(self.thread_id, &recorder.rollout_path);
        self.sync(sync.begin())
    }

    fn take_durable(self, recorder: LiveRecorder) -> (r: WriterStep<WriteAndProject>)
        ensures
            r == self.durable(recorder),
    {
        match recorder.history_mode {
            ThreadHistoryMode::Legacy => self.finish(recorder),
            ThreadHistoryMode::Paginated => self.project(recorder),
            ThreadHistoryMode::PaginatedRefsV1 => {
                let action = WriterAction::EnsureWritable {
                    thread_id: self.thread_id,
                    path: recorder.rollout_path.clone(),
                };
                self.go(WriteStage::CheckingAfter(recorder), action)
            },
        }
    }

    fn take_recorder(self, recorder: LiveRecorder) -> (r: WriterStep<WriteAndProject>)
        ensures
            self.recorder_found(recorder, r),
    {
        let appended: Option<Vec<String>> = match &self.op {
            RolloutWriteOp::AppendItems(items) => {
                let kept: Vec<String> = retain_persisted(items, recorder.history_mode);
                assert(texts(kept@).len() == kept@.len());
                Some(kept)
            },
            _ => None,
        };
        match appended {
            Some(kept) => {
                if kept.len() == 0 {
                    return WriterStep::End(Ok(()));
                }
                self.check(recorder, kept)
            },
            None => {
                let none: Vec<String> = Vec::new();
                assert(texts(none@) =~= Seq::<Seq<char>>::empty());
                self.check(recorder, none)
            },
        }
    }

    /// Carries the write on from a reply.
    #[verifier::rlimit(30)]
    pub fn advance(self, reply: WriterReply) -> (r: WriterStep<WriteAndProject>)
        ensures
            self.steps_to(reply, r),
    {
        let WriteAndProject { thread_id, op, stage } = self;
        let this = WriteAndProject { thread_id, op, stage: WriteStage::LockingLive };
        match (stage, reply) {
            (WriteStage::LockingLive, WriterReply::Done) => this.go(
                WriteStage::FindingRecorder,
                WriterAction::GetRecorder { thread_id },
            ),
            (WriteStage::FindingRecorder, WriterReply::Recorder(None)) => WriterStep::End(
                Err(WriterProblem::NotLive { thread_id }),
            ),
            (WriteStage::FindingRecorder, WriterReply::Recorder(Some(recorder))) => {
                this.take_recorder(recorder)
            },
            (WriteStage::CheckingBefore { recorder, items }, WriterReply::Done) => this.write(
                recorder,
                items,
            ),
            (WriteStage::Recording(recorder), WriterReply::Done) => this.go(
                WriteStage::Writing(recorder),
                WriterAction::Flush,
            ),
            (WriteStage::Writing(recorder), WriterReply::Done) => this.take_durable(recorder),
            (WriteStage::CheckingAfter(recorder), WriterReply::Done) => this.project(recorder),
            (WriteStage::Projecting(recorder), _) => this.finish(recorder),
            (WriteStage::Syncing(sync), reply) => this.sync(sync.advance(reply)),
            (_, reply) => WriterStep::End(Err(writer_problem_of(reply))),
        }
    }
}

/// The history of a rollout is indexed only after the write is durable: the flush of an append,
/// or the write itself, has succeeded before. For a migrated rollout it has been found writable
/// once more in between.
pub proof fn projection_never_gets_ahead_of_the_rollout(
    m: WriteAndProject,
    reply: WriterReply,
    step: WriterStep<WriteAndProject>,
)
    requires
        m.steps_to(reply, step),
    ensures
        step matches WriterStep::Ask(next, action) ==> {
            &&& next.thread_id == m.thread_id && next.op == m.op
            &&& action matches WriterAction::Materialize { rollout_id, path } ==> {
                &&& reply is Done
                &&& m.stage matches WriteStage::Writing(recorder) ==> recorder.history_mode
                    == ThreadHistoryMode::Paginated
                &&& m.stage is Writing || m.stage is CheckingAfter
            }
            &&& next.stage is CheckingAfter ==> m.stage is Writing && reply is Done
            &&& next.stage is Writing ==> action is Flush || action is Persist
            &&& m.stage is Recording && next.stage is Writing ==> action is Flush
        },
{
}

/// Nothing is written to a migrated rollout before it has been found writable.
pub proof fn migrated_rollouts_are_checked_before_each_write(
    m: WriteAndProject,
    reply: WriterReply,
    step: WriterStep<WriteAndProject>,
)
    requires
        m.steps_to(reply, step),
    ensures
        step matches WriterStep::Ask(next, action) ==> {
            &&& action is Record ==> next.stage is Recording
            &&& (next.stage is Recording && next.stage->Recording_0.history_mode
                == ThreadHistoryMode::PaginatedRefsV1) ==> m.stage is CheckingBefore
                && reply is Done
            &&& (next.stage is Writing && next.stage->Writing_0.history_mode
                == ThreadHistoryMode::PaginatedRefsV1) ==> (m.stage is CheckingBefore
                || m.stage is Recording) && reply is Done
        },
{
}

/// An append writes exactly the items that are kept on disk, in their order, and touches nothing
/// where there are none.
pub proof fn appends_write_what_is_kept(
    m: WriteAndProject,
    recorder: LiveRecorder,
    step: WriterStep<WriteAndProject>,
)
    requires
        m.stage is FindingRecorder,
        m.op is AppendItems,
        m.steps_to(WriterReply::Recorder(Some(recorder)), step),
    ensures
        ({
            let kept = kept_items(m.op->AppendItems_0@, recorder.history_mode);
            &&& step is End <==> kept.len() == 0
            &&& step matches WriterStep::Ask(next, action) ==> {
                ||| next.stage is Recording && action is Record && texts(action->Record_items@)
                    == kept
                ||| next.stage is CheckingBefore && texts(next.stage->CheckingBefore_items@)
                    == kept
            }
        }),
{
}

} // verus!
