//! How a live recorder is shut down or discarded.

use crate::error::ThreadId;
use crate::error::ThreadStoreError;
use crate::live_actions::writer_problem_of;
use crate::live_actions::writer_reply_problem;
use crate::live_actions::LiveRecorder;
use crate::live_actions::WriterAction;
use crate::live_actions::WriterProblem;
use crate::live_actions::WriterReply;
use crate::live_actions::WriterStep;
use crate::live_write::SyncPath;
use crate::live_write::SyncStage;
use crate::paths::RolloutPath;
use crate::rollout::ThreadHistoryMode;
use vstd::prelude::*;

verus! {

/// The shutdown of a live recorder.
#[derive(Debug)]
pub struct ShutdownThread {
    pub thread_id: ThreadId,
    pub stage: ShutdownStage,
}

/// A recorder that has been shut down, with what the last look at a migrated rollout came to.
#[derive(Debug)]
pub struct Closed {
    pub rollout_path: RolloutPath,
    pub check: Option<ThreadStoreError>,
}

/// The steps of a shutdown.
#[allow(inconsistent_fields)]
#[derive(Debug)]
pub enum ShutdownStage {
    LockingPending,
    LockingLive,
    FindingRecorder,
    CheckingBefore(LiveRecorder),
    ShuttingDown(LiveRecorder),
    CheckingAfter(LiveRecorder),
    Projecting(Closed),
    Syncing { sync: SyncPath, closed: Closed },
    CheckingExists(Closed),
    Removing { closed: Closed, exists: bool },
    Unlocking { closed: Closed, exists: bool },
    TakingPending(Closed),
    RemovingPending(Closed),
}

impl ShutdownThread {
    pub open spec fn ask(self, stage: ShutdownStage, action: WriterAction) -> WriterStep<
        ShutdownThread,
    > {
        WriterStep::Ask(ShutdownThread { stage, ..self }, action)
    }

    /// The shutdown, before anything has been asked.
    pub open spec fn begun(self) -> WriterStep<ShutdownThread> {
        self.ask(
            ShutdownStage::LockingPending,
            WriterAction::LockPendingMetadata { thread_id: self.thread_id },
        )
    }

    pub open spec fn shutting_down(self, recorder: LiveRecorder) -> WriterStep<ShutdownThread> {
        self.ask(ShutdownStage::ShuttingDown(recorder), WriterAction::Shutdown)
    }

    /// The selection of the rollout, as part of the shutdown.
    pub open spec fn syncing(self, closed: Closed, step: WriterStep<SyncPath>) -> WriterStep<
        ShutdownThread,
    > {
        match step {
            WriterStep::Ask(sync, action) => self.ask(
                ShutdownStage::Syncing { sync, closed },
                action,
            ),
            WriterStep::End(_) => self.ask(
                ShutdownStage::CheckingExists(closed),
                WriterAction::Exists { path: closed.rollout_path },
            ),
        }
    }

    pub open spec fn sync_begun(self, closed: Closed) -> WriterStep<ShutdownThread> {
        self.syncing(
            closed,
            SyncPath {
                thread_id: self.thread_id,
                rollout_path: closed.rollout_path,
                stage: SyncStage::Finding,
            }.begun(),
        )
    }

    /// A recorder that is down. Its history is indexed, unless it is legacy or the rollout has
    /// been found not to be writable.
    pub open spec fn down(self, recorder: LiveRecorder, check: Option<ThreadStoreError>) ->
        WriterStep<ShutdownThread> {
        let closed = Closed { rollout_path: recorder.rollout_path, check };
        if recorder.history_mode != ThreadHistoryMode::Legacy && check is None {
            self.ask(
                ShutdownStage::Projecting(closed),
                WriterAction::Materialize {
                    rollout_id: recorder.rollout_id,
                    path: recorder.rollout_path,
                },
            )
        } else {
            self.sync_begun(closed)
        }
    }

    pub open spec fn removing(self, closed: Closed, exists: bool) -> WriterStep<ShutdownThread> {
        self.ask(
            ShutdownStage::Removing { closed, exists },
            WriterAction::RemoveRecorder { thread_id: self.thread_id },
        )
    }

    /// The end of a shutdown.
    pub open spec fn ended(self, closed: Closed) -> WriterStep<ShutdownThread> {
        match closed.check {
            None => WriterStep::End(Ok(())),
            Some(error) => WriterStep::End(Err(WriterProblem::Rejected(error))),
        }
    }

    /// Where the shutdown goes from a reply.
    pub open spec fn next(self, reply: WriterReply) -> WriterStep<ShutdownThread> {
        match (self.stage, reply) {
            (ShutdownStage::LockingPending, WriterReply::Done) => self.ask(
                ShutdownStage::LockingLive,
                WriterAction::LockLive { thread_id: self.thread_id },
            ),
            (ShutdownStage::LockingLive, WriterReply::Done) => self.ask(
                ShutdownStage::FindingRecorder,
                WriterAction::GetRecorder { thread_id: self.thread_id },
            ),
            (ShutdownStage::FindingRecorder, WriterReply::Recorder(None)) => WriterStep::End(
                Err(WriterProblem::NotLive { thread_id: self.thread_id }),
            ),
            (ShutdownStage::FindingRecorder, WriterReply::Recorder(Some(recorder))) => {
                if recorder.history_mode == ThreadHistoryMode::PaginatedRefsV1 {
                    self.ask(
                        ShutdownStage::CheckingBefore(recorder),
                        WriterAction::EnsureWritable {
                            thread_id: self.thread_id,
                            path: recorder.rollout_path,
                        },
                    )
                } else {
                    self.shutting_down(recorder)
                }
            },
            (ShutdownStage::CheckingBefore(recorder), WriterReply::Done) => self.shutting_down(
                recorder,
            ),
            (ShutdownStage::ShuttingDown(recorder), WriterReply::Done) => {
                if recorder.history_mode == ThreadHistoryMode::PaginatedRefsV1 {
                    self.ask(
                        ShutdownStage::CheckingAfter(recorder),
                        WriterAction::EnsureWritable {
                            thread_id: self.thread_id,
                            path: recorder.rollout_path,
                        },
                    )
                } else {
                    self.down(recorder, None)
                }
            },
            (ShutdownStage::CheckingAfter(recorder), WriterReply::Done) => self.down(
                recorder,
                None,
            ),
            (ShutdownStage::CheckingAfter(recorder), WriterReply::Rejected(error)) => self.down(
                recorder,
                Some(error),
            ),
            (ShutdownStage::Projecting(closed), _) => self.sync_begun(closed),
            (ShutdownStage::Syncing { sync, closed }, reply) => self.syncing(
                closed,
                sync.next(reply),
            ),
            (ShutdownStage::CheckingExists(closed), WriterReply::Answer(exists)) => self.removing(
                closed,
                exists,
            ),
            (ShutdownStage::CheckingExists(closed), _) => self.removing(closed, true),
            (ShutdownStage::Removing { closed, exists }, _) => self.ask(
                ShutdownStage::Unlocking { closed, exists },
                WriterAction::UnlockLive,
            ),
            (ShutdownStage::Unlocking { closed, exists }, _) => if exists {
                self.ended(closed)
            } else {
                self.ask(
                    ShutdownStage::TakingPending(closed),
                    WriterAction::TakePendingMetadata,
                )
            },
            (ShutdownStage::TakingPending(closed), WriterReply::Answer(true)) => self.ask(
                ShutdownStage::RemovingPending(closed),
                WriterAction::RemovePendingMetadata { thread_id: self.thread_id },
            ),
            (ShutdownStage::TakingPending(closed), _) => self.ended(closed),
            (ShutdownStage::RemovingPending(closed), _) => self.ended(closed),
            (_, reply) => WriterStep::End(Err(writer_reply_problem(reply))),
        }
    }
}

impl ShutdownThread {
    /// The shutdown of the recorder of a thread.
    pub fn new(thread_id: ThreadId) -> (r: ShutdownThread)
        ensures
            r.thread_id == thread_id,
            r.stage is LockingPending,
    {
        ShutdownThread { thread_id, stage: ShutdownStage::LockingPending }
    }

    fn go(self, stage: ShutdownStage, action: WriterAction) -> (r: WriterStep<ShutdownThread>)
        ensures
            r == self.ask(stage, action),
    {
        WriterStep::Ask(ShutdownThread { thread_id: self.thread_id, stage }, action)
    }

    /// Begins with the lock on the pending metadata.
    pub fn begin(self) -> (r: WriterStep<ShutdownThread>)
        ensures
            r == self.begun(),
    {
        let thread_id: ThreadId = self.thread_id;
        self.go(ShutdownStage::LockingPending, WriterAction::LockPendingMetadata { thread_id })
    }

    fn shut_down(self, recorder: LiveRecorder) -> (r: WriterStep<ShutdownThread>)
        ensures
            r == self.shutting_down(recorder),
    {
        self.go(ShutdownStage::ShuttingDown(recorder), WriterAction::Shutdown)
    }

    fn sync(self, closed: Closed, step: WriterStep<SyncPath>) -> (r: WriterStep<ShutdownThread>)
        ensures
            r == self.syncing(closed, step),
    {
        match step {
            WriterStep::Ask(sync, action) => self.go(
                ShutdownStage::Syncing { sync, closed },
                action,
            ),
            WriterStep::End(_) => {
                let path: RolloutPath = closed.rollout_path.clone();
                self.go(ShutdownStage::CheckingExists(closed), WriterAction::Exists { path })
            },
        }
    }

    fn begin_sync(self, closed: Closed) -> (r: WriterStep<ShutdownThread>)
        ensures
            r == self.sync_begun(closed),
    {
        let sync = SyncPath::new(self.thread_id, &closed.rollout_path);
        self.sync(closed, sync.begin())
    }

    fn take_down(self, recorder: LiveRecorder, check: Option<ThreadStoreError>) -> (r: WriterStep<
        ShutdownThread,
    >)
        ensures
            r == self.down(recorder, check),
    {
        let LiveRecorder { rollout_path, rollout_id, history_mode } = recorder;
        let intact: bool = check.is_none();
        let path: RolloutPath = rollout_path.clone();
        let closed = Closed { rollout_path, check };
        if history_mode != ThreadHistoryMode::Legacy && intact {
            self.go(
                ShutdownStage::Projecting(closed),
                WriterAction::Materialize { rollout_id, path },
            )
        } else {
            self.begin_sync(closed)
        }
    }

    fn remove(self, closed: Closed, exists: bool) -> (r: WriterStep<ShutdownThread>)
        ensures
            r == self.removing(closed, exists),
    {
        let thread_id: ThreadId = self.thread_id;
        self.go(
            ShutdownStage::Removing { closed, exists },
            WriterAction::RemoveRecorder { thread_id },
        )
    }

    fn end(self, closed: Closed) -> (r: WriterStep<ShutdownThread>)
        ensures
            r == self.ended(closed),
    {
        match closed.check {
            None => WriterStep::End(Ok(())),
            Some(error) => WriterStep::End(Err(WriterProblem::Rejected(error))),
        }
    }

    /// Carries the shutdown on from a reply.
    #[verifier::rlimit(30)]
    pub fn advance(self, reply: WriterReply) -> (r: WriterStep<ShutdownThread>)
        ensures
            r == self.next(reply),
    {
        let ShutdownThread { thread_id, stage } = self;
        let this = ShutdownThread { thread_id, stage: ShutdownStage::LockingPending };
        match (stage, reply) {
            (ShutdownStage::LockingPending, WriterReply::Done) => this.go(
                ShutdownStage::LockingLive,
                WriterAction::LockLive { thread_id },
            ),
            (ShutdownStage::LockingLive, WriterReply::Done) => this.go(
                ShutdownStage::FindingRecorder,
                WriterAction::GetRecorder { thread_id },
            ),
            (ShutdownStage::FindingRecorder, WriterReply::Recorder(None)) => WriterStep::End(
                Err(WriterProblem::NotLive { thread_id }),
            ),
            (ShutdownStage::FindingRecorder, WriterReply::Recorder(Some(recorder))) => {
                if recorder.history_mode == ThreadHistoryMode::PaginatedRefsV1 {
                    let path: RolloutPath = recorder.rollout_path.clone();
                    this.go(
                        ShutdownStage::CheckingBefore(recorder),
                        WriterAction::EnsureWritable { thread_id, path },
                    )
                } else {
                    this.shut_down(recorder)
                }
            },
            (ShutdownStage::CheckingBefore(recorder), WriterReply::Done) => this.shut_down(
                recorder,
            ),
            (ShutdownStage::ShuttingDown(recorder), WriterReply::Done) => {
                if recorder.history_mode == ThreadHistoryMode::PaginatedRefsV1 {
                    let path: RolloutPath = recorder.rollout_path.clone();
                    this.go(
                        ShutdownStage::CheckingAfter(recorder),
                        WriterAction::EnsureWritable { thread_id, path },
                    )
                } else {
                    this.take_down(recorder, None)
                }
            },
            (ShutdownStage::CheckingAfter(recorder), WriterReply::Done) => this.take_down(
                recorder,
                None,
            ),
            (ShutdownStage::CheckingAfter(recorder), WriterReply::Rejected(error)) => {
                this.take_down(recorder, Some(error))
            },
            (ShutdownStage::Projecting(closed), _) => this.begin_sync(closed),
            (ShutdownStage::Syncing { sync, closed }, reply) => this.sync(
                closed,
                sync.advance(reply),
            ),
            (ShutdownStage::CheckingExists(closed), WriterReply::Answer(exists)) => this.remove(
                closed,
                exists,
            ),
            (ShutdownStage::CheckingExists(closed), _) => this.remove(closed, true),
            (ShutdownStage::Removing { closed, exists }, _) => this.go(
                ShutdownStage::Unlocking { closed, exists },
                WriterAction::UnlockLive,
            ),
            (ShutdownStage::Unlocking { closed, exists }, _) => {
                if exists {
                    this.end(closed)
                } else {
                    this.go(
                        ShutdownStage::TakingPending(closed),
                        WriterAction::TakePendingMetadata,
                    )
                }
            },
            (ShutdownStage::TakingPending(closed), WriterReply::Answer(true)) => this.go(
                ShutdownStage::RemovingPending(closed),
                WriterAction::RemovePendingMetadata { thread_id },
            ),
            (ShutdownStage::TakingPending(closed), _) => this.end(closed),
            (ShutdownStage::RemovingPending(closed), _) => this.end(closed),
            (_, reply) => WriterStep::End(Err(writer_problem_of(reply))),
        }
    }
}

/// The discarding of a live recorder, with whatever it has not written.
#[derive(Debug)]
pub struct DiscardThread {
    pub thread_id: ThreadId,
    pub stage: DiscardStage,
}

/// The steps of a discarding.
#[derive(Clone, Copy, Debug, PartialEq, Eq, Structural)]
pub enum DiscardStage {
    LockingPending,
    LockingLive,
    TakingPending,
    RemovingPending,
    Removing,
}

impl DiscardThread {
    pub open spec fn ask(self, stage: DiscardStage, action: WriterAction) -> WriterStep<
        DiscardThread,
    > {
        WriterStep::Ask(DiscardThread { stage, ..self }, action)
    }

    /// The discarding, before anything has been asked.
    pub open spec fn begun(self) -> WriterStep<DiscardThread> {
        self.ask(
            DiscardStage::LockingPending,
            WriterAction::LockPendingMetadata { thread_id: self.thread_id },
        )
    }

    pub open spec fn removing(self) -> WriterStep<DiscardThread> {
        self.ask(
            DiscardStage::Removing,
            WriterAction::RemoveRecorder { thread_id: self.thread_id },
        )
    }

    /// Where the discarding goes from a reply.
    pub open spec fn next(self, reply: WriterReply) -> WriterStep<DiscardThread> {
        match (self.stage, reply) {
            (DiscardStage::LockingPending, WriterReply::Done) => self.ask(
                DiscardStage::LockingLive,
                WriterAction::LockLive { thread_id: self.thread_id },
            ),
            (DiscardStage::LockingLive, WriterReply::Done) => self.ask(
                DiscardStage::TakingPending,
                WriterAction::TakePendingMetadata,
            ),
            (DiscardStage::TakingPending, WriterReply::Answer(taken)) => if taken {
                self.ask(
                    DiscardStage::RemovingPending,
                    WriterAction::RemovePendingMetadata { thread_id: self.thread_id },
                )
            } else {
                self.removing()
            },
            (DiscardStage::RemovingPending, WriterReply::Done) => self.removing(),
            (DiscardStage::Removing, WriterReply::Answer(true)) => WriterStep::End(Ok(())),
            (DiscardStage::Removing, WriterReply::Answer(false)) => WriterStep::End(
                Err(WriterProblem::NotLive { thread_id: self.thread_id }),
            ),
            (_, reply) => WriterStep::End(Err(writer_reply_problem(reply))),
        }
    }

    /// The discarding of the recorder of a thread.
    pub fn new(thread_id: ThreadId) -> (r: DiscardThread)
        ensures
            r.thread_id == thread_id,
            r.stage is LockingPending,
    {
        DiscardThread { thread_id, stage: DiscardStage::LockingPending }
    }

    fn go(self, stage: DiscardStage, action: WriterAction) -> (r: WriterStep<DiscardThread>)
        ensures
            r == self.ask(stage, action),
    {
        WriterStep::Ask(DiscardThread { thread_id: self.thread_id, stage }, action)
    }

    /// Begins with the lock on the pending metadata.
    pub fn begin(self) -> (r: WriterStep<DiscardThread>)
        ensures
            r == self.begun(),
    {
        let thread_id: ThreadId = self.thread_id;
        self.go(DiscardStage::LockingPending, WriterAction::LockPendingMetadata { thread_id })
    }

    fn remove(self) -> (r: WriterStep<DiscardThread>)
        ensures
            r == self.removing(),
    {
        let thread_id: ThreadId = self.thread_id;
        self.go(DiscardStage::Removing, WriterAction::RemoveRecorder { thread_id })
    }

    /// Carries the discarding on from a reply.
    pub fn advance(self, reply: WriterReply) -> (r: WriterStep<DiscardThread>)
        ensures
            r == self.next(reply),
    {
        let thread_id: ThreadId = self.thread_id;
        match (self.stage, reply) {
            (DiscardStage::LockingPending, WriterReply::Done) => self.go(
                DiscardStage::LockingLive,
                WriterAction::LockLive { thread_id },
            ),
            (DiscardStage::LockingLive, WriterReply::Done) => self.go(
                DiscardStage::TakingPending,
                WriterAction::TakePendingMetadata,
            ),
            (DiscardStage::TakingPending, WriterReply::Answer(taken)) => {
                if taken {
                    self.go(
                        DiscardStage::RemovingPending,
                        WriterAction::RemovePendingMetadata { thread_id },
                    )
                } else {
                    self.remove()
                }
            },
            (DiscardStage::RemovingPending, WriterReply::Done) => self.remove(),
            (DiscardStage::Removing, WriterReply::Answer(true)) => WriterStep::End(Ok(())),
            (DiscardStage::Removing, WriterReply::Answer(false)) => WriterStep::End(
                Err(WriterProblem::NotLive { thread_id }),
            ),
            (_, reply) => WriterStep::End(Err(writer_problem_of(reply))),
        }
    }
}

/// Pending metadata is forgotten at a shutdown only where the rollout is known not to exist, and
/// only once the recorder is gone.
pub proof fn pending_metadata_outlives_existing_rollouts(m: ShutdownThread, reply: WriterReply)
    ensures
        m.next(reply) matches WriterStep::Ask(next, action) ==> {
            &&& next.thread_id == m.thread_id
            &&& action is TakePendingMetadata ==> m.stage is Unlocking
                && !m.stage->Unlocking_exists
            &&& action is RemovePendingMetadata ==> m.stage is TakingPending && reply
                == WriterReply::Answer(true)
            &&& next.stage is Removing && !next.stage->Removing_exists ==> m.stage is CheckingExists
                && reply == WriterReply::Answer(false)
        },
{
}

/// A shutdown that found the rollout not to be writable says so at its end, and does not index the
/// history.
pub proof fn refused_generations_are_reported_at_shutdown(m: ShutdownThread, reply: WriterReply)
    ensures
        m.stage is CheckingAfter && reply is Rejected ==> {
            &&& m.next(reply) is Ask
            &&& m.next(reply)->Ask_1 !is Materialize
            &&& m.next(reply)->Ask_0.stage is Syncing
            &&& m.next(reply)->Ask_0.stage->Syncing_closed.check == Some(reply->Rejected_0)
        },
        m.stage matches ShutdownStage::RemovingPending(closed) ==> m.next(reply) == m.ended(closed),
        m.stage matches ShutdownStage::Unlocking { closed, exists } ==> exists ==> m.next(reply)
            == m.ended(closed),
{
}

} // verus!
