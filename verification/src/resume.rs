//! How a thread is created or resumed with a live recorder.

use crate::error::ErrorView;
use crate::error::ThreadId;
use crate::live_actions::writer_problem_of;
use crate::live_actions::writer_problem_view;
use crate::live_actions::writer_reply_problem;
use crate::live_actions::WriterAction;
use crate::live_actions::WriterProblem;
use crate::live_actions::WriterReply;
use crate::live_actions::WriterStep;
use crate::outside::json_same;
use crate::paths::RolloutPath;
use crate::replay::compare_replay_item;
use crate::replay::compared;
use crate::replay::comparison_failure;
use crate::replay::first_head;
use crate::replay::replay_is_current;
use crate::replay::replay_texts;
use crate::replay::same_from;
use crate::replay::supplied_head;
use crate::replay::take_comparison;
use crate::replay::ReplayHead;
use crate::replay::ReplayItem;
use crate::rollout::ThreadHistoryMode;
use vstd::prelude::*;

verus! {

/// The creation of a thread with a live recorder.
#[derive(Debug)]
pub struct CreateThread {
    pub thread_id: ThreadId,
    pub history_mode: ThreadHistoryMode,
    pub stage: CreateStage,
}

/// The steps of a creation.
#[derive(Clone, Copy, Debug, PartialEq, Eq, Structural)]
pub enum CreateStage {
    LockingLive,
    CheckingAbsent,
    LockingWriter,
    Creating,
    Inserting,
}

impl CreateThread {
    pub open spec fn ask(self, stage: CreateStage, action: WriterAction) -> WriterStep<
        CreateThread,
    > {
        WriterStep::Ask(CreateThread { stage, ..self }, action)
    }

    /// The creation, before anything has been asked.
    pub open spec fn begun(self) -> WriterStep<CreateThread> {
        self.ask(CreateStage::LockingLive, WriterAction::LockLive { thread_id: self.thread_id })
    }

    /// Where the creation goes from a reply. The physical rollout of a new thread has the
    /// identifier of the thread.
    pub open spec fn next(self, reply: WriterReply) -> WriterStep<CreateThread> {
        match (self.stage, reply) {
            (CreateStage::LockingLive, WriterReply::Done) => self.ask(
                CreateStage::CheckingAbsent,
                WriterAction::EnsureAbsent { thread_id: self.thread_id },
            ),
            (CreateStage::CheckingAbsent, WriterReply::Done) => self.ask(
                CreateStage::LockingWriter,
                WriterAction::AcquireWriter { thread_id: self.thread_id },
            ),
            (CreateStage::LockingWriter, WriterReply::Done) => self.ask(
                CreateStage::Creating,
                WriterAction::CreateRecorder { thread_id: self.thread_id },
            ),
            (CreateStage::Creating, WriterReply::Done) => self.ask(
                CreateStage::Inserting,
                WriterAction::InsertRecorder {
                    thread_id: self.thread_id,
                    rollout_id: self.thread_id,
                    history_mode: self.history_mode,
                },
            ),
            (CreateStage::Inserting, WriterReply::Done) => WriterStep::End(Ok(())),
            (_, reply) => WriterStep::End(Err(writer_reply_problem(reply))),
        }
    }

    /// The creation of a thread.
    pub fn new(thread_id: ThreadId, history_mode: ThreadHistoryMode) -> (r: CreateThread)
        ensures
            r.thread_id == thread_id,
            r.history_mode == history_mode,
            r.stage is LockingLive,
    {
        CreateThread { thread_id, history_mode, stage: CreateStage::LockingLive }
    }

    fn go(self, stage: CreateStage, action: WriterAction) -> (r: WriterStep<CreateThread>)
        ensures
            r == self.ask(stage, action),
    {
        WriterStep::Ask(CreateThread { stage, ..self }, action)
    }

    /// Begins with the live writer lock.
    pub fn begin(self) -> (r: WriterStep<CreateThread>)
        ensures
            r == self.begun(),
    {
        let thread_id: ThreadId = self.thread_id;
        self.go(CreateStage::LockingLive, WriterAction::LockLive { thread_id })
    }

    /// Carries the creation on from a reply.
    pub fn advance(self, reply: WriterReply) -> (r: WriterStep<CreateThread>)
        ensures
            r == self.next(reply),
    {
        let thread_id: ThreadId = self.thread_id;
        let history_mode: ThreadHistoryMode = self.history_mode;
        match (self.stage, reply) {
            (CreateStage::LockingLive, WriterReply::Done) => self.go(
                CreateStage::CheckingAbsent,
                WriterAction::EnsureAbsent { thread_id },
            ),
            (CreateStage::CheckingAbsent, WriterReply::Done) => self.go(
                CreateStage::LockingWriter,
                WriterAction::AcquireWriter { thread_id },
            ),
            (CreateStage::LockingWriter, WriterReply::Done) => self.go(
                CreateStage::Creating,
                WriterAction::CreateRecorder { thread_id },
            ),
            (CreateStage::Creating, WriterReply::Done) => self.go(
                CreateStage::Inserting,
                WriterAction::InsertRecorder { thread_id, rollout_id: thread_id, history_mode },
            ),
            (CreateStage::Inserting, WriterReply::Done) => WriterStep::End(Ok(())),
            (_, reply) => WriterStep::End(Err(writer_problem_of(reply))),
        }
    }
}

/// The refusal of a valid rollout that another one has superseded. Index data that is missing,
/// unreadable or about another thread refuses nothing.
#[derive(Debug)]
pub struct EnsureCurrent {
    pub thread_id: ThreadId,
    pub requested: RolloutPath,
    pub stage: CurrentStage,
}

/// The steps of the comparison with the selected rollout.
#[allow(inconsistent_fields)]
#[derive(Debug)]
pub enum CurrentStage {
    ReadingIndex,
    FindingSelected,
    ReadingSelected { selected: RolloutPath },
    FindingRequested { selected: RolloutPath },
    Comparing { selected: RolloutPath, requested: RolloutPath },
}

impl EnsureCurrent {
    pub open spec fn ask(self, stage: CurrentStage, action: WriterAction) -> WriterStep<
        EnsureCurrent,
    > {
        WriterStep::Ask(EnsureCurrent { stage, ..self }, action)
    }

    /// The comparison, before anything has been asked.
    pub open spec fn begun(self) -> WriterStep<EnsureCurrent> {
        self.ask(
            CurrentStage::ReadingIndex,
            WriterAction::GetSelected { thread_id: self.thread_id },
        )
    }

    /// Where the comparison goes from a reply.
    pub open spec fn next(self, reply: WriterReply) -> WriterStep<EnsureCurrent> {
        match (self.stage, reply) {
            (CurrentStage::ReadingIndex, WriterReply::Path(None)) => WriterStep::End(Ok(())),
            (CurrentStage::ReadingIndex, WriterReply::Path(Some(path))) => self.ask(
                CurrentStage::FindingSelected,
                WriterAction::ExistingPath { path },
            ),
            (CurrentStage::ReadingIndex, WriterReply::Failed(error)) => WriterStep::End(
                Err(WriterProblem::UnreadableIndex { thread_id: self.thread_id, error }),
            ),
            (CurrentStage::FindingSelected, WriterReply::Path(None)) => WriterStep::End(Ok(())),
            (CurrentStage::FindingSelected, WriterReply::Path(Some(selected))) => self.ask(
                CurrentStage::ReadingSelected { selected },
                WriterAction::ReadMetadata { path: selected },
            ),
            (CurrentStage::ReadingSelected { .. }, WriterReply::Failed(_)) => WriterStep::End(
                Ok(()),
            ),
            (CurrentStage::ReadingSelected { selected }, WriterReply::Metadata(head)) => {
                if head.id != self.thread_id {
                    WriterStep::End(Ok(()))
                } else {
                    self.ask(
                        CurrentStage::FindingRequested { selected },
                        WriterAction::ExistingPath { path: self.requested },
                    )
                }
            },
            (CurrentStage::FindingRequested { .. }, WriterReply::Path(None)) => WriterStep::End(
                Err(WriterProblem::Disappeared { thread_id: self.thread_id }),
            ),
            (CurrentStage::FindingRequested { selected }, WriterReply::Path(Some(requested))) => {
                self.ask(
                    CurrentStage::Comparing { selected, requested },
                    WriterAction::SameFile { selected, requested },
                )
            },
            (CurrentStage::Comparing { selected, requested }, WriterReply::Answer(same)) => {
                if same {
                    WriterStep::End(Ok(()))
                } else {
                    WriterStep::End(
                        Err(
                            WriterProblem::NotSelected {
                                thread_id: self.thread_id,
                                selected,
                                requested,
                            },
                        ),
                    )
                }
            },
            (CurrentStage::Comparing { selected, requested }, WriterReply::Failed(error)) => {
                WriterStep::End(
                    Err(
                        WriterProblem::SelectionChanged {
                            thread_id: self.thread_id,
                            selected,
                            requested,
                            error,
                        },
                    ),
                )
            },
            (CurrentStage::Comparing { .. }, WriterReply::JoinFailed(error)) => WriterStep::End(
                Err(WriterProblem::UnjoinedComparison { thread_id: self.thread_id, error }),
            ),
            (_, reply) => WriterStep::End(Err(writer_reply_problem(reply))),
        }
    }

    /// The comparison of a requested rollout with the selected one.
    pub fn new(thread_id: ThreadId, requested: &RolloutPath) -> (r: EnsureCurrent)
        ensures
            r == (EnsureCurrent {
                thread_id,
                requested: *requested,
                stage: CurrentStage::ReadingIndex,
            }),
    {
        EnsureCurrent {
            thread_id,
            requested: requested.clone(),
            stage: CurrentStage::ReadingIndex,
        }
    }

    fn go(self, stage: CurrentStage, action: WriterAction) -> (r: WriterStep<EnsureCurrent>)
        ensures
            r == self.ask(stage, action),
    {
        WriterStep::Ask(EnsureCurrent { stage, ..self }, action)
    }

    /// Begins with the index.
    pub fn begin(self) -> (r: WriterStep<EnsureCurrent>)
        ensures
            r == self.begun(),
    {
        let thread_id: ThreadId = self.thread_id;
        self.go(CurrentStage::ReadingIndex, WriterAction::GetSelected { thread_id })
    }

    /// Carries the comparison on from a reply.
    #[verifier::rlimit(30)]
    pub fn advance(self, reply: WriterReply) -> (r: WriterStep<EnsureCurrent>)
        ensures
            r == self.next(reply),
    {
        let EnsureCurrent { thread_id, requested: asked, stage } = self;
        let this = EnsureCurrent {
            thread_id,
            requested: asked,
            stage: CurrentStage::ReadingIndex,
        };
        match (stage, reply) {
            (CurrentStage::ReadingIndex, WriterReply::Path(None)) => WriterStep::End(Ok(())),
            (CurrentStage::ReadingIndex, WriterReply::Path(Some(path))) => this.go(
                CurrentStage::FindingSelected,
                WriterAction::ExistingPath { path },
            ),
            (CurrentStage::ReadingIndex, WriterReply::Failed(error)) => WriterStep::End(
                Err(WriterProblem::UnreadableIndex { thread_id, error }),
            ),
            (CurrentStage::FindingSelected, WriterReply::Path(None)) => WriterStep::End(Ok(())),
            (CurrentStage::FindingSelected, WriterReply::Path(Some(selected))) => {
                let path: RolloutPath = selected.clone();
                this.go(
                    CurrentStage::ReadingSelected { selected },
                    WriterAction::ReadMetadata { path },
                )
            },
            (CurrentStage::ReadingSelected { .. }, WriterReply::Failed(_)) => WriterStep::End(
                Ok(()),
            ),
            (CurrentStage::ReadingSelected { selected }, WriterReply::Metadata(head)) => {
                if head.id != thread_id {
                    WriterStep::End(Ok(()))
                } else {
                    let path: RolloutPath = this.requested.clone();
                    this.go(
                        CurrentStage::FindingRequested { selected },
                        WriterAction::ExistingPath { path },
                    )
                }
            },
            (CurrentStage::FindingRequested { .. }, WriterReply::Path(None)) => WriterStep::End(
                Err(WriterProblem::Disappeared { thread_id }),
            ),
            (CurrentStage::FindingRequested { selected }, WriterReply::Path(Some(requested))) => {
                let action = WriterAction::SameFile {
                    selected: selected.clone(),
                    requested: requested.clone(),
                };
                this.go(CurrentStage::Comparing { selected, requested }, action)
            },
            (CurrentStage::Comparing { selected, requested }, WriterReply::Answer(same)) => {
                if same {
                    WriterStep::End(Ok(()))
                } else {
                    WriterStep::End(
                        Err(WriterProblem::NotSelected { thread_id, selected, requested }),
                    )
                }
            },
            (CurrentStage::Comparing { selected, requested }, WriterReply::Failed(error)) => {
                WriterStep::End(
                    Err(
                        WriterProblem::SelectionChanged { thread_id, selected, requested, error },
                    ),
                )
            },
            (CurrentStage::Comparing { .. }, WriterReply::JoinFailed(error)) => WriterStep::End(
                Err(WriterProblem::UnjoinedComparison { thread_id, error }),
            ),
            (_, reply) => WriterStep::End(Err(writer_problem_of(reply))),
        }
    }
}

/// What a thread is resumed with.
#[derive(Debug)]
pub struct ResumeRequest {
    pub thread_id: ThreadId,
    pub rollout_path: Option<RolloutPath>,
    /// A replay that the caller has loaded before. It is checked and never written.
    pub history: Option<Vec<ReplayItem>>,
    pub include_archived: bool,
    pub cwd: Option<RolloutPath>,
    pub model_provider: String,
    pub generate_memories: bool,
}

/// The resumption of a thread with a live recorder.
#[derive(Debug)]
pub struct ResumeThread {
    pub request: ResumeRequest,
    pub stage: ResumeStage,
}

/// The rollout that is resumed.
#[derive(Debug)]
pub struct Resumed {
    pub path: RolloutPath,
    pub head: ReplayHead,
}

/// The steps of a resumption.
#[allow(inconsistent_fields)]
#[derive(Debug)]
pub enum ResumeStage {
    LockingLive,
    CheckingAbsent,
    LockingWriter,
    ReadingByPath,
    Comparing { path: RolloutPath, check: EnsureCurrent },
    ReadingThread,
    ReadingHead { path: RolloutPath },
    CheckingWritable(Resumed),
    Resolving(Resumed),
    LoadingContext { resumed: Resumed, rollout_id: ThreadId },
    ComparingItems { resumed: Resumed, rollout_id: ThreadId, index: usize, current: usize },
    MatchingFile { resumed: Resumed, rollout_id: ThreadId, current: usize },
    Opening { rollout_id: ThreadId, history_mode: ThreadHistoryMode },
    Inserting,
}

impl ResumeThread {
    pub open spec fn ask(self, stage: ResumeStage, action: WriterAction) -> WriterStep<
        ResumeThread,
    > {
        WriterStep::Ask(ResumeThread { stage, ..self }, action)
    }

    /// The resumption, before anything has been asked.
    pub open spec fn begun(self) -> WriterStep<ResumeThread> {
        self.ask(
            ResumeStage::LockingLive,
            WriterAction::LockLive { thread_id: self.request.thread_id },
        )
    }

    pub open spec fn reading_head(self, path: RolloutPath) -> WriterStep<ResumeThread> {
        self.ask(ResumeStage::ReadingHead { path }, WriterAction::ReadMetadata { path })
    }

    /// The comparison with the selected rollout, as part of the resumption.
    pub open spec fn comparing(
        self,
        path: RolloutPath,
        step: WriterStep<EnsureCurrent>,
    ) -> WriterStep<ResumeThread> {
        match step {
            WriterStep::Ask(check, action) => self.ask(
                ResumeStage::Comparing { path, check },
                action,
            ),
            WriterStep::End(Ok(())) => self.reading_head(path),
            WriterStep::End(Err(problem)) => WriterStep::End(Err(problem)),
        }
    }

    pub open spec fn resolving(self, resumed: Resumed) -> WriterStep<ResumeThread> {
        self.ask(
            ResumeStage::Resolving(resumed),
            WriterAction::ResolveRolloutId {
                thread_id: self.request.thread_id,
                path: resumed.path,
                history_mode: resumed.head.history_mode,
            },
        )
    }

    /// What the head of the rollout calls for.
    pub open spec fn head_read(self, resumed: Resumed) -> WriterStep<ResumeThread> {
        if resumed.head.id != self.request.thread_id {
            WriterStep::End(
                Err(
                    WriterProblem::OtherThread {
                        path: resumed.path,
                        found: resumed.head.id,
                        thread_id: self.request.thread_id,
                    },
                ),
            )
        } else if resumed.head.history_mode == ThreadHistoryMode::PaginatedRefsV1 {
            self.ask(
                ResumeStage::CheckingWritable(resumed),
                WriterAction::EnsureWritable {
                    thread_id: self.request.thread_id,
                    path: resumed.path,
                },
            )
        } else {
            self.resolving(resumed)
        }
    }

    pub open spec fn opening(self, resumed: Resumed, rollout_id: ThreadId) -> WriterStep<
        ResumeThread,
    > {
        match self.request.cwd {
            None => WriterStep::End(Err(WriterProblem::WithoutCwd)),
            Some(cwd) => self.ask(
                ResumeStage::Opening { rollout_id, history_mode: resumed.head.history_mode },
                WriterAction::OpenRecorder {
                    path: resumed.path,
                    cwd,
                    model_provider: self.request.model_provider,
                    generate_memories: self.request.generate_memories,
                },
            ),
        }
    }

    /// What the supplied replay calls for.
    pub open spec fn resolved(self, resumed: Resumed, rollout_id: ThreadId) -> WriterStep<
        ResumeThread,
    > {
        match self.request.history {
            None => self.opening(resumed, rollout_id),
            Some(history) => match first_head(history@) {
                None => WriterStep::End(
                    Err(WriterProblem::ReplayWithoutHead { thread_id: self.request.thread_id }),
                ),
                Some(supplied) => if supplied.id != self.request.thread_id || supplied.history_mode
                    != resumed.head.history_mode {
                    WriterStep::End(
                        Err(
                            WriterProblem::StaleHead {
                                thread_id: self.request.thread_id,
                                supplied,
                                canonical: resumed.head,
                            },
                        ),
                    )
                } else if resumed.head.history_mode.paginated() {
                    self.ask(
                        ResumeStage::LoadingContext { resumed, rollout_id },
                        WriterAction::LoadContext {
                            thread_id: self.request.thread_id,
                            rollout_id,
                            path: resumed.path,
                        },
                    )
                } else {
                    self.opening(resumed, rollout_id)
                },
            },
        }
    }

    /// The supplied replay, where there is one.
    pub open spec fn supplied(self) -> Seq<ReplayItem> {
        match self.request.history {
            Some(history) => history@,
            None => Seq::empty(),
        }
    }

    /// The supplied replay is not the current model context. Is it what the rollout holds?
    pub open spec fn matching_file(
        self,
        resumed: Resumed,
        rollout_id: ThreadId,
        current: usize,
    ) -> WriterStep<ResumeThread> {
        self.ask(
            ResumeStage::MatchingFile { resumed, rollout_id, current },
            WriterAction::MatchFile { path: resumed.path },
        )
    }

    /// The supplied replay agrees with the current model context up to an item.
    pub open spec fn comparing_from(
        self,
        resumed: Resumed,
        rollout_id: ThreadId,
        index: usize,
        current: usize,
    ) -> WriterStep<ResumeThread> {
        if index >= current {
            self.opening(resumed, rollout_id)
        } else {
            self.ask(
                ResumeStage::ComparingItems { resumed, rollout_id, index, current },
                WriterAction::EncodeItem { index },
            )
        }
    }

    /// The current model context has been loaded: replays of other lengths are never compared.
    pub open spec fn context_loaded(
        self,
        resumed: Resumed,
        rollout_id: ThreadId,
        current: usize,
    ) -> WriterStep<ResumeThread> {
        if self.supplied().len() == current {
            self.comparing_from(resumed, rollout_id, 0, current)
        } else {
            self.matching_file(resumed, rollout_id, current)
        }
    }

    /// Whether a step is the one that an item of the current model context calls for: the supplied
    /// item agrees with it, does not, or cannot be compared with it.
    pub open spec fn item_taken(
        self,
        resumed: Resumed,
        rollout_id: ThreadId,
        index: usize,
        current: usize,
        comparison: Result<bool, ErrorView>,
        step: WriterStep<ResumeThread>,
    ) -> bool {
        match comparison {
            Ok(true) => step == self.comparing_from(
                resumed,
                rollout_id,
                (index + 1) as usize,
                current,
            ),
            Ok(false) => step == self.matching_file(resumed, rollout_id, current),
            Err(error) => failed_with(step, error),
        }
    }

    /// Where the resumption goes from a reply, but for the items of the current model context.
    pub open spec fn next(self, reply: WriterReply) -> WriterStep<ResumeThread> {
        let thread_id = self.request.thread_id;
        match (self.stage, reply) {
            (ResumeStage::LockingLive, WriterReply::Done) => self.ask(
                ResumeStage::CheckingAbsent,
                WriterAction::EnsureAbsent { thread_id },
            ),
            (ResumeStage::CheckingAbsent, WriterReply::Done) => self.ask(
                ResumeStage::LockingWriter,
                WriterAction::AcquireWriter { thread_id },
            ),
            (ResumeStage::LockingWriter, WriterReply::Done) => match self.request.rollout_path {
                Some(path) => self.ask(
                    ResumeStage::ReadingByPath,
                    WriterAction::ReadThreadByPath {
                        path,
                        include_archived: self.request.include_archived,
                    },
                ),
                None => self.ask(
                    ResumeStage::ReadingThread,
                    WriterAction::ReadThread {
                        thread_id,
                        include_archived: self.request.include_archived,
                    },
                ),
            },
            (ResumeStage::ReadingByPath, WriterReply::Path(Some(path))) => self.comparing(
                path,
                EnsureCurrent {
                    thread_id,
                    requested: path,
                    stage: CurrentStage::ReadingIndex,
                }.begun(),
            ),
            (ResumeStage::ReadingByPath, WriterReply::Path(None)) => WriterStep::End(
                Err(WriterProblem::WithoutRolloutPath { thread_id }),
            ),
            (ResumeStage::Comparing { path, check }, reply) => self.comparing(
                path,
                check.next(reply),
            ),
            (ResumeStage::ReadingThread, WriterReply::Path(Some(path))) => self.reading_head(path),
            (ResumeStage::ReadingThread, WriterReply::Path(None)) => WriterStep::End(
                Err(WriterProblem::WithoutRolloutPath { thread_id }),
            ),
            (ResumeStage::ReadingHead { path }, WriterReply::Metadata(head)) => self.head_read(
                Resumed { path, head },
            ),
            (ResumeStage::ReadingHead { path }, WriterReply::Failed(error)) => WriterStep::End(
                Err(WriterProblem::UnreadableHead { path, error }),
            ),
            (ResumeStage::CheckingWritable(resumed), WriterReply::Done) => self.resolving(resumed),
            (ResumeStage::Resolving(resumed), WriterReply::RolloutId(rollout_id)) => self.resolved(
                resumed,
                rollout_id,
            ),
            (
                ResumeStage::LoadingContext { resumed, rollout_id },
                WriterReply::Items(current),
            ) => self.context_loaded(resumed, rollout_id, current),
            (
                ResumeStage::MatchingFile { resumed, rollout_id, current },
                WriterReply::Answer(same),
            ) => if same {
                self.opening(resumed, rollout_id)
            } else {
                WriterStep::End(
                    Err(
                        WriterProblem::StaleItems {
                            thread_id,
                            supplied: self.supplied().len() as usize,
                            current,
                        },
                    ),
                )
            },
            (ResumeStage::MatchingFile { .. }, WriterReply::Failed(error)) => WriterStep::End(
                Err(WriterProblem::UncomparedReplay { thread_id, error }),
            ),
            (ResumeStage::Opening { rollout_id, history_mode }, WriterReply::Done) => self.ask(
                ResumeStage::Inserting,
                WriterAction::InsertRecorder { thread_id, rollout_id, history_mode },
            ),
            (ResumeStage::Opening { .. }, WriterReply::Failed(error)) => WriterStep::End(
                Err(WriterProblem::RecorderFailed { error }),
            ),
            (ResumeStage::Inserting, WriterReply::Done) => WriterStep::End(Ok(())),
            (_, reply) => WriterStep::End(Err(writer_reply_problem(reply))),
        }
    }

    /// Whether the resumption may go from a reply to a step.
    pub open spec fn steps_to(self, reply: WriterReply, step: WriterStep<ResumeThread>) -> bool {
        match (self.stage, reply) {
            (
                ResumeStage::ComparingItems { resumed, rollout_id, index, current },
                WriterReply::Item(json),
            ) if index < self.supplied().len() => self.item_taken(
                resumed,
                rollout_id,
                index,
                current,
                compared(
                    self.request.thread_id,
                    index as nat,
                    json_same(self.supplied()[index as int].json@, json@),
                ),
                step,
            ),
            (ResumeStage::ComparingItems { index, .. }, WriterReply::Failed(error)) => failed_with(
                step,
                comparison_failure(self.request.thread_id, false, index as nat, error@),
            ),
            _ => step == self.next(reply),
        }
    }
}

/// Whether a step ends an operation with an error.
pub open spec fn failed_with<M>(step: WriterStep<M>, error: ErrorView) -> bool {
    match step {
        WriterStep::End(Err(problem)) => writer_problem_view(problem) == error,
        _ => false,
    }
}

impl ResumeThread {
    /// The resumption that is asked for.
    pub fn new(request: ResumeRequest) -> (r: ResumeThread)
        ensures
            r.request == request,
            r.stage is LockingLive,
    {
        ResumeThread { request, stage: ResumeStage::LockingLive }
    }

    fn go(self, stage: ResumeStage, action: WriterAction) -> (r: WriterStep<ResumeThread>)
        ensures
            r == self.ask(stage, action),
    {
        WriterStep::Ask(ResumeThread { stage, ..self }, action)
    }

    /// Begins with the live writer lock.
    pub fn begin(self) -> (r: WriterStep<ResumeThread>)
        ensures
            r == self.begun(),
    {
        let thread_id: ThreadId = self.request.thread_id;
        self.go(ResumeStage::LockingLive, WriterAction::LockLive { thread_id })
    }

    fn read_head(self, path: RolloutPath) -> (r: WriterStep<ResumeThread>)
        ensures
            r == self.reading_head(path),
    {
        let read: RolloutPath = path.clone();
        self.go(ResumeStage::ReadingHead { path }, WriterAction::ReadMetadata { path: read })
    }

    fn compare(self, path: RolloutPath, step: WriterStep<EnsureCurrent>) -> (r: WriterStep<
        ResumeThread,
    >)
        ensures
            r == self.comparing(path, step),
    {
        match step {
            WriterStep::Ask(check, action) => self.go(
                ResumeStage::Comparing { path, check },
                action,
            ),
            WriterStep::End(Ok(())) => self.read_head(path),
            WriterStep::End(Err(problem)) => WriterStep::End(Err(problem)),
        }
    }

    fn resolve(self, resumed: Resumed) -> (r: WriterStep<ResumeThread>)
        ensures
            r == self.resolving(resumed),
    {
        let action = WriterAction::ResolveRolloutId {
            thread_id: self.request.thread_id,
            path: resumed.path.clone(),
            history_mode: resumed.head.history_mode,
        };
        self.go(ResumeStage::Resolving(resumed), action)
    }

    fn take_head(self, resumed: Resumed) -> (r: WriterStep<ResumeThread>)
        ensures
            r == self.head_read(resumed),
    {
        let thread_id: ThreadId = self.request.thread_id;
        if resumed.head.id != thread_id {
            return WriterStep::End(
                Err(
                    WriterProblem::OtherThread {
                        path: resumed.path,
                        found: resumed.head.id,
                        thread_id,
                    },
                ),
            );
        }
        if resumed.head.history_mode == ThreadHistoryMode::PaginatedRefsV1 {
            let path: RolloutPath = resumed.path.clone();
            self.go(
                ResumeStage::CheckingWritable(resumed),
                WriterAction::EnsureWritable { thread_id, path },
            )
        } else {
            self.resolve(resumed)
        }
    }

    fn open(self, resumed: Resumed, rollout_id: ThreadId) -> (r: WriterStep<ResumeThread>)
        ensures
            r == self.opening(resumed, rollout_id),
    {
        let cwd: RolloutPath = match &self.request.cwd {
            None => {
                return WriterStep::End(Err(WriterProblem::WithoutCwd));
            },
            Some(cwd) => cwd.clone(),
        };
        let action = WriterAction::OpenRecorder {
            path: resumed.path,
            cwd,
            model_provider: self.request.model_provider.clone(),
            generate_memories: self.request.generate_memories,
        };
        self.go(
            ResumeStage::Opening { rollout_id, history_mode: resumed.head.history_mode },
            action,
        )
    }

    fn take_rollout_id(self, resumed: Resumed, rollout_id: ThreadId) -> (r: WriterStep<
        ResumeThread,
    >)
        ensures
            r == self.resolved(resumed, rollout_id),
    {
        let thread_id: ThreadId = self.request.thread_id;
        let supplied: ReplayHead = match &self.request.history {
            None => {
                return self.open(resumed, rollout_id);
            },
            Some(history) => match supplied_head(history) {
                None => {
                    return WriterStep::End(Err(WriterProblem::ReplayWithoutHead { thread_id }));
                },
                Some(supplied) => supplied,
            },
        };
        if supplied.id != thread_id || supplied.history_mode != resumed.head.history_mode {
            return WriterStep::End(
                Err(WriterProblem::StaleHead { thread_id, supplied, canonical: resumed.head }),
            );
        }
        if resumed.head.history_mode.is_paginated() {
            let path: RolloutPath = resumed.path.clone();
            self.go(
                ResumeStage::LoadingContext { resumed, rollout_id },
                WriterAction::LoadContext { thread_id, rollout_id, path },
            )
        } else {
            self.open(resumed, rollout_id)
        }
    }

    fn match_file(self, resumed: Resumed, rollout_id: ThreadId, current: usize) -> (r: WriterStep<
        ResumeThread,
    >)
        ensures
            r == self.matching_file(resumed, rollout_id, current),
    {
        let path: RolloutPath = resumed.path.clone();
        self.go(
            ResumeStage::MatchingFile { resumed, rollout_id, current },
            WriterAction::MatchFile { path },
        )
    }

    fn compare_from(
        self,
        resumed: Resumed,
        rollout_id: ThreadId,
        index: usize,
        current: usize,
    ) -> (r: WriterStep<ResumeThread>)
        ensures
            r == self.comparing_from(resumed, rollout_id, index, current),
    {
        if index >= current {
            return self.open(resumed, rollout_id);
        }
        self.go(
            ResumeStage::ComparingItems { resumed, rollout_id, index, current },
            WriterAction::EncodeItem { index },
        )
    }

    fn take_item(
        self,
        resumed: Resumed,
        rollout_id: ThreadId,
        index: usize,
        current: usize,
        json: String,
    ) -> (r: WriterStep<ResumeThread>)
        requires
            index < self.supplied().len(),
        ensures
            self.item_taken(
                resumed,
                rollout_id,
                index,
                current,
                compared(
                    self.request.thread_id,
                    index as nat,
                    json_same(self.supplied()[index as int].json@, json@),
                ),
                r,
            ),
    {
        let supplied: usize = self.supplied_len();
        assert(index < supplied);
        let comparison = match &self.request.history {
            Some(history) => compare_replay_item(
                self.request.thread_id,
                index,
                &history[index],
                json.as_str(),
            ),
            None => Ok(false),
        };
        match comparison {
            Ok(true) => self.compare_from(resumed, rollout_id, index + 1, current),
            Ok(false) => self.match_file(resumed, rollout_id, current),
            Err(error) => WriterStep::End(Err(WriterProblem::Rejected(error))),
        }
    }

    fn supplied_len(&self) -> (r: usize)
        ensures
            r == self.supplied().len(),
    {
        match &self.request.history {
            Some(history) => history.len(),
            None => 0,
        }
    }

    /// Carries the resumption on from a reply.
    #[verifier::rlimit(60)]
    pub fn advance(self, reply: WriterReply) -> (r: WriterStep<ResumeThread>)
        ensures
            self.steps_to(reply, r),
    {
        let ResumeThread { request, stage } = self;
        let thread_id: ThreadId = request.thread_id;
        let this = ResumeThread { request, stage: ResumeStage::LockingLive };
        match (stage, reply) {
            (ResumeStage::LockingLive, WriterReply::Done) => this.go(
                ResumeStage::CheckingAbsent,
                WriterAction::EnsureAbsent { thread_id },
            ),
            (ResumeStage::CheckingAbsent, WriterReply::Done) => this.go(
                ResumeStage::LockingWriter,
                WriterAction::AcquireWriter { thread_id },
            ),
            (ResumeStage::LockingWriter, WriterReply::Done) => {
                let include_archived: bool = this.request.include_archived;
                let asked: Option<RolloutPath> = match &this.request.rollout_path {
                    Some(path) => Some(path.clone()),
                    None => None,
                };
                match asked {
                    Some(path) => this.go(
                        ResumeStage::ReadingByPath,
                        WriterAction::ReadThreadByPath { path, include_archived },
                    ),
                    None => this.go(
                        ResumeStage::ReadingThread,
                        WriterAction::ReadThread { thread_id, include_archived },
                    ),
                }
            },
            (ResumeStage::ReadingByPath, WriterReply::Path(Some(path))) => {
                let check = EnsureCurrent::new(thread_id, &path);
                this.compare(path, check.begin())
            },
            (ResumeStage::ReadingByPath, WriterReply::Path(None)) => WriterStep::End(
                Err(WriterProblem::WithoutRolloutPath { thread_id }),
            ),
            (ResumeStage::Comparing { path, check }, reply) => this.compare(
                path,
                check.advance(reply),
            ),
            (ResumeStage::ReadingThread, WriterReply::Path(Some(path))) => this.read_head(path),
            (ResumeStage::ReadingThread, WriterReply::Path(None)) => WriterStep::End(
                Err(WriterProblem::WithoutRolloutPath { thread_id }),
            ),
            (ResumeStage::ReadingHead { path }, WriterReply::Metadata(head)) => this.take_head(
                Resumed { path, head },
            ),
            (ResumeStage::ReadingHead { path }, WriterReply::Failed(error)) => WriterStep::End(
                Err(WriterProblem::UnreadableHead { path, error }),
            ),
            (ResumeStage::CheckingWritable(resumed), WriterReply::Done) => this.resolve(resumed),
            (ResumeStage::Resolving(resumed), WriterReply::RolloutId(rollout_id)) => {
                this.take_rollout_id(resumed, rollout_id)
            },
            (
                ResumeStage::LoadingContext { resumed, rollout_id },
                WriterReply::Items(current),
            ) => {
                if this.supplied_len() == current {
                    this.compare_from(resumed, rollout_id, 0, current)
                } else {
                    this.match_file(resumed, rollout_id, current)
                }
            },
            (
                ResumeStage::ComparingItems { resumed, rollout_id, index, current },
                WriterReply::Item(json),
            ) => {
                if index < this.supplied_len() {
                    this.take_item(resumed, rollout_id, index, current, json)
                } else {
                    WriterStep::End(Err(WriterProblem::UnexpectedReply))
                }
            },
            (ResumeStage::ComparingItems { index, .. }, WriterReply::Failed(error)) => {
                match take_comparison(thread_id, index, Err((false, error))) {
                    Err(error) => WriterStep::End(Err(WriterProblem::Rejected(error))),
                    Ok(_) => WriterStep::End(Err(WriterProblem::UnexpectedReply)),
                }
            },
            (
                ResumeStage::MatchingFile { resumed, rollout_id, current },
                WriterReply::Answer(same),
            ) => {
                if same {
                    this.open(resumed, rollout_id)
                } else {
                    let supplied: usize = this.supplied_len();
                    WriterStep::End(
                        Err(WriterProblem::StaleItems { thread_id, supplied, current }),
                    )
                }
            },
            (ResumeStage::MatchingFile { .. }, WriterReply::Failed(error)) => WriterStep::End(
                Err(WriterProblem::UncomparedReplay { thread_id, error }),
            ),
            (ResumeStage::Opening { rollout_id, history_mode }, WriterReply::Done) => this.go(
                ResumeStage::Inserting,
                WriterAction::InsertRecorder { thread_id, rollout_id, history_mode },
            ),
            (ResumeStage::Opening { .. }, WriterReply::Failed(error)) => WriterStep::End(
                Err(WriterProblem::RecorderFailed { error }),
            ),
            (ResumeStage::Inserting, WriterReply::Done) => WriterStep::End(Ok(())),
            (_, reply) => WriterStep::End(Err(writer_problem_of(reply))),
        }
    }
}

/// Whether a rollout that is being resumed is that of the thread.
pub open spec fn belongs(m: ResumeThread, resumed: Resumed) -> bool {
    resumed.head.id == m.request.thread_id
}

/// Whether a supplied replay has the head of the rollout.
pub open spec fn replay_head_is_current(m: ResumeThread, resumed: Resumed) -> bool {
    m.request.history is Some && first_head(m.supplied()) == Some(resumed.head)
}

/// Whether a reply tells the truth about the current model context.
pub open spec fn tells_context(
    m: ResumeThread,
    reply: WriterReply,
    context: Seq<Seq<char>>,
) -> bool {
    match (m.stage, reply) {
        (ResumeStage::LoadingContext { .. }, WriterReply::Items(items)) => items == context.len(),
        (ResumeStage::ComparingItems { index, .. }, WriterReply::Item(json)) => {
            index < context.len() && json@ == context[index as int]
        },
        _ => true,
    }
}

/// What has been made sure of when a step is reached, with the current model context.
pub open spec fn resumes_soundly(m: ResumeThread, context: Seq<Seq<char>>) -> bool {
    match m.stage {
        ResumeStage::CheckingWritable(resumed) => belongs(m, resumed),
        ResumeStage::Resolving(resumed) => belongs(m, resumed),
        ResumeStage::LoadingContext { resumed, .. } => belongs(m, resumed)
            && replay_head_is_current(m, resumed),
        ResumeStage::ComparingItems { resumed, index, current, .. } => {
            let supplied = replay_texts(m.supplied());
            &&& belongs(m, resumed) && replay_head_is_current(m, resumed)
            &&& current == context.len() && current == supplied.len() && index < current
            &&& same_from(m.request.thread_id, supplied, context, index as nat)
                == replay_is_current(m.request.thread_id, supplied, context)
        },
        ResumeStage::MatchingFile { resumed, .. } => belongs(m, resumed)
            && replay_head_is_current(m, resumed),
        _ => true,
    }
}

/// The rollout that is being resumed, where its head has been read.
pub open spec fn resumed_rollout(m: ResumeThread) -> Option<Resumed> {
    match m.stage {
        ResumeStage::CheckingWritable(resumed) => Some(resumed),
        ResumeStage::Resolving(resumed) => Some(resumed),
        ResumeStage::LoadingContext { resumed, .. } => Some(resumed),
        ResumeStage::ComparingItems { resumed, .. } => Some(resumed),
        ResumeStage::MatchingFile { resumed, .. } => Some(resumed),
        _ => None,
    }
}

/// A recorder is opened only on a rollout whose head was read under the writer lock and names the
/// thread. Where a replay was supplied, its head is that of the rollout; where the rollout is
/// paginated too, the replay is the current model context or what the rollout holds.
pub proof fn stale_replays_never_open_a_writer(
    m: ResumeThread,
    reply: WriterReply,
    step: WriterStep<ResumeThread>,
    context: Seq<Seq<char>>,
)
    requires
        resumes_soundly(m, context),
        tells_context(m, reply, context),
        m.steps_to(reply, step),
    ensures
        step matches WriterStep::Ask(next, action) ==> {
            &&& next.request == m.request
            &&& resumes_soundly(next, context)
            &&& action matches WriterAction::OpenRecorder { path, .. } ==> {
                let resumed = resumed_rollout(m);
                &&& resumed is Some && path == resumed->0.path && belongs(m, resumed->0)
                &&& m.request.history is Some ==> {
                    &&& replay_head_is_current(m, resumed->0)
                    &&& resumed->0.head.history_mode.paginated() ==> {
                        ||| m.stage is MatchingFile && reply == WriterReply::Answer(true)
                        ||| replay_is_current(
                            m.request.thread_id,
                            replay_texts(m.supplied()),
                            context,
                        ) == Ok::<bool, ErrorView>(true)
                    }
                }
            }
        },
{
    if let ResumeStage::ComparingItems { index, .. } = m.stage {
        let supplied = replay_texts(m.supplied());
        assert(supplied[index as int] == m.supplied()[index as int].json@);
        reveal_with_fuel(same_from, 2);
    }
}

/// A migrated rollout is resumed only once it has been found writable.
pub proof fn migrated_rollouts_are_resumed_only_when_writable(
    m: ResumeThread,
    reply: WriterReply,
    step: WriterStep<ResumeThread>,
)
    requires
        m.steps_to(reply, step),
    ensures
        step matches WriterStep::Ask(next, action) ==> {
            &&& next.stage is Resolving && next.stage->Resolving_0.head.history_mode
                == ThreadHistoryMode::PaginatedRefsV1 ==> {
                &&& m.stage == ResumeStage::CheckingWritable(next.stage->Resolving_0)
                &&& reply is Done
            }
            &&& next.stage is LoadingContext || next.stage is Opening ==> m.stage is Resolving
                || m.stage is LoadingContext || m.stage is ComparingItems || m.stage
                is MatchingFile
        },
{
}

/// Nothing of a thread is read or opened before its live writer lock and its writer lock are
/// taken, and a thread that is already live is neither created nor resumed.
pub proof fn writers_lock_before_they_read(m: ResumeThread, reply: WriterReply)
    ensures
        m.stage is LockingLive ==> (m.next(reply) matches WriterStep::Ask(next, action) ==> {
            &&& next.stage is CheckingAbsent
            &&& action == (WriterAction::EnsureAbsent { thread_id: m.request.thread_id })
        }),
        m.stage is CheckingAbsent ==> (m.next(reply) matches WriterStep::Ask(next, action) ==> {
            &&& reply is Done && next.stage is LockingWriter
            &&& action == (WriterAction::AcquireWriter { thread_id: m.request.thread_id })
        }),
        m.stage is LockingWriter && m.next(reply) is Ask ==> reply is Done,
{
}

} // verus!
