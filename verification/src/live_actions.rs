//! What a live writer asks of the store, and why it may be refused.

use crate::error::ErrorView;
use crate::error::ThreadId;
use crate::error::ThreadStoreError;
use crate::paths::RolloutPath;
use crate::replay::ReplayHead;
use crate::rollout::ThreadHistoryMode;
use crate::text::concat2;
use crate::text::concat3;
use crate::text::concat4;
use crate::text::concat5;
use crate::text::decimal;
use crate::text::decimal_text;
use vstd::prelude::*;

verus! {

/// Something that a live writer asks for.
#[allow(inconsistent_fields)]
#[derive(Debug, PartialEq, Eq)]
pub enum WriterAction {
    /// Wait for the live writer lock of a thread.
    LockLive { thread_id: ThreadId },
    /// Give up the live writer lock.
    UnlockLive,
    /// Wait for the lock on the pending metadata of a thread.
    LockPendingMetadata { thread_id: ThreadId },
    /// Take the pending metadata out. Was there any?
    TakePendingMetadata,
    /// Forget that a thread has pending metadata.
    RemovePendingMetadata { thread_id: ThreadId },
    /// Make sure that a thread has no live recorder.
    EnsureAbsent { thread_id: ThreadId },
    /// Take the writer lock of a thread.
    AcquireWriter { thread_id: ThreadId },
    /// Make the recorder of a new thread.
    CreateRecorder { thread_id: ThreadId },
    /// Open a recorder on an existing rollout.
    OpenRecorder {
        path: RolloutPath,
        cwd: RolloutPath,
        model_provider: String,
        generate_memories: bool,
    },
    /// Let a recorder go live.
    InsertRecorder { thread_id: ThreadId, rollout_id: ThreadId, history_mode: ThreadHistoryMode },
    /// Remove the live recorder of a thread. Was there one?
    RemoveRecorder { thread_id: ThreadId },
    /// The live recorder of a thread.
    GetRecorder { thread_id: ThreadId },
    /// Which rollout does the thread of a rollout have?
    ReadThreadByPath { path: RolloutPath, include_archived: bool },
    /// Which rollout does a thread have?
    ReadThread { thread_id: ThreadId, include_archived: bool },
    /// Which rollout does the index select for a thread, if any?
    GetSelected { thread_id: ThreadId },
    /// Let the index select a rollout.
    UpdateSelected { thread_id: ThreadId, path: RolloutPath },
    /// Under which path does a rollout exist, compressed or not?
    ExistingPath { path: RolloutPath },
    /// Does a path exist?
    Exists { path: RolloutPath },
    /// Which thread does a rollout belong to, and how is it stored?
    ReadMetadata { path: RolloutPath },
    /// Are two paths the same file?
    SameFile { selected: RolloutPath, requested: RolloutPath },
    /// Make sure that a migrated rollout may be written.
    EnsureWritable { thread_id: ThreadId, path: RolloutPath },
    /// Which physical rollout does a path hold?
    ResolveRolloutId { thread_id: ThreadId, path: RolloutPath, history_mode: ThreadHistoryMode },
    /// Load the current model context of a rollout. How many items has it?
    LoadContext { thread_id: ThreadId, rollout_id: ThreadId, path: RolloutPath },
    /// An item of the current model context as JSON.
    EncodeItem { index: usize },
    /// Does a rollout hold the supplied replay as it stands?
    MatchFile { path: RolloutPath },
    /// Hand items to the recorder.
    Record { items: Vec<String> },
    /// Make durable what the recorder holds.
    Flush,
    /// Make the thread durable before it has any item.
    Persist,
    /// Shut the recorder down.
    Shutdown,
    /// Index the durable history of a rollout.
    Materialize { rollout_id: ThreadId, path: RolloutPath },
}

/// A live recorder.
#[derive(Debug, PartialEq, Eq)]
pub struct LiveRecorder {
    pub rollout_path: RolloutPath,
    pub rollout_id: ThreadId,
    pub history_mode: ThreadHistoryMode,
}

/// What was found or done.
#[derive(Debug, PartialEq, Eq)]
pub enum WriterReply {
    Done,
    Answer(bool),
    Path(Option<RolloutPath>),
    Metadata(ReplayHead),
    RolloutId(ThreadId),
    /// The current model context has so many items.
    Items(usize),
    /// An item as JSON.
    Item(String),
    Recorder(Option<LiveRecorder>),
    /// The work could not be waited for.
    JoinFailed(String),
    Rejected(ThreadStoreError),
    Failed(String),
}

/// Why a live writer is refused or fails.
#[allow(inconsistent_fields)]
#[derive(Debug, PartialEq, Eq)]
pub enum WriterProblem {
    /// Another operation failed or was refused.
    Rejected(ThreadStoreError),
    /// The recorder or the disk failed with a message.
    Failed(String),
    /// The thread has no live recorder.
    NotLive { thread_id: ThreadId },
    /// The thread has no rollout.
    WithoutRolloutPath { thread_id: ThreadId },
    /// The head of the rollout cannot be read.
    UnreadableHead { path: RolloutPath, error: String },
    /// The rollout is that of another thread.
    OtherThread { path: RolloutPath, found: ThreadId, thread_id: ThreadId },
    /// The supplied replay has no head.
    ReplayWithoutHead { thread_id: ThreadId },
    /// The head of the supplied replay is not the current one.
    StaleHead { thread_id: ThreadId, supplied: ReplayHead, canonical: ReplayHead },
    /// The items of the supplied replay are not the current ones.
    StaleItems { thread_id: ThreadId, supplied: usize, current: usize },
    /// The supplied replay cannot be compared with the rollout.
    UncomparedReplay { thread_id: ThreadId, error: String },
    /// The thread is resumed without a working directory.
    WithoutCwd,
    /// The recorder cannot be opened.
    RecorderFailed { error: String },
    /// The index cannot be read.
    UnreadableIndex { thread_id: ThreadId, error: String },
    /// The requested rollout is gone.
    Disappeared { thread_id: ThreadId },
    /// The comparison of two files could not be waited for.
    UnjoinedComparison { thread_id: ThreadId, error: String },
    /// Two files could not be compared.
    SelectionChanged {
        thread_id: ThreadId,
        selected: RolloutPath,
        requested: RolloutPath,
        error: String,
    },
    /// The requested rollout is not the selected one.
    NotSelected { thread_id: ThreadId, selected: RolloutPath, requested: RolloutPath },
    /// The reply does not answer what was asked.
    UnexpectedReply,
}

/// The words for a head.
pub open spec fn head_words(head: ReplayHead) -> Seq<char> {
    "id "@ + head.id.text() + ", mode "@ + head.history_mode.name()
}

fn head_text(head: &ReplayHead) -> (r: String)
    ensures
        r@ == head_words(*head),
{
    concat4("id ", head.id.to_text().as_str(), ", mode ", head.history_mode.as_str())
}

/// The error that a problem is reported as.
pub open spec fn writer_problem_view(problem: WriterProblem) -> ErrorView {
    match problem {
        WriterProblem::Rejected(error) => error@,
        WriterProblem::Failed(message) => ErrorView::Internal(message@),
        WriterProblem::NotLive { thread_id } => ErrorView::ThreadNotFound(thread_id),
        WriterProblem::WithoutRolloutPath { thread_id } => ErrorView::Internal(
            "thread "@ + thread_id.text() + " does not have a rollout path"@,
        ),
        WriterProblem::UnreadableHead { path, error } => ErrorView::Internal(
            "failed to read canonical session metadata "@ + path@ + ": "@ + error@,
        ),
        WriterProblem::OtherThread { path, found, thread_id } => ErrorView::Conflict(
            "rollout "@ + path@ + " now belongs to thread "@ + found.text() + ", expected "@
                + thread_id.text(),
        ),
        WriterProblem::ReplayWithoutHead { thread_id } => ErrorView::Conflict(
            "supplied replay for thread "@ + thread_id.text()
                + " has no canonical session metadata; reload before resuming"@,
        ),
        WriterProblem::StaleHead { thread_id, supplied, canonical } => ErrorView::Conflict(
            "supplied replay for thread "@ + thread_id.text() + " is stale ("@ + head_words(
                supplied,
            ) + "); canonical head uses "@ + head_words(canonical) + "; reload before resuming"@,
        ),
        WriterProblem::StaleItems { thread_id, supplied, current } => ErrorView::Conflict(
            "supplied replay for thread "@ + thread_id.text() + " is stale ("@ + decimal(
                supplied as nat,
            ) + " items versus "@ + decimal(current as nat)
                + " in the current model context); reload before resuming"@,
        ),
        WriterProblem::UncomparedReplay { thread_id, error } => ErrorView::Internal(
            "failed to compare supplied replay with selected rollout for thread "@
                + thread_id.text() + ": "@ + error@,
        ),
        WriterProblem::WithoutCwd => ErrorView::InvalidRequest(
            "local thread store requires a cwd"@,
        ),
        WriterProblem::RecorderFailed { error } => ErrorView::Internal(
            "failed to resume local thread recorder: "@ + error@,
        ),
        WriterProblem::UnreadableIndex { thread_id, error } => ErrorView::Internal(
            "failed to read selected rollout for thread "@ + thread_id.text() + ": "@ + error@,
        ),
        WriterProblem::Disappeared { thread_id } => ErrorView::Conflict(
            "requested rollout for thread "@ + thread_id.text()
                + " disappeared before resume; reload before resuming"@,
        ),
        WriterProblem::UnjoinedComparison { thread_id, error } => ErrorView::Internal(
            "failed to compare selected rollout for thread "@ + thread_id.text() + ": "@ + error@,
        ),
        WriterProblem::SelectionChanged { thread_id, selected, requested, error } => {
            ErrorView::Conflict(
                "selected rollout for thread "@ + thread_id.text() + " changed while resuming ("@
                    + selected@ + " versus "@ + requested@ + "): "@ + error@
                    + "; reload before resuming"@,
            )
        },
        WriterProblem::NotSelected { thread_id, selected, requested } => ErrorView::Conflict(
            "requested rollout for thread "@ + thread_id.text() + " is no longer selected ("@
                + requested@ + "); current rollout is "@ + selected@ + "; reload before resuming"@,
        ),
        WriterProblem::UnexpectedReply => ErrorView::Internal(
            "the reply does not answer the action"@,
        ),
    }
}

fn internal(message: String) -> (r: ThreadStoreError)
    ensures
        r@ == ErrorView::Internal(message@),
{
    ThreadStoreError::Internal { message }
}

fn conflict(message: String) -> (r: ThreadStoreError)
    ensures
        r@ == ErrorView::Conflict(message@),
{
    ThreadStoreError::Conflict { message }
}

impl WriterProblem {
    /// The error that the problem is reported as.
    pub fn to_error(self) -> (r: ThreadStoreError)
        ensures
            r@ == writer_problem_view(self),
    {
        match self {
            WriterProblem::Rejected(error) => error,
            WriterProblem::Failed(message) => internal(message),
            WriterProblem::NotLive { thread_id } => ThreadStoreError::ThreadNotFound { thread_id },
            WriterProblem::WithoutRolloutPath { thread_id } => internal(
                concat3("thread ", thread_id.to_text().as_str(), " does not have a rollout path"),
            ),
            WriterProblem::UnreadableHead { path, error } => internal(
                concat4(
                    "failed to read canonical session metadata ",
                    path.text.as_str(),
                    ": ",
                    error.as_str(),
                ),
            ),
            WriterProblem::OtherThread { path, found, thread_id } => {
                let head: String = concat5(
                    "rollout ",
                    path.text.as_str(),
                    " now belongs to thread ",
                    found.to_text().as_str(),
                    ", expected ",
                );
                conflict(concat2(head.as_str(), thread_id.to_text().as_str()))
            },
            WriterProblem::ReplayWithoutHead { thread_id } => conflict(
                concat3(
                    "supplied replay for thread ",
                    thread_id.to_text().as_str(),
                    " has no canonical session metadata; reload before resuming",
                ),
            ),
            WriterProblem::StaleHead { thread_id, supplied, canonical } => {
                let head: String = concat5(
                    "supplied replay for thread ",
                    thread_id.to_text().as_str(),
                    " is stale (",
                    head_text(&supplied).as_str(),
                    "); canonical head uses ",
                );
                conflict(
                    concat3(
                        head.as_str(),
                        head_text(&canonical).as_str(),
                        "; reload before resuming",
                    ),
                )
            },
            WriterProblem::StaleItems { thread_id, supplied, current } => {
                let head: String = concat5(
                    "supplied replay for thread ",
                    thread_id.to_text().as_str(),
                    " is stale (",
                    decimal_text(supplied as u64).as_str(),
                    " items versus ",
                );
                conflict(
                    concat3(
                        head.as_str(),
                        decimal_text(current as u64).as_str(),
                        " in the current model context); reload before resuming",
                    ),
                )
            },
            WriterProblem::UncomparedReplay { thread_id, error } => internal(
                concat4(
                    "failed to compare supplied replay with selected rollout for thread ",
                    thread_id.to_text().as_str(),
                    ": ",
                    error.as_str(),
                ),
            ),
            WriterProblem::WithoutCwd => ThreadStoreError::InvalidRequest {
                message: "local thread store requires a cwd".to_owned(),
            },
            WriterProblem::RecorderFailed { error } => internal(
                concat2("failed to resume local thread recorder: ", error.as_str()),
            ),
            WriterProblem::UnreadableIndex { thread_id, error } => internal(
                concat4(
                    "failed to read selected rollout for thread ",
                    thread_id.to_text().as_str(),
                    ": ",
                    error.as_str(),
                ),
            ),
            WriterProblem::Disappeared { thread_id } => conflict(
                concat3(
                    "requested rollout for thread ",
                    thread_id.to_text().as_str(),
                    " disappeared before resume; reload before resuming",
                ),
            ),
            WriterProblem::UnjoinedComparison { thread_id, error } => internal(
                concat4(
                    "failed to compare selected rollout for thread ",
                    thread_id.to_text().as_str(),
                    ": ",
                    error.as_str(),
                ),
            ),
            WriterProblem::SelectionChanged { thread_id, selected, requested, error } => {
                let head: String = concat5(
                    "selected rollout for thread ",
                    thread_id.to_text().as_str(),
                    " changed while resuming (",
                    selected.text.as_str(),
                    " versus ",
                );
                conflict(
                    concat5(
                        head.as_str(),
                        requested.text.as_str(),
                        "): ",
                        error.as_str(),
                        "; reload before resuming",
                    ),
                )
            },
            WriterProblem::NotSelected { thread_id, selected, requested } => {
                let head: String = concat5(
                    "requested rollout for thread ",
                    thread_id.to_text().as_str(),
                    " is no longer selected (",
                    requested.text.as_str(),
                    "); current rollout is ",
                );
                conflict(
                    concat3(head.as_str(), selected.text.as_str(), "; reload before resuming"),
                )
            },
            WriterProblem::UnexpectedReply => internal(
                "the reply does not answer the action".to_owned(),
            ),
        }
    }
}

/// Where an operation of a live writer stands: it asks for something, or it has ended.
#[derive(Debug)]
pub enum WriterStep<M> {
    Ask(M, WriterAction),
    End(Result<(), WriterProblem>),
}

/// The problem that a reply stands for, where it does not carry an operation on.
pub open spec fn writer_reply_problem(reply: WriterReply) -> WriterProblem {
    match reply {
        WriterReply::Rejected(error) => WriterProblem::Rejected(error),
        WriterReply::Failed(message) => WriterProblem::Failed(message),
        _ => WriterProblem::UnexpectedReply,
    }
}

/// The problem that a reply stands for, where it does not carry an operation on.
pub fn writer_problem_of(reply: WriterReply) -> (r: WriterProblem)
    ensures
        r == writer_reply_problem(reply),
{
    match reply {
        WriterReply::Rejected(error) => WriterProblem::Rejected(error),
        WriterReply::Failed(message) => WriterProblem::Failed(message),
        _ => WriterProblem::UnexpectedReply,
    }
}

/// The path of the rollout that a live recorder writes, where there is one.
pub fn rollout_path(thread_id: ThreadId, recorder: Option<LiveRecorder>) -> (r: Result<
    RolloutPath,
    WriterProblem,
>)
    ensures
        r == match recorder {
            Some(recorder) => Ok::<RolloutPath, WriterProblem>(recorder.rollout_path),
            None => Err::<RolloutPath, WriterProblem>((WriterProblem::NotLive { thread_id })),
        },
{
    match recorder {
        Some(recorder) => Ok(recorder.rollout_path),
        None => Err(WriterProblem::NotLive { thread_id }),
    }
}

} // verus!
