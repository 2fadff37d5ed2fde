//! How threads go live: what is looked at, compared and opened, and when that is refused.

use crate::error::ErrorView;
use crate::error::ThreadId;
use crate::error::ThreadStoreError;
use crate::live_actions::head_words;
use crate::live_actions::writer_problem_view;
use crate::live_actions::WriterAction;
use crate::live_actions::WriterProblem;
use crate::live_actions::WriterReply;
use crate::live_actions::WriterStep;
use crate::outside::json_same;
use crate::paths::RolloutPath;
use crate::replay::compared;
use crate::replay::first_head;
use crate::replay::replay_texts;
use crate::replay::ReplayHead;
use crate::replay::ReplayItem;
use crate::resume::CreateStage;
use crate::resume::CreateThread;
use crate::resume::CurrentStage;
use crate::resume::EnsureCurrent;
use crate::resume::ResumeRequest;
use crate::resume::ResumeStage;
use crate::resume::ResumeThread;
use crate::resume::Resumed;
use crate::rollout::ThreadHistoryMode;
use crate::text::decimal;
use vstd::prelude::*;

verus! {

/// A thread is created under its live writer lock, only where it has no live recorder, and under its
/// writer lock. The recorder goes live as the rollout of that identifier, in the mode that was asked
/// for.
pub proof fn created_threads_go_live_as_themselves(
    thread_id: ThreadId,
    history_mode: ThreadHistoryMode,
    error: String,
    rejection: ThreadStoreError,
)
    ensures
        ({
            let m = CreateThread { thread_id, history_mode, stage: CreateStage::LockingLive };
            let locked = m.next(WriterReply::Done);
            let absent = locked->Ask_0.next(WriterReply::Done);
            let owned = absent->Ask_0.next(WriterReply::Done);
            let created = owned->Ask_0.next(WriterReply::Done);
            &&& m.begun() == WriterStep::Ask(m, WriterAction::LockLive { thread_id })
            &&& locked is Ask && locked->Ask_1 == (WriterAction::EnsureAbsent { thread_id })
            &&& absent is Ask && absent->Ask_1 == (WriterAction::AcquireWriter { thread_id })
            &&& owned is Ask && owned->Ask_1 == (WriterAction::CreateRecorder { thread_id })
            &&& created is Ask && created->Ask_1 == (WriterAction::InsertRecorder {
                thread_id,
                rollout_id: thread_id,
                history_mode,
            })
            &&& created->Ask_0.next(WriterReply::Done) == WriterStep::<CreateThread>::End(Ok(()))
        }),
        forall|stage: CreateStage|
            (#[trigger] (CreateThread { thread_id, history_mode, stage }).next(
                WriterReply::Failed(error),
            )) == WriterStep::<CreateThread>::End(Err(WriterProblem::Failed(error))),
        forall|stage: CreateStage|
            (#[trigger] (CreateThread { thread_id, history_mode, stage }).next(
                WriterReply::Rejected(rejection),
            )) == WriterStep::<CreateThread>::End(Err(WriterProblem::Rejected(rejection))),
{
}

/// A requested rollout is compared with the one that the index selects. Where the index selects none,
/// or one that is gone, unreadable or of another thread, the requested rollout passes.
pub proof fn rollouts_pass_where_the_index_knows_no_better(
    thread_id: ThreadId,
    requested: RolloutPath,
    path: RolloutPath,
    selected: RolloutPath,
    head: ReplayHead,
    error: String,
)
    ensures
        ({
            let m = EnsureCurrent { thread_id, requested, stage: CurrentStage::ReadingIndex };
            let known = m.next(WriterReply::Path(Some(path)));
            let exists = known->Ask_0.next(WriterReply::Path(Some(selected)));
            let passes = WriterStep::<EnsureCurrent>::End(Ok(()));
            &&& m.begun() == WriterStep::Ask(m, WriterAction::GetSelected { thread_id })
            &&& m.next(WriterReply::Path(None)) == passes
            &&& m.next(WriterReply::Failed(error)) == WriterStep::<EnsureCurrent>::End(
                Err(WriterProblem::UnreadableIndex { thread_id, error }),
            )
            &&& known is Ask && known->Ask_1 == (WriterAction::ExistingPath { path })
            &&& known->Ask_0.next(WriterReply::Path(None)) == passes
            &&& exists is Ask && exists->Ask_1 == (WriterAction::ReadMetadata { path: selected })
            &&& exists->Ask_0.next(WriterReply::Failed(error)) == passes
            &&& head.id != thread_id ==> exists->Ask_0.next(WriterReply::Metadata(head)) == passes
            &&& head.id == thread_id ==> {
                let own = exists->Ask_0.next(WriterReply::Metadata(head));
                own is Ask && own->Ask_1 == (WriterAction::ExistingPath { path: requested })
            }
        }),
{
}

/// Where the index selects a rollout of the thread, the requested one passes only where it exists and
/// is the same file.
pub proof fn superseded_rollouts_are_refused(
    thread_id: ThreadId,
    requested: RolloutPath,
    selected: RolloutPath,
    existing: RolloutPath,
    same: bool,
    error: String,
)
    ensures
        ({
            let m = EnsureCurrent {
                thread_id,
                requested,
                stage: CurrentStage::FindingRequested { selected },
            };
            let found = m.next(WriterReply::Path(Some(existing)));
            &&& m.next(WriterReply::Path(None)) == WriterStep::<EnsureCurrent>::End(
                Err(WriterProblem::Disappeared { thread_id }),
            )
            &&& found is Ask && found->Ask_1 == (WriterAction::SameFile {
                selected,
                requested: existing,
            })
            &&& found->Ask_0.next(WriterReply::Answer(same)) == WriterStep::<EnsureCurrent>::End(
                if same {
                    Ok(())
                } else {
                    Err(WriterProblem::NotSelected { thread_id, selected, requested: existing })
                },
            )
            &&& found->Ask_0.next(WriterReply::Failed(error)) == WriterStep::<EnsureCurrent>::End(
                Err(
                    WriterProblem::SelectionChanged {
                        thread_id,
                        selected,
                        requested: existing,
                        error,
                    },
                ),
            )
            &&& found->Ask_0.next(WriterReply::JoinFailed(error))
                == WriterStep::<EnsureCurrent>::End(
                Err(WriterProblem::UnjoinedComparison { thread_id, error }),
            )
        }),
{
}

/// A thread is resumed under its live writer lock, only where it has no live recorder, and under its
/// writer lock. Then its rollout is looked up: by the path that was asked for, which is compared with
/// the selected one, or else by the thread.
pub proof fn resumed_threads_are_looked_up_under_their_locks(
    request: ResumeRequest,
    path: RolloutPath,
)
    ensures
        ({
            let m = ResumeThread { request, stage: ResumeStage::LockingLive };
            let thread_id = request.thread_id;
            let locked = m.next(WriterReply::Done);
            let absent = locked->Ask_0.next(WriterReply::Done);
            let owned = absent->Ask_0.next(WriterReply::Done);
            let found = owned->Ask_0.next(WriterReply::Path(Some(path)));
            &&& m.begun() == WriterStep::Ask(m, WriterAction::LockLive { thread_id })
            &&& locked is Ask && locked->Ask_1 == (WriterAction::EnsureAbsent { thread_id })
            &&& absent is Ask && absent->Ask_1 == (WriterAction::AcquireWriter { thread_id })
            &&& owned is Ask && owned->Ask_0.request == request
            &&& owned->Ask_0.next(WriterReply::Path(None)) == WriterStep::<ResumeThread>::End(
                Err(WriterProblem::WithoutRolloutPath { thread_id }),
            )
            &&& found is Ask
            &&& request.rollout_path matches Some(asked) ==> {
                &&& owned->Ask_1 == (WriterAction::ReadThreadByPath {
                    path: asked,
                    include_archived: request.include_archived,
                })
                &&& found->Ask_1 == (WriterAction::GetSelected { thread_id })
                &&& found->Ask_0.stage == (ResumeStage::Comparing {
                    path,
                    check: EnsureCurrent {
                        thread_id,
                        requested: path,
                        stage: CurrentStage::ReadingIndex,
                    },
                })
            }
            &&& request.rollout_path is None ==> {
                &&& owned->Ask_1 == (WriterAction::ReadThread {
                    thread_id,
                    include_archived: request.include_archived,
                })
                &&& found->Ask_1 == (WriterAction::ReadMetadata { path })
            }
        }),
{
}

/// A rollout that was asked for by its path goes on only where the comparison with the selected one
/// lets it pass; a refusal ends the resumption.
pub proof fn resumptions_go_on_only_with_rollouts_that_pass(
    request: ResumeRequest,
    path: RolloutPath,
    check: EnsureCurrent,
    reply: WriterReply,
)
    ensures
        ({
            let m = ResumeThread { request, stage: ResumeStage::Comparing { path, check } };
            match check.next(reply) {
                WriterStep::Ask(next, action) => m.next(reply) == WriterStep::Ask(
                    ResumeThread { request, stage: ResumeStage::Comparing { path, check: next } },
                    action,
                ),
                WriterStep::End(Ok(())) => m.next(reply) == WriterStep::Ask(
                    ResumeThread { request, stage: ResumeStage::ReadingHead { path } },
                    WriterAction::ReadMetadata { path },
                ),
                WriterStep::End(Err(problem)) => m.next(reply)
                    == WriterStep::<ResumeThread>::End(Err(problem)),
            }
        }),
{
}

/// The head of the rollout has to name the thread. A migrated rollout has to be writable. Then its
/// physical identifier is looked up.
pub proof fn resumed_rollouts_belong_to_the_thread(
    request: ResumeRequest,
    path: RolloutPath,
    head: ReplayHead,
    error: String,
)
    ensures
        ({
            let m = ResumeThread { request, stage: ResumeStage::ReadingHead { path } };
            let thread_id = request.thread_id;
            let read = m.next(WriterReply::Metadata(head));
            let migrated = head.history_mode == ThreadHistoryMode::PaginatedRefsV1;
            let resolving = if migrated {
                read->Ask_0.next(WriterReply::Done)
            } else {
                read
            };
            &&& m.next(WriterReply::Failed(error)) == WriterStep::<ResumeThread>::End(
                Err(WriterProblem::UnreadableHead { path, error }),
            )
            &&& head.id != thread_id ==> read == WriterStep::<ResumeThread>::End(
                Err(WriterProblem::OtherThread { path, found: head.id, thread_id }),
            )
            &&& head.id == thread_id ==> {
                &&& read is Ask && resolving is Ask
                &&& migrated ==> read->Ask_1 == (WriterAction::EnsureWritable { thread_id, path })
                &&& resolving->Ask_1 == (WriterAction::ResolveRolloutId {
                    thread_id,
                    path,
                    history_mode: head.history_mode,
                })
                &&& resolving->Ask_0.stage == ResumeStage::Resolving(Resumed { path, head })
            }
        }),
{
}

/// Without a supplied replay the recorder is opened on the rollout, with what was asked for, and goes
/// live with the physical identifier and the mode of the head. Without a working directory nothing is
/// opened.
pub proof fn recorders_are_opened_on_the_resumed_rollout(
    request: ResumeRequest,
    resumed: Resumed,
    rollout_id: ThreadId,
    error: String,
)
    requires
        request.history is None,
    ensures
        ({
            let m = ResumeThread { request, stage: ResumeStage::Resolving(resumed) };
            let opening = m.next(WriterReply::RolloutId(rollout_id));
            let opened = opening->Ask_0.next(WriterReply::Done);
            &&& request.cwd is None ==> opening == WriterStep::<ResumeThread>::End(
                Err(WriterProblem::WithoutCwd),
            )
            &&& request.cwd matches Some(cwd) ==> {
                &&& opening is Ask && opening->Ask_1 == (WriterAction::OpenRecorder {
                    path: resumed.path,
                    cwd,
                    model_provider: request.model_provider,
                    generate_memories: request.generate_memories,
                })
                &&& opening->Ask_0.next(WriterReply::Failed(error))
                    == WriterStep::<ResumeThread>::End(Err(WriterProblem::RecorderFailed { error }))
                &&& opened is Ask && opened->Ask_1 == (WriterAction::InsertRecorder {
                    thread_id: request.thread_id,
                    rollout_id,
                    history_mode: resumed.head.history_mode,
                })
                &&& opened->Ask_0.next(WriterReply::Done) == WriterStep::<ResumeThread>::End(Ok(()))
            }
        }),
{
}

/// A supplied replay needs a head, and the head has to name the thread and the mode of the rollout.
/// For a paginated rollout the current model context is loaded; a legacy one is opened.
pub proof fn supplied_replays_need_the_head_of_the_rollout(
    request: ResumeRequest,
    resumed: Resumed,
    rollout_id: ThreadId,
    history: Vec<ReplayItem>,
    at: int,
)
    requires
        request.history == Some(history),
        0 <= at <= history@.len(),
        forall|i: int| 0 <= i < at ==> (#[trigger] history@[i]).head is None,
        at < history@.len() ==> history@[at].head is Some,
    ensures
        ({
            let m = ResumeThread { request, stage: ResumeStage::Resolving(resumed) };
            let step = m.next(WriterReply::RolloutId(rollout_id));
            let thread_id = request.thread_id;
            let supplied = history@[at].head->0;
            let mode = resumed.head.history_mode;
            &&& at == history@.len() ==> step == WriterStep::<ResumeThread>::End(
                Err(WriterProblem::ReplayWithoutHead { thread_id }),
            )
            &&& at < history@.len() && (supplied.id != thread_id || supplied.history_mode != mode)
                ==> step == WriterStep::<ResumeThread>::End(
                Err(WriterProblem::StaleHead { thread_id, supplied, canonical: resumed.head }),
            )
            &&& at < history@.len() && supplied.id == thread_id && supplied.history_mode == mode && (
            mode == ThreadHistoryMode::Paginated || mode == ThreadHistoryMode::PaginatedRefsV1) ==> {
                &&& step is Ask
                &&& step->Ask_1 == (WriterAction::LoadContext {
                    thread_id,
                    rollout_id,
                    path: resumed.path,
                })
                &&& step->Ask_0.stage == (ResumeStage::LoadingContext { resumed, rollout_id })
            }
            &&& at < history@.len() && supplied.id == thread_id && supplied.history_mode == mode
                && mode == ThreadHistoryMode::Legacy && request.cwd is Some ==> step is Ask
                && step->Ask_1 is OpenRecorder && step->Ask_1->OpenRecorder_path == resumed.path
        }),
{
    heads_are_the_first_of_the_replay(history@, at);
}

/// The head of a replay is the first one in it.
pub proof fn heads_are_the_first_of_the_replay(items: Seq<ReplayItem>, at: int)
    requires
        0 <= at <= items.len(),
        forall|i: int| 0 <= i < at ==> (#[trigger] items[i]).head is None,
        at < items.len() ==> items[at].head is Some,
    ensures
        at == items.len() ==> first_head(items) is None,
        at < items.len() ==> first_head(items) == items[at].head,
    decreases items.len(),
{
    if at > 0 {
        let rest = items.skip(1);
        assert(items[0].head is None);
        assert(forall|i: int| 0 <= i < rest.len() ==> rest[i] == items[i + 1]);
        assert forall|i: int| 0 <= i < at - 1 implies (#[trigger] rest[i]).head is None by {
            assert(rest[i] == items[i + 1]);
        }
        heads_are_the_first_of_the_replay(rest, at - 1);
    }
}

/// A supplied replay is compared with the current model context item by item where both have as many
/// items; where they have not, or an item differs, only what the rollout holds can still save it.
pub proof fn supplied_replays_are_compared_item_by_item(
    request: ResumeRequest,
    resumed: Resumed,
    rollout_id: ThreadId,
    history: Vec<ReplayItem>,
    current: usize,
    same: bool,
    error: String,
)
    requires
        request.history == Some(history),
        request.cwd is Some,
    ensures
        ({
            let m = ResumeThread {
                request,
                stage: ResumeStage::LoadingContext { resumed, rollout_id },
            };
            let loaded = m.next(WriterReply::Items(current));
            let file = ResumeThread {
                request,
                stage: ResumeStage::MatchingFile { resumed, rollout_id, current },
            };
            let matched = file.next(WriterReply::Answer(same));
            &&& loaded is Ask
            &&& history@.len() != current ==> loaded == WriterStep::Ask(
                file,
                WriterAction::MatchFile { path: resumed.path },
            )
            &&& history@.len() == current && current > 0 ==> loaded == WriterStep::Ask(
                ResumeThread {
                    request,
                    stage: ResumeStage::ComparingItems { resumed, rollout_id, index: 0, current },
                },
                WriterAction::EncodeItem { index: 0 },
            )
            &&& history@.len() == current && current == 0 ==> loaded->Ask_1 is OpenRecorder
            &&& same ==> matched is Ask && matched->Ask_1 is OpenRecorder
                && matched->Ask_1->OpenRecorder_path == resumed.path
            &&& !same ==> matched == WriterStep::<ResumeThread>::End(
                Err(
                    WriterProblem::StaleItems {
                        thread_id: request.thread_id,
                        supplied: history@.len() as usize,
                        current,
                    },
                ),
            )
            &&& file.next(WriterReply::Failed(error)) == WriterStep::<ResumeThread>::End(
                Err(WriterProblem::UncomparedReplay { thread_id: request.thread_id, error }),
            )
        }),
{
}

/// An item that agrees leads to the next item, or to the recorder behind the last one; an item that
/// differs leads to what the rollout holds; an item that cannot be read ends the resumption.
pub proof fn agreeing_items_lead_to_the_next(
    request: ResumeRequest,
    resumed: Resumed,
    rollout_id: ThreadId,
    history: Vec<ReplayItem>,
    index: usize,
    current: usize,
    json: String,
    step: WriterStep<ResumeThread>,
)
    requires
        request.history == Some(history),
        request.cwd is Some,
        history@.len() == current,
        index < current,
        (ResumeThread {
            request,
            stage: ResumeStage::ComparingItems { resumed, rollout_id, index, current },
        }).steps_to(WriterReply::Item(json), step),
    ensures
        match json_same(history@[index as int].json@, json@) {
            Ok(true) => {
                &&& step is Ask
                &&& index + 1 < current ==> step == WriterStep::Ask(
                    ResumeThread {
                        request,
                        stage: ResumeStage::ComparingItems {
                            resumed,
                            rollout_id,
                            index: (index + 1) as usize,
                            current,
                        },
                    },
                    WriterAction::EncodeItem { index: (index + 1) as usize },
                )
                &&& index + 1 == current ==> step->Ask_1 is OpenRecorder
                    && step->Ask_1->OpenRecorder_path == resumed.path && step->Ask_0.stage == (
                ResumeStage::Opening { rollout_id, history_mode: resumed.head.history_mode })
            },
            Ok(false) => step == WriterStep::Ask(
                ResumeThread {
                    request,
                    stage: ResumeStage::MatchingFile { resumed, rollout_id, current },
                },
                WriterAction::MatchFile { path: resumed.path },
            ),
            Err((supplied, error)) => {
                &&& step is End && step->End_0 is Err
                &&& writer_problem_view(step->End_0->Err_0) == ErrorView::Internal(
                    (if supplied {
                        "failed to compare supplied replay item "@
                    } else {
                        "failed to compare canonical replay item "@
                    }) + decimal(index as nat) + " for thread "@ + request.thread_id.text() + ": "@
                        + error,
                )
            },
        },
{
}

/// The texts of a replay are those of its items, in order.
pub proof fn replays_are_compared_by_their_json(items: Seq<ReplayItem>, i: int)
    ensures
        replay_texts(items).len() == items.len(),
        0 <= i < items.len() ==> replay_texts(items)[i] == items[i].json@,
{
}

/// Locks, lookups and checks that fail or are refused end the resumption, with what was said.
pub proof fn resumptions_end_with_the_failure_they_are_told(
    m: ResumeThread,
    error: String,
    rejection: ThreadStoreError,
)
    requires
        !(m.stage is Comparing),
    ensures
        m.stage is LockingLive || m.stage is CheckingAbsent || m.stage is LockingWriter || m.stage
            is ReadingByPath || m.stage is ReadingThread || m.stage is CheckingWritable || m.stage
            is Resolving || m.stage is LoadingContext || m.stage is Inserting ==> m.next(
            WriterReply::Failed(error),
        ) == WriterStep::<ResumeThread>::End(Err(WriterProblem::Failed(error))),
        m.next(WriterReply::Rejected(rejection)) == WriterStep::<ResumeThread>::End(
            Err(WriterProblem::Rejected(rejection)),
        ),
{
}

/// A thread that is not live is not found; what changed under the caller is a conflict; a missing
/// working directory is an invalid request; the rest are internal errors. A refusal is handed on.
pub proof fn writer_problems_are_reported_by_their_kind(
    thread_id: ThreadId,
    path: RolloutPath,
    other: RolloutPath,
    found: ThreadId,
    supplied: ReplayHead,
    canonical: ReplayHead,
    n: usize,
    error: String,
    rejection: ThreadStoreError,
)
    ensures
        writer_problem_view(WriterProblem::Rejected(rejection)) == rejection@,
        writer_problem_view(WriterProblem::Failed(error)) == ErrorView::Internal(error@),
        writer_problem_view(WriterProblem::NotLive { thread_id }) == ErrorView::ThreadNotFound(
            thread_id,
        ),
        writer_problem_view(WriterProblem::WithoutCwd) is InvalidRequest,
        writer_problem_view(WriterProblem::OtherThread { path, found, thread_id }) is Conflict,
        writer_problem_view(WriterProblem::ReplayWithoutHead { thread_id }) is Conflict,
        writer_problem_view(WriterProblem::StaleHead { thread_id, supplied, canonical }) is Conflict,
        writer_problem_view(WriterProblem::StaleItems { thread_id, supplied: n, current: n })
            is Conflict,
        writer_problem_view(WriterProblem::Disappeared { thread_id }) is Conflict,
        writer_problem_view(
            WriterProblem::SelectionChanged { thread_id, selected: path, requested: other, error },
        ) is Conflict,
        writer_problem_view(
            WriterProblem::NotSelected { thread_id, selected: path, requested: other },
        ) == ErrorView::Conflict(
            "requested rollout for thread "@ + thread_id.text() + " is no longer selected ("@
                + other@ + "); current rollout is "@ + path@ + "; reload before resuming"@,
        ),
        writer_problem_view(WriterProblem::WithoutRolloutPath { thread_id }) is Internal,
        writer_problem_view(WriterProblem::UnreadableHead { path, error }) is Internal,
        writer_problem_view(WriterProblem::UncomparedReplay { thread_id, error }) is Internal,
        writer_problem_view(WriterProblem::RecorderFailed { error }) is Internal,
        writer_problem_view(WriterProblem::UnreadableIndex { thread_id, error }) is Internal,
        writer_problem_view(WriterProblem::UnjoinedComparison { thread_id, error }) is Internal,
        writer_problem_view(WriterProblem::UnexpectedReply) is Internal,
{
}

/// What is stale, changed or gone is told with the thread, and with what was supplied and what is
/// current, in that order.
pub proof fn conflicts_tell_what_was_supplied_and_what_is_current(
    thread_id: ThreadId,
    path: RolloutPath,
    found: ThreadId,
    supplied: ReplayHead,
    canonical: ReplayHead,
    n: usize,
    m: usize,
    error: String,
)
    ensures
        writer_problem_view(WriterProblem::OtherThread { path, found, thread_id })
            == ErrorView::Conflict(
            "rollout "@ + path@ + " now belongs to thread "@ + found.text() + ", expected "@
                + thread_id.text(),
        ),
        writer_problem_view(WriterProblem::StaleItems { thread_id, supplied: n, current: m })
            == ErrorView::Conflict(
            "supplied replay for thread "@ + thread_id.text() + " is stale ("@ + decimal(n as nat)
                + " items versus "@ + decimal(m as nat)
                + " in the current model context); reload before resuming"@,
        ),
        writer_problem_view(WriterProblem::StaleHead { thread_id, supplied, canonical })
            == ErrorView::Conflict(
            "supplied replay for thread "@ + thread_id.text() + " is stale ("@ + head_words(
                supplied,
            ) + "); canonical head uses "@ + head_words(canonical) + "; reload before resuming"@,
        ),
        head_words(supplied) == "id "@ + supplied.id.text() + ", mode "@
            + supplied.history_mode.name(),
        writer_problem_view(WriterProblem::UnreadableHead { path, error }) == ErrorView::Internal(
            "failed to read canonical session metadata "@ + path@ + ": "@ + error@,
        ),
        writer_problem_view(WriterProblem::UnreadableIndex { thread_id, error })
            == ErrorView::Internal(
            "failed to read selected rollout for thread "@ + thread_id.text() + ": "@ + error@,
        ),
        ThreadHistoryMode::Legacy.name() == "legacy"@,
        ThreadHistoryMode::Paginated.name() == "paginated"@,
        ThreadHistoryMode::PaginatedRefsV1.name() == "paginated_refs_v1"@,
{
}

/// But for the comparison of items a resumption has one step for each reply: it is over once the
/// recorder is kept, and a recorder that cannot be opened ends it.
pub proof fn resumptions_have_one_step_for_each_reply(
    m: ResumeThread,
    reply: WriterReply,
    error: String,
    step: WriterStep<ResumeThread>,
)
    requires
        m.steps_to(reply, step),
        m.stage !is ComparingItems,
    ensures
        step == m.next(reply),
        m.stage is Inserting && reply is Done ==> step == WriterStep::<ResumeThread>::End(Ok(())),
        m.stage is Opening && reply == WriterReply::Failed(error) ==> step == WriterStep::<
            ResumeThread,
        >::End(Err(WriterProblem::RecorderFailed { error })),
{
}

} // verus!
