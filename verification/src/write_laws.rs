//! What live recorders are made to write, and how they are closed.

use crate::error::ThreadId;
use crate::error::ThreadStoreError;
use crate::live_actions::LiveRecorder;
use crate::live_actions::WriterAction;
use crate::live_actions::WriterProblem;
use crate::live_actions::WriterReply;
use crate::live_actions::WriterStep;
use crate::live_write::kept_items;
use crate::live_write::AppendItem;
use crate::live_write::RolloutWriteOp;
use crate::live_write::SyncPath;
use crate::live_write::SyncStage;
use crate::live_write::WriteAndProject;
use crate::live_write::WriteStage;
use crate::paths::RolloutPath;
use crate::rollout::ThreadHistoryMode;
use crate::shutdown::Closed;
use crate::shutdown::DiscardStage;
use crate::shutdown::DiscardThread;
use crate::shutdown::ShutdownStage;
use crate::shutdown::ShutdownThread;
use vstd::prelude::*;

verus! {

/// The items whose flag for a mode is set, as JSON, in their order.
pub open spec fn flagged(items: Seq<AppendItem>, mode: ThreadHistoryMode) -> Seq<Seq<char>> {
    items.filter(
        |item: AppendItem|
            {
                ||| mode == ThreadHistoryMode::Legacy && item.persisted.legacy
                ||| mode == ThreadHistoryMode::Paginated && item.persisted.paginated
                ||| mode == ThreadHistoryMode::PaginatedRefsV1 && item.persisted.references
            },
    ).map_values(|item: AppendItem| item.json@)
}

/// Whether texts are those sequences, one for one.
pub open spec fn spells(list: Seq<String>, words: Seq<Seq<char>>) -> bool {
    &&& list.len() == words.len()
    &&& forall|i: int| 0 <= i < list.len() ==> (#[trigger] list[i])@ == words[i]
}

proof fn lemma_flagged(items: Seq<AppendItem>, mode: ThreadHistoryMode)
    ensures
        kept_items(items, mode) == flagged(items, mode),
    decreases items.len(),
{
    reveal(Seq::filter);
    if items.len() > 0 {
        lemma_flagged(items.drop_last(), mode);
    }
    assert(kept_items(items, mode) =~= flagged(items, mode));
}

/// The items that an append records are exactly those whose flag for the history mode of the recorder
/// is set, in order. Where there is none nothing is done. A migrated rollout is looked at first, with
/// the same items.
pub proof fn appends_record_what_the_mode_of_the_recorder_keeps(
    thread_id: ThreadId,
    items: Vec<AppendItem>,
    recorder: LiveRecorder,
    step: WriterStep<WriteAndProject>,
)
    requires
        (WriteAndProject {
            thread_id,
            op: RolloutWriteOp::AppendItems(items),
            stage: WriteStage::FindingRecorder,
        }).steps_to(WriterReply::Recorder(Some(recorder)), step),
    ensures
        ({
            let kept = flagged(items@, recorder.history_mode);
            let migrated = recorder.history_mode == ThreadHistoryMode::PaginatedRefsV1;
            &&& kept.len() == 0 ==> step == WriterStep::<WriteAndProject>::End(Ok(()))
            &&& kept.len() > 0 ==> {
                &&& step is Ask
                &&& step->Ask_0.thread_id == thread_id
                &&& step->Ask_0.op == RolloutWriteOp::AppendItems(items)
            }
            &&& kept.len() > 0 && !migrated ==> {
                &&& step->Ask_1 is Record
                &&& spells(step->Ask_1->Record_items@, kept)
                &&& step->Ask_0.stage == WriteStage::Recording(recorder)
            }
            &&& kept.len() > 0 && migrated ==> {
                let checking = step->Ask_0;
                let written = checking.next(WriterReply::Done);
                &&& step->Ask_1 == (WriterAction::EnsureWritable {
                    thread_id,
                    path: recorder.rollout_path,
                })
                &&& checking.stage is CheckingBefore
                &&& written is Ask
                &&& written->Ask_1 is Record
                &&& spells(written->Ask_1->Record_items@, kept)
                &&& written->Ask_0.stage == WriteStage::Recording(recorder)
            }
        }),
{
    lemma_flagged(items@, recorder.history_mode);
}

/// A write begins with the live writer lock and then asks for the recorder; without one the thread is
/// not live.
pub proof fn writes_begin_with_the_lock_and_the_recorder(thread_id: ThreadId, op: RolloutWriteOp)
    ensures
        ({
            let m = WriteAndProject { thread_id, op, stage: WriteStage::LockingLive };
            let found = m.next(WriterReply::Done);
            &&& m.begun() == WriterStep::Ask(m, WriterAction::LockLive { thread_id })
            &&& found == WriterStep::Ask(
                WriteAndProject { thread_id, op, stage: WriteStage::FindingRecorder },
                WriterAction::GetRecorder { thread_id },
            )
            &&& found->Ask_0.next(WriterReply::Recorder(None))
                == WriterStep::<WriteAndProject>::End(Err(WriterProblem::NotLive { thread_id }))
        }),
{
}

/// Persisting and flushing go to the recorder as they are. A migrated rollout is looked at first.
pub proof fn other_writes_go_to_the_recorder(
    thread_id: ThreadId,
    op: RolloutWriteOp,
    recorder: LiveRecorder,
    step: WriterStep<WriteAndProject>,
)
    requires
        op is Persist || op is Flush,
        (WriteAndProject { thread_id, op, stage: WriteStage::FindingRecorder }).steps_to(
            WriterReply::Recorder(Some(recorder)),
            step,
        ),
    ensures
        ({
            let migrated = recorder.history_mode == ThreadHistoryMode::PaginatedRefsV1;
            let action = if op is Persist {
                WriterAction::Persist
            } else {
                WriterAction::Flush
            };
            let write = WriterStep::Ask(
                WriteAndProject { thread_id, op, stage: WriteStage::Writing(recorder) },
                action,
            );
            &&& !migrated ==> step == write
            &&& migrated ==> {
                &&& step is Ask
                &&& step->Ask_1 == (WriterAction::EnsureWritable {
                    thread_id,
                    path: recorder.rollout_path,
                })
                &&& step->Ask_0.next(WriterReply::Done) == write
            }
        }),
{
}

/// Recorded items are flushed. What is durable is indexed, but for legacy history; a migrated rollout
/// is looked at once more before that.
pub proof fn durable_writes_are_indexed(
    thread_id: ThreadId,
    op: RolloutWriteOp,
    recorder: LiveRecorder,
)
    ensures
        ({
            let recording = WriteAndProject { thread_id, op, stage: WriteStage::Recording(recorder) };
            let writing = WriteAndProject { thread_id, op, stage: WriteStage::Writing(recorder) };
            let durable = writing.next(WriterReply::Done);
            let index = WriterAction::Materialize {
                rollout_id: recorder.rollout_id,
                path: recorder.rollout_path,
            };
            &&& recording.next(WriterReply::Done) == WriterStep::Ask(writing, WriterAction::Flush)
            &&& recorder.history_mode == ThreadHistoryMode::Paginated ==> durable is Ask
                && durable->Ask_1 == index
            &&& recorder.history_mode == ThreadHistoryMode::PaginatedRefsV1 ==> {
                &&& durable is Ask
                &&& durable->Ask_1 == (WriterAction::EnsureWritable {
                    thread_id,
                    path: recorder.rollout_path,
                })
                &&& durable->Ask_0.next(WriterReply::Done) is Ask
                &&& durable->Ask_0.next(WriterReply::Done)->Ask_1 == index
            }
            &&& recorder.history_mode == ThreadHistoryMode::Legacy && op is AppendItems ==> durable
                == WriterStep::<WriteAndProject>::End(Ok(()))
            &&& recorder.history_mode == ThreadHistoryMode::Legacy && !(op is AppendItems)
                ==> durable is Ask && durable->Ask_1 == (WriterAction::ExistingPath {
                path: recorder.rollout_path,
            })
        }),
{
}

/// Whether indexing came to anything or not, an append is done, and any other write lets the index
/// select the rollout of the recorder.
pub proof fn indexed_writes_end_or_select_the_rollout(
    thread_id: ThreadId,
    op: RolloutWriteOp,
    recorder: LiveRecorder,
    reply: WriterReply,
)
    ensures
        ({
            let m = WriteAndProject { thread_id, op, stage: WriteStage::Projecting(recorder) };
            let step = m.next(reply);
            &&& op is AppendItems ==> step == WriterStep::<WriteAndProject>::End(Ok(()))
            &&& !(op is AppendItems) ==> {
                &&& step is Ask
                &&& step->Ask_1 == (WriterAction::ExistingPath { path: recorder.rollout_path })
                &&& step->Ask_0.stage == WriteStage::Syncing(
                    SyncPath {
                        thread_id,
                        rollout_path: recorder.rollout_path,
                        stage: SyncStage::Finding,
                    },
                )
            }
        }),
{
}

/// The index is made to select the rollout exactly where the rollout exists and the index has another
/// path for the thread. Whatever else is found, the selection ends well.
pub proof fn selections_change_only_a_known_other_path(
    thread_id: ThreadId,
    rollout_path: RolloutPath,
    existing: RolloutPath,
    selected: RolloutPath,
    error: String,
)
    ensures
        ({
            let m = SyncPath { thread_id, rollout_path, stage: SyncStage::Finding };
            let found = m.next(WriterReply::Path(Some(existing)));
            let known = found->Ask_0.next(WriterReply::Path(Some(selected)));
            let ended = WriterStep::<SyncPath>::End(Ok(()));
            &&& m.begun() == WriterStep::Ask(m, WriterAction::ExistingPath { path: rollout_path })
            &&& m.next(WriterReply::Path(None)) == ended
            &&& m.next(WriterReply::Failed(error)) == ended
            &&& found is Ask && found->Ask_1 == (WriterAction::GetSelected { thread_id })
            &&& found->Ask_0.next(WriterReply::Path(None)) == ended
            &&& found->Ask_0.next(WriterReply::Failed(error)) == ended
            &&& selected@ == rollout_path@ ==> known == ended
            &&& selected@ != rollout_path@ ==> {
                &&& known is Ask
                &&& known->Ask_1 == (WriterAction::UpdateSelected { thread_id, path: rollout_path })
                &&& known->Ask_0.next(WriterReply::Done) == ended
                &&& known->Ask_0.next(WriterReply::Failed(error)) == ended
            }
        }),
{
}

/// The selection of the rollout is the last part of a write, which does what the selection asks for
/// and ends with it.
pub proof fn writes_end_with_their_selection(
    thread_id: ThreadId,
    op: RolloutWriteOp,
    sync: SyncPath,
    reply: WriterReply,
)
    ensures
        ({
            let m = WriteAndProject { thread_id, op, stage: WriteStage::Syncing(sync) };
            match sync.next(reply) {
                WriterStep::Ask(next, action) => m.next(reply) == WriterStep::Ask(
                    WriteAndProject { thread_id, op, stage: WriteStage::Syncing(next) },
                    action,
                ),
                WriterStep::End(_) => m.next(reply) == WriterStep::<WriteAndProject>::End(Ok(())),
            }
        }),
{
}

/// Until a write is durable, a failure or a refusal ends it, with what was said.
pub proof fn writes_end_with_the_failure_they_are_told(
    m: WriteAndProject,
    error: String,
    rejection: ThreadStoreError,
)
    requires
        !(m.stage is Projecting),
        !(m.stage is Syncing),
    ensures
        m.next(WriterReply::Failed(error)) == WriterStep::<WriteAndProject>::End(
            Err(WriterProblem::Failed(error)),
        ),
        m.next(WriterReply::Rejected(rejection)) == WriterStep::<WriteAndProject>::End(
            Err(WriterProblem::Rejected(rejection)),
        ),
{
}

/// A shutdown takes the lock on the pending metadata, then the live writer lock, and then asks for the
/// recorder. A migrated rollout is looked at before and after the recorder is shut down.
pub proof fn shutdowns_close_the_recorder_under_both_locks(
    thread_id: ThreadId,
    recorder: LiveRecorder,
)
    ensures
        ({
            let m = ShutdownThread { thread_id, stage: ShutdownStage::LockingPending };
            let pending = m.next(WriterReply::Done);
            let live = pending->Ask_0.next(WriterReply::Done);
            let found = live->Ask_0.next(WriterReply::Recorder(Some(recorder)));
            let check = WriterAction::EnsureWritable { thread_id, path: recorder.rollout_path };
            let migrated = recorder.history_mode == ThreadHistoryMode::PaginatedRefsV1;
            let closing = if migrated {
                found->Ask_0.next(WriterReply::Done)
            } else {
                found
            };
            let down = closing->Ask_0.next(WriterReply::Done);
            &&& m.begun() == WriterStep::Ask(m, WriterAction::LockPendingMetadata { thread_id })
            &&& pending is Ask && pending->Ask_1 == (WriterAction::LockLive { thread_id })
            &&& live is Ask && live->Ask_1 == (WriterAction::GetRecorder { thread_id })
            &&& live->Ask_0.next(WriterReply::Recorder(None)) == WriterStep::<ShutdownThread>::End(
                Err(WriterProblem::NotLive { thread_id }),
            )
            &&& found is Ask && closing is Ask && down is Ask
            &&& migrated ==> found->Ask_1 == check && down->Ask_1 == check
            &&& closing->Ask_1 == WriterAction::Shutdown
            &&& recorder.history_mode == ThreadHistoryMode::Paginated ==> down->Ask_1 == (
            WriterAction::Materialize {
                rollout_id: recorder.rollout_id,
                path: recorder.rollout_path,
            })
            &&& recorder.history_mode == ThreadHistoryMode::Legacy ==> down->Ask_1 == (
            WriterAction::ExistingPath { path: recorder.rollout_path })
        }),
{
}

/// A recorder of a migrated rollout that was shut down is indexed where the rollout is still
/// writable; where it is not, that is kept for the end and nothing is indexed.
pub proof fn refused_rollouts_are_not_indexed_at_shutdown(
    thread_id: ThreadId,
    recorder: LiveRecorder,
    rejection: ThreadStoreError,
)
    requires
        recorder.history_mode == ThreadHistoryMode::PaginatedRefsV1,
    ensures
        ({
            let m = ShutdownThread { thread_id, stage: ShutdownStage::CheckingAfter(recorder) };
            let fine = m.next(WriterReply::Done);
            let refused = m.next(WriterReply::Rejected(rejection));
            &&& fine is Ask && fine->Ask_1 == (WriterAction::Materialize {
                rollout_id: recorder.rollout_id,
                path: recorder.rollout_path,
            })
            &&& fine->Ask_0.stage == ShutdownStage::Projecting(
                Closed { rollout_path: recorder.rollout_path, check: None },
            )
            &&& refused is Ask && refused->Ask_1 == (WriterAction::ExistingPath {
                path: recorder.rollout_path,
            })
            &&& refused->Ask_0.stage is Syncing
            &&& refused->Ask_0.stage->Syncing_closed == (Closed {
                rollout_path: recorder.rollout_path,
                check: Some(rejection),
            })
        }),
{
}

/// After the selection a shutdown asks whether the rollout exists, removes the recorder, and gives up
/// the lock. Where the rollout does not exist the pending metadata is forgotten. It ends with the
/// refusal that was kept, or well.
pub proof fn shutdowns_forget_the_metadata_of_missing_rollouts(
    thread_id: ThreadId,
    closed: Closed,
    sync: SyncPath,
    exists: bool,
    reply: WriterReply,
    error: String,
)
    requires
        sync.stage == SyncStage::Updating,
    ensures
        ({
            let at = |stage: ShutdownStage| ShutdownThread { thread_id, stage };
            let end = WriterStep::<ShutdownThread>::End(
                if closed.check is Some {
                    Err(WriterProblem::Rejected(closed.check->0))
                } else {
                    Ok(())
                },
            );
            let selected = at(ShutdownStage::Syncing { sync, closed }).next(reply);
            let asked = at(ShutdownStage::CheckingExists(closed));
            let removing = asked.next(WriterReply::Answer(exists));
            let unlocking = removing->Ask_0.next(reply);
            let after = unlocking->Ask_0.next(reply);
            let indexed = at(ShutdownStage::Projecting(closed)).next(reply);
            &&& indexed is Ask && indexed->Ask_1 == (WriterAction::ExistingPath {
                path: closed.rollout_path,
            })
            &&& selected is Ask && selected->Ask_1 == (WriterAction::Exists {
                path: closed.rollout_path,
            })
            &&& selected->Ask_0.stage == ShutdownStage::CheckingExists(closed)
            &&& removing is Ask && removing->Ask_1 == (WriterAction::RemoveRecorder { thread_id })
            &&& asked.next(WriterReply::Failed(error)) is Ask
            &&& asked.next(WriterReply::Failed(error))->Ask_0.stage == (ShutdownStage::Removing {
                closed,
                exists: true,
            })
            &&& unlocking is Ask && unlocking->Ask_1 == WriterAction::UnlockLive
            &&& exists ==> after == end
            &&& !exists ==> {
                let taken = after->Ask_0.next(WriterReply::Answer(true));
                &&& after is Ask && after->Ask_1 == WriterAction::TakePendingMetadata
                &&& after->Ask_0.next(WriterReply::Answer(false)) == end
                &&& taken is Ask && taken->Ask_1 == (WriterAction::RemovePendingMetadata {
                    thread_id,
                })
                &&& taken->Ask_0.next(reply) == end
            }
        }),
{
}

/// Until the recorder is shut down, a failure or a refusal ends the shutdown, with what was said.
pub proof fn shutdowns_end_with_the_failure_they_are_told(
    m: ShutdownThread,
    error: String,
    rejection: ThreadStoreError,
)
    requires
        m.stage is LockingPending || m.stage is LockingLive || m.stage is FindingRecorder
            || m.stage is CheckingBefore || m.stage is ShuttingDown,
    ensures
        m.next(WriterReply::Failed(error)) == WriterStep::<ShutdownThread>::End(
            Err(WriterProblem::Failed(error)),
        ),
        m.next(WriterReply::Rejected(rejection)) == WriterStep::<ShutdownThread>::End(
            Err(WriterProblem::Rejected(rejection)),
        ),
{
}

/// A discarding takes both locks, takes the pending metadata out and forgets it where there was any,
/// and removes the recorder. Without a recorder the thread was not live.
pub proof fn discardings_forget_the_recorder_and_its_metadata(
    thread_id: ThreadId,
    taken: bool,
    removed: bool,
    error: String,
)
    ensures
        ({
            let m = DiscardThread { thread_id, stage: DiscardStage::LockingPending };
            let pending = m.next(WriterReply::Done);
            let live = pending->Ask_0.next(WriterReply::Done);
            let found = live->Ask_0.next(WriterReply::Answer(taken));
            let removing = if taken {
                found->Ask_0.next(WriterReply::Done)
            } else {
                found
            };
            &&& m.begun() == WriterStep::Ask(m, WriterAction::LockPendingMetadata { thread_id })
            &&& pending is Ask && pending->Ask_1 == (WriterAction::LockLive { thread_id })
            &&& live is Ask && live->Ask_1 == WriterAction::TakePendingMetadata
            &&& found is Ask
            &&& taken ==> found->Ask_1 == (WriterAction::RemovePendingMetadata { thread_id })
            &&& removing is Ask && removing->Ask_1 == (WriterAction::RemoveRecorder { thread_id })
            &&& removing->Ask_0.next(WriterReply::Answer(removed))
                == WriterStep::<DiscardThread>::End(
                if removed {
                    Ok(())
                } else {
                    Err(WriterProblem::NotLive { thread_id })
                },
            )
            &&& m.next(WriterReply::Failed(error)) == WriterStep::<DiscardThread>::End(
                Err(WriterProblem::Failed(error)),
            )
            &&& live->Ask_0.next(WriterReply::Failed(error)) == WriterStep::<DiscardThread>::End(
                Err(WriterProblem::Failed(error)),
            )
        }),
{
}

/// Once its recorder is known a write has one step for each reply: what was recorded is flushed, what
/// was flushed is looked at or projected, and nothing else may follow.
pub proof fn writes_have_one_step_for_each_reply(
    m: WriteAndProject,
    reply: WriterReply,
    step: WriterStep<WriteAndProject>,
)
    requires
        m.steps_to(reply, step),
        m.stage !is FindingRecorder,
    ensures
        step == m.next(reply),
        m.stage is Recording && reply is Done ==> step is Ask && step->Ask_1 is Flush
            && step->Ask_0 == (WriteAndProject {
            stage: WriteStage::Writing(m.stage->Recording_0),
            ..m
        }),
{
}

} // verus!
