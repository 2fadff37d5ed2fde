//! What becomes of each kind of source record in canonical history.

use crate::canonicalizer::are_written;
use crate::canonicalizer::idle;
use crate::canonicalizer::implicit_finished;
use crate::canonicalizer::is_written;
use crate::canonicalizer::processed;
use crate::canonicalizer::unresolved_selection;
use crate::canonicalizer::AddedItem;
use crate::canonicalizer::OpenTurn;
use crate::canonicalizer::TurnState;
use crate::canonicalizer::Written;
use crate::error::ThreadId;
use crate::outside::rfc3339_instant;
use crate::rollout::EventMsg;
use crate::rollout::ItemCompleted;
use crate::rollout::LegacyConversion;
use crate::rollout::LegacyEvent;
use crate::rollout::LegacyItemDraft;
use crate::rollout::ResponseBody;
use crate::rollout::ResponseItemEnvelope;
use crate::rollout::RolloutItem;
use crate::rollout::RolloutLine;
use crate::rollout::SessionMeta;
use crate::rollout::TurnAborted;
use crate::rollout::TurnComplete;
use crate::rollout::TurnStarted;
use crate::rollout::UserMessage;
use crate::text::decimal;
use vstd::prelude::*;

verus! {

/// Whether a source record has an index of its own.
pub open spec fn has_index(state: TurnState) -> bool {
    state.source_line_index < u64::MAX
}

/// Whether one more source record was counted, and nothing else about the turns changed.
pub open spec fn only_counted(before: TurnState, after: TurnState) -> bool {
    &&& after.thread_id == before.thread_id
    &&& after.source_line_index == before.source_line_index + 1
    &&& after.next_item_index == before.next_item_index
    &&& after.active == before.active
    &&& after.known_turns == before.known_turns
    &&& after.reasoning == before.reasoning
}

/// Whether a timestamp is that instant, in seconds and in milliseconds.
pub open spec fn dated(timestamp: String, seconds: i64, millis: i64) -> bool {
    rfc3339_instant(timestamp@) == Ok::<(i64, i64), Seq<char>>((seconds, millis))
}

/// Every record that is neither session metadata nor an event nor a response item is written exactly
/// once and unchanged, and changes nothing about the turns.
pub proof fn other_records_are_written_unchanged(state: TurnState, line: RolloutLine)
    requires
        has_index(state),
        !(line.item is SessionMeta),
        !(line.item is EventMsg),
        !(line.item is ResponseItem),
    ensures
        processed(state, line).failure is None,
        processed(state, line).writes == seq![Written::Source(line.item)],
        only_counted(state, processed(state, line).state),
{
}

/// Session metadata of the source is not written again: the head of the history stands for it.
pub proof fn session_metadata_is_not_repeated(
    state: TurnState,
    timestamp: String,
    ordinal: Option<u64>,
    meta: SessionMeta,
)
    requires
        has_index(state),
    ensures
        ({
            let line = RolloutLine { timestamp, ordinal, item: RolloutItem::SessionMeta(meta) };
            let step = processed(state, line);
            &&& step.failure is None
            &&& step.writes.len() == 0
            &&& only_counted(state, step.state)
        }),
{
}

/// A history with too many records fails before anything of the record is written.
pub proof fn records_past_the_last_index_fail(state: TurnState, line: RolloutLine)
    requires
        !has_index(state),
    ensures
        processed(state, line).failure == Some("legacy rollout line index overflow"@),
        processed(state, line).writes.len() == 0,
        processed(state, line).state == state,
{
}

/// A response item is written exactly once and unchanged, before anything else. Without a hook prompt
/// of the user that is all; an item of an unsupported kind fails.
pub proof fn responses_are_written_unchanged(
    state: TurnState,
    timestamp: String,
    ordinal: Option<u64>,
    envelope: ResponseItemEnvelope,
)
    requires
        has_index(state),
    ensures
        ({
            let item = RolloutItem::ResponseItem(envelope);
            let step = processed(state, RolloutLine { timestamp, ordinal, item });
            let by_user = envelope.item.body matches ResponseBody::Message { role, .. } && role@
                == "user"@;
            &&& envelope.item.body is Other ==> step.failure == Some(
                "legacy rollout contains an unsupported response item"@,
            ) && step.writes.len() == 0
            &&& !(envelope.item.body is Other) ==> step.writes.len() > 0 && step.writes[0]
                == Written::Source(item)
            &&& !(envelope.item.body is Other) && (!by_user || envelope.item.hook_prompt is None)
                ==> {
                &&& step.failure is None
                &&& step.writes == seq![Written::Source(item)]
                &&& only_counted(state, step.state)
            }
        }),
{
}

/// The hook prompt of a user message is completed right behind the message, in the open turn or in
/// one that the message implies.
pub proof fn hook_prompts_are_completed_in_a_turn(
    state: TurnState,
    timestamp: String,
    ordinal: Option<u64>,
    envelope: ResponseItemEnvelope,
    prompt: String,
    seconds: i64,
    millis: i64,
)
    requires
        has_index(state),
        envelope.item.body matches ResponseBody::Message { role, .. } && role@ == "user"@,
        envelope.item.hook_prompt == Some(prompt),
        dated(timestamp, seconds, millis),
    ensures
        ({
            let item = RolloutItem::ResponseItem(envelope);
            let step = processed(state, RolloutLine { timestamp, ordinal, item });
            let implied = "rollout-"@ + decimal(state.source_line_index as nat);
            let turn = if state.active is Some {
                state.active->0.id
            } else {
                implied
            };
            let added = Written::Added {
                turn,
                item: AddedItem::HookPrompt(prompt@),
                at_ms: millis,
                thread_id: state.thread_id,
            };
            &&& step.failure is None
            &&& step.state.reasoning is None
            &&& step.state.next_item_index == state.next_item_index
            &&& step.state.source_line_index == state.source_line_index + 1
            &&& state.active is Some ==> step.writes == seq![Written::Source(item), added]
                && step.state.active == state.active && step.state.known_turns == state.known_turns
            &&& state.active is None ==> step.writes == seq![
                Written::Source(item),
                Written::Started { turn: implied, at: seconds },
                added,
            ] && step.state.active == Some(
                OpenTurn { id: implied, explicit: false, saw_user: false },
            ) && step.state.known_turns == state.known_turns.insert(implied)
        }),
{
}

/// The start of a turn is written unchanged and opens the turn. An implied turn that is open ends
/// before.
pub proof fn started_turns_are_opened(
    state: TurnState,
    timestamp: String,
    ordinal: Option<u64>,
    event: TurnStarted,
    seconds: i64,
    millis: i64,
)
    requires
        has_index(state),
        dated(timestamp, seconds, millis),
    ensures
        ({
            let item = RolloutItem::EventMsg(EventMsg::TurnStarted(event));
            let step = processed(state, RolloutLine { timestamp, ordinal, item });
            &&& step.failure is None
            &&& step.state.active == Some(
                OpenTurn { id: event.turn_id@, explicit: true, saw_user: false },
            )
            &&& step.state.known_turns == state.known_turns.insert(event.turn_id@)
            &&& step.state.reasoning is None
            &&& step.state.next_item_index == state.next_item_index
            &&& step.state.source_line_index == state.source_line_index + 1
            &&& state.active is None || state.active->0.explicit ==> step.writes == seq![
                Written::Source(item),
            ]
            &&& state.active is Some && !state.active->0.explicit ==> step.writes == seq![
                Written::Completed { turn: state.active->0.id, at: seconds },
                Written::Source(item),
            ]
        }),
{
}

/// The completion of a turn is written unchanged. It closes the turn where that is the open one, and
/// no other; reasoning ends either way.
pub proof fn completed_turns_are_closed(
    state: TurnState,
    timestamp: String,
    ordinal: Option<u64>,
    event: TurnComplete,
)
    requires
        has_index(state),
    ensures
        ({
            let item = RolloutItem::EventMsg(EventMsg::TurnComplete(event));
            let step = processed(state, RolloutLine { timestamp, ordinal, item });
            &&& step.failure is None
            &&& step.writes == seq![Written::Source(item)]
            &&& step.state.reasoning is None
            &&& step.state.known_turns == state.known_turns
            &&& step.state.next_item_index == state.next_item_index
            &&& step.state.source_line_index == state.source_line_index + 1
            &&& state.active is Some && state.active->0.id == event.turn_id@
                ==> step.state.active is None
            &&& state.active is None || state.active->0.id != event.turn_id@ ==> step.state.active
                == state.active
        }),
{
}

/// An abortion is written with the turn that it names, or else with the open one, and closes it.
pub proof fn aborted_turns_are_closed(
    state: TurnState,
    timestamp: String,
    ordinal: Option<u64>,
    event: TurnAborted,
)
    requires
        has_index(state),
    ensures
        ({
            let item = RolloutItem::EventMsg(EventMsg::TurnAborted(event));
            let step = processed(state, RolloutLine { timestamp, ordinal, item });
            &&& step.failure is None
            &&& step.writes.len() == 1
            &&& step.writes[0] is Aborted
            &&& step.writes[0]->Aborted_payload == event.payload
            &&& step.state.reasoning is None
            &&& step.state.known_turns == state.known_turns
            &&& step.state.next_item_index == state.next_item_index
            &&& step.state.source_line_index == state.source_line_index + 1
            &&& event.turn_id is Some ==> step.writes[0]->Aborted_turn == Some(event.turn_id->0@)
            &&& event.turn_id is Some && state.active is Some && state.active->0.id
                == event.turn_id->0@ ==> step.state.active is None
            &&& event.turn_id is Some && (state.active is None || state.active->0.id
                != event.turn_id->0@) ==> step.state.active == state.active
            &&& event.turn_id is None && state.active is Some ==> step.writes[0]->Aborted_turn
                == Some(state.active->0.id) && step.state.active is None
            &&& event.turn_id is None && state.active is None ==> step.writes[0]->Aborted_turn
                is None && step.state.active is None
        }),
{
}

/// A completed item of the source is written once, under this thread. It ends reasoning.
pub proof fn completed_items_are_rehomed(
    state: TurnState,
    timestamp: String,
    ordinal: Option<u64>,
    event: ItemCompleted,
)
    requires
        has_index(state),
    ensures
        ({
            let item = RolloutItem::EventMsg(EventMsg::ItemCompleted(event));
            let step = processed(state, RolloutLine { timestamp, ordinal, item });
            &&& step.failure is None
            &&& step.writes == seq![Written::Rehomed { event, thread_id: state.thread_id }]
            &&& step.state.reasoning is None
            &&& step.state.active == state.active
            &&& step.state.known_turns == state.known_turns
            &&& step.state.next_item_index == state.next_item_index
            &&& step.state.source_line_index == state.source_line_index + 1
        }),
{
}

/// A rollback marker never reaches canonical history.
pub proof fn rollback_markers_fail(
    state: TurnState,
    timestamp: String,
    ordinal: Option<u64>,
    num_turns: u32,
)
    requires
        has_index(state),
    ensures
        ({
            let item = RolloutItem::EventMsg(EventMsg::ThreadRolledBack { num_turns });
            let step = processed(state, RolloutLine { timestamp, ordinal, item });
            &&& step.failure == Some(
                "rollback marker reached canonical writer without a rollback plan"@,
            )
            &&& step.writes.len() == 0
        }),
{
}

/// A user message becomes an item of a turn: of the open turn where that was started by the source or
/// has no message yet, and of a new implied turn otherwise. An implied turn with a message ends
/// before. The item has its own identifier or the next free one.
#[verifier::rlimit(40)]
pub proof fn user_messages_become_items(
    state: TurnState,
    timestamp: String,
    ordinal: Option<u64>,
    event: UserMessage,
    seconds: i64,
    millis: i64,
)
    requires
        has_index(state),
        dated(timestamp, seconds, millis),
        event.conversion_error is None,
        event.draft.id is Some || state.next_item_index < u64::MAX,
    ensures
        ({
            let item = RolloutItem::EventMsg(EventMsg::UserMessage(event));
            let step = processed(state, RolloutLine { timestamp, ordinal, item });
            let implied = "rollout-"@ + decimal(state.source_line_index as nat);
            let stays = state.active is Some && (state.active->0.explicit
                || !state.active->0.saw_user);
            let turn = if stays {
                state.active->0.id
            } else {
                implied
            };
            let id = match event.draft.id {
                Some(id) => id@,
                None => "item-"@ + decimal(state.next_item_index as nat),
            };
            let added = Written::Added {
                turn,
                item: AddedItem::UserMessage { id, payload: event.draft.payload@ },
                at_ms: millis,
                thread_id: state.thread_id,
            };
            let started = Written::Started { turn: implied, at: seconds };
            &&& step.failure is None
            &&& step.state.reasoning is None
            &&& step.state.thread_id == state.thread_id
            &&& step.state.source_line_index == state.source_line_index + 1
            &&& step.state.next_item_index == state.next_item_index + (if event.draft.id is Some {
                0int
            } else {
                1int
            })
            &&& step.state.active is Some
            &&& step.state.active->0.id == turn
            &&& step.state.active->0.saw_user
            &&& stays ==> {
                &&& step.writes == seq![added]
                &&& step.state.active->0.explicit == state.active->0.explicit
                &&& step.state.known_turns == state.known_turns
            }
            &&& !stays ==> !step.state.active->0.explicit && step.state.known_turns
                == state.known_turns.insert(implied)
            &&& state.active is None ==> step.writes == seq![started, added]
            &&& state.active is Some && !stays ==> step.writes == seq![
                Written::Completed { turn: state.active->0.id, at: seconds },
                started,
                added,
            ]
        }),
{
}

/// A user message that cannot become an item fails with the reason, and no item is written.
pub proof fn unconvertible_user_messages_fail(
    state: TurnState,
    timestamp: String,
    ordinal: Option<u64>,
    event: UserMessage,
    error: String,
    seconds: i64,
    millis: i64,
)
    requires
        has_index(state),
        dated(timestamp, seconds, millis),
        event.conversion_error == Some(error),
    ensures
        ({
            let item = RolloutItem::EventMsg(EventMsg::UserMessage(event));
            let step = processed(state, RolloutLine { timestamp, ordinal, item });
            &&& step.failure == Some(error@)
            &&& forall|i: int| 0 <= i < step.writes.len() ==> !((#[trigger] step.writes[i]) is Added)
        }),
{
}

/// Reasoning without a text changes nothing.
pub proof fn empty_reasoning_is_left_out(
    state: TurnState,
    timestamp: String,
    ordinal: Option<u64>,
    text: String,
)
    requires
        has_index(state),
        text@.len() == 0,
    ensures
        ({
            let summary = RolloutItem::EventMsg(EventMsg::AgentReasoning { text });
            let raw = RolloutItem::EventMsg(EventMsg::AgentReasoningRawContent { text });
            let a = processed(state, RolloutLine { timestamp, ordinal, item: summary });
            let b = processed(state, RolloutLine { timestamp, ordinal, item: raw });
            &&& a.failure is None && a.writes.len() == 0 && only_counted(state, a.state)
            &&& b.failure is None && b.writes.len() == 0 && only_counted(state, b.state)
        }),
{
}

/// Reasoning that goes on adds its text to what was collected, under the same identifier: a summary
/// behind the summaries, raw content behind the raw content. The item so far is written to the open
/// turn.
pub proof fn reasoning_accumulates(
    state: TurnState,
    timestamp: String,
    ordinal: Option<u64>,
    text: String,
    seconds: i64,
    millis: i64,
)
    requires
        has_index(state),
        dated(timestamp, seconds, millis),
        text@.len() > 0,
        state.active is Some,
        state.reasoning is Some,
    ensures
        ({
            let summary = RolloutItem::EventMsg(EventMsg::AgentReasoning { text });
            let raw = RolloutItem::EventMsg(EventMsg::AgentReasoningRawContent { text });
            let a = processed(state, RolloutLine { timestamp, ordinal, item: summary });
            let b = processed(state, RolloutLine { timestamp, ordinal, item: raw });
            let so_far = state.reasoning->0;
            &&& a.failure is None && b.failure is None
            &&& a.state.active == state.active && b.state.active == state.active
            &&& a.state.next_item_index == state.next_item_index
            &&& b.state.next_item_index == state.next_item_index
            &&& a.state.reasoning is Some && b.state.reasoning is Some
            &&& a.state.reasoning->0.id == so_far.id && b.state.reasoning->0.id == so_far.id
            &&& a.state.reasoning->0.summary == so_far.summary.push(text@)
            &&& a.state.reasoning->0.raw == so_far.raw
            &&& b.state.reasoning->0.summary == so_far.summary
            &&& b.state.reasoning->0.raw == so_far.raw.push(text@)
            &&& a.writes == seq![
                Written::Added {
                    turn: state.active->0.id,
                    item: AddedItem::Reasoning(a.state.reasoning->0),
                    at_ms: millis,
                    thread_id: state.thread_id,
                },
            ]
            &&& b.writes == seq![
                Written::Added {
                    turn: state.active->0.id,
                    item: AddedItem::Reasoning(b.state.reasoning->0),
                    at_ms: millis,
                    thread_id: state.thread_id,
                },
            ]
        }),
{
}

/// Reasoning that begins holds its text alone, under the next free identifier. Without an open turn
/// it implies one, which is started before.
#[verifier::rlimit(40)]
pub proof fn reasoning_begins_with_its_text(
    state: TurnState,
    timestamp: String,
    ordinal: Option<u64>,
    text: String,
    seconds: i64,
    millis: i64,
)
    requires
        has_index(state),
        dated(timestamp, seconds, millis),
        text@.len() > 0,
        state.active is None || state.reasoning is None,
        state.next_item_index < u64::MAX,
    ensures
        ({
            let summary = RolloutItem::EventMsg(EventMsg::AgentReasoning { text });
            let raw = RolloutItem::EventMsg(EventMsg::AgentReasoningRawContent { text });
            let a = processed(state, RolloutLine { timestamp, ordinal, item: summary });
            let b = processed(state, RolloutLine { timestamp, ordinal, item: raw });
            let implied = "rollout-"@ + decimal(state.source_line_index as nat);
            let id = "item-"@ + decimal(state.next_item_index as nat);
            let turn = if state.active is Some {
                state.active->0.id
            } else {
                implied
            };
            &&& a.failure is None && b.failure is None
            &&& a.state.next_item_index == state.next_item_index + 1
            &&& b.state.next_item_index == state.next_item_index + 1
            &&& a.state.reasoning is Some && b.state.reasoning is Some
            &&& a.state.reasoning->0.id == id && b.state.reasoning->0.id == id
            &&& a.state.reasoning->0.summary == seq![text@]
            &&& a.state.reasoning->0.raw.len() == 0
            &&& b.state.reasoning->0.summary.len() == 0
            &&& b.state.reasoning->0.raw == seq![text@]
            &&& a.writes.len() == b.writes.len()
            &&& a.writes.len() == (if state.active is Some {
                1int
            } else {
                2int
            })
            &&& a.writes.last() == Written::Added {
                turn,
                item: AddedItem::Reasoning(a.state.reasoning->0),
                at_ms: millis,
                thread_id: state.thread_id,
            }
            &&& b.writes.last() == Written::Added {
                turn,
                item: AddedItem::Reasoning(b.state.reasoning->0),
                at_ms: millis,
                thread_id: state.thread_id,
            }
            &&& state.active is Some ==> a.state.active == state.active && b.state.active
                == state.active
            &&& state.active is None ==> {
                &&& a.writes[0] == Written::Started { turn: implied, at: seconds }
                &&& b.writes[0] == Written::Started { turn: implied, at: seconds }
                &&& a.state.active == Some(
                    OpenTurn { id: implied, explicit: false, saw_user: false },
                )
                &&& b.state.active == a.state.active
            }
        }),
{
}

/// Whether an event carries a conversion of its own.
pub open spec fn carries(event: EventMsg, carried: LegacyEvent) -> bool {
    ||| event matches EventMsg::ExecCommandEnd { event: e, .. } && e == carried
    ||| event matches EventMsg::PatchApplyEnd { event: e, .. } && e == carried
    ||| event matches EventMsg::DynamicToolCallResponse { event: e, .. } && e == carried
    ||| event matches EventMsg::EnteredReviewMode { event: e, .. } && e == carried
    ||| event matches EventMsg::ExitedReviewMode { event: e, .. } && e == carried
    ||| event matches EventMsg::Other { event: e } && e == carried
}

/// An event that stays an event is written exactly once and unchanged where it is persisted, and not
/// at all where it is not. It changes nothing about the turns. One that cannot be converted fails.
pub proof fn events_that_stay_events_are_written_unchanged(
    state: TurnState,
    timestamp: String,
    ordinal: Option<u64>,
    event: EventMsg,
    carried: LegacyEvent,
)
    requires
        has_index(state),
        carries(event, carried),
    ensures
        ({
            let item = RolloutItem::EventMsg(event);
            let step = processed(state, RolloutLine { timestamp, ordinal, item });
            &&& carried.conversion matches LegacyConversion::Event { persisted } ==> {
                &&& step.failure is None
                &&& persisted ==> step.writes == seq![Written::Source(item)]
                &&& !persisted ==> step.writes.len() == 0
                &&& only_counted(state, step.state)
            }
            &&& carried.conversion matches LegacyConversion::Failed { error } ==> {
                &&& step.failure == Some(error@)
                &&& step.writes.len() == 0
            }
        }),
{
}

/// An event that becomes an item is completed in the turn that it names, however late it comes, or
/// else in the open turn, or else in an implied one. A turn that is neither open nor known is started
/// before where none is open. An item of another turn than the open one leaves reasoning alone.
#[verifier::rlimit(60)]
pub proof fn events_that_become_items_are_completed_in_their_turn(
    state: TurnState,
    timestamp: String,
    ordinal: Option<u64>,
    event: EventMsg,
    carried: LegacyEvent,
    draft: LegacyItemDraft,
    turn_id: Option<String>,
    seconds: i64,
    millis: i64,
)
    requires
        has_index(state),
        dated(timestamp, seconds, millis),
        carries(event, carried),
        carried.conversion == (LegacyConversion::Item { draft, turn_id }),
        draft.id is Some || state.next_item_index < u64::MAX,
    ensures
        ({
            let item = RolloutItem::EventMsg(event);
            let step = processed(state, RolloutLine { timestamp, ordinal, item });
            let turn = if turn_id is Some {
                turn_id->0@
            } else if state.active is Some {
                state.active->0.id
            } else {
                "rollout-"@ + decimal(state.source_line_index as nat)
            };
            let id = match draft.id {
                Some(id) => id@,
                None => "item-"@ + decimal(state.next_item_index as nat),
            };
            let starts = state.active is None && (turn_id is None || !state.known_turns.contains(
                turn,
            ));
            let added = Written::Added {
                turn,
                item: AddedItem::Converted { id, payload: draft.payload@ },
                at_ms: millis,
                thread_id: state.thread_id,
            };
            &&& step.failure is None
            &&& step.state.thread_id == state.thread_id
            &&& step.state.source_line_index == state.source_line_index + 1
            &&& step.state.next_item_index == state.next_item_index + (if draft.id is Some {
                0int
            } else {
                1int
            })
            &&& !starts ==> step.writes == seq![added] && step.state.active == state.active
                && step.state.known_turns == state.known_turns
            &&& starts ==> {
                &&& step.writes == seq![Written::Started { turn, at: seconds }, added]
                &&& step.state.active == Some(
                    OpenTurn { id: turn, explicit: false, saw_user: false },
                )
                &&& step.state.known_turns == state.known_turns.insert(turn)
            }
            &&& state.active is Some && state.active->0.id != turn ==> step.state.reasoning
                == state.reasoning
            &&& state.active is None || state.active->0.id == turn ==> step.state.reasoning is None
        }),
{
}

/// An item that needs the next identifier fails where there is none left.
pub proof fn items_past_the_last_identifier_fail(
    state: TurnState,
    timestamp: String,
    ordinal: Option<u64>,
    event: EventMsg,
    carried: LegacyEvent,
    draft: LegacyItemDraft,
    turn_id: Option<String>,
)
    requires
        has_index(state),
        carries(event, carried),
        carried.conversion == (LegacyConversion::Item { draft, turn_id }),
        draft.id is None,
        state.next_item_index == u64::MAX,
    ensures
        ({
            let item = RolloutItem::EventMsg(event);
            let step = processed(state, RolloutLine { timestamp, ordinal, item });
            &&& step.failure == Some("legacy rollout item id overflow"@)
            &&& step.writes.len() == 0
        }),
{
}

/// What has to be dated fails where the timestamp is none: an item, and the end of an implied turn.
/// The message is that of the timestamp.
pub proof fn undated_items_fail(
    state: TurnState,
    timestamp: String,
    ordinal: Option<u64>,
    event: EventMsg,
    carried: LegacyEvent,
    draft: LegacyItemDraft,
    turn_id: Option<String>,
    message: Seq<char>,
)
    requires
        has_index(state),
        rfc3339_instant(timestamp@) == Err::<(i64, i64), Seq<char>>(message),
        carries(event, carried),
        carried.conversion == (LegacyConversion::Item { draft, turn_id }),
        draft.id is Some || state.next_item_index < u64::MAX,
    ensures
        ({
            let item = RolloutItem::EventMsg(event);
            let step = processed(state, RolloutLine { timestamp, ordinal, item });
            &&& step.failure == Some(message)
            &&& step.writes.len() == 0
        }),
{
}

/// The end of the history completes the turn that is open where the source only implied it, and
/// nothing else.
pub proof fn histories_end_with_their_implied_turn(
    state: TurnState,
    timestamp: String,
    seconds: i64,
    millis: i64,
)
    requires
        dated(timestamp, seconds, millis),
    ensures
        ({
            let step = implicit_finished(idle(state), timestamp@);
            let implied = state.active is Some && !state.active->0.explicit;
            &&& step.failure is None
            &&& implied ==> step.writes == seq![
                Written::Completed { turn: state.active->0.id, at: seconds },
            ] && step.state.active is None && step.state.reasoning is None
            &&& !implied ==> step.writes.len() == 0 && step.state == state
            &&& step.state.known_turns == state.known_turns
            &&& step.state.next_item_index == state.next_item_index
        }),
{
}

/// The records of a step are written one for one, in order.
pub proof fn written_records_stand_in_order(
    items: Seq<RolloutItem>,
    writes: Seq<Written>,
    i: int,
)
    requires
        are_written(items, writes),
    ensures
        items.len() == writes.len(),
        0 <= i < items.len() && writes[i] is Source ==> items[i] == writes[i]->Source_0,
{
    if 0 <= i < items.len() {
        assert(is_written(items[i], writes[i]));
    }
}

/// What stands in the records that canonical history adds.
pub proof fn added_records_say_what_they_stand_for(item: RolloutItem, turn: Seq<char>, at: i64)
    ensures
        is_written(item, Written::Started { turn, at }) ==> {
            &&& item is EventMsg
            &&& item->EventMsg_0 is TurnStarted
            &&& item->EventMsg_0->TurnStarted_0.turn_id@ == turn
            &&& item->EventMsg_0->TurnStarted_0.started_at == Some(at)
            &&& item->EventMsg_0->TurnStarted_0.payload@ == ""@
        },
        is_written(item, Written::Completed { turn, at }) ==> {
            &&& item is EventMsg
            &&& item->EventMsg_0 is TurnComplete
            &&& item->EventMsg_0->TurnComplete_0.turn_id@ == turn
            &&& item->EventMsg_0->TurnComplete_0.completed_at == Some(at)
            &&& item->EventMsg_0->TurnComplete_0.payload@ == ""@
        },
{
}

/// An abortion keeps its payload and has the turn that was found for it; a completed item of the
/// source keeps everything but its thread.
pub proof fn kept_events_keep_their_contents(
    item: RolloutItem,
    turn: Option<Seq<char>>,
    payload: String,
    event: ItemCompleted,
    thread_id: ThreadId,
)
    ensures
        is_written(item, Written::Aborted { turn, payload }) ==> {
            &&& item is EventMsg
            &&& item->EventMsg_0 is TurnAborted
            &&& item->EventMsg_0->TurnAborted_0.payload == payload
            &&& item->EventMsg_0->TurnAborted_0.turn_id is Some == turn is Some
            &&& turn is Some ==> item->EventMsg_0->TurnAborted_0.turn_id->0@ == turn->0
        },
        is_written(item, Written::Rehomed { event, thread_id }) ==> {
            &&& item is EventMsg
            &&& item->EventMsg_0 is ItemCompleted
            &&& item->EventMsg_0->ItemCompleted_0.thread_id == thread_id
            &&& item->EventMsg_0->ItemCompleted_0.turn_id == event.turn_id
            &&& item->EventMsg_0->ItemCompleted_0.item == event.item
            &&& item->EventMsg_0->ItemCompleted_0.started_at_ms == event.started_at_ms
            &&& item->EventMsg_0->ItemCompleted_0.completed_at_ms == event.completed_at_ms
        },
{
}

/// An added item is completed in its turn, under its thread, at its time, with its contents.
pub proof fn added_items_hold_their_contents(
    item: RolloutItem,
    turn: Seq<char>,
    added: AddedItem,
    at_ms: i64,
    thread_id: ThreadId,
)
    requires
        is_written(item, Written::Added { turn, item: added, at_ms, thread_id }),
    ensures
        item is EventMsg,
        item->EventMsg_0 is ItemCompleted,
        ({
            let event = item->EventMsg_0->ItemCompleted_0;
            &&& event.thread_id == thread_id
            &&& event.turn_id@ == turn
            &&& event.started_at_ms is None
            &&& event.completed_at_ms == at_ms
            &&& added matches AddedItem::HookPrompt(text) ==> event.item is HookPrompt
                && event.item->HookPrompt_payload@ == text
            &&& added matches AddedItem::UserMessage { id, payload } ==> event.item is UserMessage
                && event.item->UserMessage_id@ == id && event.item->UserMessage_payload@ == payload
            &&& added matches AddedItem::Converted { id, payload } ==> event.item is Converted
                && event.item->Converted_id@ == id && event.item->Converted_payload@ == payload
            &&& added matches AddedItem::Reasoning(state) ==> {
                let r = event.item->Reasoning_0;
                &&& event.item is Reasoning
                &&& r.id@ == state.id
                &&& r.summary_text@.len() == state.summary.len()
                &&& r.raw_content@.len() == state.raw.len()
                &&& forall|i: int|
                    0 <= i < state.summary.len() ==> (#[trigger] r.summary_text@[i])@
                        == state.summary[i]
                &&& forall|i: int|
                    0 <= i < state.raw.len() ==> (#[trigger] r.raw_content@[i])@ == state.raw[i]
            }
        }),
{
}

/// A history whose newest checkpoint misses references names each of them in the failure, in order.
pub proof fn unresolved_checkpoints_are_named(earlier: Seq<Seq<char>>, missing: Seq<char>)
    ensures
        unresolved_selection(seq![missing])
            == "selected compacted history references could not be resolved during migration canonicalization: "@
            + missing,
        earlier.len() > 0 ==> unresolved_selection(earlier.push(missing)) == unresolved_selection(
            earlier,
        ) + ", "@ + missing,
{
    assert(earlier.push(missing).drop_last() =~= earlier);
}

} // verus!
