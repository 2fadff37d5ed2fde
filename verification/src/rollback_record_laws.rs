//! Which instruction each kind of record belongs to, and what a rollback takes away.

use crate::names::NameKey;
use crate::rollback_plan::content_audio;
use crate::rollback_plan::content_images;
use crate::rollback_plan::content_text;
use crate::rollback_plan::cut_describes;
use crate::rollback_plan::entry_references;
use crate::rollback_plan::event_repeats_response;
use crate::rollback_plan::observation_fails;
use crate::rollback_plan::observed;
use crate::rollback_plan::FrameState;
use crate::rollback_plan::PlannerState;
use crate::rollback_plan::RollbackCut;
use crate::rollout::CompactedHistoryEntry;
use crate::rollout::CompactedItem;
use crate::rollout::ContentItem;
use crate::rollout::EventMsg;
use crate::rollout::ItemCompleted;
use crate::rollout::LegacyEvent;
use crate::rollout::ResponseBody;
use crate::rollout::ResponseItemEnvelope;
use crate::rollout::RetainedContextEntry;
use crate::rollout::RolloutItem;
use crate::rollout::TurnAborted;
use crate::rollout::TurnComplete;
use crate::rollout::TurnStarted;
use crate::rollout::UserMessage;
use crate::rollout::VerifiedAnswer;
use crate::text::texts;
use vstd::prelude::*;

verus! {

/// Whether a planner can take in one more record.
pub open spec fn takes_more(s: PlannerState) -> bool {
    s.wf() && s.owners.len() < usize::MAX
}

/// Whether a turn has an instruction, and which.
pub open spec fn instructs(s: PlannerState, turn: Seq<char>, boundary: usize) -> bool {
    let key: NameKey = (turn, Seq::empty());
    s.turns.contains_key(key) && s.turns[key] == boundary
}

/// Whether a turn is under way that has no instruction yet.
pub open spec fn waits_for_instruction(s: PlannerState) -> bool {
    s.active_turn is Some && !s.turns.contains_key((s.active_turn->0@, Seq::empty()))
}

/// Whether a record changed nothing but its own owner and what waits for a paired record: no
/// instruction came or went, no turn began or ended, and every older record kept its owner.
pub open spec fn only_counts(s: PlannerState, t: PlannerState) -> bool {
    &&& t.owners.len() == s.owners.len() + 1
    &&& forall|i: int| 0 <= i < s.owners.len() ==> #[trigger] t.owners[i] == s.owners[i]
    &&& t.boundaries == s.boundaries
    &&& t.stack == s.stack
    &&& t.turns == s.turns
    &&& t.facts == s.facts
    &&& t.frames == s.frames
    &&& t.pending_context == s.pending_context
}

/// Whether the last record belongs to the newest live instruction, or to none where there is none.
pub open spec fn belongs_to_newest(s: PlannerState, t: PlannerState) -> bool {
    t.owners.last() == if s.stack.len() > 0 {
        Some(s.stack[s.stack.len() - 1])
    } else {
        None
    }
}

proof fn lemma_turn_key(turn: Seq<char>)
    ensures
        PlannerState::turn_key(turn) == (turn, Seq::<char>::empty()),
{
    reveal_strlit("");
    assert(""@ =~= Seq::<char>::empty());
}

/// The end of a command belongs to the instruction of the turn that it names, however many
/// instructions were given since.
pub proof fn commands_follow_the_turn_they_name(
    s: PlannerState,
    turn_id: String,
    event: LegacyEvent,
    boundary: usize,
)
    requires
        takes_more(s),
        turn_id@.len() > 0,
        instructs(s, turn_id@, boundary),
    ensures
        ({
            let item = RolloutItem::EventMsg(EventMsg::ExecCommandEnd { turn_id, event });
            let t = observed(s, item);
            &&& t.owners[s.owners.len() as int] == Some(boundary)
            &&& only_counts(s, t)
            &&& t.active_turn == s.active_turn && t.pending_turn == s.pending_turn
        }),
{
    lemma_turn_key(turn_id@);
}

/// The end of a patch belongs to the instruction of the turn that it names.
pub proof fn patches_follow_the_turn_they_name(
    s: PlannerState,
    turn_id: String,
    event: LegacyEvent,
    boundary: usize,
)
    requires
        takes_more(s),
        turn_id@.len() > 0,
        instructs(s, turn_id@, boundary),
    ensures
        ({
            let item = RolloutItem::EventMsg(EventMsg::PatchApplyEnd { turn_id, event });
            let t = observed(s, item);
            &&& t.owners[s.owners.len() as int] == Some(boundary)
            &&& only_counts(s, t)
            &&& t.active_turn == s.active_turn && t.pending_turn == s.pending_turn
        }),
{
    lemma_turn_key(turn_id@);
}

/// The response of a dynamic tool belongs to the instruction of the turn that it names.
pub proof fn tool_responses_follow_the_turn_they_name(
    s: PlannerState,
    turn_id: String,
    event: LegacyEvent,
    boundary: usize,
)
    requires
        takes_more(s),
        turn_id@.len() > 0,
        instructs(s, turn_id@, boundary),
    ensures
        ({
            let item = RolloutItem::EventMsg(EventMsg::DynamicToolCallResponse { turn_id, event });
            let t = observed(s, item);
            &&& t.owners[s.owners.len() as int] == Some(boundary)
            &&& only_counts(s, t)
            &&& t.active_turn == s.active_turn && t.pending_turn == s.pending_turn
        }),
{
    lemma_turn_key(turn_id@);
}

/// The beginning and the end of a review belong to the instruction of the turn that they name.
pub proof fn reviews_follow_the_turn_they_name(
    s: PlannerState,
    turn_id: String,
    event: LegacyEvent,
    boundary: usize,
)
    requires
        takes_more(s),
        turn_id@.len() > 0,
        instructs(s, turn_id@, boundary),
    ensures
        ({
            let entered = RolloutItem::EventMsg(
                EventMsg::EnteredReviewMode { turn_id: Some(turn_id), event },
            );
            let exited = RolloutItem::EventMsg(
                EventMsg::ExitedReviewMode { turn_id: Some(turn_id), event },
            );
            &&& observed(s, entered).owners[s.owners.len() as int] == Some(boundary)
            &&& observed(s, exited).owners[s.owners.len() as int] == Some(boundary)
            &&& only_counts(s, observed(s, entered)) && only_counts(s, observed(s, exited))
            &&& observed(s, entered).pending_turn == s.pending_turn
            &&& observed(s, exited).pending_turn == s.pending_turn
            &&& observed(s, entered).active_turn == s.active_turn
            &&& observed(s, exited).active_turn == s.active_turn
        }),
{
    lemma_turn_key(turn_id@);
}

/// A completed item and a record of token usage belong to the instruction of the turn that they
/// name.
pub proof fn completed_items_follow_the_turn_they_name(
    s: PlannerState,
    event: ItemCompleted,
    payload: String,
    boundary: usize,
)
    requires
        takes_more(s),
        instructs(s, event.turn_id@, boundary),
    ensures
        ({
            let item = RolloutItem::EventMsg(EventMsg::ItemCompleted(event));
            let usage = RolloutItem::TokenUsageRecord { turn_id: event.turn_id, payload };
            &&& observed(s, item).owners[s.owners.len() as int] == Some(boundary)
            &&& observed(s, usage).owners[s.owners.len() as int] == Some(boundary)
            &&& only_counts(s, observed(s, item)) && only_counts(s, observed(s, usage))
            &&& observed(s, item).active_turn == s.active_turn
            &&& observed(s, usage).active_turn == s.active_turn
            &&& observed(s, item).pending_turn == s.pending_turn
            &&& observed(s, usage).pending_turn == s.pending_turn
        }),
{
    lemma_turn_key(event.turn_id@);
}

/// An event that names no turn, or an empty one, or one without an instruction, belongs to the newest
/// live instruction. Where the turn under way has no instruction yet, it waits for that one.
pub proof fn other_events_belong_to_the_newest_instruction(s: PlannerState, event: EventMsg)
    requires
        takes_more(s),
        match event {
            EventMsg::ThreadRolledBack { .. } => false,
            EventMsg::TurnStarted(_) => false,
            EventMsg::TurnComplete(_) => false,
            EventMsg::TurnAborted(_) => false,
            EventMsg::UserMessage(_) => false,
            EventMsg::AgentReasoning { .. } => true,
            EventMsg::AgentReasoningRawContent { .. } => true,
            EventMsg::Other { .. } => true,
            EventMsg::ItemCompleted(e) => !s.turns.contains_key((e.turn_id@, Seq::empty())),
            EventMsg::ExecCommandEnd { turn_id, .. } => turn_id@.len() == 0
                || !s.turns.contains_key((turn_id@, Seq::empty())),
            EventMsg::PatchApplyEnd { turn_id, .. } => turn_id@.len() == 0
                || !s.turns.contains_key((turn_id@, Seq::empty())),
            EventMsg::DynamicToolCallResponse { turn_id, .. } => turn_id@.len() == 0
                || !s.turns.contains_key((turn_id@, Seq::empty())),
            EventMsg::EnteredReviewMode { turn_id, .. } => turn_id is None || turn_id->0@.len()
                == 0 || !s.turns.contains_key((turn_id->0@, Seq::empty())),
            EventMsg::ExitedReviewMode { turn_id, .. } => turn_id is None || turn_id->0@.len() == 0
                || !s.turns.contains_key((turn_id->0@, Seq::empty())),
        },
    ensures
        ({
            let t = observed(s, RolloutItem::EventMsg(event));
            &&& belongs_to_newest(s, t)
            &&& only_counts(s, t)
            &&& t.active_turn == s.active_turn
            &&& t.pending_turn == if waits_for_instruction(s) {
                s.pending_turn.push(s.owners.len() as usize)
            } else {
                s.pending_turn
            }
        }),
{
    assert forall|turn: Seq<char>| #[trigger] PlannerState::turn_key(turn) == (
        turn,
        Seq::<char>::empty(),
    ) by {
        lemma_turn_key(turn);
    }
}

/// A turn that starts is the one under way, and its first record waits for its instruction.
pub proof fn turns_start_without_an_instruction(s: PlannerState, event: TurnStarted)
    requires
        takes_more(s),
    ensures
        ({
            let t = observed(s, RolloutItem::EventMsg(EventMsg::TurnStarted(event)));
            &&& t.active_turn is Some && t.active_turn->0@ == event.turn_id@
            &&& t.pending_turn == seq![s.owners.len() as usize]
            &&& belongs_to_newest(s, t)
            &&& only_counts(s, t)
        }),
{
}

/// The end of a turn ends it where it is the one under way, and no other. The record belongs to the
/// instruction of the turn where it has one.
pub proof fn turns_end_where_they_are_named(
    s: PlannerState,
    complete: TurnComplete,
    aborted: TurnAborted,
)
    requires
        takes_more(s),
        aborted.turn_id is Some && aborted.turn_id->0@ == complete.turn_id@,
    ensures
        ({
            let turn = complete.turn_id@;
            let key: NameKey = (turn, Seq::empty());
            let index = s.owners.len() as int;
            let ended = s.active_turn is Some && s.active_turn->0@ == turn;
            let completed = observed(s, RolloutItem::EventMsg(EventMsg::TurnComplete(complete)));
            let stopped = observed(s, RolloutItem::EventMsg(EventMsg::TurnAborted(aborted)));
            &&& ended ==> completed.active_turn is None && completed.pending_turn.len() == 0
            &&& ended ==> stopped.active_turn is None && stopped.pending_turn.len() == 0
            &&& !ended ==> completed.active_turn == s.active_turn && stopped.active_turn
                == s.active_turn
            &&& s.turns.contains_key(key) ==> completed.owners[index] == Some(s.turns[key])
                && stopped.owners[index] == Some(s.turns[key])
            &&& !s.turns.contains_key(key) ==> belongs_to_newest(s, completed)
                && belongs_to_newest(s, stopped)
            &&& only_counts(s, completed) && only_counts(s, stopped)
        }),
{
    lemma_turn_key(complete.turn_id@);
}

/// An abortion that names no turn ends none.
pub proof fn unnamed_abortions_end_no_turn(s: PlannerState, aborted: TurnAborted)
    requires
        takes_more(s),
        aborted.turn_id is None,
    ensures
        ({
            let t = observed(s, RolloutItem::EventMsg(EventMsg::TurnAborted(aborted)));
            &&& t.active_turn == s.active_turn
            &&& belongs_to_newest(s, t)
            &&& only_counts(s, t)
        }),
{
}

/// Whether a record began an instruction: it is the newest live one, the record belongs to it, and so
/// do the records of the turn that waited for it, and the context that waited where an older
/// instruction is live. The turn under way has it as its instruction. Nothing else changes its owner.
pub open spec fn begins_instruction(s: PlannerState, t: PlannerState) -> bool {
    let index = s.owners.len();
    let boundary = s.boundaries.len() as usize;
    &&& t.boundaries.len() == boundary + 1
    &&& t.boundaries[boundary as int].alive
    &&& t.boundaries[boundary as int].record_index == index
    &&& forall|b: int| 0 <= b < boundary ==> #[trigger] t.boundaries[b] == s.boundaries[b]
    &&& t.stack == s.stack.push(boundary)
    &&& t.owners.len() == index + 1
    &&& t.owners[index as int] == Some(boundary)
    &&& forall|i: int|
        0 <= i < index ==> #[trigger] t.owners[i] == if s.pending_turn.contains(i as usize) || (
        s.stack.len() > 0 && s.pending_context.contains(i as usize)) {
            Some(boundary)
        } else {
            s.owners[i]
        }
    &&& t.pending_turn.len() == 0
    &&& t.pending_context.len() == 0
    &&& t.active_turn == s.active_turn
    &&& s.active_turn is Some ==> instructs(t, s.active_turn->0@, boundary)
    &&& forall|turn: Seq<char>|
        s.active_turn is None || turn != s.active_turn->0@ ==> (#[trigger] t.turns.contains_key(
            (turn, Seq::<char>::empty()),
        ) == s.turns.contains_key((turn, Seq::<char>::empty()))) && t.turns[(
            turn,
            Seq::<char>::empty(),
        )] == s.turns[(turn, Seq::<char>::empty())]
    &&& t.frames == s.frames
    &&& t.facts == s.facts
}

proof fn lemma_turn_keys()
    ensures
        forall|turn: Seq<char>| #[trigger]
            PlannerState::turn_key(turn) == (turn, Seq::<char>::empty()),
{
    assert forall|turn: Seq<char>| #[trigger] PlannerState::turn_key(turn) == (
        turn,
        Seq::<char>::empty(),
    ) by {
        lemma_turn_key(turn);
    }
}

/// A message between agents begins an instruction.
pub proof fn communications_begin_instructions(
    s: PlannerState,
    payload: String,
    trigger_turn: bool,
)
    requires
        takes_more(s),
    ensures
        begins_instruction(s, observed(s, RolloutItem::InterAgentCommunication { payload })),
        begins_instruction(
            s,
            observed(s, RolloutItem::InterAgentCommunicationMetadata { trigger_turn }),
        ),
        observed(s, RolloutItem::InterAgentCommunication { payload }).pending_delivery is None,
        observed(s, RolloutItem::InterAgentCommunicationMetadata { trigger_turn }).pending_delivery
            == Some(s.boundaries.len() as usize),
{
    lemma_turn_keys();
}

/// A user message begins an instruction, unless it repeats the response item just before it; then it
/// belongs to the instruction of that item.
pub proof fn user_messages_begin_instructions_once(s: PlannerState, event: UserMessage)
    requires
        takes_more(s),
    ensures
        ({
            let t = observed(s, RolloutItem::EventMsg(EventMsg::UserMessage(event)));
            match s.pending_user {
                Some((boundary, content)) => if event_repeats_response(content, event) {
                    &&& t.owners[s.owners.len() as int] == Some(boundary)
                    &&& only_counts(s, t)
                    &&& t.active_turn == s.active_turn
                    &&& t.pending_turn == s.pending_turn
                } else {
                    begins_instruction(s, t)
                },
                None => begins_instruction(s, t),
            }
        }),
{
    lemma_turn_keys();
}

/// Only a user message in the response items waits for the event that repeats it, and only until the
/// next record; only the metadata of a delivery waits for the message that is delivered.
pub proof fn pairs_stand_next_to_each_other(s: PlannerState, item: RolloutItem)
    requires
        takes_more(s),
        !observation_fails(s, item),
    ensures
        observed(s, item).pending_delivery is Some ==> item is InterAgentCommunicationMetadata,
        observed(s, item).pending_user matches Some((boundary, content)) ==> {
            &&& boundary == s.boundaries.len()
            &&& item matches RolloutItem::ResponseItem(response)
                && response.item.counts_as_boundary && (
            response.item.body matches ResponseBody::Message { role, content: parts } && role@
                == "user"@ && content == parts@)
        },
{
}

/// A response item that counts as an instruction begins one, with its identifier and its place in the
/// order of accepted input; a user message also waits for the event that repeats it.
pub proof fn instructing_responses_begin_instructions(
    s: PlannerState,
    response: ResponseItemEnvelope,
)
    requires
        takes_more(s),
        response.item.counts_as_boundary,
        !(s.pending_delivery is Some && response.item.body is AgentMessage),
    ensures
        ({
            let t = observed(s, RolloutItem::ResponseItem(response));
            let boundary = s.boundaries.len() as int;
            &&& begins_instruction(s, t)
            &&& t.boundaries[boundary].message_id == response.item.id
            &&& response.metadata is None ==> t.boundaries[boundary].acceptance_order is None
            &&& response.metadata matches Some(metadata)
                ==> t.boundaries[boundary].acceptance_order == metadata.user_input_order
            &&& (response.item.body matches ResponseBody::Message { role, content } && role@
                == "user"@) ==> t.pending_user == Some(
                (s.boundaries.len() as usize, response.item.body->content@),
            )
        }),
{
    lemma_turn_keys();
}

/// The message that is delivered behind its metadata belongs to the instruction of the metadata, and
/// gives it its identifier.
pub proof fn deliveries_belong_to_their_metadata(s: PlannerState, response: ResponseItemEnvelope)
    requires
        takes_more(s),
        s.pending_delivery is Some,
        response.item.body is AgentMessage,
    ensures
        ({
            let t = observed(s, RolloutItem::ResponseItem(response));
            let boundary = s.pending_delivery->0;
            &&& t.owners.len() == s.owners.len() + 1
            &&& t.owners[s.owners.len() as int] == Some(boundary)
            &&& t.stack == s.stack
            &&& t.boundaries.len() == s.boundaries.len()
            &&& t.boundaries[boundary as int].message_id == response.item.id
            &&& t.boundaries[boundary as int].alive == s.boundaries[boundary as int].alive
            &&& t.turns == s.turns && t.active_turn == s.active_turn
        }),
{
}

/// Any other response item belongs to the newest live instruction; one that updates the context of
/// the turn behind it also waits for the next instruction.
pub proof fn other_responses_belong_to_the_newest_instruction(
    s: PlannerState,
    response: ResponseItemEnvelope,
)
    requires
        takes_more(s),
        !response.item.counts_as_boundary,
        !(s.pending_delivery is Some && response.item.body is AgentMessage),
    ensures
        ({
            let t = observed(s, RolloutItem::ResponseItem(response));
            &&& belongs_to_newest(s, t)
            &&& t.owners.len() == s.owners.len() + 1
            &&& forall|i: int| 0 <= i < s.owners.len() ==> #[trigger] t.owners[i] == s.owners[i]
            &&& t.boundaries == s.boundaries && t.stack == s.stack && t.turns == s.turns
            &&& t.pending_context == if response.item.is_pre_turn_context_update {
                s.pending_context.push(s.owners.len() as usize)
            } else {
                s.pending_context
            }
            &&& t.pending_turn == s.pending_turn
            &&& t.active_turn == s.active_turn
        }),
{
}

/// A call is remembered with its turn, the one that it names or the one under way, and belongs to the
/// instruction of its record. Nothing else is remembered as a call.
pub proof fn calls_are_remembered_with_their_turn(s: PlannerState, response: ResponseItemEnvelope)
    requires
        takes_more(s),
    ensures
        ({
            let t = observed(s, RolloutItem::ResponseItem(response));
            let index = s.owners.len() as int;
            match response.item.body {
                ResponseBody::FunctionCall { call_id } => match response.item.turn_id {
                    Some(turn) => t.calls == s.calls.insert(
                        (turn@, call_id@),
                        t.owners[index],
                    ),
                    None => match s.active_turn {
                        Some(turn) => t.calls == s.calls.insert(
                            (turn@, call_id@),
                            t.owners[index],
                        ),
                        None => t.calls == s.calls,
                    },
                },
                _ => t.calls == s.calls,
            }
        }),
{
}

/// Session metadata and risk scores belong to no instruction; the state of the world and realtime
/// items belong to the newest one; the context of a turn does too, and waits for the instruction of a
/// turn that has none yet.
pub proof fn surroundings_belong_to_the_newest_instruction(s: PlannerState, payload: String)
    requires
        takes_more(s),
    ensures
        ({
            let index = s.owners.len() as int;
            let risk = observed(s, RolloutItem::SecurityRiskScore { payload });
            let world = observed(s, RolloutItem::WorldState { payload });
            let realtime = observed(s, RolloutItem::RealtimeItem { payload });
            let context = observed(s, RolloutItem::TurnContext { payload });
            &&& risk.owners[index] is None && only_counts(s, risk)
            &&& belongs_to_newest(s, world) && only_counts(s, world)
            &&& belongs_to_newest(s, realtime) && only_counts(s, realtime)
            &&& belongs_to_newest(s, context) && only_counts(s, context)
            &&& world.pending_turn == s.pending_turn && realtime.pending_turn == s.pending_turn
            &&& context.pending_turn == if waits_for_instruction(s) {
                s.pending_turn.push(s.owners.len() as usize)
            } else {
                s.pending_turn
            }
            &&& context.active_turn == s.active_turn && world.active_turn == s.active_turn
        }),
{
    lemma_turn_keys();
}

/// A checkpoint belongs to the instruction of the turn under way, or to none, and is remembered with
/// how many instructions are live, whether it replaces history, and what it carries.
pub proof fn checkpoints_belong_to_the_turn_under_way(s: PlannerState, item: CompactedItem)
    requires
        takes_more(s),
    ensures
        ({
            let t = observed(s, RolloutItem::Compacted(item));
            let index = s.owners.len();
            let frame = t.frames[s.frames.len() as int];
            &&& t.owners.len() == index + 1
            &&& forall|i: int| 0 <= i < index ==> #[trigger] t.owners[i] == s.owners[i]
            &&& match s.active_turn {
                Some(turn) => t.owners[index as int] == if s.turns.contains_key(
                    (turn@, Seq::<char>::empty()),
                ) {
                    Some(s.turns[(turn@, Seq::<char>::empty())])
                } else {
                    None
                },
                None => t.owners[index as int] is None,
            }
            &&& t.frames.len() == s.frames.len() + 1
            &&& forall|i: int| 0 <= i < s.frames.len() ==> #[trigger] t.frames[i] == s.frames[i]
            &&& frame.record_index == index
            &&& frame.boundary_depth == s.stack.len()
            &&& frame.owner == t.owners[index as int]
            &&& frame.has_replacement_history == (item.replacement_history is Some
                || item.replacement_history_entries is Some)
            &&& frame.has_guardian_history == item.guardian_history is Some
            &&& item.retained_context is None ==> frame.context is None
            &&& item.retained_context matches Some(context) ==> frame.context == Some(
                context.entries@,
            )
            &&& frame.truncations.len() == 0
            &&& frame.drop_last_n_user_turns == 0
            &&& t.stack == s.stack && t.boundaries == s.boundaries && t.turns == s.turns
            &&& t.active_turn == s.active_turn && t.pending_turn == s.pending_turn
        }),
{
    lemma_turn_keys();
    lemma_stack_is_short(s, s.stack.len() as int);
}

/// There are no more live instructions than instructions.
proof fn lemma_stack_is_short(s: PlannerState, upto: int)
    requires
        s.wf(),
        0 <= upto <= s.stack.len(),
    ensures
        upto <= s.boundaries.len(),
        upto > 0 ==> s.stack[upto - 1] >= upto - 1,
    decreases upto,
{
    if upto > 0 {
        lemma_stack_is_short(s, upto - 1);
        if upto > 1 {
            assert(s.stack[upto - 2] < s.stack[upto - 1]);
        }
    }
}

/// A verified answer belongs to the instruction of its call where the call is known, else to that of
/// its turn, else to the newest one; and it is remembered where it stands.
pub proof fn answers_belong_to_their_call(s: PlannerState, answer: VerifiedAnswer)
    requires
        takes_more(s),
    ensures
        ({
            let t = observed(s, RolloutItem::RetainedContext(answer));
            let index = s.owners.len();
            let call: NameKey = (answer.turn_id@, answer.call_id@);
            let turn: NameKey = (answer.turn_id@, Seq::empty());
            &&& t.owners.len() == index + 1
            &&& forall|i: int| 0 <= i < index ==> #[trigger] t.owners[i] == s.owners[i]
            &&& s.calls.contains_key(call) ==> t.owners[index as int] == s.calls[call]
            &&& !s.calls.contains_key(call) && s.turns.contains_key(turn) ==> t.owners[index as int]
                == Some(s.turns[turn])
            &&& !s.calls.contains_key(call) && !s.turns.contains_key(turn) ==> belongs_to_newest(
                s,
                t,
            )
            &&& t.calls.contains_key(call) && t.calls[call] == t.owners[index as int]
            &&& t.facts.len() == s.facts.len() + 1
            &&& t.facts[s.facts.len() as int].record_index == index
            &&& t.facts[s.facts.len() as int].turn_id@ == answer.turn_id@
            &&& t.facts[s.facts.len() as int].acceptance_order == answer.acceptance_order
            &&& t.stack == s.stack && t.boundaries == s.boundaries && t.turns == s.turns
        }),
{
    lemma_turn_keys();
}

/// What a message says is what its parts say: the texts one after the other, the images and the audio
/// each in order.
pub proof fn messages_say_what_their_parts_say(
    content: Seq<ContentItem>,
    text: String,
    url: String,
)
    ensures
        content_text(Seq::empty()).len() == 0,
        content_images(Seq::empty()).len() == 0,
        content_audio(Seq::empty()).len() == 0,
        content_text(content.push(ContentItem::InputText { text })) == content_text(content)
            + text@,
        content_text(content.push(ContentItem::InputImage { image_url: url })) == content_text(
            content,
        ),
        content_text(content.push(ContentItem::InputAudio { audio_url: url })) == content_text(
            content,
        ),
        content_images(content.push(ContentItem::InputImage { image_url: url }))
            == content_images(content).push(url@),
        content_images(content.push(ContentItem::InputText { text })) == content_images(content),
        content_images(content.push(ContentItem::InputAudio { audio_url: url })) == content_images(
            content,
        ),
        content_audio(content.push(ContentItem::InputAudio { audio_url: url })) == content_audio(
            content,
        ).push(url@),
        content_audio(content.push(ContentItem::InputText { text })) == content_audio(content),
        content_audio(content.push(ContentItem::InputImage { image_url: url })) == content_audio(
            content,
        ),
{
    assert(content.push(ContentItem::InputText { text }).drop_last() =~= content);
    assert(content.push(ContentItem::InputImage { image_url: url }).drop_last() =~= content);
    assert(content.push(ContentItem::InputAudio { audio_url: url }).drop_last() =~= content);
}

/// An event repeats a response item exactly where it says the same text with the same images and
/// audio, holds no local file, and the item holds no output.
pub proof fn events_repeat_what_they_say_again(content: Seq<ContentItem>, event: UserMessage)
    ensures
        event_repeats_response(content, event) <==> {
            &&& forall|i: int|
                0 <= i < content.len() ==> !(#[trigger] content[i] is OutputText)
            &&& content_text(content) == event.message@
            &&& content_images(content) == match event.images {
                Some(images) => texts(images@),
                None => Seq::empty(),
            }
            &&& content_audio(content) == match event.audio {
                Some(audio) => texts(audio@),
                None => Seq::empty(),
            }
            &&& event.local_images@.len() == 0 && event.local_audio@.len() == 0
        },
{
}

/// The references of a checkpoint are those of its entries, in order: an entry that refers to an item
/// adds the item, one that holds it adds nothing.
pub proof fn checkpoints_refer_to_what_their_entries_name(
    entries: Seq<CompactedHistoryEntry>,
    entry: CompactedHistoryEntry,
)
    ensures
        entry_references(Seq::empty()).len() == 0,
        entry_references(entries.push(entry)) == match entry {
            CompactedHistoryEntry::Inline { .. } => entry_references(entries),
            CompactedHistoryEntry::Reference { item_id } => entry_references(entries).push(item_id),
            CompactedHistoryEntry::ReferenceV2 { item_id, .. } => entry_references(entries).push(
                item_id,
            ),
        },
{
    assert(entries.push(entry).drop_last() =~= entries);
}

/// How many live instructions are left of some when a number of turns is rolled back.
pub open spec fn left_of(live: nat, n: u32) -> int {
    if n >= live {
        0
    } else {
        live - n
    }
}

/// A rollback takes away exactly the newest live instructions, as many as it names or as there are.
/// The turn under way ends, and nothing waits any more. Records keep their owners, but for answers
/// that were accepted at or after the oldest instruction that is taken away: they go with it.
pub proof fn rollbacks_take_the_newest_instructions(s: PlannerState, n: u32)
    requires
        takes_more(s),
        n > 0,
        !observation_fails(s, RolloutItem::EventMsg(EventMsg::ThreadRolledBack { num_turns: n })),
    ensures
        ({
            let t = observed(
                s,
                RolloutItem::EventMsg(EventMsg::ThreadRolledBack { num_turns: n }),
            );
            let left = left_of(s.stack.len(), n);
            let first = s.stack[left];
            let order = s.boundaries[first as int].acceptance_order;
            &&& t.stack == s.stack.take(left)
            &&& t.boundaries.len() == s.boundaries.len()
            &&& forall|b: int|
                0 <= b < s.boundaries.len() ==> (#[trigger] t.boundaries[b]).alive
                    == t.stack.contains(b as usize)
            &&& forall|b: int|
                0 <= b < s.boundaries.len() ==> (#[trigger] t.boundaries[b]).record_index
                    == s.boundaries[b].record_index && t.boundaries[b].message_id
                    == s.boundaries[b].message_id && t.boundaries[b].acceptance_order
                    == s.boundaries[b].acceptance_order
            &&& t.active_turn is None
            &&& t.pending_turn.len() == 0 && t.pending_context.len() == 0
            &&& t.pending_user is None && t.pending_delivery is None
            &&& t.turns == s.turns && t.calls == s.calls && t.facts == s.facts
            &&& t.owners.len() == s.owners.len() + 1
            &&& forall|i: int|
                0 <= i < s.owners.len() ==> #[trigger] t.owners[i] == if left < s.stack.len()
                    && order is Some && (exists|f: int|
                    0 <= f < s.facts.len() && (#[trigger] s.facts[f]).record_index == i
                        && s.facts[f].acceptance_order is Some && s.facts[f].acceptance_order->0
                        >= order->0) {
                    Some(first)
                } else {
                    s.owners[i]
                }
        }),
{
    let c = crate::rollback_plan::counted(s);
    crate::rollback_plan::lemma_rolled_back(c, n);
    let t = observed(s, RolloutItem::EventMsg(EventMsg::ThreadRolledBack { num_turns: n }));
    let left = left_of(s.stack.len(), n);
    assert(t.stack =~= s.stack.take(left));
    assert forall|b: int| 0 <= b < s.boundaries.len() implies (#[trigger] t.boundaries[b]).alive
        == t.stack.contains(b as usize) by {
        assert(t.wf());
    }
}

/// A rollback cannot be carried out exactly where it reaches into the history of the newest live
/// checkpoint, beyond the instructions behind it, and that checkpoint keeps no history.
pub proof fn rollbacks_fail_inside_checkpoints_without_history(
    s: PlannerState,
    n: u32,
    at: int,
)
    requires
        takes_more(s),
        0 <= at < s.frames.len(),
        ({
            let kept = s.stack.take(left_of(s.stack.len(), n));
            &&& s.frames[at].owner is None || kept.contains(s.frames[at].owner->0)
            &&& forall|later: int|
                at < later < s.frames.len() ==> (#[trigger] s.frames[later]).owner is Some
                    && !kept.contains(s.frames[later].owner->0)
        }),
    ensures
        observation_fails(
            s,
            RolloutItem::EventMsg(EventMsg::ThreadRolledBack { num_turns: n }),
        ) <==> (n > 0 && s.frames[at].boundary_depth + n > s.stack.len()
            && !s.frames[at].has_replacement_history),
{
    let c = crate::rollback_plan::counted(s);
    if n > 0 {
        crate::rollback_plan::lemma_rolled_back(c, n);
        let after = crate::rollback_plan::boundaries_after(c, n);
        let kept = s.stack.take(left_of(s.stack.len(), n));
        assert(c.stack.take(crate::rollback_plan::kept_depth(c, n)) =~= kept);
        let t = crate::rollback_plan::rolled_back(c, n);
        assert(t.wf());
        assert forall|f: int| 0 <= f < s.frames.len() implies crate::rollback_plan::frame_live(
            after,
            #[trigger] s.frames[f],
        ) == (s.frames[f].owner is None || kept.contains(s.frames[f].owner->0)) by {
            assert(crate::rollback_plan::known_boundary(s.frames[f].owner, s.boundaries.len()));
        }
        lemma_newest_live(after, s.frames, s.frames.len() as int, at);
    }
}

proof fn lemma_newest_live(
    boundaries: Seq<crate::rollback_plan::InstructionBoundary>,
    frames: Seq<FrameState>,
    upto: int,
    at: int,
)
    requires
        0 <= at < upto <= frames.len(),
        crate::rollback_plan::frame_live(boundaries, frames[at]),
        forall|later: int|
            at < later < upto ==> !crate::rollback_plan::frame_live(
                boundaries,
                #[trigger] frames[later],
            ),
    ensures
        crate::rollback_plan::newest_live_frame(boundaries, frames, upto) == at,
    decreases upto,
{
    if upto - 1 > at {
        assert(!crate::rollback_plan::frame_live(boundaries, frames[upto - 1]));
        lemma_newest_live(boundaries, frames, upto - 1, at);
    }
}

/// A rollback that finds no live checkpoint can be carried out.
pub proof fn rollbacks_without_a_checkpoint_succeed(s: PlannerState, n: u32)
    requires
        takes_more(s),
        forall|i: int|
            0 <= i < s.frames.len() ==> (#[trigger] s.frames[i]).owner is Some && !s.stack.take(
                left_of(s.stack.len(), n),
            ).contains(s.frames[i].owner->0),
    ensures
        !observation_fails(
            s,
            RolloutItem::EventMsg(EventMsg::ThreadRolledBack { num_turns: n }),
        ),
{
    let c = crate::rollback_plan::counted(s);
    if n > 0 {
        crate::rollback_plan::lemma_rolled_back(c, n);
        let after = crate::rollback_plan::boundaries_after(c, n);
        let kept = s.stack.take(left_of(s.stack.len(), n));
        assert(c.stack.take(crate::rollback_plan::kept_depth(c, n)) =~= kept);
        let t = crate::rollback_plan::rolled_back(c, n);
        assert(t.wf());
        let at = crate::rollback_plan::reached_frame(c, n);
        if at >= 0 {
            lemma_reached_is_live(after, s.frames, s.frames.len() as int);
            assert(crate::rollback_plan::known_boundary(s.frames[at].owner, s.boundaries.len()));
            assert(false);
        }
    }
}

proof fn lemma_reached_is_live(
    boundaries: Seq<crate::rollback_plan::InstructionBoundary>,
    frames: Seq<FrameState>,
    upto: int,
)
    requires
        0 <= upto <= frames.len(),
    ensures
        ({
            let at = crate::rollback_plan::newest_live_frame(boundaries, frames, upto);
            at >= 0 ==> at < upto && crate::rollback_plan::frame_live(boundaries, frames[at])
        }),
    decreases upto,
{
    if upto > 0 {
        lemma_reached_is_live(boundaries, frames, upto - 1);
    }
}

/// The smaller of two counts.
pub open spec fn smaller(a: int, b: int) -> int {
    if a < b {
        a
    } else {
        b
    }
}

/// What a rollback takes from the checkpoints. A checkpoint keeps its place, its owner and what it
/// refers to. Its approval evidence is cut by the instructions that are taken away and lie before it,
/// from the message of the oldest one on. The newest live checkpoint, where the rollback reaches into
/// its history, drops as many more user turns as lie inside it, and no other drops any.
pub proof fn rollbacks_cut_into_checkpoints(s: PlannerState, n: u32, i: int)
    requires
        takes_more(s),
        n > 0,
        !observation_fails(s, RolloutItem::EventMsg(EventMsg::ThreadRolledBack { num_turns: n })),
        0 <= i < s.frames.len(),
    ensures
        ({
            let t = observed(
                s,
                RolloutItem::EventMsg(EventMsg::ThreadRolledBack { num_turns: n }),
            );
            let live = s.stack.len() as int;
            let left = left_of(s.stack.len(), n);
            let kept = s.stack.take(left);
            let before = s.frames[i];
            let after = t.frames[i];
            let inside = smaller(before.boundary_depth as int, live) - smaller(
                before.boundary_depth as int,
                left,
            );
            let newest = (before.owner is None || kept.contains(before.owner->0)) && forall|
                later: int,
            |
                i < later < s.frames.len() ==> (#[trigger] s.frames[later]).owner is Some
                    && !kept.contains(s.frames[later].owner->0);
            let reached = if live > before.boundary_depth {
                n - (live - before.boundary_depth)
            } else {
                n as int
            };
            &&& t.frames.len() == s.frames.len()
            &&& after.record_index == before.record_index
            &&& after.boundary_depth == before.boundary_depth
            &&& after.owner == before.owner
            &&& after.has_replacement_history == before.has_replacement_history
            &&& after.referenced == before.referenced
            &&& after.has_guardian_history == before.has_guardian_history
            &&& !(before.has_guardian_history && left < live && inside > 0) ==> after.truncations
                == before.truncations
            &&& before.has_guardian_history && left < live && inside > 0 ==> {
                let cut = after.truncations[before.truncations.len() as int];
                &&& after.truncations.len() == before.truncations.len() + 1
                &&& forall|k: int|
                    0 <= k < before.truncations.len() ==> #[trigger] after.truncations[k]
                        == before.truncations[k]
                &&& cut.removed_turns == inside
                &&& cut.first_removed_message_id == s.boundaries[s.stack[left] as int].message_id
            }
            &&& newest && reached > 0 ==> after.drop_last_n_user_turns == smaller(
                before.drop_last_n_user_turns + reached,
                u32::MAX as int,
            )
            &&& !(newest && reached > 0) ==> after.drop_last_n_user_turns
                == before.drop_last_n_user_turns
        }),
{
    let c = crate::rollback_plan::counted(s);
    crate::rollback_plan::lemma_rolled_back(c, n);
    lemma_stack_is_short(s, s.stack.len() as int);
    let t = crate::rollback_plan::rolled_back(c, n);
    let bounds = crate::rollback_plan::boundaries_after(c, n);
    let left = left_of(s.stack.len(), n);
    let kept = s.stack.take(left);
    assert(c.stack.take(crate::rollback_plan::kept_depth(c, n)) =~= kept);
    assert(t.wf());
    assert forall|f: int| 0 <= f < s.frames.len() implies crate::rollback_plan::frame_live(
        bounds,
        #[trigger] s.frames[f],
    ) == (s.frames[f].owner is None || kept.contains(s.frames[f].owner->0)) by {
        assert(crate::rollback_plan::known_boundary(s.frames[f].owner, s.boundaries.len()));
    }
    let at = crate::rollback_plan::reached_frame(c, n);
    lemma_reached_is_live(bounds, s.frames, s.frames.len() as int);
    lemma_behind_reached(bounds, s.frames, s.frames.len() as int);
    let newest = (s.frames[i].owner is None || kept.contains(s.frames[i].owner->0)) && forall|
        later: int,
    |
        i < later < s.frames.len() ==> (#[trigger] s.frames[later]).owner is Some
            && !kept.contains(s.frames[later].owner->0);
    if newest {
        lemma_newest_live(bounds, s.frames, s.frames.len() as int, i);
    } else if at == i {
        assert forall|later: int| i < later < s.frames.len() implies (
        #[trigger] s.frames[later]).owner is Some && !kept.contains(s.frames[later].owner->0) by {
            assert(!crate::rollback_plan::frame_live(bounds, s.frames[later]));
        }
        assert(false);
    }
}

proof fn lemma_behind_reached(
    boundaries: Seq<crate::rollback_plan::InstructionBoundary>,
    frames: Seq<FrameState>,
    upto: int,
)
    requires
        0 <= upto <= frames.len(),
    ensures
        forall|later: int|
            crate::rollback_plan::newest_live_frame(boundaries, frames, upto) < later < upto && 0
                <= later ==> !crate::rollback_plan::frame_live(
                boundaries,
                #[trigger] frames[later],
            ),
    decreases upto,
{
    if upto > 0 {
        lemma_behind_reached(boundaries, frames, upto - 1);
    }
}

/// Whether a turn goes with a rollback: its instruction is taken away, or the instruction that an
/// answer given in it belongs to behind the rollback.
pub open spec fn turn_goes(s: PlannerState, t: PlannerState, turn: Seq<char>) -> bool {
    let key: NameKey = (turn, Seq::empty());
    ||| s.turns.contains_key(key) && s.stack.contains(s.turns[key]) && !t.stack.contains(
        s.turns[key],
    )
    ||| exists|f: int|
        0 <= f < s.facts.len() && (#[trigger] s.facts[f]).turn_id@ == turn
            && t.owners[s.facts[f].record_index as int] is Some && s.stack.contains(
            t.owners[s.facts[f].record_index as int]->0,
        ) && !t.stack.contains(t.owners[s.facts[f].record_index as int]->0)
}

proof fn lemma_removed_left(s: PlannerState, n: u32, b: usize)
    requires
        s.wf(),
    ensures
        crate::rollback_plan::is_removed(s, n, b) == (s.stack.contains(b) && !s.stack.take(
            left_of(s.stack.len(), n),
        ).contains(b)),
{
    let left = left_of(s.stack.len(), n);
    let kept = s.stack.take(left);
    let gone = s.stack.skip(left);
    assert(crate::rollback_plan::kept_depth(s, n) == left);
    if gone.contains(b) {
        let j = choose|j: int| 0 <= j < gone.len() && gone[j] == b;
        assert(s.stack[left + j] == b);
        if kept.contains(b) {
            let k = choose|k: int| 0 <= k < kept.len() && kept[k] == b;
            assert(s.stack[k] < s.stack[left + j]);
        }
    } else if s.stack.contains(b) {
        let k = choose|k: int| 0 <= k < s.stack.len() && s.stack[k] == b;
        if k >= left {
            assert(gone[k - left] == b);
        }
        assert(kept[k] == b);
    }
}

/// What a rollback says of itself: the message and the order of the oldest instruction that it takes
/// away, and the turns that go with it.
pub proof fn rollbacks_name_what_they_take(s: PlannerState, n: u32, cut: RollbackCut)
    requires
        takes_more(s),
        n > 0,
        s.stack.len() > 0,
        cut_describes(cut, crate::rollback_plan::counted(s), n),
    ensures
        ({
            let t = observed(
                s,
                RolloutItem::EventMsg(EventMsg::ThreadRolledBack { num_turns: n }),
            );
            let first = s.boundaries[s.stack[left_of(s.stack.len(), n)] as int];
            &&& cut.first_removed_message_id == first.message_id
            &&& cut.acceptance_order == first.acceptance_order
            &&& forall|turn: Seq<char>| #[trigger]
                texts(cut.removed_turns@).contains(turn) == turn_goes(s, t, turn)
        }),
{
    lemma_turn_keys();
    let c = crate::rollback_plan::counted(s);
    crate::rollback_plan::lemma_rolled_back(c, n);
    let t = observed(s, RolloutItem::EventMsg(EventMsg::ThreadRolledBack { num_turns: n }));
    assert forall|b: usize| #[trigger] crate::rollback_plan::is_removed(c, n, b) == (
    s.stack.contains(b) && !t.stack.contains(b)) by {
        assert(crate::rollback_plan::counted(s).wf()) by {
            assert(takes_more(s));
        }
        lemma_removed_left(c, n, b);
        assert(t.stack =~= s.stack.take(left_of(s.stack.len(), n)));
    }
    assert forall|turn: Seq<char>| #[trigger] texts(cut.removed_turns@).contains(turn)
        == turn_goes(s, t, turn) by {
        assert(crate::rollback_plan::turn_removed(c, n, turn) == turn_goes(s, t, turn)) by {
            assert(forall|f: int|
                0 <= f < s.facts.len() ==> crate::rollback_plan::fact_removed(c, n, f) == (
                t.owners[(#[trigger] s.facts[f]).record_index as int] is Some && s.stack.contains(
                    t.owners[s.facts[f].record_index as int]->0,
                ) && !t.stack.contains(t.owners[s.facts[f].record_index as int]->0)));
        }
    }
}

/// What a rollback leaves of the answers that a checkpoint retains, where they are not rolled back as
/// a whole: messages of the user stay, an answer to a known call stays exactly where the instruction
/// of the call does, and any other answer goes exactly where its turn goes.
pub proof fn retained_answers_go_with_their_instruction(
    s: PlannerState,
    n: u32,
    entry: RetainedContextEntry,
)
    requires
        takes_more(s),
        n > 0,
        s.stack.len() > 0,
    ensures
        ({
            let t = observed(
                s,
                RolloutItem::EventMsg(EventMsg::ThreadRolledBack { num_turns: n }),
            );
            let stays = crate::rollback_plan::entry_survives(
                crate::rollback_plan::counted(s),
                n,
                entry,
            );
            match entry {
                RetainedContextEntry::UserMessage { .. } => stays,
                RetainedContextEntry::Answer { turn_id, call_id, .. } => {
                    let call: NameKey = (turn_id@, call_id@);
                    &&& s.calls.contains_key(call) ==> stays == (s.calls[call] is None
                        || t.stack.contains(s.calls[call]->0))
                    &&& !s.calls.contains_key(call) ==> stays == !turn_goes(s, t, turn_id@)
                },
            }
        }),
{
    lemma_turn_keys();
    let c = crate::rollback_plan::counted(s);
    crate::rollback_plan::lemma_rolled_back(c, n);
    let t = observed(s, RolloutItem::EventMsg(EventMsg::ThreadRolledBack { num_turns: n }));
    assert(t.wf());
    assert forall|b: usize| #[trigger] crate::rollback_plan::is_removed(c, n, b) == (
    s.stack.contains(b) && !t.stack.contains(b)) by {
        lemma_removed_left(c, n, b);
        assert(t.stack =~= s.stack.take(left_of(s.stack.len(), n)));
    }
    if let RetainedContextEntry::Answer { turn_id, call_id, .. } = entry {
        let call: NameKey = (turn_id@, call_id@);
        assert(crate::rollback_plan::turn_removed(c, n, turn_id@) == turn_goes(s, t, turn_id@)) by {
            assert(forall|f: int|
                0 <= f < s.facts.len() ==> crate::rollback_plan::fact_removed(c, n, f) == (
                t.owners[(#[trigger] s.facts[f]).record_index as int] is Some && s.stack.contains(
                    t.owners[s.facts[f].record_index as int]->0,
                ) && !t.stack.contains(t.owners[s.facts[f].record_index as int]->0)));
        }
        if s.calls.contains_key(call) {
            assert(crate::rollback_plan::known_boundary(s.calls[call], s.boundaries.len()));
        }
    }
}

proof fn lemma_frames_to_roll_back(s: PlannerState, n: u32, upto: int)
    requires
        0 <= upto <= s.frames.len() <= usize::MAX,
    ensures
        ({
            let listed = crate::rollback_plan::frames_to_roll_back(s, n, upto);
            &&& forall|i: int|
                0 <= i < upto ==> (#[trigger] listed.contains(i as usize)
                    == crate::rollback_plan::context_rolls_back(s, n, s.frames[i]))
            &&& forall|k: int| 0 <= k < listed.len() ==> (#[trigger] listed[k]) < upto
            &&& forall|j: int, k: int|
                0 <= j < k < listed.len() ==> #[trigger] listed[j] > #[trigger] listed[k]
        }),
    decreases upto,
{
    if upto > 0 {
        lemma_frames_to_roll_back(s, n, upto - 1);
        let rest = crate::rollback_plan::frames_to_roll_back(s, n, upto - 1);
        let listed = crate::rollback_plan::frames_to_roll_back(s, n, upto);
        if crate::rollback_plan::context_rolls_back(s, n, s.frames[upto - 1]) {
            assert(listed =~= seq![(upto - 1) as usize] + rest);
            assert forall|i: int| 0 <= i < upto implies (#[trigger] listed.contains(i as usize)
                == crate::rollback_plan::context_rolls_back(s, n, s.frames[i])) by {
                if i == upto - 1 {
                    assert(listed[0] == i);
                } else {
                    assert(rest.contains(i as usize) == crate::rollback_plan::context_rolls_back(
                        s,
                        n,
                        s.frames[i],
                    ));
                    if rest.contains(i as usize) {
                        let k = choose|k: int| 0 <= k < rest.len() && rest[k] == i;
                        assert(listed[k + 1] == i);
                    }
                    if listed.contains(i as usize) {
                        let k = choose|k: int| 0 <= k < listed.len() && listed[k] == i;
                        assert(rest[k - 1] == i);
                    }
                }
            }
        } else if rest.contains((upto - 1) as usize) {
            let k = choose|k: int| 0 <= k < rest.len() && rest[k] == upto - 1;
            assert(false);
        }
    }
}

/// Which retained contexts a rollback reaches. Where the order of the oldest instruction that is taken
/// away is known, every context is rolled back as a whole; where it is not, those of checkpoints behind
/// it are, as a whole where they hold a message of the user, and answer by answer where they do not.
/// The others stay as they are. The cut lists those that are rolled back as a whole, newest first.
pub proof fn rollbacks_reach_the_contexts_behind_them(
    s: PlannerState,
    n: u32,
    cut: RollbackCut,
    i: int,
)
    requires
        takes_more(s),
        n > 0,
        s.stack.len() > 0,
        s.frames.len() <= usize::MAX,
        !observation_fails(s, RolloutItem::EventMsg(EventMsg::ThreadRolledBack { num_turns: n })),
        cut_describes(cut, crate::rollback_plan::counted(s), n),
        0 <= i < s.frames.len(),
    ensures
        ({
            let t = observed(
                s,
                RolloutItem::EventMsg(EventMsg::ThreadRolledBack { num_turns: n }),
            );
            let first = s.boundaries[s.stack[left_of(s.stack.len(), n)] as int];
            let ordered = first.acceptance_order is Some;
            let behind = s.frames[i].record_index >= first.record_index;
            let before = s.frames[i].context;
            let after = t.frames[i].context;
            let asked = exists|k: int|
                0 <= k < before->0.len() && (#[trigger] before->0[k]) is UserMessage;
            let whole = before is Some && (ordered || (behind && asked));
            &&& cut.frames@.contains(i as usize) == whole
            &&& forall|j: int, k: int|
                0 <= j < k < cut.frames@.len() ==> #[trigger] cut.frames@[j]
                    > #[trigger] cut.frames@[k]
            &&& before is None ==> after is None
            &&& whole || !behind ==> after == before
            &&& before is Some && behind && !whole ==> after == Some(
                before->0.filter(
                    |e: RetainedContextEntry|
                        crate::rollback_plan::entry_survives(
                            crate::rollback_plan::counted(s),
                            n,
                            e,
                        ),
                ),
            )
        }),
{
    let c = crate::rollback_plan::counted(s);
    crate::rollback_plan::lemma_rolled_back(c, n);
    lemma_frames_to_roll_back(c, n, s.frames.len() as int);
    let t = observed(s, RolloutItem::EventMsg(EventMsg::ThreadRolledBack { num_turns: n }));
    let before = s.frames[i].context;
    assert(cut.frames@.contains(i as usize) == crate::rollback_plan::context_rolls_back(
        c,
        n,
        c.frames[i],
    ));
}

} // verus!
