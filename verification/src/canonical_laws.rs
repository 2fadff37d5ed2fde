//! What holds of canonical history as a whole.

use crate::canonicalizer::draft_named;
use crate::canonicalizer::emit;
use crate::canonicalizer::event_processed;
use crate::canonicalizer::forget_reasoning;
use crate::canonicalizer::idle;
use crate::canonicalizer::implicit_finished;
use crate::canonicalizer::implicit_started;
use crate::canonicalizer::implied_turn;
use crate::canonicalizer::item_added;
use crate::canonicalizer::item_added_to_open_turn;
use crate::canonicalizer::item_name_taken;
use crate::canonicalizer::legacy_item_added;
use crate::canonicalizer::next_item_name;
use crate::canonicalizer::processed;
use crate::canonicalizer::reasoned;
use crate::canonicalizer::turn_ensured;
use crate::canonicalizer::user_message_added;
use crate::canonicalizer::AddedItem;
use crate::canonicalizer::ReasoningTextKind;
use crate::canonicalizer::Step;
use crate::canonicalizer::TurnState;
use crate::canonicalizer::Written;
use crate::error::ThreadId;
use crate::rollout::EventMsg;
use crate::rollout::LegacyItemDraft;
use crate::rollout::RolloutItem;
use crate::rollout::RolloutLine;
use crate::text::decimal;
use crate::text::digit_char;
use crate::canonical_output::unresolved_after;
use crate::canonical_output::EncodedItem;
use crate::canonicalizer::draft_name;
use crate::rollout::CompactionResolution;
use crate::text::texts;
use vstd::prelude::*;

verus! {

/// Whether a record may follow the head of the canonical history of a thread: it is no session
/// metadata, and a completed item belongs to the thread.
pub open spec fn follows_head(written: Written, thread_id: ThreadId) -> bool {
    match written {
        Written::Source(item) => !(item is SessionMeta),
        Written::Added { thread_id: owner, .. } => owner == thread_id,
        Written::Rehomed { thread_id: owner, .. } => owner == thread_id,
        _ => true,
    }
}

/// Whether a step only adds records that may follow the head, and moves forward.
pub open spec fn moves_forward(base: TurnState, step: Step) -> bool {
    &&& step.state.thread_id == base.thread_id
    &&& step.state.next_item_index >= base.next_item_index
    &&& base.known_turns.subset_of(step.state.known_turns)
    &&& forall|i: int|
        0 <= i < step.writes.len() ==> follows_head(#[trigger] step.writes[i], base.thread_id)
}

proof fn lemma_emit(base: TurnState, step: Step, written: Written)
    requires
        moves_forward(base, step),
        follows_head(written, base.thread_id),
    ensures
        moves_forward(base, emit(step, written)),
{
}

proof fn lemma_turns(
    base: TurnState,
    step: Step,
    timestamp: Seq<char>,
    turn: Seq<char>,
    index: u64,
)
    requires
        moves_forward(base, step),
    ensures
        moves_forward(base, implicit_started(step, timestamp, turn)),
        moves_forward(base, turn_ensured(step, timestamp, index)),
        moves_forward(base, implicit_finished(step, timestamp)),
        moves_forward(base, forget_reasoning(step)),
        moves_forward(base, item_name_taken(step)),
{
    let name = implied_turn(index);
    assert(base.known_turns.subset_of(step.state.known_turns.insert(turn)));
    assert(base.known_turns.subset_of(step.state.known_turns.insert(name)));
}

proof fn lemma_items(
    base: TurnState,
    step: Step,
    timestamp: Seq<char>,
    turn: Seq<char>,
    item: AddedItem,
)
    requires
        moves_forward(base, step),
    ensures
        moves_forward(base, item_added(step, timestamp, turn, item)),
        moves_forward(base, item_added_to_open_turn(step, timestamp, item)),
{
}

proof fn lemma_reasoned(
    base: TurnState,
    step: Step,
    timestamp: Seq<char>,
    index: u64,
    text: Seq<char>,
    kind: ReasoningTextKind,
)
    requires
        moves_forward(base, step),
    ensures
        moves_forward(base, reasoned(step, timestamp, index, text, kind)),
{
    lemma_turns(base, step, timestamp, Seq::empty(), index);
    let ensured = turn_ensured(step, timestamp, index);
    lemma_turns(base, ensured, timestamp, Seq::empty(), index);
}

proof fn lemma_user_message(
    base: TurnState,
    step: Step,
    timestamp: Seq<char>,
    index: u64,
    event: crate::rollout::UserMessage,
)
    requires
        moves_forward(base, step),
    ensures
        moves_forward(base, user_message_added(step, timestamp, index, event)),
{
    lemma_turns(base, step, timestamp, Seq::empty(), index);
    let closed = if step.state.active is Some && !step.state.active->0.explicit
        && step.state.active->0.saw_user {
        implicit_finished(step, timestamp)
    } else {
        step
    };
    lemma_turns(base, closed, timestamp, Seq::empty(), index);
    let ensured = turn_ensured(closed, timestamp, index);
    lemma_turns(base, ensured, timestamp, Seq::empty(), index);
}

proof fn lemma_legacy_item(
    base: TurnState,
    step: Step,
    timestamp: Seq<char>,
    index: u64,
    draft: LegacyItemDraft,
    turn: Option<Seq<char>>,
)
    requires
        moves_forward(base, step),
    ensures
        moves_forward(base, legacy_item_added(step, timestamp, index, draft, turn)),
{
    let name = match turn {
        Some(t) => t,
        None => Seq::empty(),
    };
    lemma_turns(base, step, timestamp, name, index);
    let named = draft_named(step, draft);
    lemma_turns(base, named, timestamp, name, index);
    let item = AddedItem::Converted {
        id: crate::canonicalizer::draft_name(step.state, draft),
        payload: draft.payload@,
    };
    let started = implicit_started(named, timestamp, name);
    let ensured = turn_ensured(named, timestamp, index);
    lemma_turns(base, started, timestamp, name, index);
    lemma_turns(base, ensured, timestamp, name, index);
    lemma_items(base, named, timestamp, name, item);
    lemma_items(base, forget_reasoning(named), timestamp, name, item);
    lemma_items(base, forget_reasoning(started), timestamp, name, item);
    lemma_items(base, forget_reasoning(ensured), timestamp, name, item);
}

proof fn lemma_event(base: TurnState, step: Step, timestamp: Seq<char>, index: u64, event: EventMsg)
    requires
        moves_forward(base, step),
    ensures
        moves_forward(base, event_processed(step, timestamp, index, event)),
{
    lemma_turns(base, step, timestamp, Seq::empty(), index);
    match event {
        EventMsg::TurnStarted(e) => {
            let closed = implicit_finished(step, timestamp);
            assert(base.known_turns.subset_of(closed.state.known_turns.insert(e.turn_id@)));
        },
        EventMsg::UserMessage(e) => {
            lemma_user_message(base, step, timestamp, index, e);
        },
        EventMsg::AgentReasoning { text } => {
            lemma_reasoned(base, step, timestamp, index, text@, ReasoningTextKind::Summary);
        },
        EventMsg::AgentReasoningRawContent { text } => {
            lemma_reasoned(base, step, timestamp, index, text@, ReasoningTextKind::Raw);
        },
        EventMsg::ThreadRolledBack { .. } => {},
        EventMsg::TurnComplete(_) => {},
        EventMsg::TurnAborted(_) => {},
        EventMsg::ItemCompleted(_) => {},
        _ => {
            match crate::canonicalizer::conversion_of(event) {
                crate::rollout::LegacyConversion::Item { draft, turn_id } => {
                    lemma_legacy_item(
                        base,
                        step,
                        timestamp,
                        index,
                        draft,
                        crate::outside::opt_text(turn_id),
                    );
                },
                _ => {},
            }
        },
    }
}

/// No record of the source puts session metadata behind the head, every completed item is written
/// under the thread, a turn that is known stays known, and item identifiers only move forward.
pub proof fn canonical_records_follow_the_head(state: TurnState, line: RolloutLine)
    ensures
        moves_forward(state, processed(state, line)),
{
    if state.source_line_index < u64::MAX {
        let step = idle(
            TurnState { source_line_index: (state.source_line_index + 1) as u64, ..state },
        );
        assert(moves_forward(state, step));
        let index = state.source_line_index;
        match line.item {
            RolloutItem::ResponseItem(response) => {
                let written = emit(step, Written::Source(line.item));
                lemma_emit(state, step, Written::Source(line.item));
                lemma_turns(state, written, line.timestamp@, Seq::empty(), index);
                let ensured = turn_ensured(written, line.timestamp@, index);
                lemma_turns(state, ensured, line.timestamp@, Seq::empty(), index);
            },
            RolloutItem::EventMsg(event) => {
                lemma_event(state, step, line.timestamp@, index, event);
            },
            _ => {},
        }
    }
}

/// When the history ends no implied turn is left open.
pub proof fn no_implied_turn_is_left_open(state: TurnState, timestamp: Seq<char>)
    ensures
        ({
            let end = implicit_finished(idle(state), timestamp).state;
            end.active is None || end.active->0.explicit
        }),
{
}

proof fn lemma_decimal_len(n: nat)
    ensures
        decimal(n).len() >= 1,
    decreases n,
{
    if n >= 10 {
        lemma_decimal_len(n / 10);
    }
}

/// Different numbers have different decimal digits.
pub proof fn decimal_tells_numbers_apart(a: nat, b: nat)
    requires
        decimal(a) == decimal(b),
    ensures
        a == b,
    decreases a,
{
    lemma_decimal_len(a / 10);
    lemma_decimal_len(b / 10);
    assert(decimal(a).last() == digit_char(a % 10));
    assert(decimal(b).last() == digit_char(b % 10));
    assert(a % 10 == b % 10);
    if a < 10 {
        assert(decimal(a).len() == 1);
        if b >= 10 {
            assert(decimal(b).len() == decimal(b / 10).len() + 1);
        }
    } else {
        if b < 10 {
            assert(decimal(a).len() == decimal(a / 10).len() + 1);
        } else {
            assert(decimal(a).drop_last() =~= decimal(a / 10));
            assert(decimal(b).drop_last() =~= decimal(b / 10));
            decimal_tells_numbers_apart(a / 10, b / 10);
        }
    }
}

/// Item identifiers that are handed out at different counts differ, and each is handed out once.
pub proof fn item_identifiers_are_distinct(a: TurnState, b: TurnState)
    requires
        a.next_item_index < b.next_item_index,
    ensures
        next_item_name(a) != next_item_name(b),
        a.next_item_index < u64::MAX ==> item_name_taken(idle(a)).state.next_item_index
            == a.next_item_index + 1,
{
    reveal_strlit("item-");
    let x = decimal(a.next_item_index as nat);
    let y = decimal(b.next_item_index as nat);
    if next_item_name(a) == next_item_name(b) {
        assert(next_item_name(a).skip(5) =~= x);
        assert(next_item_name(b).skip(5) =~= y);
        decimal_tells_numbers_apart(a.next_item_index as nat, b.next_item_index as nat);
    }
}

/// The turns that different source records imply have different names.
pub proof fn implied_turns_are_distinct(a: u64, b: u64)
    requires
        a != b,
    ensures
        implied_turn(a) != implied_turn(b),
{
    reveal_strlit("rollout-");
    if implied_turn(a) == implied_turn(b) {
        assert(implied_turn(a).skip(8) =~= decimal(a as nat));
        assert(implied_turn(b).skip(8) =~= decimal(b as nat));
        decimal_tells_numbers_apart(a as nat, b as nat);
    }
}

/// An item that names its turn is recorded in that turn, however late it comes: it is the last
/// record written, and no other item is written with it.
pub proof fn items_stay_in_the_turn_that_they_name(
    step: Step,
    timestamp: Seq<char>,
    index: u64,
    draft: LegacyItemDraft,
    turn: Seq<char>,
)
    requires
        step.failure is None,
    ensures
        ({
            let after = legacy_item_added(step, timestamp, index, draft, Some(turn));
            after.failure is None ==> {
                &&& after.writes.len() > step.writes.len()
                &&& after.writes.last() matches Written::Added { turn: recorded, item, .. }
                    && recorded == turn && item == (AddedItem::Converted {
                    id: draft_name(step.state, draft),
                    payload: draft.payload@,
                })
                &&& forall|i: int|
                    step.writes.len() <= i < after.writes.len() - 1 ==> (
                    #[trigger] after.writes[i]) is Started
            }
        }),
{
}

/// The references without a source of the newest of the first `n` checkpoints, each given by what
/// encoding it came to.
pub open spec fn unresolved_through(encoded: Seq<EncodedItem>, n: int) -> Option<Seq<Seq<char>>>
    decreases n,
{
    if n <= 0 {
        None
    } else {
        unresolved_after(
            unresolved_through(encoded, n - 1),
            true,
            CompactionResolution::InferSelected,
            encoded[n - 1],
        )
    }
}

/// Only the newest checkpoint has to resolve: where it does, older ones may stay unresolved, and
/// where it does not, the history is refused with the references that it misses.
pub proof fn the_newest_checkpoint_decides(encoded: Seq<EncodedItem>)
    requires
        encoded.len() > 0,
    ensures
        unresolved_through(encoded, encoded.len() as int) == match encoded.last() {
            EncodedItem::Encoded { .. } => None,
            EncodedItem::Missing { missing, .. } => Some(texts(missing@)),
        },
{
}

} // verus!
