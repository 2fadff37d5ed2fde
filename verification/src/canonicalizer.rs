//! Replays normalised legacy records into canonical paginated history.
//!
//! Rollback planning happens before this writer sees a record, so the module only synthesises the
//! turns and items that legacy records imply, assigns stable ordinals, and keeps the session
//! metadata at ordinal zero. Serialising and writing the records is left to the caller.

use crate::error::migration_error;
use crate::error::migration_failure;
use crate::error::ThreadId;
use crate::error::ThreadStoreError;
use crate::error::ThreadStoreResult;
use crate::outside::opt_text;
use crate::outside::rfc3339_instant;
use crate::rollout::copy_name;
use crate::rollout::EventMsg;
use crate::rollout::ItemCompleted;
use crate::rollout::LegacyConversion;
use crate::rollout::LegacyItemDraft;
use crate::rollout::ReasoningItem;
use crate::rollout::ResponseBody;
use crate::rollout::ResponseItemEnvelope;
use crate::rollout::RolloutItem;
use crate::rollout::RolloutLine;
use crate::rollout::SessionMeta;
use crate::rollout::ThreadHistoryMode;
use crate::rollout::TurnAborted;
use crate::rollout::TurnComplete;
use crate::rollout::TurnItem;
use crate::rollout::TurnStarted;
use crate::text::concat2;
use crate::text::copy_texts;
use crate::text::decimal;
use crate::text::decimal_text;
use crate::text::same_text;
use crate::text::texts;
use vstd::hash_set::StringHashSet;
use vstd::prelude::*;

verus! {

/// The turn that is open.
#[derive(Debug)]
pub struct ActiveTurn {
    pub id: String,
    /// Whether a record of the source started the turn.
    pub explicit: bool,
    pub saw_user: bool,
}

/// The turn that is open, by its name.
pub struct OpenTurn {
    pub id: Seq<char>,
    pub explicit: bool,
    pub saw_user: bool,
}

/// Reasoning as it accumulates, over sequences.
#[verifier::ext_equal]
pub struct ReasoningState {
    pub id: Seq<char>,
    pub summary: Seq<Seq<char>>,
    pub raw: Seq<Seq<char>>,
}

/// Reasoning over sequences.
pub open spec fn reasoning_state(item: ReasoningItem) -> ReasoningState {
    ReasoningState {
        id: item.id@,
        summary: texts(item.summary_text@),
        raw: texts(item.raw_content@),
    }
}

/// The turn that is open, by its name.
pub open spec fn open_turn(turn: Option<ActiveTurn>) -> Option<OpenTurn> {
    match turn {
        Some(t) => Some(OpenTurn { id: t.id@, explicit: t.explicit, saw_user: t.saw_user }),
        None => None,
    }
}

/// The turns, items and counters of canonical history.
#[verifier::ext_equal]
pub struct TurnState {
    pub thread_id: ThreadId,
    pub next_item_index: u64,
    pub source_line_index: u64,
    pub active: Option<OpenTurn>,
    pub known_turns: Set<Seq<char>>,
    pub reasoning: Option<ReasoningState>,
}

/// A completed item that the canonical history adds.
pub enum AddedItem {
    Reasoning(ReasoningState),
    HookPrompt(Seq<char>),
    UserMessage { id: Seq<char>, payload: Seq<char> },
    Converted { id: Seq<char>, payload: Seq<char> },
}

/// One record of the canonical history.
#[allow(inconsistent_fields)]
pub enum Written {
    /// A record of the source, unchanged.
    Source(RolloutItem),
    /// The start of a turn that the source implies.
    Started { turn: Seq<char>, at: i64 },
    /// The end of a turn that the source implies.
    Completed { turn: Seq<char>, at: i64 },
    /// An abortion, with the turn that it ends where the source leaves that out.
    Aborted { turn: Option<Seq<char>>, payload: String },
    /// A completed item of the source, under this thread.
    Rehomed { event: ItemCompleted, thread_id: ThreadId },
    /// A completed item that a legacy record implies.
    Added { turn: Seq<char>, item: AddedItem, at_ms: i64, thread_id: ThreadId },
}

/// What a record leads to: the next state, the records written, and the message of the failure
/// that ended it, where it failed.
#[verifier::ext_equal]
pub struct Step {
    pub state: TurnState,
    pub writes: Seq<Written>,
    pub failure: Option<Seq<char>>,
}

/// Nothing has happened yet.
pub open spec fn idle(state: TurnState) -> Step {
    Step { state, writes: Seq::empty(), failure: None }
}

/// A record is written, unless the step has failed.
pub open spec fn emit(step: Step, written: Written) -> Step {
    if step.failure is Some {
        step
    } else {
        Step { writes: step.writes.push(written), ..step }
    }
}

/// The step fails, unless it has failed before.
pub open spec fn fail(step: Step, message: Seq<char>) -> Step {
    if step.failure is Some {
        step
    } else {
        Step { failure: Some(message), ..step }
    }
}

/// The collected reasoning ends, unless the step has failed.
pub open spec fn forget_reasoning(step: Step) -> Step {
    if step.failure is Some {
        step
    } else {
        Step { state: TurnState { reasoning: None, ..step.state }, ..step }
    }
}

/// An implied turn starts.
pub open spec fn implicit_started(step: Step, timestamp: Seq<char>, turn: Seq<char>) -> Step {
    if step.failure is Some {
        step
    } else {
        let opened = Step {
            state: TurnState {
                active: Some(OpenTurn { id: turn, explicit: false, saw_user: false }),
                known_turns: step.state.known_turns.insert(turn),
                reasoning: None,
                ..step.state
            },
            ..step
        };
        match rfc3339_instant(timestamp) {
            Ok(instant) => emit(opened, Written::Started { turn, at: instant.0 }),
            Err(message) => fail(opened, message),
        }
    }
}

/// The name of the turn that a source record implies.
pub open spec fn implied_turn(source_index: u64) -> Seq<char> {
    "rollout-"@ + decimal(source_index as nat)
}

/// Some turn is open.
pub open spec fn turn_ensured(step: Step, timestamp: Seq<char>, source_index: u64) -> Step {
    if step.failure is Some || step.state.active is Some {
        step
    } else {
        implicit_started(step, timestamp, implied_turn(source_index))
    }
}

/// An implied turn that is open ends.
pub open spec fn implicit_finished(step: Step, timestamp: Seq<char>) -> Step {
    if step.failure is Some || step.state.active is None || step.state.active->0.explicit {
        step
    } else {
        let turn = step.state.active->0.id;
        let closed = Step {
            state: TurnState { active: None, reasoning: None, ..step.state },
            ..step
        };
        match rfc3339_instant(timestamp) {
            Ok(instant) => emit(closed, Written::Completed { turn, at: instant.0 }),
            Err(message) => fail(closed, message),
        }
    }
}

/// An item is completed in a turn.
pub open spec fn item_added(
    step: Step,
    timestamp: Seq<char>,
    turn: Seq<char>,
    item: AddedItem,
) -> Step {
    if step.failure is Some {
        step
    } else {
        match rfc3339_instant(timestamp) {
            Ok(instant) => emit(
                step,
                Written::Added {
                    turn,
                    item,
                    at_ms: instant.1,
                    thread_id: step.state.thread_id,
                },
            ),
            Err(message) => fail(step, message),
        }
    }
}

/// An item is completed in the open turn.
pub open spec fn item_added_to_open_turn(
    step: Step,
    timestamp: Seq<char>,
    item: AddedItem,
) -> Step {
    if step.state.active is Some {
        item_added(step, timestamp, step.state.active->0.id, item)
    } else {
        fail(step, "completed rollout item has no active turn"@)
    }
}

/// The next identifier of an item.
pub open spec fn next_item_name(state: TurnState) -> Seq<char> {
    "item-"@ + decimal(state.next_item_index as nat)
}

/// The next identifier of an item is handed out.
pub open spec fn item_name_taken(step: Step) -> Step {
    if step.failure is Some {
        step
    } else if step.state.next_item_index == u64::MAX {
        fail(step, "legacy rollout item id overflow"@)
    } else {
        Step {
            state: TurnState {
                next_item_index: (step.state.next_item_index + 1) as u64,
                ..step.state
            },
            ..step
        }
    }
}

/// A draft has an identifier: its own, or the next one.
pub open spec fn draft_named(step: Step, draft: LegacyItemDraft) -> Step {
    if draft.id is Some {
        step
    } else {
        item_name_taken(step)
    }
}

/// The identifier of a draft.
pub open spec fn draft_name(state: TurnState, draft: LegacyItemDraft) -> Seq<char> {
    match draft.id {
        Some(id) => id@,
        None => next_item_name(state),
    }
}

/// Whether a text adds to the summary or to the raw content of reasoning.
#[derive(Clone, Copy, Debug, PartialEq, Eq, Structural)]
pub enum ReasoningTextKind {
    Summary,
    Raw,
}

/// Reasoning with one more text.
pub open spec fn reasoning_grown(
    item: ReasoningState,
    text: Seq<char>,
    kind: ReasoningTextKind,
) -> ReasoningState {
    match kind {
        ReasoningTextKind::Summary => ReasoningState { summary: item.summary.push(text), ..item },
        ReasoningTextKind::Raw => ReasoningState { raw: item.raw.push(text), ..item },
    }
}

/// Reasoning text is added to the reasoning that is being collected, or begins a new item.
pub open spec fn reasoned(
    step: Step,
    timestamp: Seq<char>,
    source_index: u64,
    text: Seq<char>,
    kind: ReasoningTextKind,
) -> Step {
    if text.len() == 0 {
        step
    } else {
        let ensured = turn_ensured(step, timestamp, source_index);
        let named = if ensured.state.reasoning is Some {
            ensured
        } else {
            item_name_taken(ensured)
        };
        if named.failure is Some {
            named
        } else {
            let base = match ensured.state.reasoning {
                Some(item) => item,
                None => ReasoningState {
                    id: next_item_name(ensured.state),
                    summary: Seq::empty(),
                    raw: Seq::empty(),
                },
            };
            let item = reasoning_grown(base, text, kind);
            let grown = Step {
                state: TurnState { reasoning: Some(item), ..named.state },
                ..named
            };
            item_added_to_open_turn(grown, timestamp, AddedItem::Reasoning(item))
        }
    }
}

/// The item of a user message has an identifier, where the message can become an item.
pub open spec fn message_converted(step: Step, event: crate::rollout::UserMessage) -> Step {
    match event.conversion_error {
        Some(error) => fail(step, error@),
        None => draft_named(step, event.draft),
    }
}

/// A user message becomes an item of the open turn. In an implied turn every message but the first
/// begins a new turn.
pub open spec fn user_message_added(
    step: Step,
    timestamp: Seq<char>,
    source_index: u64,
    event: crate::rollout::UserMessage,
) -> Step {
    let closed = if step.state.active is Some && !step.state.active->0.explicit
        && step.state.active->0.saw_user {
        implicit_finished(step, timestamp)
    } else {
        step
    };
    let ensured = turn_ensured(closed, timestamp, source_index);
    let converted = message_converted(ensured, event);
    if converted.failure is Some {
        converted
    } else {
        let seen = Step {
            state: TurnState {
                active: Some(OpenTurn { saw_user: true, ..converted.state.active->0 }),
                reasoning: None,
                ..converted.state
            },
            ..converted
        };
        item_added_to_open_turn(
            seen,
            timestamp,
            AddedItem::UserMessage {
                id: draft_name(ensured.state, event.draft),
                payload: event.draft.payload@,
            },
        )
    }
}

/// A legacy event becomes an item, in the turn that it names or in the open one.
pub open spec fn legacy_item_added(
    step: Step,
    timestamp: Seq<char>,
    source_index: u64,
    draft: LegacyItemDraft,
    turn: Option<Seq<char>>,
) -> Step {
    let named = draft_named(step, draft);
    let item = AddedItem::Converted {
        id: draft_name(step.state, draft),
        payload: draft.payload@,
    };
    let active = step.state.active;
    match turn {
        Some(turn) => if active is Some && active->0.id != turn {
            item_added(named, timestamp, turn, item)
        } else if active is None && step.state.known_turns.contains(turn) {
            item_added(forget_reasoning(named), timestamp, turn, item)
        } else if active is None {
            item_added_to_open_turn(
                forget_reasoning(implicit_started(named, timestamp, turn)),
                timestamp,
                item,
            )
        } else {
            item_added_to_open_turn(forget_reasoning(named), timestamp, item)
        },
        None => item_added_to_open_turn(
            forget_reasoning(turn_ensured(named, timestamp, source_index)),
            timestamp,
            item,
        ),
    }
}

/// What an event becomes that has no rule of its own.
pub open spec fn conversion_of(event: EventMsg) -> LegacyConversion {
    match event {
        EventMsg::ExecCommandEnd { event, .. } => event.conversion,
        EventMsg::PatchApplyEnd { event, .. } => event.conversion,
        EventMsg::DynamicToolCallResponse { event, .. } => event.conversion,
        EventMsg::EnteredReviewMode { event, .. } => event.conversion,
        EventMsg::ExitedReviewMode { event, .. } => event.conversion,
        EventMsg::Other { event } => event.conversion,
        _ => LegacyConversion::Event { persisted: false },
    }
}

/// The turn closes where it is the open one.
pub open spec fn turn_closed(step: Step, turn: Option<Seq<char>>) -> Step {
    if turn is Some && step.state.active is Some && step.state.active->0.id == turn->0 {
        Step { state: TurnState { active: None, ..step.state }, ..step }
    } else {
        step
    }
}

/// What an event leads to.
pub open spec fn event_processed(
    step: Step,
    timestamp: Seq<char>,
    index: u64,
    event: EventMsg,
) -> Step {
    match event {
        EventMsg::ThreadRolledBack { .. } => fail(
            step,
            "rollback marker reached canonical writer without a rollback plan"@,
        ),
        EventMsg::TurnStarted(e) => {
            let closed = implicit_finished(step, timestamp);
            if closed.failure is Some {
                closed
            } else {
                emit(
                    Step {
                        state: TurnState {
                            active: Some(
                                OpenTurn { id: e.turn_id@, explicit: true, saw_user: false },
                            ),
                            known_turns: closed.state.known_turns.insert(e.turn_id@),
                            reasoning: None,
                            ..closed.state
                        },
                        ..closed
                    },
                    Written::Source(RolloutItem::EventMsg(event)),
                )
            }
        },
        EventMsg::TurnComplete(e) => emit(
            turn_closed(forget_reasoning(step), Some(e.turn_id@)),
            Written::Source(RolloutItem::EventMsg(event)),
        ),
        EventMsg::TurnAborted(e) => {
            let turn = if e.turn_id is Some {
                opt_text(e.turn_id)
            } else if step.state.active is Some {
                Some(step.state.active->0.id)
            } else {
                None
            };
            emit(
                forget_reasoning(turn_closed(step, turn)),
                Written::Aborted { turn, payload: e.payload },
            )
        },
        EventMsg::UserMessage(e) => user_message_added(step, timestamp, index, e),
        EventMsg::AgentReasoning { text } => reasoned(
            step,
            timestamp,
            index,
            text@,
            ReasoningTextKind::Summary,
        ),
        EventMsg::AgentReasoningRawContent { text } => reasoned(
            step,
            timestamp,
            index,
            text@,
            ReasoningTextKind::Raw,
        ),
        EventMsg::ItemCompleted(e) => emit(
            forget_reasoning(step),
            Written::Rehomed { event: e, thread_id: step.state.thread_id },
        ),
        _ => match conversion_of(event) {
            LegacyConversion::Event { persisted } => if persisted {
                emit(step, Written::Source(RolloutItem::EventMsg(event)))
            } else {
                step
            },
            LegacyConversion::Item { draft, turn_id } => legacy_item_added(
                step,
                timestamp,
                index,
                draft,
                opt_text(turn_id),
            ),
            LegacyConversion::Failed { error } => fail(step, error@),
        },
    }
}

/// The hook prompt of a user message.
pub open spec fn hook_prompt(response: ResponseItemEnvelope) -> Option<Seq<char>> {
    if response.item.body matches ResponseBody::Message { role, .. } && role@ == "user"@ {
        opt_text(response.item.hook_prompt)
    } else {
        None
    }
}

/// What a response item leads to.
pub open spec fn response_processed(
    step: Step,
    timestamp: Seq<char>,
    index: u64,
    response: ResponseItemEnvelope,
) -> Step {
    if response.item.body is Other {
        fail(step, "legacy rollout contains an unsupported response item"@)
    } else {
        let written = emit(step, Written::Source(RolloutItem::ResponseItem(response)));
        match hook_prompt(response) {
            Some(prompt) => item_added_to_open_turn(
                forget_reasoning(turn_ensured(written, timestamp, index)),
                timestamp,
                AddedItem::HookPrompt(prompt),
            ),
            None => written,
        }
    }
}

/// What a record of the source leads to.
pub open spec fn processed(state: TurnState, line: RolloutLine) -> Step {
    if state.source_line_index == u64::MAX {
        fail(idle(state), "legacy rollout line index overflow"@)
    } else {
        let index = state.source_line_index;
        let step = idle(
            TurnState { source_line_index: (state.source_line_index + 1) as u64, ..state },
        );
        match line.item {
            RolloutItem::SessionMeta(_) => step,
            RolloutItem::ResponseItem(response) => response_processed(
                step,
                line.timestamp@,
                index,
                response,
            ),
            RolloutItem::EventMsg(event) => event_processed(step, line.timestamp@, index, event),
            _ => emit(step, Written::Source(line.item)),
        }
    }
}

/// Whether an added item is the one that a record holds.
pub open spec fn is_added_item(item: TurnItem, added: AddedItem) -> bool {
    match (item, added) {
        (TurnItem::Reasoning(r), AddedItem::Reasoning(state)) => reasoning_state(r) == state,
        (TurnItem::HookPrompt { payload }, AddedItem::HookPrompt(text)) => payload@ == text,
        (
            TurnItem::UserMessage { id, payload },
            AddedItem::UserMessage { id: name, payload: text },
        ) => id@ == name && payload@ == text,
        (
            TurnItem::Converted { id, payload },
            AddedItem::Converted { id: name, payload: text },
        ) => id@ == name && payload@ == text,
        _ => false,
    }
}

/// Whether a record is the one that a step writes.
pub open spec fn is_written(item: RolloutItem, written: Written) -> bool {
    match written {
        Written::Source(source) => item == source,
        Written::Started { turn, at } => {
            &&& item matches RolloutItem::EventMsg(EventMsg::TurnStarted(e))
            &&& e.turn_id@ == turn
            &&& e.started_at == Some(at)
            &&& e.payload@ == ""@
        },
        Written::Completed { turn, at } => {
            &&& item matches RolloutItem::EventMsg(EventMsg::TurnComplete(e))
            &&& e.turn_id@ == turn
            &&& e.completed_at == Some(at)
            &&& e.payload@ == ""@
        },
        Written::Aborted { turn, payload } => {
            &&& item matches RolloutItem::EventMsg(EventMsg::TurnAborted(e))
            &&& opt_text(e.turn_id) == turn
            &&& e.payload == payload
        },
        Written::Rehomed { event, thread_id } => item == RolloutItem::EventMsg(
            EventMsg::ItemCompleted(ItemCompleted { thread_id, ..event }),
        ),
        Written::Added { turn, item: added, at_ms, thread_id } => {
            &&& item matches RolloutItem::EventMsg(EventMsg::ItemCompleted(e))
            &&& e.thread_id == thread_id
            &&& e.turn_id@ == turn
            &&& e.started_at_ms is None
            &&& e.completed_at_ms == at_ms
            &&& is_added_item(e.item, added)
        },
    }
}

/// Whether a list of records is the one that a step writes.
pub open spec fn are_written(items: Seq<RolloutItem>, writes: Seq<Written>) -> bool {
    &&& items.len() == writes.len()
    &&& forall|i: int|
        0 <= i < items.len() ==> is_written(#[trigger] items[i], #[trigger] writes[i])
}

/// The records that one source record becomes. Where it fails, the records before the failure are
/// still written.
#[derive(Debug)]
pub struct LineEffects {
    pub writes: Vec<RolloutItem>,
    pub failure: Option<ThreadStoreError>,
}

/// Whether effects are those of a step.
pub open spec fn effects_of(effects: LineEffects, step: Step) -> bool {
    &&& are_written(effects.writes@, step.writes)
    &&& effects.failure is Some == step.failure is Some
    &&& effects.failure is Some ==> effects.failure->0@ == migration_failure(step.failure->0)
}

/// Builds the canonical history of one legacy rollout.
pub struct LegacyRolloutCanonicalizer {
    pub thread_id: ThreadId,
    pub next_ordinal: u64,
    pub next_item_index: u64,
    pub output_byte_offset: u64,
    pub bytes_written: u64,
    pub source_line_index: u64,
    pub active_turn: Option<ActiveTurn>,
    pub known_turn_ids: StringHashSet,
    pub reasoning: Option<ReasoningItem>,
    pub occurrence_ids: crate::occurrence_ids::MigrationOccurrenceIds,
    pub unresolved_selected_compaction: Option<Vec<String>>,
}

/// What the writing side of the canonicaliser holds.
#[verifier::ext_equal]
pub struct OutputState {
    pub next_ordinal: u64,
    pub byte_offset: u64,
    pub bytes_written: u64,
    pub occurrences: crate::occurrence_ids::OccurrenceState,
    /// The references of the newest checkpoint that have no source.
    pub unresolved: Option<Seq<Seq<char>>>,
}

impl LegacyRolloutCanonicalizer {
    /// The turns, items and counters of the history so far.
    pub open spec fn turns(&self) -> TurnState {
        TurnState {
            thread_id: self.thread_id,
            next_item_index: self.next_item_index,
            source_line_index: self.source_line_index,
            active: open_turn(self.active_turn),
            known_turns: self.known_turn_ids@,
            reasoning: match self.reasoning {
                Some(item) => Some(reasoning_state(item)),
                None => None,
            },
        }
    }

    /// What has been written so far.
    pub open spec fn output(&self) -> OutputState {
        OutputState {
            next_ordinal: self.next_ordinal,
            byte_offset: self.output_byte_offset,
            bytes_written: self.bytes_written,
            occurrences: self.occurrence_ids@,
            unresolved: match self.unresolved_selected_compaction {
                Some(list) => Some(texts(list@)),
                None => None,
            },
        }
    }
}


/// Whether the canonicaliser and the effects stand where a step stands.
pub open spec fn at_step(c: LegacyRolloutCanonicalizer, fx: LineEffects, step: Step) -> bool {
    c.turns() == step.state && effects_of(fx, step)
}

fn write_effect(
    fx: &mut LineEffects,
    item: RolloutItem,
    Ghost(step): Ghost<Step>,
    Ghost(written): Ghost<Written>,
)
    requires
        effects_of(*old(fx), step),
        is_written(item, written),
    ensures
        effects_of(*final(fx), emit(step, written)),
{
    if fx.failure.is_none() {
        fx.writes.push(item);
    }
}

fn fail_effect(fx: &mut LineEffects, message: &str, Ghost(step): Ghost<Step>)
    requires
        effects_of(*old(fx), step),
    ensures
        effects_of(*final(fx), fail(step, message@)),
{
    if fx.failure.is_none() {
        fx.failure = Some(migration_error(message));
    }
}

impl LegacyRolloutCanonicalizer {
    /// A canonicaliser for a thread whose rollout has the given physical identifier.
    pub fn new(
        thread_id: ThreadId,
        rollout_id: ThreadId,
        reserved_response_item_ids: StringHashSet,
    ) -> (r: Self)
        ensures
            r.turns() == (TurnState {
                thread_id,
                next_item_index: 1,
                source_line_index: 0,
                active: None,
                known_turns: Set::empty(),
                reasoning: None,
            }),
            r.output() == (OutputState {
                next_ordinal: 0,
                byte_offset: 0,
                bytes_written: 0,
                occurrences: crate::occurrence_ids::OccurrenceState {
                    rollout_id,
                    reserved: reserved_response_item_ids@,
                    generated: Set::empty(),
                    candidates: Seq::empty(),
                },
                unresolved: None,
            }),
            r.occurrence_ids@.wf(),
    {
        LegacyRolloutCanonicalizer {
            thread_id,
            next_ordinal: 0,
            next_item_index: 1,
            output_byte_offset: 0,
            bytes_written: 0,
            source_line_index: 0,
            active_turn: None,
            known_turn_ids: StringHashSet::new(),
            reasoning: None,
            occurrence_ids: crate::occurrence_ids::MigrationOccurrenceIds::new(
                rollout_id,
                reserved_response_item_ids,
            ),
            unresolved_selected_compaction: None,
        }
    }

    /// The ordinal of the next record.
    pub fn next_ordinal(&self) -> (r: u64)
        ensures
            r == self.output().next_ordinal,
    {
        self.next_ordinal
    }

    /// The number of bytes before the next record.
    pub fn output_byte_offset(&self) -> (r: u64)
        ensures
            r == self.output().byte_offset,
    {
        self.output_byte_offset
    }

    fn start_implicit_turn(
        &mut self,
        fx: &mut LineEffects,
        timestamp: &str,
        turn_id: String,
        Ghost(step): Ghost<Step>,
    )
        requires
            at_step(*old(self), *old(fx), step),
        ensures
            at_step(*final(self), *final(fx), implicit_started(step, timestamp@, turn_id@)),
            final(self).output() == old(self).output(),
    {
        if fx.failure.is_some() {
            return;
        }
        self.active_turn = Some(
            ActiveTurn { id: turn_id.clone(), explicit: false, saw_user: false },
        );
        let _ = self.known_turn_ids.insert(turn_id.clone());
        self.reasoning = None;
        let ghost opened = Step {
            state: TurnState {
                active: Some(OpenTurn { id: turn_id@, explicit: false, saw_user: false }),
                known_turns: step.state.known_turns.insert(turn_id@),
                reasoning: None,
                ..step.state
            },
            ..step
        };
        assert(at_step(*self, *fx, opened));
        match crate::outside::parse_rfc3339(timestamp) {
            Ok(instant) => {
                let ghost turn = turn_id@;
                write_effect(
                    fx,
                    RolloutItem::EventMsg(
                        EventMsg::TurnStarted(
                            TurnStarted {
                                turn_id,
                                started_at: Some(instant.0),
                                payload: "".to_owned(),
                            },
                        ),
                    ),
                    Ghost(opened),
                    Ghost(Written::Started { turn, at: instant.0 }),
                );
            },
            Err(message) => {
                fail_effect(fx, message.as_str(), Ghost(opened));
            },
        }
    }

    fn ensure_turn(
        &mut self,
        fx: &mut LineEffects,
        timestamp: &str,
        source_index: u64,
        Ghost(step): Ghost<Step>,
    )
        requires
            at_step(*old(self), *old(fx), step),
        ensures
            at_step(*final(self), *final(fx), turn_ensured(step, timestamp@, source_index)),
            final(self).output() == old(self).output(),
    {
        if fx.failure.is_some() || self.active_turn.is_some() {
            return;
        }
        let turn_id: String = concat2("rollout-", decimal_text(source_index).as_str());
        self.start_implicit_turn(fx, timestamp, turn_id, Ghost(step));
    }

    fn finish_implicit_turn(
        &mut self,
        fx: &mut LineEffects,
        timestamp: &str,
        Ghost(step): Ghost<Step>,
    )
        requires
            at_step(*old(self), *old(fx), step),
        ensures
            at_step(*final(self), *final(fx), implicit_finished(step, timestamp@)),
            final(self).output() == old(self).output(),
    {
        if fx.failure.is_some() {
            return;
        }
        let turn_id: String = match &self.active_turn {
            Some(turn) => {
                if turn.explicit {
                    return;
                }
                turn.id.clone()
            },
            None => {
                return;
            },
        };
        self.active_turn = None;
        self.reasoning = None;
        let ghost closed = Step {
            state: TurnState { active: None, reasoning: None, ..step.state },
            ..step
        };
        assert(at_step(*self, *fx, closed));
        match crate::outside::parse_rfc3339(timestamp) {
            Ok(instant) => {
                let ghost turn = turn_id@;
                write_effect(
                    fx,
                    RolloutItem::EventMsg(
                        EventMsg::TurnComplete(
                            TurnComplete {
                                turn_id,
                                completed_at: Some(instant.0),
                                payload: "".to_owned(),
                            },
                        ),
                    ),
                    Ghost(closed),
                    Ghost(Written::Completed { turn, at: instant.0 }),
                );
            },
            Err(message) => {
                fail_effect(fx, message.as_str(), Ghost(closed));
            },
        }
    }

    fn write_completed_item_to_turn(
        &self,
        fx: &mut LineEffects,
        timestamp: &str,
        turn_id: String,
        item: TurnItem,
        Ghost(step): Ghost<Step>,
        Ghost(added): Ghost<AddedItem>,
    )
        requires
            at_step(*self, *old(fx), step),
            is_added_item(item, added),
        ensures
            at_step(*self, *final(fx), item_added(step, timestamp@, turn_id@, added)),
    {
        if fx.failure.is_some() {
            return;
        }
        match crate::outside::parse_rfc3339(timestamp) {
            Ok(instant) => {
                let ghost turn = turn_id@;
                write_effect(
                    fx,
                    RolloutItem::EventMsg(
                        EventMsg::ItemCompleted(
                            ItemCompleted {
                                thread_id: self.thread_id,
                                turn_id,
                                item,
                                started_at_ms: None,
                                completed_at_ms: instant.1,
                            },
                        ),
                    ),
                    Ghost(step),
                    Ghost(
                        Written::Added {
                            turn,
                            item: added,
                            at_ms: instant.1,
                            thread_id: self.thread_id,
                        },
                    ),
                );
            },
            Err(message) => {
                fail_effect(fx, message.as_str(), Ghost(step));
            },
        }
    }

    fn write_completed_item(
        &self,
        fx: &mut LineEffects,
        timestamp: &str,
        item: TurnItem,
        Ghost(step): Ghost<Step>,
        Ghost(added): Ghost<AddedItem>,
    )
        requires
            at_step(*self, *old(fx), step),
            is_added_item(item, added),
        ensures
            at_step(*self, *final(fx), item_added_to_open_turn(step, timestamp@, added)),
    {
        match &self.active_turn {
            Some(turn) => {
                self.write_completed_item_to_turn(
                    fx,
                    timestamp,
                    turn.id.clone(),
                    item,
                    Ghost(step),
                    Ghost(added),
                );
            },
            None => {
                fail_effect(fx, "completed rollout item has no active turn", Ghost(step));
            },
        }
    }

    fn next_item_id(&mut self, fx: &mut LineEffects, Ghost(step): Ghost<Step>) -> (r: String)
        requires
            at_step(*old(self), *old(fx), step),
        ensures
            at_step(*final(self), *final(fx), item_name_taken(step)),
            item_name_taken(step).failure is None ==> r@ == next_item_name(step.state),
            final(self).output() == old(self).output(),
    {
        let name: String = concat2("item-", decimal_text(self.next_item_index).as_str());
        if fx.failure.is_some() {
            return name;
        }
        match self.next_item_index.checked_add(1) {
            Some(next) => {
                self.next_item_index = next;
                assert(self.turns() =~= item_name_taken(step).state);
            },
            None => {
                fail_effect(fx, "legacy rollout item id overflow", Ghost(step));
            },
        }
        name
    }

    fn drop_reasoning(&mut self, fx: &LineEffects, Ghost(step): Ghost<Step>)
        requires
            at_step(*old(self), *fx, step),
        ensures
            at_step(*final(self), *fx, forget_reasoning(step)),
            final(self).output() == old(self).output(),
    {
        if fx.failure.is_none() {
            self.reasoning = None;
        }
    }

    fn name_draft(
        &mut self,
        fx: &mut LineEffects,
        draft_id: &Option<String>,
        Ghost(step): Ghost<Step>,
        Ghost(draft): Ghost<LegacyItemDraft>,
    ) -> (r: String)
        requires
            at_step(*old(self), *old(fx), step),
            *draft_id == draft.id,
        ensures
            at_step(*final(self), *final(fx), draft_named(step, draft)),
            draft_named(step, draft).failure is None ==> r@ == draft_name(step.state, draft),
            final(self).output() == old(self).output(),
    {
        match draft_id {
            Some(id) => id.clone(),
            None => self.next_item_id(fx, Ghost(step)),
        }
    }
}


fn copy_reasoning(item: &ReasoningItem) -> (r: ReasoningItem)
    ensures
        reasoning_state(r) == reasoning_state(*item),
{
    ReasoningItem {
        id: item.id.clone(),
        summary_text: copy_texts(&item.summary_text),
        raw_content: copy_texts(&item.raw_content),
    }
}

impl LegacyRolloutCanonicalizer {
    fn write_reasoning(
        &mut self,
        fx: &mut LineEffects,
        timestamp: &str,
        source_index: u64,
        text: String,
        kind: ReasoningTextKind,
        Ghost(step): Ghost<Step>,
    )
        requires
            at_step(*old(self), *old(fx), step),
        ensures
            at_step(
                *final(self),
                *final(fx),
                reasoned(step, timestamp@, source_index, text@, kind),
            ),
            final(self).output() == old(self).output(),
    {
        if text.as_str().is_empty() {
            return;
        }
        self.ensure_turn(fx, timestamp, source_index, Ghost(step));
        let ghost ensured = turn_ensured(step, timestamp@, source_index);
        let mut item: ReasoningItem = match &self.reasoning {
            Some(item) => copy_reasoning(item),
            None => {
                let id: String = self.next_item_id(fx, Ghost(ensured));
                ReasoningItem { id, summary_text: Vec::new(), raw_content: Vec::new() }
            },
        };
        if fx.failure.is_some() {
            return;
        }
        let ghost base = reasoning_state(item);
        proof {
            assert(texts(Seq::<String>::empty()) =~= Seq::<Seq<char>>::empty());
        }
        let ghost summary_before = item.summary_text@;
        let ghost raw_before = item.raw_content@;
        let ghost added_text = text@;
        match kind {
            ReasoningTextKind::Summary => {
                item.summary_text.push(text);
                assert(texts(item.summary_text@) =~= texts(summary_before).push(added_text));
            },
            ReasoningTextKind::Raw => {
                item.raw_content.push(text);
                assert(texts(item.raw_content@) =~= texts(raw_before).push(added_text));
            },
        }
        let ghost grown = reasoning_grown(base, added_text, kind);
        assert(reasoning_state(item) =~= grown);
        let ghost named = if ensured.state.reasoning is Some {
            ensured
        } else {
            item_name_taken(ensured)
        };
        self.reasoning = Some(copy_reasoning(&item));
        let ghost kept = Step {
            state: TurnState { reasoning: Some(grown), ..named.state },
            ..named
        };
        assert(self.turns() =~= kept.state);
        self.write_completed_item(
            fx,
            timestamp,
            TurnItem::Reasoning(item),
            Ghost(kept),
            Ghost(AddedItem::Reasoning(grown)),
        );
    }

    fn write_user_message(
        &mut self,
        fx: &mut LineEffects,
        timestamp: &str,
        source_index: u64,
        event: crate::rollout::UserMessage,
        Ghost(step): Ghost<Step>,
    )
        requires
            at_step(*old(self), *old(fx), step),
            step.failure is None,
        ensures
            at_step(
                *final(self),
                *final(fx),
                user_message_added(step, timestamp@, source_index, event),
            ),
            final(self).output() == old(self).output(),
    {
        let repeated: bool = match &self.active_turn {
            Some(turn) => !turn.explicit && turn.saw_user,
            None => false,
        };
        if repeated {
            self.finish_implicit_turn(fx, timestamp, Ghost(step));
        }
        let ghost closed = if repeated {
            implicit_finished(step, timestamp@)
        } else {
            step
        };
        self.ensure_turn(fx, timestamp, source_index, Ghost(closed));
        let ghost ensured = turn_ensured(closed, timestamp@, source_index);
        let ghost converted = message_converted(ensured, event);
        let id: String = match &event.conversion_error {
            Some(error) => {
                fail_effect(fx, error.as_str(), Ghost(ensured));
                String::new()
            },
            None => self.name_draft(fx, &event.draft.id, Ghost(ensured), Ghost(event.draft)),
        };
        assert(at_step(*self, *fx, converted));
        if fx.failure.is_some() {
            return;
        }
        match self.active_turn.take() {
            Some(turn) => {
                self.active_turn = Some(
                    ActiveTurn { id: turn.id, explicit: turn.explicit, saw_user: true },
                );
            },
            None => {},
        }
        self.reasoning = None;
        let ghost seen = Step {
            state: TurnState {
                active: Some(OpenTurn { saw_user: true, ..converted.state.active->0 }),
                reasoning: None,
                ..converted.state
            },
            ..converted
        };
        assert(self.turns() =~= seen.state);
        let ghost added = AddedItem::UserMessage {
            id: draft_name(ensured.state, event.draft),
            payload: event.draft.payload@,
        };
        self.write_completed_item(
            fx,
            timestamp,
            TurnItem::UserMessage { id, payload: event.draft.payload },
            Ghost(seen),
            Ghost(added),
        );
    }

    fn write_legacy_item(
        &mut self,
        fx: &mut LineEffects,
        timestamp: &str,
        source_index: u64,
        draft: LegacyItemDraft,
        turn_id: Option<String>,
        Ghost(step): Ghost<Step>,
    )
        requires
            at_step(*old(self), *old(fx), step),
            step.failure is None,
        ensures
            at_step(
                *final(self),
                *final(fx),
                legacy_item_added(step, timestamp@, source_index, draft, opt_text(turn_id)),
            ),
            final(self).output() == old(self).output(),
    {
        let id: String = self.name_draft(fx, &draft.id, Ghost(step), Ghost(draft));
        let ghost named = draft_named(step, draft);
        let ghost added = AddedItem::Converted {
            id: draft_name(step.state, draft),
            payload: draft.payload@,
        };
        if fx.failure.is_some() {
            return;
        }
        let item = TurnItem::Converted { id, payload: draft.payload };
        assert(is_added_item(item, added));
        match turn_id {
            Some(turn) => {
                let (open, same): (bool, bool) = match &self.active_turn {
                    Some(active) => (true, active.id == turn),
                    None => (false, false),
                };
                if open && !same {
                    self.write_completed_item_to_turn(
                        fx,
                        timestamp,
                        turn,
                        item,
                        Ghost(named),
                        Ghost(added),
                    );
                } else if !open && self.known_turn_ids.contains(turn.as_str()) {
                    self.drop_reasoning(fx, Ghost(named));
                    self.write_completed_item_to_turn(
                        fx,
                        timestamp,
                        turn,
                        item,
                        Ghost(forget_reasoning(named)),
                        Ghost(added),
                    );
                } else if !open {
                    let ghost started = implicit_started(named, timestamp@, turn@);
                    self.start_implicit_turn(fx, timestamp, turn, Ghost(named));
                    self.drop_reasoning(fx, Ghost(started));
                    self.write_completed_item(
                        fx,
                        timestamp,
                        item,
                        Ghost(forget_reasoning(started)),
                        Ghost(added),
                    );
                } else {
                    self.drop_reasoning(fx, Ghost(named));
                    self.write_completed_item(
                        fx,
                        timestamp,
                        item,
                        Ghost(forget_reasoning(named)),
                        Ghost(added),
                    );
                }
            },
            None => {
                let ghost ensured = turn_ensured(named, timestamp@, source_index);
                self.ensure_turn(fx, timestamp, source_index, Ghost(named));
                self.drop_reasoning(fx, Ghost(ensured));
                self.write_completed_item(
                    fx,
                    timestamp,
                    item,
                    Ghost(forget_reasoning(ensured)),
                    Ghost(added),
                );
            },
        }
    }

    fn close_turn(&mut self, turn_id: &Option<String>, fx: &LineEffects, Ghost(step): Ghost<Step>)
        requires
            at_step(*old(self), *fx, step),
        ensures
            at_step(*final(self), *fx, turn_closed(step, opt_text(*turn_id))),
            final(self).output() == old(self).output(),
    {
        let ends: bool = match (turn_id, &self.active_turn) {
            (Some(turn), Some(active)) => *turn == active.id,
            _ => false,
        };
        if ends {
            self.active_turn = None;
        }
    }
}

/// What an event becomes that has no rule of its own, and the event without it.
enum GenericEvent {
    Keep { persisted: bool, event: EventMsg },
    Item { draft: LegacyItemDraft, turn_id: Option<String> },
    Failed { error: String },
}

fn convert_event(event: EventMsg) -> (r: GenericEvent)
    ensures
        match conversion_of(event) {
            LegacyConversion::Event { persisted } => r == (GenericEvent::Keep {
                persisted,
                event,
            }),
            LegacyConversion::Item { draft, turn_id } => r == (GenericEvent::Item {
                draft,
                turn_id,
            }),
            LegacyConversion::Failed { error } => r == (GenericEvent::Failed { error }),
        },
{
    let persists: Option<bool> = match &event {
        EventMsg::ExecCommandEnd { event, .. } => kept_event(event),
        EventMsg::PatchApplyEnd { event, .. } => kept_event(event),
        EventMsg::DynamicToolCallResponse { event, .. } => kept_event(event),
        EventMsg::EnteredReviewMode { event, .. } => kept_event(event),
        EventMsg::ExitedReviewMode { event, .. } => kept_event(event),
        EventMsg::Other { event } => kept_event(event),
        _ => Some(false),
    };
    match persists {
        Some(persisted) => GenericEvent::Keep { persisted, event },
        None => {
            let legacy = match event {
                EventMsg::ExecCommandEnd { event, .. } => event,
                EventMsg::PatchApplyEnd { event, .. } => event,
                EventMsg::DynamicToolCallResponse { event, .. } => event,
                EventMsg::EnteredReviewMode { event, .. } => event,
                EventMsg::ExitedReviewMode { event, .. } => event,
                EventMsg::Other { event } => event,
                event => {
                    return GenericEvent::Keep { persisted: false, event };
                },
            };
            match legacy.conversion {
                LegacyConversion::Event { .. } => GenericEvent::Failed { error: String::new() },
                LegacyConversion::Item { draft, turn_id } => GenericEvent::Item { draft, turn_id },
                LegacyConversion::Failed { error } => GenericEvent::Failed { error },
            }
        },
    }
}

fn kept_event(event: &crate::rollout::LegacyEvent) -> (r: Option<bool>)
    ensures
        match event.conversion {
            LegacyConversion::Event { persisted } => r == Some(persisted),
            _ => r is None,
        },
{
    match &event.conversion {
        LegacyConversion::Event { persisted } => Some(*persisted),
        _ => None,
    }
}


impl LegacyRolloutCanonicalizer {
    fn process_event(
        &mut self,
        fx: &mut LineEffects,
        timestamp: &str,
        index: u64,
        event: EventMsg,
        Ghost(step): Ghost<Step>,
    )
        requires
            at_step(*old(self), *old(fx), step),
            step.failure is None,
        ensures
            at_step(*final(self), *final(fx), event_processed(step, timestamp@, index, event)),
            final(self).output() == old(self).output(),
    {
        match event {
            EventMsg::ThreadRolledBack { .. } => {
                fail_effect(
                    fx,
                    "rollback marker reached canonical writer without a rollback plan",
                    Ghost(step),
                );
            },
            EventMsg::TurnStarted(event) => {
                self.finish_implicit_turn(fx, timestamp, Ghost(step));
                let ghost closed = implicit_finished(step, timestamp@);
                if fx.failure.is_some() {
                    return;
                }
                let _ = self.known_turn_ids.insert(event.turn_id.clone());
                self.active_turn = Some(
                    ActiveTurn { id: event.turn_id.clone(), explicit: true, saw_user: false },
                );
                self.reasoning = None;
                let ghost opened = Step {
                    state: TurnState {
                        active: Some(
                            OpenTurn { id: event.turn_id@, explicit: true, saw_user: false },
                        ),
                        known_turns: closed.state.known_turns.insert(event.turn_id@),
                        reasoning: None,
                        ..closed.state
                    },
                    ..closed
                };
                assert(self.turns() =~= opened.state);
                let item = RolloutItem::EventMsg(EventMsg::TurnStarted(event));
                write_effect(fx, item, Ghost(opened), Ghost(Written::Source(item)));
            },
            EventMsg::TurnComplete(event) => {
                self.drop_reasoning(fx, Ghost(step));
                let turn: Option<String> = Some(event.turn_id.clone());
                self.close_turn(&turn, fx, Ghost(forget_reasoning(step)));
                let ghost closed = turn_closed(forget_reasoning(step), Some(event.turn_id@));
                let item = RolloutItem::EventMsg(EventMsg::TurnComplete(event));
                write_effect(fx, item, Ghost(closed), Ghost(Written::Source(item)));
            },
            EventMsg::TurnAborted(event) => {
                let turn: Option<String> = match &event.turn_id {
                    Some(turn) => Some(turn.clone()),
                    None => match &self.active_turn {
                        Some(active) => Some(active.id.clone()),
                        None => None,
                    },
                };
                let ghost named = opt_text(turn);
                self.close_turn(&turn, fx, Ghost(step));
                self.drop_reasoning(fx, Ghost(turn_closed(step, named)));
                let ghost payload = event.payload;
                let item = RolloutItem::EventMsg(
                    EventMsg::TurnAborted(TurnAborted { turn_id: turn, payload: event.payload }),
                );
                write_effect(
                    fx,
                    item,
                    Ghost(forget_reasoning(turn_closed(step, named))),
                    Ghost(Written::Aborted { turn: named, payload }),
                );
            },
            EventMsg::UserMessage(event) => {
                self.write_user_message(fx, timestamp, index, event, Ghost(step));
            },
            EventMsg::AgentReasoning { text } => {
                self.write_reasoning(
                    fx,
                    timestamp,
                    index,
                    text,
                    ReasoningTextKind::Summary,
                    Ghost(step),
                );
            },
            EventMsg::AgentReasoningRawContent { text } => {
                self.write_reasoning(
                    fx,
                    timestamp,
                    index,
                    text,
                    ReasoningTextKind::Raw,
                    Ghost(step),
                );
            },
            EventMsg::ItemCompleted(event) => {
                let ghost source = event;
                let mut event = event;
                event.thread_id = self.thread_id;
                self.drop_reasoning(fx, Ghost(step));
                let item = RolloutItem::EventMsg(EventMsg::ItemCompleted(event));
                write_effect(
                    fx,
                    item,
                    Ghost(forget_reasoning(step)),
                    Ghost(Written::Rehomed { event: source, thread_id: step.state.thread_id }),
                );
            },
            event => {
                match convert_event(event) {
                    GenericEvent::Keep { persisted, event } => {
                        if persisted {
                            let item = RolloutItem::EventMsg(event);
                            write_effect(fx, item, Ghost(step), Ghost(Written::Source(item)));
                        }
                    },
                    GenericEvent::Item { draft, turn_id } => {
                        self.write_legacy_item(fx, timestamp, index, draft, turn_id, Ghost(step));
                    },
                    GenericEvent::Failed { error } => {
                        fail_effect(fx, error.as_str(), Ghost(step));
                    },
                }
            },
        }
    }

    /// Takes in a record of the source and answers with the records that it becomes. The records
    /// keep its timestamp.
    pub fn process_line(&mut self, line: RolloutLine) -> (r: LineEffects)
        ensures
            final(self).turns() == processed(old(self).turns(), line).state,
            effects_of(r, processed(old(self).turns(), line)),
            final(self).output() == old(self).output(),
    {
        let ghost before = self.turns();
        let mut fx = LineEffects { writes: Vec::new(), failure: None };
        assert(at_step(*self, fx, idle(before)));
        let index: u64 = self.source_line_index;
        match self.source_line_index.checked_add(1) {
            Some(next) => {
                self.source_line_index = next;
            },
            None => {
                fail_effect(&mut fx, "legacy rollout line index overflow", Ghost(idle(before)));
                return fx;
            },
        }
        let ghost step = idle(
            TurnState { source_line_index: (before.source_line_index + 1) as u64, ..before },
        );
        assert(at_step(*self, fx, step));
        let timestamp: String = line.timestamp;
        match line.item {
            RolloutItem::SessionMeta(_) => {},
            RolloutItem::ResponseItem(response) => {
                let unsupported: bool = match &response.item.body {
                    ResponseBody::Other => true,
                    _ => false,
                };
                if unsupported {
                    fail_effect(
                        &mut fx,
                        "legacy rollout contains an unsupported response item",
                        Ghost(step),
                    );
                    return fx;
                }
                let hook: Option<String> = match &response.item.body {
                    ResponseBody::Message { role, .. } => {
                        if same_text(role.as_str(), "user") {
                            copy_name(&response.item.hook_prompt)
                        } else {
                            None
                        }
                    },
                    _ => None,
                };
                assert(opt_text(hook) == hook_prompt(response));
                let item = RolloutItem::ResponseItem(response);
                write_effect(&mut fx, item, Ghost(step), Ghost(Written::Source(item)));
                let ghost written = emit(step, Written::Source(item));
                match hook {
                    Some(prompt) => {
                        self.ensure_turn(&mut fx, timestamp.as_str(), index, Ghost(written));
                        let ghost ensured = turn_ensured(written, timestamp@, index);
                        self.drop_reasoning(&fx, Ghost(ensured));
                        let ghost text = prompt@;
                        self.write_completed_item(
                            &mut fx,
                            timestamp.as_str(),
                            TurnItem::HookPrompt { payload: prompt },
                            Ghost(forget_reasoning(ensured)),
                            Ghost(AddedItem::HookPrompt(text)),
                        );
                    },
                    None => {},
                }
            },
            RolloutItem::EventMsg(event) => {
                self.process_event(&mut fx, timestamp.as_str(), index, event, Ghost(step));
            },
            item => {
                write_effect(&mut fx, item, Ghost(step), Ghost(Written::Source(item)));
            },
        }
        fx
    }

    /// Ends the history: fails where the selected checkpoint is unresolved, and closes an implied
    /// turn that is still open.
    pub fn finish(&mut self, timestamp: &str) -> (r: LineEffects)
        ensures
            ({
                let step = match old(self).output().unresolved {
                    Some(missing) => fail(
                        idle(old(self).turns()),
                        unresolved_selection(missing),
                    ),
                    None => implicit_finished(idle(old(self).turns()), timestamp@),
                };
                &&& final(self).turns() == step.state
                &&& effects_of(r, step)
            }),
            final(self).output() == (OutputState { unresolved: None, ..old(self).output() }),
    {
        let ghost before = self.turns();
        let mut fx = LineEffects { writes: Vec::new(), failure: None };
        assert(at_step(*self, fx, idle(before)));
        match self.unresolved_selected_compaction.take() {
            Some(missing) => {
                let message: String = concat2(
                    "selected compacted history references could not be resolved during migration canonicalization: ",
                    crate::text::join_texts(&missing, ", ").as_str(),
                );
                fail_effect(&mut fx, message.as_str(), Ghost(idle(before)));
            },
            None => {
                self.finish_implicit_turn(&mut fx, timestamp, Ghost(idle(before)));
            },
        }
        fx
    }

    /// The head of the canonical history: the session metadata of this thread, gated to the
    /// reference format and without inherited history.
    pub fn write_head_session_meta(&self, line: RolloutLine) -> (r: ThreadStoreResult<RolloutItem>)
        ensures
            match line.item {
                RolloutItem::SessionMeta(meta) => {
                    &&& r is Ok == (meta.id == self.turns().thread_id)
                    &&& r is Err ==> r->Err_0@ == migration_failure(
                        "rollout metadata thread id changed"@,
                    )
                    &&& r is Ok ==> r->Ok_0 == RolloutItem::SessionMeta(
                        SessionMeta {
                            history_mode: ThreadHistoryMode::PaginatedRefsV1,
                            history_base: None,
                            subagent_history_start_ordinal: None,
                            ..meta
                        },
                    )
                },
                _ => r is Err && r->Err_0@ == migration_failure(
                    "canonical session metadata is missing"@,
                ),
            },
    {
        match line.item {
            RolloutItem::SessionMeta(meta) => {
                if meta.id != self.thread_id {
                    return Err(migration_error("rollout metadata thread id changed"));
                }
                let mut meta = meta;
                meta.history_mode = ThreadHistoryMode::PaginatedRefsV1;
                meta.history_base = None;
                meta.subagent_history_start_ordinal = None;
                Ok(RolloutItem::SessionMeta(meta))
            },
            _ => Err(migration_error("canonical session metadata is missing")),
        }
    }
}

/// The message of a history whose selected checkpoint is unresolved.
pub open spec fn unresolved_selection(missing: Seq<Seq<char>>) -> Seq<char> {
    "selected compacted history references could not be resolved during migration canonicalization: "@
        + crate::text::joined(missing, ", "@)
}

} // verus!
