//! Decides which legacy records remain visible after historical rollback.
//!
//! Legacy rollback removes logical instruction turns, not a physical suffix of the rollout file.
//! Late completion events can target an older surviving turn after a newer turn has started, so
//! the planner keeps for every record the instruction boundary that owns it. Retained checkpoints
//! are reduced when a rollback is met, never by reapplying old rollbacks to later checkpoints.

use crate::error::migration_error;
use crate::error::migration_failure;
use crate::error::ThreadStoreResult;
use crate::names::NameKey;
use crate::names::NameMap;
use crate::outside::opt_text;
use crate::rollout::copy_name;
use crate::rollout::CompactedHistoryEntry;
use crate::rollout::CompactedItem;
use crate::rollout::ContentItem;
use crate::rollout::EventMsg;
use crate::rollout::ResponseBody;
use crate::rollout::RetainedContext;
use crate::rollout::RetainedContextEntry;
use crate::rollout::RolloutItem;
use crate::rollout::RolloutLine;
use crate::rollout::UserMessage;
use crate::text::same_text;
use crate::text::same_texts;
use crate::text::texts;
use vstd::prelude::*;

verus! {

/// An instruction that a rollback can remove.
#[derive(Debug)]
pub struct InstructionBoundary {
    pub record_index: usize,
    pub message_id: Option<String>,
    pub acceptance_order: Option<u64>,
    pub alive: bool,
}

/// Where a retained answer stands in the rollout.
#[derive(Debug)]
pub struct RetainedFactSource {
    pub record_index: usize,
    pub turn_id: String,
    pub acceptance_order: Option<u64>,
}

/// One cut that a rollback makes in the approval evidence of a checkpoint.
#[derive(Debug)]
pub struct GuardianHistoryTruncation {
    pub removed_turns: usize,
    pub first_removed_message_id: Option<String>,
}

/// A user message whose event may follow.
#[derive(Debug)]
pub struct PendingUserResponse {
    pub boundary: usize,
    pub content: Vec<ContentItem>,
}

/// What the planner remembers of a checkpoint.
#[derive(Debug)]
pub struct CompactionFrame {
    pub record_index: usize,
    pub boundary_depth: usize,
    pub owner: Option<usize>,
    pub has_replacement_history: bool,
    pub referenced_item_ids: Vec<String>,
    pub retained_context: Option<RetainedContext>,
    pub has_guardian_history: bool,
    pub guardian_history_truncations: Vec<GuardianHistoryTruncation>,
    pub drop_last_n_user_turns: u32,
}

/// A checkpoint frame with its lists as sequences.
#[verifier::ext_equal]
pub struct FrameState {
    pub record_index: usize,
    pub boundary_depth: usize,
    pub owner: Option<usize>,
    pub has_replacement_history: bool,
    pub referenced: Seq<String>,
    pub context: Option<Seq<RetainedContextEntry>>,
    pub has_guardian_history: bool,
    pub truncations: Seq<GuardianHistoryTruncation>,
    pub drop_last_n_user_turns: u32,
}

/// The entries of an optional retained context.
pub open spec fn context_entries(context: Option<RetainedContext>) -> Option<
    Seq<RetainedContextEntry>,
> {
    match context {
        Some(c) => Some(c.entries@),
        None => None,
    }
}

impl View for CompactionFrame {
    type V = FrameState;

    open spec fn view(&self) -> FrameState {
        FrameState {
            record_index: self.record_index,
            boundary_depth: self.boundary_depth,
            owner: self.owner,
            has_replacement_history: self.has_replacement_history,
            referenced: self.referenced_item_ids@,
            context: context_entries(self.retained_context),
            has_guardian_history: self.has_guardian_history,
            truncations: self.guardian_history_truncations@,
            drop_last_n_user_turns: self.drop_last_n_user_turns,
        }
    }
}

/// The state of the planner over sequences and maps.
#[verifier::ext_equal]
pub struct PlannerState {
    /// The boundary that owns each record.
    pub owners: Seq<Option<usize>>,
    pub boundaries: Seq<InstructionBoundary>,
    /// The live boundaries, oldest first.
    pub stack: Seq<usize>,
    pub active_turn: Option<String>,
    /// Records of the active turn that wait for its boundary.
    pub pending_turn: Seq<usize>,
    /// Context updates that wait for the next boundary.
    pub pending_context: Seq<usize>,
    pub pending_user: Option<(usize, Seq<ContentItem>)>,
    pub pending_delivery: Option<usize>,
    pub turns: Map<NameKey, usize>,
    pub calls: Map<NameKey, Option<usize>>,
    pub facts: Seq<RetainedFactSource>,
    pub frames: Seq<FrameState>,
}

/// What a rollback asks of the retained contexts: each named checkpoint's context is rolled back
/// over the removed turns.
#[derive(Debug)]
pub struct RollbackCut {
    pub removed_turns: Vec<String>,
    pub first_removed_message_id: Option<String>,
    pub acceptance_order: Option<u64>,
    /// The checkpoints concerned, newest first.
    pub frames: Vec<usize>,
}

/// Streaming builder of a rollback plan.
pub struct RollbackPlanner {
    pub record_boundaries: Vec<Option<usize>>,
    pub boundaries: Vec<InstructionBoundary>,
    pub boundary_stack: Vec<usize>,
    pub active_turn_id: Option<String>,
    pub pending_turn_records: Vec<usize>,
    pub pending_context_records: Vec<usize>,
    pub pending_user_response: Option<PendingUserResponse>,
    pub pending_delivery_boundary: Option<usize>,
    pub turn_boundaries: NameMap<usize>,
    pub call_boundaries: NameMap<Option<usize>>,
    pub retained_fact_sources: Vec<RetainedFactSource>,
    pub compactions: Vec<CompactionFrame>,
}

/// The frames of a list of checkpoints.
pub open spec fn frame_states(frames: Seq<CompactionFrame>) -> Seq<FrameState> {
    frames.map_values(|f: CompactionFrame| f@)
}

impl View for RollbackPlanner {
    type V = PlannerState;

    open spec fn view(&self) -> PlannerState {
        PlannerState {
            owners: self.record_boundaries@,
            boundaries: self.boundaries@,
            stack: self.boundary_stack@,
            active_turn: self.active_turn_id,
            pending_turn: self.pending_turn_records@,
            pending_context: self.pending_context_records@,
            pending_user: match self.pending_user_response {
                Some(p) => Some((p.boundary, p.content@)),
                None => None,
            },
            pending_delivery: self.pending_delivery_boundary,
            turns: self.turn_boundaries@,
            calls: self.call_boundaries@,
            facts: self.retained_fact_sources@,
            frames: frame_states(self.compactions@),
        }
    }
}

/// Whether an optional boundary is one of the first `n`.
pub open spec fn known_boundary(boundary: Option<usize>, n: nat) -> bool {
    boundary is Some ==> boundary->0 < n
}

impl PlannerState {
    /// The stack holds exactly the live boundaries, oldest first, and every index that the state
    /// holds points at a known boundary or record.
    pub open spec fn wf(self) -> bool {
        &&& forall|i: int|
            0 <= i < self.owners.len() ==> known_boundary(
                #[trigger] self.owners[i],
                self.boundaries.len(),
            )
        &&& forall|i: int|
            0 <= i < self.stack.len() ==> (#[trigger] self.stack[i]) < self.boundaries.len()
        &&& forall|i: int, j: int|
            0 <= i < j < self.stack.len() ==> #[trigger] self.stack[i] < #[trigger] self.stack[j]
        &&& forall|b: int|
            0 <= b < self.boundaries.len() ==> (#[trigger] self.boundaries[b]).alive
                == self.stack.contains(b as usize)
        &&& forall|i: int|
            0 <= i < self.pending_turn.len() ==> (#[trigger] self.pending_turn[i])
                < self.owners.len()
        &&& forall|i: int|
            0 <= i < self.pending_context.len() ==> (#[trigger] self.pending_context[i])
                < self.owners.len()
        &&& self.pending_user is Some ==> (self.pending_user->0).0 < self.boundaries.len()
        &&& known_boundary(self.pending_delivery, self.boundaries.len())
        &&& forall|k: NameKey| #[trigger]
            self.turns.contains_key(k) ==> k.1 == ""@ && self.turns[k] < self.boundaries.len()
        &&& forall|k: NameKey| #[trigger]
            self.calls.contains_key(k) ==> known_boundary(self.calls[k], self.boundaries.len())
        &&& forall|i: int|
            0 <= i < self.facts.len() ==> (#[trigger] self.facts[i]).record_index
                < self.owners.len()
        &&& forall|i: int|
            0 <= i < self.frames.len() ==> (#[trigger] self.frames[i]).record_index
                < self.owners.len() && known_boundary(self.frames[i].owner, self.boundaries.len())
        &&& forall|i: int, j: int|
            0 <= i < j < self.frames.len() ==> (#[trigger] self.frames[i]).record_index < (
            #[trigger] self.frames[j]).record_index
        &&& self.boundaries.len() <= self.owners.len() <= usize::MAX
    }

    /// The key under which a turn is known.
    pub open spec fn turn_key(turn: Seq<char>) -> NameKey {
        (turn, ""@)
    }

    /// The active turn has a boundary.
    pub open spec fn active_turn_bound(self) -> bool {
        self.active_turn is Some && self.turns.contains_key(
            PlannerState::turn_key(self.active_turn->0@),
        )
    }
}

/// The records of a list pass to one boundary.
pub open spec fn assign_all(
    owners: Seq<Option<usize>>,
    records: Seq<usize>,
    boundary: usize,
) -> Seq<Option<usize>> {
    Seq::new(
        owners.len(),
        |i: int|
            if records.contains(i as usize) {
                Some(boundary)
            } else {
                owners[i]
            },
    )
}

/// A record begins a new instruction. The records of the active turn that waited for a boundary
/// belong to it, and so do waiting context updates where an older instruction is live.
pub open spec fn boundary_started(s: PlannerState, index: usize) -> PlannerState {
    let boundary = s.boundaries.len() as usize;
    let with_context = if s.stack.len() > 0 {
        assign_all(s.owners, s.pending_context, boundary)
    } else {
        s.owners
    };
    PlannerState {
        owners: assign_all(with_context, s.pending_turn, boundary).update(
            index as int,
            Some(boundary),
        ),
        boundaries: s.boundaries.push(
            InstructionBoundary {
                record_index: index,
                message_id: None,
                acceptance_order: None,
                alive: true,
            },
        ),
        stack: s.stack.push(boundary),
        pending_turn: Seq::empty(),
        pending_context: Seq::empty(),
        turns: match s.active_turn {
            Some(turn) => s.turns.insert(PlannerState::turn_key(turn@), boundary),
            None => s.turns,
        },
        ..s
    }
}

/// A record that names a turn belongs to the boundary of that turn; otherwise, while the active
/// turn has no boundary yet, it waits for one.
pub open spec fn record_targeted(
    s: PlannerState,
    index: usize,
    turn: Option<Seq<char>>,
) -> PlannerState {
    if turn is Some && s.turns.contains_key(PlannerState::turn_key(turn->0)) {
        PlannerState {
            owners: s.owners.update(
                index as int,
                Some(s.turns[PlannerState::turn_key(turn->0)]),
            ),
            ..s
        }
    } else if s.active_turn is Some && !s.active_turn_bound() {
        PlannerState { pending_turn: s.pending_turn.push(index), ..s }
    } else {
        s
    }
}

/// The text parts of a message, one after the other.
pub open spec fn content_text(content: Seq<ContentItem>) -> Seq<char>
    decreases content.len(),
{
    if content.len() == 0 {
        Seq::empty()
    } else {
        match content.last() {
            ContentItem::InputText { text } => content_text(content.drop_last()) + text@,
            _ => content_text(content.drop_last()),
        }
    }
}

/// The images of a message.
pub open spec fn content_images(content: Seq<ContentItem>) -> Seq<Seq<char>>
    decreases content.len(),
{
    if content.len() == 0 {
        Seq::empty()
    } else {
        match content.last() {
            ContentItem::InputImage { image_url } => content_images(content.drop_last()).push(
                image_url@,
            ),
            _ => content_images(content.drop_last()),
        }
    }
}

/// The audio parts of a message.
pub open spec fn content_audio(content: Seq<ContentItem>) -> Seq<Seq<char>>
    decreases content.len(),
{
    if content.len() == 0 {
        Seq::empty()
    } else {
        match content.last() {
            ContentItem::InputAudio { audio_url } => content_audio(content.drop_last()).push(
                audio_url@,
            ),
            _ => content_audio(content.drop_last()),
        }
    }
}

/// The names of an optional list.
pub open spec fn listed(list: Option<Vec<String>>) -> Seq<Seq<char>> {
    match list {
        Some(v) => texts(v@),
        None => Seq::empty(),
    }
}

/// Whether a user message event repeats the content of a user response item.
pub open spec fn event_repeats_response(content: Seq<ContentItem>, event: UserMessage) -> bool {
    &&& forall|i: int|
        0 <= i < content.len() ==> !((#[trigger] content[i]) is OutputText)
    &&& content_text(content) == event.message@
    &&& content_images(content) == listed(event.images)
    &&& content_audio(content) == listed(event.audio)
    &&& event.local_images@.len() == 0
    &&& event.local_audio@.len() == 0
}

/// The turn that an event of a tool or a review names, unless the name is empty.
pub open spec fn explicit_turn(event: EventMsg) -> Option<Seq<char>> {
    let named = match event {
        EventMsg::ExecCommandEnd { turn_id, .. } => Some(turn_id@),
        EventMsg::PatchApplyEnd { turn_id, .. } => Some(turn_id@),
        EventMsg::DynamicToolCallResponse { turn_id, .. } => Some(turn_id@),
        EventMsg::EnteredReviewMode { turn_id, .. } => opt_text(turn_id),
        EventMsg::ExitedReviewMode { turn_id, .. } => opt_text(turn_id),
        _ => None,
    };
    if named is Some && named->0.len() > 0 {
        named
    } else {
        None
    }
}

/// Whether a user message event repeats the content of a user response item.
pub fn user_response_matches_event(content: &Vec<ContentItem>, event: &UserMessage) -> (r: bool)
    ensures
        r == event_repeats_response(content@, *event),
{
    let mut text: String = String::new();
    let mut images: Vec<String> = Vec::new();
    let mut audio: Vec<String> = Vec::new();
    let mut i: usize = 0;
    while i < content.len()
        invariant
            i <= content.len(),
            forall|j: int| 0 <= j < i ==> !((#[trigger] content@[j]) is OutputText),
            text@ == content_text(content@.take(i as int)),
            texts(images@) == content_images(content@.take(i as int)),
            texts(audio@) == content_audio(content@.take(i as int)),
        decreases content.len() - i,
    {
        let ghost images_before = images@;
        let ghost audio_before = audio@;
        assert(content@.take(i + 1).drop_last() =~= content@.take(i as int));
        match &content[i] {
            ContentItem::InputText { text: part } => {
                text.append(part.as_str());
            },
            ContentItem::InputImage { image_url } => {
                images.push(image_url.clone());
                assert(texts(images@) =~= texts(images_before).push(image_url@));
            },
            ContentItem::InputAudio { audio_url } => {
                audio.push(audio_url.clone());
                assert(texts(audio@) =~= texts(audio_before).push(audio_url@));
            },
            ContentItem::OutputText { .. } => {
                return false;
            },
        }
        i += 1;
    }
    assert(content@.take(content@.len() as int) =~= content@);
    let none: Vec<String> = Vec::new();
    assert(texts(none@) =~= Seq::<Seq<char>>::empty());
    let same_images: bool = match &event.images {
        Some(list) => same_texts(&images, list),
        None => same_texts(&images, &none),
    };
    let same_audio: bool = match &event.audio {
        Some(list) => same_texts(&audio, list),
        None => same_texts(&audio, &none),
    };
    text == event.message && same_images && same_audio && event.local_images.len() == 0
        && event.local_audio.len() == 0
}

/// The turn that an event of a tool or a review names, unless the name is empty.
pub fn explicit_event_turn_id(event: &EventMsg) -> (r: Option<String>)
    ensures
        opt_text(r) == explicit_turn(*event),
{
    let named: Option<String> = match event {
        EventMsg::ExecCommandEnd { turn_id, .. } => Some(turn_id.clone()),
        EventMsg::PatchApplyEnd { turn_id, .. } => Some(turn_id.clone()),
        EventMsg::DynamicToolCallResponse { turn_id, .. } => Some(turn_id.clone()),
        EventMsg::EnteredReviewMode { turn_id, .. } => copy_name(turn_id),
        EventMsg::ExitedReviewMode { turn_id, .. } => copy_name(turn_id),
        _ => None,
    };
    match named {
        Some(turn_id) => if turn_id.as_str().is_empty() {
            None
        } else {
            Some(turn_id)
        },
        None => None,
    }
}

/// A copy of the parts of a message.
pub fn copy_content(content: &Vec<ContentItem>) -> (r: Vec<ContentItem>)
    ensures
        r@ == content@,
{
    let mut out: Vec<ContentItem> = Vec::new();
    let mut i: usize = 0;
    while i < content.len()
        invariant
            i <= content.len(),
            out@ == content@.take(i as int),
        decreases content.len() - i,
    {
        let part = match &content[i] {
            ContentItem::InputText { text } => ContentItem::InputText { text: text.clone() },
            ContentItem::InputImage { image_url } => ContentItem::InputImage {
                image_url: image_url.clone(),
            },
            ContentItem::InputAudio { audio_url } => ContentItem::InputAudio {
                audio_url: audio_url.clone(),
            },
            ContentItem::OutputText { text } => ContentItem::OutputText { text: text.clone() },
        };
        out.push(part);
        assert(out@ =~= content@.take(i + 1));
        i += 1;
    }
    assert(content@.take(content@.len() as int) =~= content@);
    out
}

/// A copy of a retained context.
pub fn copy_context(context: &RetainedContext) -> (r: RetainedContext)
    ensures
        r.entries@ == context.entries@,
{
    let mut entries: Vec<RetainedContextEntry> = Vec::new();
    let mut i: usize = 0;
    while i < context.entries.len()
        invariant
            i <= context.entries.len(),
            entries@ == context.entries@.take(i as int),
        decreases context.entries.len() - i,
    {
        let entry = match &context.entries[i] {
            RetainedContextEntry::UserMessage { payload } => RetainedContextEntry::UserMessage {
                payload: payload.clone(),
            },
            RetainedContextEntry::Answer { turn_id, call_id, payload } => {
                RetainedContextEntry::Answer {
                    turn_id: turn_id.clone(),
                    call_id: call_id.clone(),
                    payload: payload.clone(),
                }
            },
        };
        entries.push(entry);
        assert(entries@ =~= context.entries@.take(i + 1));
        i += 1;
    }
    assert(context.entries@.take(context.entries@.len() as int) =~= context.entries@);
    RetainedContext { entries }
}


/// How many live instructions a rollback of `n` turns removes.
pub open spec fn removed_count(s: PlannerState, n: u32) -> int {
    if n < s.stack.len() {
        n as int
    } else {
        s.stack.len() as int
    }
}

/// How many live instructions a rollback of `n` turns leaves.
pub open spec fn kept_depth(s: PlannerState, n: u32) -> int {
    s.stack.len() - removed_count(s, n)
}

/// Whether a rollback of `n` turns removes a boundary.
pub open spec fn is_removed(s: PlannerState, n: u32, boundary: usize) -> bool {
    s.stack.skip(kept_depth(s, n)).contains(boundary)
}

/// The boundaries after a rollback of `n` turns.
pub open spec fn boundaries_after(s: PlannerState, n: u32) -> Seq<InstructionBoundary> {
    Seq::new(
        s.boundaries.len(),
        |i: int|
            InstructionBoundary {
                alive: s.boundaries[i].alive && !is_removed(s, n, i as usize),
                ..s.boundaries[i]
            },
    )
}

/// The oldest instruction that a rollback removes.
pub open spec fn first_removed(s: PlannerState, n: u32) -> usize {
    s.stack[kept_depth(s, n)]
}

/// The oldest instruction that a rollback removes.
pub open spec fn cut_source(s: PlannerState, n: u32) -> InstructionBoundary {
    s.boundaries[first_removed(s, n) as int]
}

/// Whether a record holds a retained answer that was accepted at or after an instruction.
pub open spec fn accepted_since(facts: Seq<RetainedFactSource>, record: int, order: u64) -> bool {
    exists|f: int|
        0 <= f < facts.len() && (#[trigger] facts[f]).record_index == record
            && facts[f].acceptance_order is Some && facts[f].acceptance_order->0 >= order
}

/// The owners after a rollback: an answer that was accepted at or after the oldest removed
/// instruction goes with it, wherever it was recorded.
pub open spec fn owners_after(s: PlannerState, n: u32) -> Seq<Option<usize>> {
    if removed_count(s, n) > 0 && cut_source(s, n).acceptance_order is Some {
        Seq::new(
            s.owners.len(),
            |i: int|
                if accepted_since(s.facts, i, cut_source(s, n).acceptance_order->0) {
                    Some(first_removed(s, n))
                } else {
                    s.owners[i]
                },
        )
    } else {
        s.owners
    }
}

/// Whether a retained answer of a turn goes with a rollback.
pub open spec fn fact_removed(s: PlannerState, n: u32, f: int) -> bool {
    let owner = owners_after(s, n)[s.facts[f].record_index as int];
    owner is Some && is_removed(s, n, owner->0)
}

/// Whether a turn goes with a rollback: its instruction is removed, or an answer given in it.
pub open spec fn turn_removed(s: PlannerState, n: u32, turn: Seq<char>) -> bool {
    ||| s.turns.contains_key(PlannerState::turn_key(turn)) && is_removed(
        s,
        n,
        s.turns[PlannerState::turn_key(turn)],
    )
    ||| exists|f: int|
        0 <= f < s.facts.len() && (#[trigger] s.facts[f]).turn_id@ == turn && fact_removed(s, n, f)
}

/// Whether an entry of a retained context without instructions outlives a rollback.
pub open spec fn entry_survives(s: PlannerState, n: u32, entry: RetainedContextEntry) -> bool {
    match entry {
        RetainedContextEntry::UserMessage { .. } => true,
        RetainedContextEntry::Answer { turn_id, call_id, .. } => {
            let key = (turn_id@, call_id@);
            if s.calls.contains_key(key) {
                s.calls[key] is None || boundaries_after(s, n)[s.calls[key]->0 as int].alive
            } else {
                !turn_removed(s, n, turn_id@)
            }
        },
    }
}

/// Whether a context holds an instruction.
pub open spec fn holds_instruction(context: Seq<RetainedContextEntry>) -> bool {
    exists|i: int| 0 <= i < context.len() && (#[trigger] context[i]) is UserMessage
}

/// Whether the retained context of a checkpoint can hold what a rollback removes.
pub open spec fn context_affected(s: PlannerState, n: u32, frame: FrameState) -> bool {
    &&& removed_count(s, n) > 0
    &&& frame.context is Some
    &&& cut_source(s, n).acceptance_order is Some || frame.record_index >= cut_source(
        s,
        n,
    ).record_index
}

/// Whether the retained context of a checkpoint is rolled back as a whole.
pub open spec fn context_rolls_back(s: PlannerState, n: u32, frame: FrameState) -> bool {
    &&& context_affected(s, n, frame)
    &&& cut_source(s, n).acceptance_order is Some || holds_instruction(frame.context->0)
}

/// How many instructions of a checkpoint a rollback removes.
pub open spec fn removed_from_frame(s: PlannerState, n: u32, frame: FrameState) -> int {
    let depth = s.stack.len() as int;
    let kept = kept_depth(s, n);
    let before = if frame.boundary_depth < depth {
        frame.boundary_depth as int
    } else {
        depth
    };
    let after = if frame.boundary_depth < kept {
        frame.boundary_depth as int
    } else {
        kept
    };
    before - after
}

/// A checkpoint after a rollback cut its approval evidence and its retained answers.
pub open spec fn frame_after(s: PlannerState, n: u32, frame: FrameState) -> FrameState {
    FrameState {
        truncations: if removed_count(s, n) > 0 && removed_from_frame(s, n, frame) > 0
            && frame.has_guardian_history {
            frame.truncations.push(
                GuardianHistoryTruncation {
                    removed_turns: removed_from_frame(s, n, frame) as usize,
                    first_removed_message_id: cut_source(s, n).message_id,
                },
            )
        } else {
            frame.truncations
        },
        context: if context_affected(s, n, frame) && !context_rolls_back(s, n, frame) {
            Some(frame.context->0.filter(|e: RetainedContextEntry| entry_survives(s, n, e)))
        } else {
            frame.context
        },
        ..frame
    }
}

/// The checkpoints after a rollback cut their evidence and answers.
pub open spec fn frames_after(s: PlannerState, n: u32) -> Seq<FrameState> {
    Seq::new(s.frames.len(), |i: int| frame_after(s, n, s.frames[i]))
}

/// Whether a checkpoint belongs to no instruction or to a live one.
pub open spec fn frame_live(boundaries: Seq<InstructionBoundary>, frame: FrameState) -> bool {
    frame.owner is None || boundaries[frame.owner->0 as int].alive
}

/// The newest live checkpoint among the first `upto`, or -1.
pub open spec fn newest_live_frame(
    boundaries: Seq<InstructionBoundary>,
    frames: Seq<FrameState>,
    upto: int,
) -> int
    decreases upto,
{
    if upto <= 0 {
        -1
    } else if frame_live(boundaries, frames[upto - 1]) {
        upto - 1
    } else {
        newest_live_frame(boundaries, frames, upto - 1)
    }
}

/// The checkpoint that a rollback of `n` turns reaches into, or -1.
pub open spec fn reached_frame(s: PlannerState, n: u32) -> int {
    newest_live_frame(boundaries_after(s, n), s.frames, s.frames.len() as int)
}

/// How many turns of a rollback lie inside the history of the checkpoint that it reaches into.
pub open spec fn turns_inside_frame(s: PlannerState, n: u32) -> int {
    let at = reached_frame(s, n);
    if at < 0 {
        0
    } else {
        let later = if s.stack.len() > s.frames[at].boundary_depth {
            s.stack.len() - s.frames[at].boundary_depth
        } else {
            0
        };
        if n > later {
            n - later
        } else {
            0
        }
    }
}

/// Whether a rollback reaches into a checkpoint that keeps no history to cut.
pub open spec fn rollback_fails(s: PlannerState, n: u32) -> bool {
    &&& n > 0
    &&& turns_inside_frame(s, n) > 0
    &&& !s.frames[reached_frame(s, n)].has_replacement_history
}

/// The sum of two counts, at most the largest one.
pub open spec fn saturating_sum(a: u32, b: int) -> u32 {
    if a + b > u32::MAX {
        u32::MAX
    } else {
        (a + b) as u32
    }
}

/// The state after a rollback of `n` turns.
pub open spec fn rolled_back(s: PlannerState, n: u32) -> PlannerState {
    if n == 0 {
        s
    } else {
        let at = reached_frame(s, n);
        let cut = frames_after(s, n);
        PlannerState {
            owners: owners_after(s, n),
            boundaries: boundaries_after(s, n),
            stack: s.stack.take(kept_depth(s, n)),
            active_turn: None,
            pending_turn: Seq::empty(),
            pending_context: Seq::empty(),
            pending_user: None,
            pending_delivery: None,
            frames: if turns_inside_frame(s, n) > 0 {
                cut.update(
                    at,
                    FrameState {
                        drop_last_n_user_turns: saturating_sum(
                            cut[at].drop_last_n_user_turns,
                            turns_inside_frame(s, n),
                        ),
                        ..cut[at]
                    },
                )
            } else {
                cut
            },
            ..s
        }
    }
}

/// The checkpoints among the first `upto` whose context is rolled back as a whole, newest first.
pub open spec fn frames_to_roll_back(s: PlannerState, n: u32, upto: int) -> Seq<usize>
    decreases upto,
{
    if upto <= 0 {
        Seq::empty()
    } else if context_rolls_back(s, n, s.frames[upto - 1]) {
        seq![(upto - 1) as usize] + frames_to_roll_back(s, n, upto - 1)
    } else {
        frames_to_roll_back(s, n, upto - 1)
    }
}

impl RollbackPlanner {
    /// The planner is well formed.
    pub open spec fn wf(&self) -> bool {
        &&& self@.wf()
        &&& self.turn_boundaries.wf()
        &&& self.call_boundaries.wf()
    }

    /// A planner that has seen no record.
    pub fn new() -> (r: Self)
        ensures
            r.wf(),
            r@.owners.len() == 0,
            r@.boundaries.len() == 0,
            r@.stack.len() == 0,
            r@.active_turn is None,
            r@.frames.len() == 0,
            r@.facts.len() == 0,
            r@.turns == Map::<NameKey, usize>::empty(),
            r@.calls == Map::<NameKey, Option<usize>>::empty(),
            r@.pending_turn.len() == 0,
            r@.pending_context.len() == 0,
            r@.pending_user is None,
            r@.pending_delivery is None,
    {
        RollbackPlanner {
            record_boundaries: Vec::new(),
            boundaries: Vec::new(),
            boundary_stack: Vec::new(),
            active_turn_id: None,
            pending_turn_records: Vec::new(),
            pending_context_records: Vec::new(),
            pending_user_response: None,
            pending_delivery_boundary: None,
            turn_boundaries: NameMap::new(),
            call_boundaries: NameMap::new(),
            retained_fact_sources: Vec::new(),
            compactions: Vec::new(),
        }
    }

    fn assign_records(owners: &mut Vec<Option<usize>>, records: &Vec<usize>, boundary: usize)
        requires
            forall|i: int|
                0 <= i < records@.len() ==> (#[trigger] records@[i]) < old(owners)@.len(),
        ensures
            final(owners)@ == assign_all(old(owners)@, records@, boundary),
    {
        let ghost before = owners@;
        let mut i: usize = 0;
        while i < records.len()
            invariant
                i <= records@.len(),
                owners@.len() == before.len(),
                forall|j: int| 0 <= j < records@.len() ==> (#[trigger] records@[j]) < before.len(),
                owners@ =~= assign_all(before, records@.take(i as int), boundary),
            decreases records@.len() - i,
        {
            let ghost head = records@.take(i as int);
            let ghost longer = records@.take(i + 1);
            owners.set(records[i], Some(boundary));
            proof {
                assert(longer =~= head.push(records@[i as int]));
                assert forall|k: usize| #[trigger] longer.contains(k) == (head.contains(k) || k
                    == records@[i as int]) by {
                    if head.contains(k) {
                        let j = choose|j: int| 0 <= j < head.len() && head[j] == k;
                        assert(longer[j] == k);
                    }
                    if k == records@[i as int] {
                        assert(longer[i as int] == k);
                    }
                    if longer.contains(k) {
                        let j = choose|j: int| 0 <= j < longer.len() && longer[j] == k;
                        if j < i {
                            assert(head[j] == k);
                        }
                    }
                }
                assert(owners.len() == before.len());
                assert forall|k: int| 0 <= k < before.len() implies #[trigger] owners@[k]
                    == assign_all(before, longer, boundary)[k] by {
                    assert(longer.contains(k as usize) == (head.contains(k as usize) || k
                        == records@[i as int]));
                }
            }
            i += 1;
        }
        assert(records@.take(records@.len() as int) =~= records@);
    }

    /// Begins a new instruction at a record.
    pub fn start_boundary(&mut self, index: usize) -> (r: usize)
        requires
            old(self).wf(),
            index < old(self)@.owners.len(),
            old(self)@.boundaries.len() < old(self)@.owners.len(),
        ensures
            final(self).wf(),
            r == old(self)@.boundaries.len(),
            final(self)@ == boundary_started(old(self)@, index),
    {
        let ghost before = self@;
        let boundary: usize = self.boundaries.len();
        self.boundaries.push(
            InstructionBoundary {
                record_index: index,
                message_id: None,
                acceptance_order: None,
                alive: true,
            },
        );
        if self.boundary_stack.len() > 0 {
            Self::assign_records(
                &mut self.record_boundaries,
                &self.pending_context_records,
                boundary,
            );
        }
        self.pending_context_records.clear();
        Self::assign_records(&mut self.record_boundaries, &self.pending_turn_records, boundary);
        self.pending_turn_records.clear();
        self.record_boundaries.set(index, Some(boundary));
        self.boundary_stack.push(boundary);
        match &self.active_turn_id {
            Some(turn_id) => {
                self.turn_boundaries.insert(turn_id.as_str(), "", boundary);
            },
            None => {},
        }
        proof {
            assert(self@ =~= boundary_started(before, index));
            lemma_boundary_started(before, index);
        }
        boundary
    }

    /// Gives a record to the boundary of the turn that it names.
    pub fn assign_targeted_record(&mut self, index: usize, turn_id: &Option<String>)
        requires
            old(self).wf(),
            index < old(self)@.owners.len(),
        ensures
            final(self).wf(),
            final(self)@ == record_targeted(old(self)@, index, opt_text(*turn_id)),
    {
        let ghost before = self@;
        let target: Option<usize> = match turn_id {
            Some(turn) => self.turn_boundaries.get(turn.as_str(), ""),
            None => None,
        };
        match target {
            Some(boundary) => {
                self.record_boundaries.set(index, Some(boundary));
            },
            None => {
                let waits: bool = match &self.active_turn_id {
                    Some(active) => self.turn_boundaries.get(active.as_str(), "").is_none(),
                    None => false,
                };
                if waits {
                    self.pending_turn_records.push(index);
                }
            },
        }
        assert(self@ =~= record_targeted(before, index, opt_text(*turn_id)));
    }
}

proof fn lemma_boundary_started(s: PlannerState, index: usize)
    requires
        s.wf(),
        index < s.owners.len(),
        s.boundaries.len() < s.owners.len(),
    ensures
        boundary_started(s, index).wf(),
{
    let t = boundary_started(s, index);
    let b = s.boundaries.len() as usize;
    assert forall|i: int| 0 <= i < t.boundaries.len() implies (#[trigger] t.boundaries[i]).alive
        == t.stack.contains(i as usize) by {
        if i < s.boundaries.len() {
            assert(s.boundaries[i].alive == s.stack.contains(i as usize));
            if s.stack.contains(i as usize) {
                let j = choose|j: int| 0 <= j < s.stack.len() && s.stack[j] == i as usize;
                assert(t.stack[j] == i as usize);
            }
            if t.stack.contains(i as usize) {
                let j = choose|j: int| 0 <= j < t.stack.len() && t.stack[j] == i as usize;
                assert(j < s.stack.len());
                assert(s.stack[j] == i as usize);
            }
        } else {
            assert(t.stack[s.stack.len() as int] == b);
        }
    }
    assert forall|i: int| 0 <= i < t.owners.len() implies known_boundary(
        #[trigger] t.owners[i],
        t.boundaries.len(),
    ) by {
        assert(known_boundary(s.owners[i], s.boundaries.len()));
    }
    assert forall|k: NameKey| #[trigger] t.turns.contains_key(k) implies k.1 == ""@ && t.turns[k]
        < t.boundaries.len() by {
        if s.turns.contains_key(k) {
        }
    }
    assert forall|k: NameKey| #[trigger] t.calls.contains_key(k) implies known_boundary(
        t.calls[k],
        t.boundaries.len(),
    ) by {
        assert(s.calls.contains_key(k));
    }
    assert forall|i: int| 0 <= i < t.frames.len() implies (#[trigger] t.frames[i]).record_index
        < t.owners.len() && known_boundary(t.frames[i].owner, t.boundaries.len()) by {
        assert(s.frames[i].record_index < s.owners.len());
    }
}


fn contains_index(list: &Vec<usize>, index: usize) -> (r: bool)
    ensures
        r == list@.contains(index),
{
    let mut i: usize = 0;
    while i < list.len()
        invariant
            i <= list@.len(),
            forall|j: int| 0 <= j < i ==> list@[j] != index,
        decreases list@.len() - i,
    {
        if list[i] == index {
            return true;
        }
        i += 1;
    }
    false
}

fn at_most(a: usize, b: usize) -> (r: usize)
    ensures
        r == (if a < b {
            a
        } else {
            b
        }),
{
    if a < b {
        a
    } else {
        b
    }
}

/// A checkpoint after a rollback cut its approval evidence.
spec fn frame_truncated(s: PlannerState, n: u32, frame: FrameState) -> FrameState {
    FrameState { truncations: frame_after(s, n, frame).truncations, ..frame }
}

fn truncate_frame(
    frame: &mut CompactionFrame,
    depth_before: usize,
    depth_after: usize,
    message_id: &Option<String>,
    Ghost(s): Ghost<PlannerState>,
    Ghost(n): Ghost<u32>,
)
    requires
        depth_before == s.stack.len(),
        depth_after == kept_depth(s, n),
        removed_count(s, n) > 0,
        *message_id == cut_source(s, n).message_id,
    ensures
        final(frame)@ == frame_truncated(s, n, old(frame)@),
{
    let ghost before = frame@;
    let removed: usize = at_most(frame.boundary_depth, depth_before).saturating_sub(
        at_most(frame.boundary_depth, depth_after),
    );
    assert(removed == removed_from_frame(s, n, before));
    if removed > 0 && frame.has_guardian_history {
        frame.guardian_history_truncations.push(
            GuardianHistoryTruncation {
                removed_turns: removed,
                first_removed_message_id: copy_name(message_id),
            },
        );
    }
    assert(frame@ =~= frame_truncated(s, n, before));
}

impl RollbackPlanner {
    fn pop_boundaries(&mut self, n: u32) -> (removed: Vec<usize>)
        requires
            old(self).wf(),
        ensures
            removed@ == old(self)@.stack.skip(kept_depth(old(self)@, n)).reverse(),
            removed@.len() == removed_count(old(self)@, n),
            forall|b: usize| #[trigger] removed@.contains(b) == is_removed(old(self)@, n, b),
            final(self)@ == (PlannerState {
                stack: old(self)@.stack.take(kept_depth(old(self)@, n)),
                boundaries: boundaries_after(old(self)@, n),
                ..old(self)@
            }),
            final(self).turn_boundaries.wf(),
            final(self).call_boundaries.wf(),
    {
        let ghost s = self@;
        let mut removed: Vec<usize> = Vec::new();
        assert(s.stack.take(s.stack.len() as int) =~= s.stack);
        assert(s.stack.skip(s.stack.len() as int).reverse() =~= removed@);
        while removed.len() < n as usize && self.boundary_stack.len() > 0
            invariant
                s.wf(),
                removed@.len() <= n,
                removed@.len() <= s.stack.len(),
                self@ == (PlannerState {
                    stack: s.stack.take(s.stack.len() - removed@.len()),
                    boundaries: self@.boundaries,
                    ..s
                }),
                self.turn_boundaries.wf(),
                self.call_boundaries.wf(),
                removed@ == s.stack.skip(s.stack.len() - removed@.len()).reverse(),
                self.boundaries@.len() == s.boundaries.len(),
                forall|i: int|
                    0 <= i < s.boundaries.len() ==> #[trigger] self.boundaries@[i] == (
                    InstructionBoundary {
                        alive: s.boundaries[i].alive && !removed@.contains(i as usize),
                        ..s.boundaries[i]
                    }),
            decreases self.boundary_stack@.len(),
        {
            let ghost earlier = removed@;
            let ghost at = s.stack.len() - removed@.len() - 1;
            assert(self.boundary_stack@ =~= s.stack.take(at + 1));
            let boundary: usize = self.boundary_stack.pop().unwrap();
            assert(boundary == s.stack[at]);
            self.boundaries[boundary].alive = false;
            removed.push(boundary);
            proof {
                assert(self.boundary_stack@ =~= s.stack.take(at));
                assert(removed@ =~= s.stack.skip(at).reverse());
                assert forall|b: usize| #[trigger] removed@.contains(b) == (earlier.contains(b)
                    || b == boundary) by {
                    if earlier.contains(b) {
                        let j = choose|j: int| 0 <= j < earlier.len() && earlier[j] == b;
                        assert(removed@[j] == b);
                    }
                    if b == boundary {
                        assert(removed@[removed@.len() - 1] == b);
                    }
                }
                assert forall|i: int| 0 <= i < s.boundaries.len() implies (
                #[trigger] self.boundaries@[i]) == (InstructionBoundary {
                    alive: s.boundaries[i].alive && !removed@.contains(i as usize),
                    ..s.boundaries[i]
                }) by {
                    assert(removed@.contains(i as usize) == (earlier.contains(i as usize)
                        || i as usize == boundary));
                }
            }
        }
        proof {
            let kept = kept_depth(s, n);
            assert(removed@.len() == removed_count(s, n));
            let tail = s.stack.skip(kept);
            assert forall|b: usize| #[trigger] removed@.contains(b) == is_removed(s, n, b) by {
                if removed@.contains(b) {
                    let j = choose|j: int| 0 <= j < removed@.len() && removed@[j] == b;
                    assert(tail[tail.len() - 1 - j] == b);
                }
                if tail.contains(b) {
                    let j = choose|j: int| 0 <= j < tail.len() && tail[j] == b;
                    assert(removed@[tail.len() - 1 - j] == b);
                }
            }
            assert(self.boundaries@ =~= boundaries_after(s, n));
        }
        removed
    }

    fn truncate_frames(
        &mut self,
        depth_before: usize,
        depth_after: usize,
        message_id: &Option<String>,
        Ghost(s): Ghost<PlannerState>,
        Ghost(n): Ghost<u32>,
    )
        requires
            depth_before == s.stack.len(),
            depth_after == kept_depth(s, n),
            removed_count(s, n) > 0,
            *message_id == cut_source(s, n).message_id,
            old(self)@.frames == s.frames,
            old(self).turn_boundaries.wf(),
            old(self).call_boundaries.wf(),
        ensures
            final(self)@ == (PlannerState {
                frames: Seq::new(s.frames.len(), |i: int| frame_truncated(s, n, s.frames[i])),
                ..old(self)@
            }),
            final(self).turn_boundaries.wf(),
            final(self).call_boundaries.wf(),
    {
        let ghost before = self@;
        let ghost originals = self.compactions@;
        let mut i: usize = 0;
        while i < self.compactions.len()
            invariant
                depth_before == s.stack.len(),
                depth_after == kept_depth(s, n),
                removed_count(s, n) > 0,
                *message_id == cut_source(s, n).message_id,
                frame_states(originals) == s.frames,
                i <= self.compactions@.len(),
                self.compactions@.len() == originals.len(),
                self.turn_boundaries.wf(),
                self.call_boundaries.wf(),
                self@ == (PlannerState { frames: self@.frames, ..before }),
                forall|j: int|
                    0 <= j < i ==> (#[trigger] self.compactions@[j])@ == frame_truncated(
                        s,
                        n,
                        originals[j]@,
                    ),
                forall|j: int|
                    i <= j < originals.len() ==> #[trigger] self.compactions@[j] == originals[j],
            decreases self.compactions@.len() - i,
        {
            truncate_frame(
                &mut self.compactions[i],
                depth_before,
                depth_after,
                message_id,
                Ghost(s),
                Ghost(n),
            );
            i += 1;
        }
        proof {
            assert forall|j: int| 0 <= j < s.frames.len() implies #[trigger] s.frames[j]
                == originals[j]@ by {
                assert(frame_states(originals)[j] == originals[j]@);
            }
            assert(self@.frames =~= Seq::new(
                s.frames.len(),
                |i: int| frame_truncated(s, n, s.frames[i]),
            ));
        }
    }

    fn reassign_answers(
        &mut self,
        order: u64,
        boundary: usize,
        Ghost(s): Ghost<PlannerState>,
        Ghost(n): Ghost<u32>,
    )
        requires
            s.wf(),
            removed_count(s, n) > 0,
            cut_source(s, n).acceptance_order == Some(order),
            boundary == first_removed(s, n),
            old(self)@.owners == s.owners,
            old(self)@.facts == s.facts,
            old(self).turn_boundaries.wf(),
            old(self).call_boundaries.wf(),
        ensures
            final(self)@ == (PlannerState { owners: owners_after(s, n), ..old(self)@ }),
            final(self).turn_boundaries.wf(),
            final(self).call_boundaries.wf(),
    {
        let ghost before = self@;
        let mut i: usize = 0;
        while i < self.retained_fact_sources.len()
            invariant
                s.wf(),
                before.owners == s.owners,
                before.facts == s.facts,
                i <= s.facts.len(),
                self@ == (PlannerState { owners: self@.owners, ..before }),
                self.turn_boundaries.wf(),
                self.call_boundaries.wf(),
                self.record_boundaries@.len() == s.owners.len(),
                forall|r: int|
                    0 <= r < s.owners.len() ==> #[trigger] self.record_boundaries@[r] == (
                    if accepted_since(s.facts.take(i as int), r, order) {
                        Some(boundary)
                    } else {
                        s.owners[r]
                    }),
            decreases s.facts.len() - i,
        {
            let ghost head = s.facts.take(i as int);
            let ghost longer = s.facts.take(i + 1);
            let ghost earlier = self.record_boundaries@;
            let accepted: Option<u64> = self.retained_fact_sources[i].acceptance_order;
            let record: usize = self.retained_fact_sources[i].record_index;
            let goes: bool = match accepted {
                Some(value) => value >= order,
                None => false,
            };
            if goes {
                self.record_boundaries.set(record, Some(boundary));
            }
            proof {
                assert forall|r: int| 0 <= r < s.owners.len() implies
                    #[trigger] self.record_boundaries@[r] == (if accepted_since(longer, r, order) {
                    Some(boundary)
                } else {
                    s.owners[r]
                }) by {
                    if accepted_since(head, r, order) {
                        let f = choose|f: int|
                            0 <= f < head.len() && (#[trigger] head[f]).record_index == r
                                && head[f].acceptance_order is Some && head[f].acceptance_order->0
                                >= order;
                        assert(longer[f].record_index == r);
                    }
                    if accepted_since(longer, r, order) {
                        let f = choose|f: int|
                            0 <= f < longer.len() && (#[trigger] longer[f]).record_index == r
                                && longer[f].acceptance_order is Some
                                && longer[f].acceptance_order->0 >= order;
                        if f < i {
                            assert(head[f].record_index == r);
                        }
                    }
                    if goes && r == record {
                        assert(longer[i as int].record_index == r);
                    }
                    assert(earlier[r] == earlier[r]);
                }
            }
            i += 1;
        }
        proof {
            assert(s.facts.take(s.facts.len() as int) =~= s.facts);
            assert(self.record_boundaries@ =~= owners_after(s, n));
        }
    }
}


impl RollbackPlanner {
    fn collect_removed_turns(
        &self,
        removed: &Vec<usize>,
        Ghost(s): Ghost<PlannerState>,
        Ghost(n): Ghost<u32>,
    ) -> (r: Vec<String>)
        requires
            s.wf(),
            self.turn_boundaries.wf(),
            self@.turns == s.turns,
            self@.facts == s.facts,
            self@.owners == owners_after(s, n),
            forall|b: usize| #[trigger] removed@.contains(b) == is_removed(s, n, b),
        ensures
            forall|turn: Seq<char>| #[trigger]
                texts(r@).contains(turn) == turn_removed(s, n, turn),
    {
        let mut out: Vec<String> = Vec::new();
        let ghost entries = self.turn_boundaries.entries@;
        proof {
            self.turn_boundaries.lemma_entries();
        }
        let mut i: usize = 0;
        while i < self.turn_boundaries.entries.len()
            invariant
                i <= entries.len(),
                entries == self.turn_boundaries.entries@,
                forall|b: usize| #[trigger] removed@.contains(b) == is_removed(s, n, b),
                forall|turn: Seq<char>| #[trigger]
                    texts(out@).contains(turn) == (exists|j: int|
                        0 <= j < i && (#[trigger] entries[j]).first@ == turn && is_removed(
                            s,
                            n,
                            entries[j].value,
                        )),
            decreases entries.len() - i,
        {
            let ghost earlier = out@;
            let goes: bool = contains_index(removed, self.turn_boundaries.entries[i].value);
            if goes {
                out.push(self.turn_boundaries.entries[i].first.clone());
                proof {
                    lemma_texts_push(earlier, out@);
                }
            }
            proof {
                assert forall|turn: Seq<char>| #[trigger]
                    texts(out@).contains(turn) == (exists|j: int|
                        0 <= j < i + 1 && (#[trigger] entries[j]).first@ == turn && is_removed(
                            s,
                            n,
                            entries[j].value,
                        )) by {
                    assert(texts(earlier).contains(turn) == (exists|j: int|
                        0 <= j < i && (#[trigger] entries[j]).first@ == turn && is_removed(
                            s,
                            n,
                            entries[j].value,
                        )));
                    if goes && entries[i as int].first@ == turn {
                        assert(entries[i as int].first@ == turn && is_removed(
                            s,
                            n,
                            entries[i as int].value,
                        ));
                    }
                }
            }
            i += 1;
        }
        let ghost by_turn = out@;
        let mut f: usize = 0;
        while f < self.retained_fact_sources.len()
            invariant
                f <= s.facts.len(),
                s.wf(),
                self@.facts == s.facts,
                self@.owners == owners_after(s, n),
                forall|b: usize| #[trigger] removed@.contains(b) == is_removed(s, n, b),
                forall|turn: Seq<char>| #[trigger]
                    texts(out@).contains(turn) == (texts(by_turn).contains(turn) || exists|j: int|
                        0 <= j < f && (#[trigger] s.facts[j]).turn_id@ == turn && fact_removed(
                            s,
                            n,
                            j,
                        )),
            decreases s.facts.len() - f,
        {
            let ghost earlier = out@;
            let owner: Option<usize> =
                self.record_boundaries[self.retained_fact_sources[f].record_index];
            let goes: bool = match owner {
                Some(boundary) => contains_index(removed, boundary),
                None => false,
            };
            assert(goes == fact_removed(s, n, f as int));
            if goes {
                out.push(self.retained_fact_sources[f].turn_id.clone());
                proof {
                    lemma_texts_push(earlier, out@);
                }
            }
            proof {
                assert forall|turn: Seq<char>| #[trigger]
                    texts(out@).contains(turn) == (texts(by_turn).contains(turn) || exists|j: int|
                        0 <= j < f + 1 && (#[trigger] s.facts[j]).turn_id@ == turn && fact_removed(
                            s,
                            n,
                            j,
                        )) by {
                    assert(texts(earlier).contains(turn) == (texts(by_turn).contains(turn)
                        || exists|j: int|
                        0 <= j < f && (#[trigger] s.facts[j]).turn_id@ == turn && fact_removed(
                            s,
                            n,
                            j,
                        )));
                    if goes && s.facts[f as int].turn_id@ == turn {
                        assert(s.facts[f as int].turn_id@ == turn && fact_removed(s, n, f as int));
                    }
                }
            }
            f += 1;
        }
        proof {
            assert forall|turn: Seq<char>| #[trigger]
                texts(out@).contains(turn) == turn_removed(s, n, turn) by {
                let key = PlannerState::turn_key(turn);
                if s.turns.contains_key(key) {
                    let j = choose|j: int|
                        0 <= j < entries.len() && (#[trigger] entries[j]).key() == key;
                    assert(entries[j].first@ == turn);
                    assert(entries[j].value == s.turns[key]);
                }
                if texts(by_turn).contains(turn) {
                    let j = choose|j: int|
                        0 <= j < entries.len() && (#[trigger] entries[j]).first@ == turn
                            && is_removed(s, n, entries[j].value);
                    assert(s.turns.contains_key(entries[j].key()));
                    assert(entries[j].key() == key);
                }
            }
        }
        out
    }

    fn surviving_entries(
        &self,
        context: &RetainedContext,
        removed_turns: &Vec<String>,
        Ghost(s): Ghost<PlannerState>,
        Ghost(n): Ghost<u32>,
    ) -> (r: RetainedContext)
        requires
            s.wf(),
            self.call_boundaries.wf(),
            self@.calls == s.calls,
            self@.boundaries == boundaries_after(s, n),
            forall|turn: Seq<char>| #[trigger]
                texts(removed_turns@).contains(turn) == turn_removed(s, n, turn),
        ensures
            r.entries@ == context.entries@.filter(
                |e: RetainedContextEntry| entry_survives(s, n, e),
            ),
    {
        let ghost keep = |e: RetainedContextEntry| entry_survives(s, n, e);
        let mut entries: Vec<RetainedContextEntry> = Vec::new();
        let mut i: usize = 0;
        assert(context.entries@.take(0).filter(keep) =~= entries@) by {
            reveal(Seq::filter);
        }
        while i < context.entries.len()
            invariant
                i <= context.entries@.len(),
                s.wf(),
                self.call_boundaries.wf(),
                self@.calls == s.calls,
                self@.boundaries == boundaries_after(s, n),
                keep == (|e: RetainedContextEntry| entry_survives(s, n, e)),
                forall|turn: Seq<char>| #[trigger]
                    texts(removed_turns@).contains(turn) == turn_removed(s, n, turn),
                entries@ == context.entries@.take(i as int).filter(keep),
            decreases context.entries@.len() - i,
        {
            let (stays, entry) = match &context.entries[i] {
                RetainedContextEntry::UserMessage { payload } => (
                    true,
                    RetainedContextEntry::UserMessage { payload: payload.clone() },
                ),
                RetainedContextEntry::Answer { turn_id, call_id, payload } => {
                    let stays: bool = match self.call_boundaries.get(
                        turn_id.as_str(),
                        call_id.as_str(),
                    ) {
                        Some(owner) => match owner {
                            Some(boundary) => {
                                assert(known_boundary(
                                    s.calls[(turn_id@, call_id@)],
                                    s.boundaries.len(),
                                ));
                                self.boundaries[boundary].alive
                            },
                            None => true,
                        },
                        None => !crate::text::contains_text(removed_turns, turn_id.as_str()),
                    };
                    (
                        stays,
                        RetainedContextEntry::Answer {
                            turn_id: turn_id.clone(),
                            call_id: call_id.clone(),
                            payload: payload.clone(),
                        },
                    )
                },
            };
            assert(entry == context.entries@[i as int]);
            assert(stays == keep(entry));
            proof {
                assert(context.entries@.take(i + 1).drop_last() =~= context.entries@.take(
                    i as int,
                ));
                assert(context.entries@.take(i + 1).last() == entry);
                reveal(Seq::filter);
            }
            if stays {
                entries.push(entry);
            }
            i += 1;
        }
        assert(context.entries@.take(context.entries@.len() as int) =~= context.entries@);
        RetainedContext { entries }
    }
}

proof fn lemma_texts_push(before: Seq<String>, after: Seq<String>)
    requires
        after.len() == before.len() + 1,
        after.drop_last() =~= before,
    ensures
        forall|t: Seq<char>| #[trigger]
            texts(after).contains(t) == (texts(before).contains(t) || t == after.last()@),
{
    assert forall|t: Seq<char>| #[trigger] texts(after).contains(t) == (texts(before).contains(t)
        || t == after.last()@) by {
        if texts(before).contains(t) {
            let j = choose|j: int| 0 <= j < texts(before).len() && texts(before)[j] == t;
            assert(after.drop_last()[j] == after[j]);
            assert(texts(after)[j] == t);
        }
        if t == after.last()@ {
            assert(texts(after)[after.len() - 1] == t);
        }
        if texts(after).contains(t) {
            let j = choose|j: int| 0 <= j < texts(after).len() && texts(after)[j] == t;
            if j < before.len() {
                assert(after.drop_last()[j] == after[j]);
                assert(texts(before)[j] == t);
            }
        }
    }
}


fn has_instruction(context: &RetainedContext) -> (r: bool)
    ensures
        r == holds_instruction(context.entries@),
{
    let mut i: usize = 0;
    while i < context.entries.len()
        invariant
            i <= context.entries@.len(),
            forall|j: int| 0 <= j < i ==> !((#[trigger] context.entries@[j]) is UserMessage),
        decreases context.entries@.len() - i,
    {
        match &context.entries[i] {
            RetainedContextEntry::UserMessage { .. } => {
                assert(context.entries@[i as int] is UserMessage);
                return true;
            },
            RetainedContextEntry::Answer { .. } => {},
        }
        i += 1;
    }
    false
}

impl RollbackPlanner {
    fn cut_contexts(
        &mut self,
        removed_turns: &Vec<String>,
        order_known: bool,
        source_record: usize,
        Ghost(s): Ghost<PlannerState>,
        Ghost(n): Ghost<u32>,
    ) -> (r: Vec<usize>)
        requires
            s.wf(),
            removed_count(s, n) > 0,
            order_known == (cut_source(s, n).acceptance_order is Some),
            source_record == cut_source(s, n).record_index,
            old(self).turn_boundaries.wf(),
            old(self).call_boundaries.wf(),
            old(self)@.calls == s.calls,
            old(self)@.boundaries == boundaries_after(s, n),
            old(self)@.frames == Seq::new(
                s.frames.len(),
                |i: int| frame_truncated(s, n, s.frames[i]),
            ),
            forall|turn: Seq<char>| #[trigger]
                texts(removed_turns@).contains(turn) == turn_removed(s, n, turn),
        ensures
            final(self)@ == (PlannerState { frames: frames_after(s, n), ..old(self)@ }),
            final(self).turn_boundaries.wf(),
            final(self).call_boundaries.wf(),
            r@ == frames_to_roll_back(s, n, s.frames.len() as int),
    {
        let ghost before = self@;
        let ghost originals = self.compactions@;
        let total: usize = self.compactions.len();
        let mut out: Vec<usize> = Vec::new();
        let mut i: usize = total;
        proof {
            assert(frame_states(originals).len() == s.frames.len());
            assert forall|j: int| 0 <= j < s.frames.len() implies (#[trigger] originals[j])@
                == frame_truncated(s, n, s.frames[j]) by {
                assert(frame_states(originals)[j] == originals[j]@);
            }
            assert(out@ + frames_to_roll_back(s, n, total as int) =~= frames_to_roll_back(
                s,
                n,
                total as int,
            ));
        }
        while i > 0
            invariant
                s.wf(),
                removed_count(s, n) > 0,
                order_known == (cut_source(s, n).acceptance_order is Some),
                source_record == cut_source(s, n).record_index,
                total == s.frames.len(),
                total == originals.len(),
                i <= total,
                self.compactions@.len() == total,
                self.turn_boundaries.wf(),
                self.call_boundaries.wf(),
                before.calls == s.calls,
                before.boundaries == boundaries_after(s, n),
                self@ == (PlannerState { frames: self@.frames, ..before }),
                forall|turn: Seq<char>| #[trigger]
                    texts(removed_turns@).contains(turn) == turn_removed(s, n, turn),
                forall|j: int|
                    0 <= j < total ==> (#[trigger] originals[j])@ == frame_truncated(
                        s,
                        n,
                        s.frames[j],
                    ),
                forall|j: int|
                    i <= j < total ==> (#[trigger] self.compactions@[j])@ == frame_after(
                        s,
                        n,
                        s.frames[j],
                    ),
                forall|j: int| 0 <= j < i ==> #[trigger] self.compactions@[j] == originals[j],
                out@ + frames_to_roll_back(s, n, i as int) == frames_to_roll_back(
                    s,
                    n,
                    total as int,
                ),
            decreases i,
        {
            i -= 1;
            let ghost frame = s.frames[i as int];
            assert(self.compactions@[i as int] == originals[i as int]);
            let affected: bool = order_known || self.compactions[i].record_index >= source_record;
            let rolls: bool = match &self.compactions[i].retained_context {
                Some(context) => affected && (order_known || has_instruction(context)),
                None => false,
            };
            assert(rolls == context_rolls_back(s, n, frame));
            if rolls {
                let ghost earlier = out@;
                out.push(i);
                proof {
                    assert(earlier + (seq![i] + frames_to_roll_back(s, n, i as int)) =~= out@
                        + frames_to_roll_back(s, n, i as int));
                }
            } else if affected {
                let cut: Option<RetainedContext> = match &self.compactions[i].retained_context {
                    Some(context) => Some(
                        self.surviving_entries(context, removed_turns, Ghost(s), Ghost(n)),
                    ),
                    None => None,
                };
                self.compactions[i].retained_context = cut;
            }
            assert(self.compactions@[i as int]@ =~= frame_after(s, n, frame));
        }
        proof {
            assert(out@ + frames_to_roll_back(s, n, 0) =~= out@);
            assert(self@.frames =~= frames_after(s, n));
        }
        out
    }
}


impl RollbackPlanner {
    /// Removes the last `num_turns` live instructions, and what belongs to them, from the plan.
    /// Fails where the rollback reaches into a checkpoint that keeps no history to cut.
    pub fn apply_rollback(&mut self, num_turns: u32) -> (r: ThreadStoreResult<Option<RollbackCut>>)
        requires
            old(self).wf(),
        ensures
            r is Err == rollback_fails(old(self)@, num_turns),
            r is Err ==> r->Err_0@ == migration_failure(
                "legacy rollback crosses a compaction without replacement history"@,
            ),
            r is Ok ==> final(self).wf(),
            r is Ok ==> final(self)@ == rolled_back(old(self)@, num_turns),
            r is Ok ==> (r->Ok_0 is Some == (removed_count(old(self)@, num_turns) > 0)),
            r is Ok && r->Ok_0 is Some ==> cut_describes(r->Ok_0->0, old(self)@, num_turns),
    {
        let ghost s = self@;
        let ghost n = num_turns;
        if num_turns == 0 {
            return Ok(None);
        }
        let depth_before: usize = self.boundary_stack.len();
        let removed: Vec<usize> = self.pop_boundaries(num_turns);
        let depth_after: usize = self.boundary_stack.len();
        let mut cut: Option<RollbackCut> = None;
        if removed.len() > 0 {
            let first: usize = removed[removed.len() - 1];
            proof {
                assert(first == first_removed(s, n));
                assert(s.stack[kept_depth(s, n)] < s.boundaries.len());
            }
            let message_id: Option<String> = copy_name(&self.boundaries[first].message_id);
            let order: Option<u64> = self.boundaries[first].acceptance_order;
            let source_record: usize = self.boundaries[first].record_index;
            self.truncate_frames(depth_before, depth_after, &message_id, Ghost(s), Ghost(n));
            match order {
                Some(value) => {
                    self.reassign_answers(value, first, Ghost(s), Ghost(n));
                },
                None => {},
            }
            let removed_turns: Vec<String> = self.collect_removed_turns(
                &removed,
                Ghost(s),
                Ghost(n),
            );
            let frames: Vec<usize> = self.cut_contexts(
                &removed_turns,
                order.is_some(),
                source_record,
                Ghost(s),
                Ghost(n),
            );
            cut = Some(
                RollbackCut {
                    removed_turns,
                    first_removed_message_id: message_id,
                    acceptance_order: order,
                    frames,
                },
            );
        } else {
            proof {
                assert(frames_after(s, n) =~= s.frames);
                assert(self@.frames == s.frames);
            }
        }
        assert(self@ == (PlannerState {
            owners: owners_after(s, n),
            boundaries: boundaries_after(s, n),
            stack: s.stack.take(kept_depth(s, n)),
            frames: frames_after(s, n),
            ..s
        }));
        proof {
            lemma_rolled_back(s, n);
        }
        let ghost cut_frames = self.compactions@;
        proof {
            assert(frame_states(cut_frames) == frames_after(s, n));
            assert(frame_states(cut_frames).len() == cut_frames.len());
            assert(frames_after(s, n).len() == s.frames.len());
        }
        let mut i: usize = self.compactions.len();
        while i > 0
            invariant
                s.wf(),
                i <= s.frames.len(),
                cut_frames.len() == s.frames.len(),
                frame_states(cut_frames) == frames_after(s, n),
                self.compactions@ == cut_frames,
                self.boundaries@ == boundaries_after(s, n),
                newest_live_frame(boundaries_after(s, n), s.frames, i as int) == reached_frame(
                    s,
                    n,
                ),
            ensures
                self.compactions@ == cut_frames,
                i > 0 ==> i - 1 == reached_frame(s, n),
                i == 0 ==> reached_frame(s, n) == -1,
                i <= s.frames.len(),
            decreases i,
        {
            assert(frame_states(cut_frames)[i - 1] == cut_frames[i - 1]@);
            assert(s.frames[i - 1].record_index < s.owners.len());
            let live: bool = match self.compactions[i - 1].owner {
                Some(boundary) => self.boundaries[boundary].alive,
                None => true,
            };
            if live {
                break;
            }
            i -= 1;
        }
        if i > 0 {
            let at: usize = i - 1;
            assert(frame_states(cut_frames)[at as int] == cut_frames[at as int]@);
            let later: usize = depth_before.saturating_sub(self.compactions[at].boundary_depth);
            let inside: usize = (num_turns as usize).saturating_sub(later);
            assert(inside == turns_inside_frame(s, n));
            if inside > 0 {
                if !self.compactions[at].has_replacement_history {
                    return Err(
                        migration_error(
                            "legacy rollback crosses a compaction without replacement history",
                        ),
                    );
                }
                let already: u32 = self.compactions[at].drop_last_n_user_turns;
                self.compactions[at].drop_last_n_user_turns = already.saturating_add(
                    inside as u32,
                );
            }
        }
        self.active_turn_id = None;
        self.pending_turn_records.clear();
        self.pending_context_records.clear();
        self.pending_user_response = None;
        self.pending_delivery_boundary = None;
        proof {
            let want = rolled_back(s, n);
            assert forall|j: int| 0 <= j < s.frames.len() implies #[trigger] self@.frames[j]
                == want.frames[j] by {
                assert(frame_states(cut_frames)[j] == cut_frames[j]@);
            }
            assert(self@.frames =~= want.frames);
            assert(self@ =~= want);
        }
        Ok(cut)
    }
}

/// What a cut says of the rollback that made it.
pub open spec fn cut_describes(cut: RollbackCut, s: PlannerState, n: u32) -> bool {
    &&& cut.first_removed_message_id == cut_source(s, n).message_id
    &&& cut.acceptance_order == cut_source(s, n).acceptance_order
    &&& cut.frames@ == frames_to_roll_back(s, n, s.frames.len() as int)
    &&& forall|turn: Seq<char>| #[trigger]
        texts(cut.removed_turns@).contains(turn) == turn_removed(s, n, turn)
}

proof fn lemma_newest_live_frame(
    boundaries: Seq<InstructionBoundary>,
    frames: Seq<FrameState>,
    upto: int,
)
    requires
        0 <= upto <= frames.len(),
    ensures
        -1 <= newest_live_frame(boundaries, frames, upto) < upto,
    decreases upto,
{
    if upto > 0 && !frame_live(boundaries, frames[upto - 1]) {
        lemma_newest_live_frame(boundaries, frames, upto - 1);
    }
}

pub proof fn lemma_rolled_back(s: PlannerState, n: u32)
    requires
        s.wf(),
        n > 0,
    ensures
        rolled_back(s, n).wf(),
        -1 <= reached_frame(s, n) < s.frames.len(),
{
    let t = rolled_back(s, n);
    let kept = kept_depth(s, n);
    lemma_newest_live_frame(boundaries_after(s, n), s.frames, s.frames.len() as int);
    assert forall|b: int| 0 <= b < t.boundaries.len() implies (#[trigger] t.boundaries[b]).alive
        == t.stack.contains(b as usize) by {
        assert(s.boundaries[b].alive == s.stack.contains(b as usize));
        let tail = s.stack.skip(kept);
        if s.stack.contains(b as usize) {
            let j = choose|j: int| 0 <= j < s.stack.len() && s.stack[j] == b as usize;
            if j < kept {
                assert(t.stack[j] == b as usize);
                if tail.contains(b as usize) {
                    let m = choose|m: int| 0 <= m < tail.len() && tail[m] == b as usize;
                    assert(s.stack[j] < s.stack[kept + m]);
                }
            } else {
                assert(tail[j - kept] == b as usize);
                if t.stack.contains(b as usize) {
                    let m = choose|m: int| 0 <= m < t.stack.len() && t.stack[m] == b as usize;
                    assert(s.stack[m] < s.stack[j]);
                }
            }
        }
        if t.stack.contains(b as usize) {
            let m = choose|m: int| 0 <= m < t.stack.len() && t.stack[m] == b as usize;
            assert(s.stack[m] == b as usize);
        }
    }
    assert forall|i: int| 0 <= i < t.owners.len() implies known_boundary(
        #[trigger] t.owners[i],
        t.boundaries.len(),
    ) by {
        assert(known_boundary(s.owners[i], s.boundaries.len()));
        if removed_count(s, n) > 0 {
            assert(s.stack[kept] < s.boundaries.len());
        }
    }
    assert forall|i: int, j: int| 0 <= i < j < t.frames.len() implies (
    #[trigger] t.frames[i]).record_index < (#[trigger] t.frames[j]).record_index by {
        assert(s.frames[i].record_index < s.frames[j].record_index);
    }
    assert forall|i: int| 0 <= i < t.frames.len() implies (#[trigger] t.frames[i]).record_index
        < t.owners.len() && known_boundary(t.frames[i].owner, t.boundaries.len()) by {
        assert(s.frames[i].record_index < s.owners.len());
    }
}


/// The newest live boundary.
pub open spec fn newest_boundary(s: PlannerState) -> Option<usize> {
    if s.stack.len() > 0 {
        Some(s.stack.last())
    } else {
        None
    }
}

/// The state once a record is counted: it belongs to the newest live boundary until its content
/// says otherwise, and it ends the wait for a paired record.
pub open spec fn counted(s: PlannerState) -> PlannerState {
    PlannerState {
        owners: s.owners.push(newest_boundary(s)),
        pending_user: None,
        pending_delivery: None,
        ..s
    }
}

/// The end of a turn.
pub open spec fn turn_ended(s: PlannerState, turn: Option<Seq<char>>) -> PlannerState {
    if turn is Some && s.active_turn is Some && s.active_turn->0@ == turn->0 {
        PlannerState { active_turn: None, pending_turn: Seq::empty(), ..s }
    } else {
        s
    }
}

/// A record goes to a boundary, or to none.
pub open spec fn owned_by(s: PlannerState, index: usize, owner: Option<usize>) -> PlannerState {
    PlannerState { owners: s.owners.update(index as int, owner), ..s }
}

/// The position of a response item in the order in which user input was accepted.
pub open spec fn input_order(response: crate::rollout::ResponseItemEnvelope) -> Option<u64> {
    match response.metadata {
        Some(metadata) => metadata.user_input_order,
        None => None,
    }
}

/// Whether a response item is a message of the user.
pub open spec fn is_user_message(response: crate::rollout::ResponseItemEnvelope) -> bool {
    response.item.body matches ResponseBody::Message { role, .. } && role@ == "user"@
}

/// The turn that a response item belongs to.
pub open spec fn response_turn(
    s: PlannerState,
    response: crate::rollout::ResponseItemEnvelope,
) -> Option<Seq<char>> {
    if response.item.turn_id is Some {
        opt_text(response.item.turn_id)
    } else {
        opt_text(s.active_turn)
    }
}

/// The state after the boundary of a response item is settled. `s` is the state before the record
/// is counted, `t` the one after.
pub open spec fn response_owned(
    s: PlannerState,
    t: PlannerState,
    index: usize,
    response: crate::rollout::ResponseItemEnvelope,
) -> PlannerState {
    if s.pending_delivery is Some && response.item.body is AgentMessage {
        let boundary = s.pending_delivery->0;
        PlannerState {
            boundaries: t.boundaries.update(
                boundary as int,
                InstructionBoundary {
                    message_id: response.item.id,
                    ..t.boundaries[boundary as int]
                },
            ),
            ..owned_by(t, index, Some(boundary))
        }
    } else if response.item.counts_as_boundary {
        let u = boundary_started(t, index);
        let boundary = t.boundaries.len() as usize;
        PlannerState {
            boundaries: u.boundaries.update(
                boundary as int,
                InstructionBoundary {
                    message_id: response.item.id,
                    acceptance_order: input_order(response),
                    ..u.boundaries[boundary as int]
                },
            ),
            pending_user: if is_user_message(response) {
                Some((boundary, response.item.body->content@))
            } else {
                None
            },
            ..u
        }
    } else if response.item.is_pre_turn_context_update {
        PlannerState { pending_context: t.pending_context.push(index), ..t }
    } else {
        t
    }
}

/// The state after a response item.
pub open spec fn response_observed(
    s: PlannerState,
    index: usize,
    response: crate::rollout::ResponseItemEnvelope,
) -> PlannerState {
    let t = response_owned(s, counted(s), index, response);
    if response.item.body is FunctionCall && response_turn(t, response) is Some {
        PlannerState {
            calls: t.calls.insert(
                (response_turn(t, response)->0, response.item.body->call_id@),
                t.owners[index as int],
            ),
            ..t
        }
    } else {
        t
    }
}

/// The identifiers that the entries of a checkpoint refer to.
pub open spec fn entry_references(entries: Seq<CompactedHistoryEntry>) -> Seq<String>
    decreases entries.len(),
{
    if entries.len() == 0 {
        Seq::empty()
    } else {
        match entries.last() {
            CompactedHistoryEntry::Inline { .. } => entry_references(entries.drop_last()),
            CompactedHistoryEntry::Reference { item_id } => entry_references(
                entries.drop_last(),
            ).push(item_id),
            CompactedHistoryEntry::ReferenceV2 { item_id, .. } => entry_references(
                entries.drop_last(),
            ).push(item_id),
        }
    }
}

/// The entries of an optional list.
pub open spec fn opt_entries(list: Option<Vec<CompactedHistoryEntry>>) -> Seq<
    CompactedHistoryEntry,
> {
    match list {
        Some(v) => v@,
        None => Seq::empty(),
    }
}

/// The entries of the approval evidence of a checkpoint.
pub open spec fn guardian_entries(item: CompactedItem) -> Seq<CompactedHistoryEntry> {
    match item.guardian_history {
        Some(guardian) => opt_entries(guardian.entries),
        None => Seq::empty(),
    }
}

/// The state after a checkpoint. It belongs to the boundary of the active turn.
pub open spec fn compaction_observed(
    t: PlannerState,
    index: usize,
    item: CompactedItem,
) -> PlannerState {
    let owner = if t.active_turn_bound() {
        Some(t.turns[PlannerState::turn_key(t.active_turn->0@)])
    } else {
        None
    };
    PlannerState {
        frames: t.frames.push(
            FrameState {
                record_index: index,
                boundary_depth: t.stack.len() as usize,
                owner,
                has_replacement_history: crate::rollout::replaces_history(item),
                referenced: entry_references(opt_entries(item.replacement_history_entries))
                    + entry_references(guardian_entries(item)),
                context: context_entries(item.retained_context),
                has_guardian_history: item.guardian_history is Some,
                truncations: Seq::empty(),
                drop_last_n_user_turns: 0,
            },
        ),
        ..owned_by(t, index, owner)
    }
}

/// The state after a verified answer. It belongs to the instruction of its call, even where the
/// turn has received another instruction since.
pub open spec fn answer_observed(
    t: PlannerState,
    index: usize,
    answer: crate::rollout::VerifiedAnswer,
) -> PlannerState {
    let key = (answer.turn_id@, answer.call_id@);
    let u = if t.calls.contains_key(key) {
        owned_by(t, index, t.calls[key])
    } else {
        record_targeted(t, index, Some(answer.turn_id@))
    };
    PlannerState {
        calls: u.calls.insert(key, u.owners[index as int]),
        facts: u.facts.push(
            RetainedFactSource {
                record_index: index,
                turn_id: answer.turn_id,
                acceptance_order: answer.acceptance_order,
            },
        ),
        ..u
    }
}

/// The state after a user message event. An event that repeats the user response item just before
/// it belongs to the boundary of that item; any other begins an instruction.
pub open spec fn user_message_observed(
    s: PlannerState,
    index: usize,
    event: UserMessage,
) -> PlannerState {
    match s.pending_user {
        Some((boundary, content)) => if event_repeats_response(content, event) {
            owned_by(counted(s), index, Some(boundary))
        } else {
            boundary_started(counted(s), index)
        },
        None => boundary_started(counted(s), index),
    }
}

/// The state after a record.
pub open spec fn observed(s: PlannerState, item: RolloutItem) -> PlannerState {
    let index = s.owners.len() as usize;
    let t = counted(s);
    match item {
        RolloutItem::SessionMeta(_) => owned_by(t, index, None),
        RolloutItem::SecurityRiskScore { .. } => owned_by(t, index, None),
        RolloutItem::ResponseItem(response) => response_observed(s, index, response),
        RolloutItem::EventMsg(event) => match event {
            EventMsg::ThreadRolledBack { num_turns } => rolled_back(t, num_turns),
            EventMsg::TurnStarted(event) => PlannerState {
                active_turn: Some(event.turn_id),
                pending_turn: seq![index],
                ..t
            },
            EventMsg::TurnComplete(event) => turn_ended(
                record_targeted(t, index, Some(event.turn_id@)),
                Some(event.turn_id@),
            ),
            EventMsg::TurnAborted(event) => turn_ended(
                record_targeted(t, index, opt_text(event.turn_id)),
                opt_text(event.turn_id),
            ),
            EventMsg::UserMessage(event) => user_message_observed(s, index, event),
            EventMsg::ItemCompleted(event) => record_targeted(t, index, Some(event.turn_id@)),
            _ => record_targeted(t, index, explicit_turn(event)),
        },
        RolloutItem::InterAgentCommunication { .. } => boundary_started(t, index),
        RolloutItem::InterAgentCommunicationMetadata { .. } => PlannerState {
            pending_delivery: Some(t.boundaries.len() as usize),
            ..boundary_started(t, index)
        },
        RolloutItem::Compacted(item) => compaction_observed(t, index, item),
        RolloutItem::TurnContext { .. } => if t.active_turn is Some && !t.active_turn_bound() {
            PlannerState { pending_turn: t.pending_turn.push(index), ..t }
        } else {
            t
        },
        RolloutItem::TokenUsageRecord { turn_id, .. } => record_targeted(t, index, Some(turn_id@)),
        RolloutItem::WorldState { .. } => t,
        RolloutItem::RealtimeItem { .. } => t,
        RolloutItem::RetainedContext(answer) => answer_observed(t, index, answer),
    }
}

/// Whether a record is a rollback that the plan cannot carry out.
pub open spec fn observation_fails(s: PlannerState, item: RolloutItem) -> bool {
    item matches RolloutItem::EventMsg(EventMsg::ThreadRolledBack { num_turns }) && rollback_fails(
        counted(s),
        num_turns,
    )
}

/// The number of turns that a record rolls back.
pub open spec fn rollback_turns(item: RolloutItem) -> u32 {
    match item {
        RolloutItem::EventMsg(EventMsg::ThreadRolledBack { num_turns }) => num_turns,
        _ => 0,
    }
}

fn push_references(out: &mut Vec<String>, entries: &Vec<CompactedHistoryEntry>)
    ensures
        final(out)@ == old(out)@ + entry_references(entries@),
{
    let ghost before = out@;
    let mut i: usize = 0;
    assert(before + entry_references(entries@.take(0)) =~= before);
    while i < entries.len()
        invariant
            i <= entries@.len(),
            out@ == before + entry_references(entries@.take(i as int)),
        decreases entries@.len() - i,
    {
        assert(entries@.take(i + 1).drop_last() =~= entries@.take(i as int));
        match &entries[i] {
            CompactedHistoryEntry::Inline { .. } => {},
            CompactedHistoryEntry::Reference { item_id } => {
                out.push(item_id.clone());
            },
            CompactedHistoryEntry::ReferenceV2 { item_id, .. } => {
                out.push(item_id.clone());
            },
        }
        assert(out@ =~= before + entry_references(entries@.take(i + 1)));
        i += 1;
    }
    assert(entries@.take(entries@.len() as int) =~= entries@);
}

fn referenced_ids(item: &CompactedItem) -> (r: Vec<String>)
    ensures
        r@ == entry_references(opt_entries(item.replacement_history_entries)) + entry_references(
            guardian_entries(*item),
        ),
{
    let mut out: Vec<String> = Vec::new();
    match &item.replacement_history_entries {
        Some(entries) => {
            push_references(&mut out, entries);
        },
        None => {},
    }
    assert(out@ =~= entry_references(opt_entries(item.replacement_history_entries)));
    match &item.guardian_history {
        Some(guardian) => {
            match &guardian.entries {
                Some(entries) => {
                    push_references(&mut out, entries);
                },
                None => {},
            }
        },
        None => {},
    }
    assert(out@ =~= entry_references(opt_entries(item.replacement_history_entries))
        + entry_references(guardian_entries(*item)));
    out
}

proof fn lemma_counted(s: PlannerState)
    requires
        s.wf(),
        s.owners.len() < usize::MAX,
    ensures
        counted(s).wf(),
{
    let t = counted(s);
    assert forall|i: int| 0 <= i < t.owners.len() implies known_boundary(
        #[trigger] t.owners[i],
        t.boundaries.len(),
    ) by {
        if i < s.owners.len() {
            assert(known_boundary(s.owners[i], s.boundaries.len()));
        }
    }
    assert forall|b: int| 0 <= b < t.boundaries.len() implies (#[trigger] t.boundaries[b]).alive
        == t.stack.contains(b as usize) by {
        assert(s.boundaries[b].alive == s.stack.contains(b as usize));
    }
    assert forall|i: int| 0 <= i < t.frames.len() implies (#[trigger] t.frames[i]).record_index
        < t.owners.len() && known_boundary(t.frames[i].owner, t.boundaries.len()) by {
        assert(s.frames[i].record_index < s.owners.len());
    }
}

impl RollbackPlanner {
    fn count_record(&mut self) -> (index: usize)
        requires
            old(self).wf(),
            old(self)@.owners.len() < usize::MAX,
        ensures
            final(self).wf(),
            index == old(self)@.owners.len(),
            final(self)@ == counted(old(self)@),
    {
        let ghost s = self@;
        let index: usize = self.record_boundaries.len();
        let owner: Option<usize> = if self.boundary_stack.len() > 0 {
            Some(self.boundary_stack[self.boundary_stack.len() - 1])
        } else {
            None
        };
        self.record_boundaries.push(owner);
        self.pending_user_response = None;
        self.pending_delivery_boundary = None;
        proof {
            lemma_counted(s);
        }
        index
    }

    fn observe_response(
        &mut self,
        index: usize,
        delivery: Option<usize>,
        response: &crate::rollout::ResponseItemEnvelope,
        Ghost(s): Ghost<PlannerState>,
    )
        requires
            s.wf(),
            s.owners.len() < usize::MAX,
            index == s.owners.len(),
            delivery == s.pending_delivery,
            old(self).wf(),
            old(self)@ == counted(s),
        ensures
            final(self).wf(),
            final(self)@ == response_observed(s, index, *response),
    {
        let ghost t = self@;
        let is_delivery: bool = match &response.item.body {
            ResponseBody::AgentMessage => delivery.is_some(),
            _ => false,
        };
        if is_delivery {
            let boundary: usize = delivery.unwrap();
            self.record_boundaries.set(index, Some(boundary));
            self.boundaries[boundary].message_id = copy_name(&response.item.id);
        } else if response.item.counts_as_boundary {
            let boundary: usize = self.start_boundary(index);
            self.boundaries[boundary].message_id = copy_name(&response.item.id);
            self.boundaries[boundary].acceptance_order = match &response.metadata {
                Some(metadata) => metadata.user_input_order,
                None => None,
            };
            match &response.item.body {
                ResponseBody::Message { role, content } => {
                    if same_text(role.as_str(), "user") {
                        self.pending_user_response = Some(
                            PendingUserResponse { boundary, content: copy_content(content) },
                        );
                    }
                },
                _ => {},
            }
        } else if response.item.is_pre_turn_context_update {
            self.pending_context_records.push(index);
        }
        let ghost u = response_owned(s, t, index, *response);
        assert(self@.boundaries =~= u.boundaries);
        assert(self@.pending_user =~= u.pending_user);
        assert(self@ =~= u);
        assert(u.wf()) by {
            lemma_response_owned(s, index, *response);
        }
        match &response.item.body {
            ResponseBody::FunctionCall { call_id } => {
                let turn: Option<String> = match &response.item.turn_id {
                    Some(turn_id) => Some(turn_id.clone()),
                    None => copy_name(&self.active_turn_id),
                };
                match turn {
                    Some(turn_id) => {
                        assert(known_boundary(u.owners[index as int], u.boundaries.len()));
                        self.call_boundaries.insert(
                            turn_id.as_str(),
                            call_id.as_str(),
                            self.record_boundaries[index],
                        );
                    },
                    None => {},
                }
            },
            _ => {},
        }
        assert(self@ =~= response_observed(s, index, *response));
    }
}

proof fn lemma_response_owned(
    s: PlannerState,
    index: usize,
    response: crate::rollout::ResponseItemEnvelope,
)
    requires
        s.wf(),
        s.owners.len() < usize::MAX,
        index == s.owners.len(),
    ensures
        response_owned(s, counted(s), index, response).wf(),
{
    let t = counted(s);
    lemma_counted(s);
    lemma_boundary_started(t, index);
    let u = response_owned(s, t, index, response);
    let base = if s.pending_delivery is Some && response.item.body is AgentMessage {
        t
    } else if response.item.counts_as_boundary {
        boundary_started(t, index)
    } else {
        t
    };
    assert(base.wf());
    assert forall|b: int| 0 <= b < u.boundaries.len() implies (#[trigger] u.boundaries[b]).alive
        == u.stack.contains(b as usize) by {
        assert(base.boundaries[b].alive == base.stack.contains(b as usize));
    }
    assert forall|i: int| 0 <= i < u.owners.len() implies known_boundary(
        #[trigger] u.owners[i],
        u.boundaries.len(),
    ) by {
        assert(known_boundary(base.owners[i], base.boundaries.len()));
    }
    assert forall|i: int| 0 <= i < u.frames.len() implies (#[trigger] u.frames[i]).record_index
        < u.owners.len() && known_boundary(u.frames[i].owner, u.boundaries.len()) by {
        assert(base.frames[i].record_index < base.owners.len());
    }
}


impl RollbackPlanner {
    fn observe_compaction(&mut self, index: usize, item: &CompactedItem)
        requires
            old(self).wf(),
            index < old(self)@.owners.len(),
            forall|i: int|
                0 <= i < old(self)@.frames.len() ==> (#[trigger] old(self)@.frames[i]).record_index
                    < index,
        ensures
            final(self).wf(),
            final(self)@ == compaction_observed(old(self)@, index, *item),
    {
        let ghost t = self@;
        let owner: Option<usize> = match &self.active_turn_id {
            Some(turn_id) => self.turn_boundaries.get(turn_id.as_str(), ""),
            None => None,
        };
        self.record_boundaries.set(index, owner);
        let context: Option<RetainedContext> = match &item.retained_context {
            Some(context) => Some(copy_context(context)),
            None => None,
        };
        let frame = CompactionFrame {
            record_index: index,
            boundary_depth: self.boundary_stack.len(),
            owner,
            has_replacement_history: item.replacement_history.is_some()
                || item.replacement_history_entries.is_some(),
            referenced_item_ids: referenced_ids(item),
            retained_context: context,
            has_guardian_history: item.guardian_history.is_some(),
            guardian_history_truncations: Vec::new(),
            drop_last_n_user_turns: 0,
        };
        let ghost frames_before = self.compactions@;
        self.compactions.push(frame);
        proof {
            let want = compaction_observed(t, index, *item);
            assert(frame@ =~= want.frames.last());
            assert(self@.frames =~= want.frames);
            assert(self@ =~= want);
            assert forall|i: int| 0 <= i < want.frames.len() implies (
            #[trigger] want.frames[i]).record_index < want.owners.len() && known_boundary(
                want.frames[i].owner,
                want.boundaries.len(),
            ) by {
                if i < t.frames.len() {
                    assert(t.frames[i].record_index < index);
                }
            }
            assert forall|i: int, j: int| 0 <= i < j < want.frames.len() implies (
            #[trigger] want.frames[i]).record_index < (#[trigger] want.frames[j]).record_index by {
                assert(t.frames[i].record_index < index);
                if j < t.frames.len() {
                    assert(t.frames[i].record_index < t.frames[j].record_index);
                }
            }
        }
    }

    fn observe_answer(&mut self, index: usize, answer: &crate::rollout::VerifiedAnswer)
        requires
            old(self).wf(),
            index < old(self)@.owners.len(),
        ensures
            final(self).wf(),
            final(self)@ == answer_observed(old(self)@, index, *answer),
    {
        let ghost t = self@;
        match self.call_boundaries.get(answer.turn_id.as_str(), answer.call_id.as_str()) {
            Some(owner) => {
                assert(known_boundary(
                    t.calls[(answer.turn_id@, answer.call_id@)],
                    t.boundaries.len(),
                ));
                self.record_boundaries.set(index, owner);
            },
            None => {
                let target: Option<String> = Some(answer.turn_id.clone());
                self.assign_targeted_record(index, &target);
            },
        }
        let ghost u = self@;
        assert(known_boundary(u.owners[index as int], u.boundaries.len()));
        self.call_boundaries.insert(
            answer.turn_id.as_str(),
            answer.call_id.as_str(),
            self.record_boundaries[index],
        );
        self.retained_fact_sources.push(
            RetainedFactSource {
                record_index: index,
                turn_id: answer.turn_id.clone(),
                acceptance_order: answer.acceptance_order,
            },
        );
        assert(self@ =~= answer_observed(t, index, *answer));
    }

    fn end_turn(&mut self, turn_id: &Option<String>)
        requires
            old(self).wf(),
        ensures
            final(self).wf(),
            final(self)@ == turn_ended(old(self)@, opt_text(*turn_id)),
    {
        let ghost t = self@;
        let ends: bool = match (turn_id, &self.active_turn_id) {
            (Some(turn), Some(active)) => *turn == *active,
            _ => false,
        };
        if ends {
            self.active_turn_id = None;
            self.pending_turn_records.clear();
        }
        assert(self@ =~= turn_ended(t, opt_text(*turn_id)));
    }

    /// Takes in the next record of the rollout. A rollback answers with what it asks of the
    /// retained contexts of older checkpoints.
    pub fn observe(&mut self, line: &RolloutLine) -> (r: ThreadStoreResult<Option<RollbackCut>>)
        requires
            old(self).wf(),
            old(self)@.owners.len() < usize::MAX,
        ensures
            r is Err == observation_fails(old(self)@, line.item),
            r is Err ==> r->Err_0@ == migration_failure(
                "legacy rollback crosses a compaction without replacement history"@,
            ),
            r is Ok ==> final(self).wf(),
            r is Ok ==> final(self)@ == observed(old(self)@, line.item),
            r is Ok ==> final(self)@.owners.len() == old(self)@.owners.len() + 1,
            r is Ok ==> (r->Ok_0 is Some == (removed_count(
                counted(old(self)@),
                rollback_turns(line.item),
            ) > 0)),
            r is Ok && r->Ok_0 is Some ==> cut_describes(
                r->Ok_0->0,
                counted(old(self)@),
                rollback_turns(line.item),
            ),
    {
        let ghost s = self@;
        let delivery: Option<usize> = self.pending_delivery_boundary;
        let paired: Option<usize> = match (&self.pending_user_response, &line.item) {
            (Some(pending), RolloutItem::EventMsg(EventMsg::UserMessage(event))) => {
                if user_response_matches_event(&pending.content, event) {
                    Some(pending.boundary)
                } else {
                    None
                }
            },
            _ => None,
        };
        let index: usize = self.count_record();
        let ghost t = self@;
        assert(s.stack.skip(s.stack.len() as int).len() == 0);
        match &line.item {
            RolloutItem::SessionMeta(_) => {
                self.record_boundaries.set(index, None);
                assert(self@ =~= observed(s, line.item));
            },
            RolloutItem::SecurityRiskScore { .. } => {
                self.record_boundaries.set(index, None);
                assert(self@ =~= observed(s, line.item));
            },
            RolloutItem::ResponseItem(response) => {
                self.observe_response(index, delivery, response, Ghost(s));
            },
            RolloutItem::EventMsg(event) => {
                match event {
                    EventMsg::ThreadRolledBack { num_turns } => {
                        return self.apply_rollback(*num_turns);
                    },
                    EventMsg::TurnStarted(event) => {
                        self.active_turn_id = Some(event.turn_id.clone());
                        self.pending_turn_records.clear();
                        self.pending_turn_records.push(index);
                        assert(self@ =~= observed(s, line.item));
                    },
                    EventMsg::TurnComplete(event) => {
                        let target: Option<String> = Some(event.turn_id.clone());
                        self.assign_targeted_record(index, &target);
                        self.end_turn(&target);
                    },
                    EventMsg::TurnAborted(event) => {
                        self.assign_targeted_record(index, &event.turn_id);
                        self.end_turn(&event.turn_id);
                    },
                    EventMsg::UserMessage(_) => {
                        match paired {
                            Some(boundary) => {
                                self.record_boundaries.set(index, Some(boundary));
                                assert(self@ =~= observed(s, line.item));
                            },
                            None => {
                                let _ = self.start_boundary(index);
                            },
                        }
                    },
                    EventMsg::ItemCompleted(event) => {
                        let target: Option<String> = Some(event.turn_id.clone());
                        self.assign_targeted_record(index, &target);
                    },
                    other => {
                        let target: Option<String> = explicit_event_turn_id(other);
                        self.assign_targeted_record(index, &target);
                    },
                }
            },
            RolloutItem::InterAgentCommunication { .. } => {
                let _ = self.start_boundary(index);
            },
            RolloutItem::InterAgentCommunicationMetadata { .. } => {
                let boundary: usize = self.start_boundary(index);
                self.pending_delivery_boundary = Some(boundary);
                assert(self@ =~= observed(s, line.item));
            },
            RolloutItem::Compacted(item) => {
                assert forall|i: int| 0 <= i < t.frames.len() implies (
                #[trigger] t.frames[i]).record_index < index by {
                    assert(s.frames[i].record_index < s.owners.len());
                }
                self.observe_compaction(index, item);
            },
            RolloutItem::TurnContext { .. } => {
                let waits: bool = match &self.active_turn_id {
                    Some(active) => self.turn_boundaries.get(active.as_str(), "").is_none(),
                    None => false,
                };
                if waits {
                    self.pending_turn_records.push(index);
                }
                assert(self@ =~= observed(s, line.item));
            },
            RolloutItem::TokenUsageRecord { turn_id, .. } => {
                let target: Option<String> = Some(turn_id.clone());
                self.assign_targeted_record(index, &target);
            },
            RolloutItem::WorldState { .. } => {},
            RolloutItem::RealtimeItem { .. } => {},
            RolloutItem::RetainedContext(answer) => {
                self.observe_answer(index, answer);
            },
        }
        Ok(None)
    }

    /// Puts the rolled back context of a checkpoint in its place.
    pub fn replace_retained_context(&mut self, frame: usize, context: RetainedContext)
        requires
            old(self).wf(),
            frame < old(self)@.frames.len(),
        ensures
            final(self).wf(),
            final(self)@ == (PlannerState {
                frames: old(self)@.frames.update(
                    frame as int,
                    FrameState {
                        context: Some(context.entries@),
                        ..old(self)@.frames[frame as int]
                    },
                ),
                ..old(self)@
            }),
    {
        let ghost before = self@;
        self.compactions[frame].retained_context = Some(context);
        proof {
            let want = PlannerState {
                frames: before.frames.update(
                    frame as int,
                    FrameState {
                        context: Some(context.entries@),
                        ..before.frames[frame as int]
                    },
                ),
                ..before
            };
            assert(self@.frames =~= want.frames);
            assert(self@ =~= want);
            assert forall|i: int, j: int| 0 <= i < j < want.frames.len() implies (
            #[trigger] want.frames[i]).record_index < (#[trigger] want.frames[j]).record_index by {
                assert(before.frames[i].record_index < before.frames[j].record_index);
            }
            assert forall|i: int| 0 <= i < want.frames.len() implies (
            #[trigger] want.frames[i]).record_index < want.owners.len() && known_boundary(
                want.frames[i].owner,
                want.boundaries.len(),
            ) by {
                assert(before.frames[i].record_index < before.owners.len());
            }
        }
    }
}

} // verus!
