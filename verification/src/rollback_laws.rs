//! What holds of historical rollback as a whole.

use crate::rollback_apply::guardian_cut;
use crate::rollback_apply::guardian_cuts;
use crate::rollback_apply::plan_gives;
use crate::rollback_apply::plan_of;
use crate::rollback_apply::resolution_problem;
use crate::rollback_apply::CompactionRewrite;
use crate::rollback_apply::ModelReplay;
use crate::rollback_apply::PlannedRecord;
use crate::rollback_plan::accepted_since;
use crate::rollback_plan::counted;
use crate::rollback_plan::is_removed;
use crate::rollback_plan::kept_depth;
use crate::rollback_plan::observation_fails;
use crate::rollback_plan::observed;
use crate::rollback_plan::rolled_back;
use crate::rollback_plan::GuardianHistoryTruncation;
use crate::rollback_plan::PlannerState;
use crate::rollout::CompactedItem;
use crate::rollout::EventMsg;
use crate::rollout::GuardianHistory;
use crate::rollout::ResponseItem;
use crate::rollout::ResponseItemEnvelope;
use crate::rollout::RolloutItem;
use crate::rollout::RolloutLine;
use vstd::prelude::*;

verus! {

/// A rollback removes exactly the last live instructions, as many as it says or as there are.
pub proof fn rollback_removes_the_last_instructions(s: PlannerState, n: u32)
    requires
        s.wf(),
    ensures
        rolled_back(s, n).stack == s.stack.take(kept_depth(s, n)),
        rolled_back(s, n).stack.len() == (if n < s.stack.len() {
            s.stack.len() - n
        } else {
            0
        }),
        forall|b: int|
            0 <= b < s.boundaries.len() ==> ((#[trigger] rolled_back(s, n).boundaries[b]).alive <==> (
            s.boundaries[b].alive && !is_removed(s, n, b as usize))),
{
    if n == 0 {
        assert(s.stack.take(s.stack.len() as int) =~= s.stack);
        assert(s.stack.skip(s.stack.len() as int).len() == 0);
    }
}

/// Two rollbacks leave the instructions that one rollback of both counts leaves.
pub proof fn rollbacks_accumulate(s: PlannerState, n: u32, m: u32)
    requires
        s.wf(),
        n + m <= u32::MAX,
    ensures
        rolled_back(rolled_back(s, n), m).stack == rolled_back(s, (n + m) as u32).stack,
        forall|b: int|
            0 <= b < s.boundaries.len() ==> (#[trigger] rolled_back(
                rolled_back(s, n),
                m,
            ).boundaries[b]).alive == rolled_back(s, (n + m) as u32).boundaries[b].alive,
{
    let t = rolled_back(s, n);
    let both = (n + m) as u32;
    lemma_stack_is_alive(s, n);
    lemma_stack_is_alive(t, m);
    lemma_stack_is_alive(s, both);
    rollback_removes_the_last_instructions(s, n);
    rollback_removes_the_last_instructions(t, m);
    rollback_removes_the_last_instructions(s, both);
    assert(rolled_back(t, m).stack =~= rolled_back(s, both).stack);
}

proof fn lemma_stack_is_alive(s: PlannerState, n: u32)
    requires
        s.wf(),
    ensures
        rolled_back(s, n).wf(),
        forall|b: int|
            0 <= b < s.boundaries.len() ==> (#[trigger] rolled_back(s, n).boundaries[b]).alive
                == rolled_back(s, n).stack.contains(b as usize),
{
    if n > 0 {
        crate::rollback_plan::lemma_rolled_back(s, n);
    }
}

/// A rollback of no turns only counts its own record.
pub proof fn empty_rollback_removes_nothing(s: PlannerState)
    requires
        s.wf(),
        s.owners.len() < usize::MAX,
    ensures
        observed(s, RolloutItem::EventMsg(EventMsg::ThreadRolledBack { num_turns: 0 })) == counted(
            s,
        ),
{
}

/// An instruction that has been removed stays removed, whatever is observed afterwards.
pub proof fn removed_instructions_stay_removed(s: PlannerState, item: RolloutItem, b: int)
    requires
        s.wf(),
        s.owners.len() < usize::MAX,
        !observation_fails(s, item),
        0 <= b < s.boundaries.len(),
        !s.boundaries[b].alive,
    ensures
        b < observed(s, item).boundaries.len(),
        !observed(s, item).boundaries[b].alive,
{
}

/// Whether nothing that is still to come can change the owner of a record: it waits for no
/// boundary and holds no retained answer.
pub open spec fn settled(s: PlannerState, record: int) -> bool {
    &&& 0 <= record < s.owners.len()
    &&& forall|i: int| 0 <= i < s.pending_turn.len() ==> #[trigger] s.pending_turn[i] != record
    &&& forall|i: int|
        0 <= i < s.pending_context.len() ==> #[trigger] s.pending_context[i] != record
    &&& forall|i: int| 0 <= i < s.facts.len() ==> (#[trigger] s.facts[i]).record_index != record
}

/// A settled record keeps its owner and stays settled, whatever is observed afterwards.
pub proof fn settled_records_keep_their_owner(s: PlannerState, item: RolloutItem, record: int)
    requires
        s.wf(),
        s.owners.len() < usize::MAX,
        !observation_fails(s, item),
        settled(s, record),
    ensures
        settled(observed(s, item), record),
        observed(s, item).owners[record] == s.owners[record],
{
    let t = counted(s);
    assert(settled(t, record));
    assert(t.owners[record] == s.owners[record]);
    assert forall|order: u64| !#[trigger] accepted_since(t.facts, record, order) by {
        if accepted_since(t.facts, record, order) {
            let f = choose|f: int|
                0 <= f < t.facts.len() && (#[trigger] t.facts[f]).record_index == record
                    && t.facts[f].acceptance_order is Some && t.facts[f].acceptance_order->0
                    >= order;
            assert(s.facts[f].record_index != record);
        }
    }
    assert(!t.pending_turn.contains(record as usize));
    assert(!t.pending_context.contains(record as usize));
}

/// Session metadata belongs to no instruction and is settled at once: no rollback removes it.
pub proof fn session_metadata_is_never_removed(s: PlannerState, item: RolloutItem)
    requires
        s.wf(),
        s.owners.len() < usize::MAX,
        item is SessionMeta,
    ensures
        settled(observed(s, item), s.owners.len() as int),
        observed(s, item).owners[s.owners.len() as int] is None,
{
}

/// The completion of a turn that has an instruction belongs to that instruction, however many
/// instructions were given since.
pub proof fn completion_follows_its_turn(
    s: PlannerState,
    event: crate::rollout::TurnComplete,
    boundary: usize,
)
    requires
        s.wf(),
        s.owners.len() < usize::MAX,
        s.turns.contains_key(PlannerState::turn_key(event.turn_id@)),
        s.turns[PlannerState::turn_key(event.turn_id@)] == boundary,
    ensures
        observed(
            s,
            RolloutItem::EventMsg(EventMsg::TurnComplete(event)),
        ).owners[s.owners.len() as int] == Some(boundary),
{
}

/// A record stays in the plan's history exactly when its instruction is live or it has none,
/// unless it is a rollback marker or the checkpoint that is kept as an empty anchor.
pub proof fn plan_keeps_live_records(p: PlannerState, m: ModelReplay, record: usize, item: RolloutItem)
    requires
        p.wf(),
        record < p.owners.len(),
        !crate::rollout::is_rollback_marker(item),
        m.empty_replacement_history_compaction != Some(record),
    ensures
        plan_of(p, m).removes(record, item) == (p.owners[record as int] is Some
            && !p.boundaries[p.owners[record as int]->0 as int].alive),
{
    let plan = plan_of(p, m);
    assert(crate::rollback_plan::known_boundary(p.owners[record as int], p.boundaries.len()));
    lemma_only_the_anchor_is_emptied(p, m, p.frames.len() as int, record);
    assert(plan.frames.take(plan.frames.len() as int) =~= plan.frames);
}

proof fn lemma_only_the_anchor_is_emptied(p: PlannerState, m: ModelReplay, upto: int, record: usize)
    requires
        0 <= upto <= p.frames.len(),
        m.empty_replacement_history_compaction != Some(record),
    ensures
        ({
            let found = crate::rollback_apply::find_frame(
                plan_of(p, m).frames.take(upto),
                record,
            );
            found is Some ==> found->0.rewrite != Some(
                crate::rollback_apply::CompactionRewrite::EmptyReplayAnchor,
            )
        }),
    decreases upto,
{
    if upto > 0 {
        let frames = plan_of(p, m).frames;
        assert(frames.take(upto).drop_last() =~= frames.take(upto - 1));
        lemma_only_the_anchor_is_emptied(p, m, upto - 1, record);
    }
}

/// The checkpoint at a record, as the plan has it, is that of the planner: each record has at most one.
proof fn lemma_found_frame(p: PlannerState, m: ModelReplay, upto: int, record: usize)
    requires
        p.wf(),
        0 <= upto <= p.frames.len(),
    ensures
        ({
            let found = crate::rollback_apply::find_frame(plan_of(p, m).frames.take(upto), record);
            &&& forall|i: int|
                0 <= i < upto && (#[trigger] p.frames[i]).record_index == record ==> found == Some(
                    plan_of(p, m).frames[i],
                )
            &&& (forall|i: int| 0 <= i < upto ==> (#[trigger] p.frames[i]).record_index != record)
                ==> found is None
        }),
    decreases upto,
{
    if upto > 0 {
        let frames = plan_of(p, m).frames;
        assert(frames.take(upto).drop_last() =~= frames.take(upto - 1));
        assert(frames.take(upto).last() == frames[upto - 1]);
        lemma_found_frame(p, m, upto - 1, record);
        assert forall|i: int| 0 <= i < upto && (#[trigger] p.frames[i]).record_index
            == record implies crate::rollback_apply::find_frame(frames.take(upto), record) == Some(
            frames[i],
        ) by {
            if i < upto - 1 {
                assert(p.frames[i].record_index < p.frames[upto - 1].record_index);
            }
        }
    }
}

/// Records that are no checkpoints come out as they are, or not at all. A marker of a rollback is gone;
/// a record whose instruction was taken away is gone, and its sources are still known; every other
/// record is kept unchanged.
pub proof fn plans_keep_records_of_live_instructions(
    p: PlannerState,
    m: ModelReplay,
    index: usize,
    line: RolloutLine,
    record: PlannedRecord,
)
    requires
        p.wf(),
        index < p.owners.len(),
        !(line.item is Compacted),
        forall|i: int| 0 <= i < p.frames.len() ==> (#[trigger] p.frames[i]).record_index != index,
        plan_gives(plan_of(p, m), index, line, record),
    ensures
        ({
            let owner = p.owners[index as int];
            let live = owner is None || p.stack.contains(owner->0);
            &&& (line.item matches RolloutItem::EventMsg(EventMsg::ThreadRolledBack { .. }))
                ==> record == (PlannedRecord::Removed { source: None })
            &&& !(line.item matches RolloutItem::EventMsg(EventMsg::ThreadRolledBack { .. }))
                && !live ==> record == (PlannedRecord::Removed { source: Some(line.item) })
            &&& !(line.item matches RolloutItem::EventMsg(EventMsg::ThreadRolledBack { .. }))
                && live ==> (record matches PlannedRecord::Kept { line: kept } && kept.item
                == line.item && kept.timestamp == line.timestamp && kept.ordinal == line.ordinal)
        }),
{
    lemma_found_frame(p, m, p.frames.len() as int, index);
    let plan = plan_of(p, m);
    assert(plan.frames.take(plan.frames.len() as int) =~= plan.frames);
    assert(crate::rollback_plan::known_boundary(p.owners[index as int], p.boundaries.len()));
}

/// A checkpoint whose instruction was taken away is gone, unless it is the anchor of the replay. Any
/// other is kept, with the retained context that the rollbacks left it and otherwise unchanged. It is
/// resolved in full where it is the one that is replayed, the anchor, or one that rollbacks cut into.
pub proof fn plans_keep_live_checkpoints(
    p: PlannerState,
    m: ModelReplay,
    i: int,
    line: RolloutLine,
    record: PlannedRecord,
)
    requires
        p.wf(),
        0 <= i < p.frames.len(),
        line.item is Compacted,
        p.owners[p.frames[i].record_index as int] == p.frames[i].owner,
        plan_gives(plan_of(p, m), p.frames[i].record_index, line, record),
    ensures
        ({
            let frame = p.frames[i];
            let before = line.item->Compacted_0;
            let live = frame.owner is None || p.stack.contains(frame.owner->0);
            let anchor = m.empty_replacement_history_compaction == Some(frame.record_index);
            let resolved = anchor || m.selected_compaction == Some(frame.record_index)
                || frame.drop_last_n_user_turns > 0 || frame.truncations.len() > 0;
            &&& !live && !anchor ==> record == (PlannedRecord::Removed { source: Some(line.item) })
            &&& (live || anchor) && resolved ==> {
                &&& record is Materialize
                &&& record->needs_history == before.replacement_history is None
                &&& record->needs_guardian == before.guardian_history is Some
            }
            &&& (live || anchor) && !resolved ==> record is Kept
            &&& (live || anchor) ==> {
                let kept = if record is Kept {
                    record->Kept_line
                } else {
                    record->Materialize_line
                };
                let after = kept.item->Compacted_0;
                &&& kept.item is Compacted
                &&& kept.timestamp == line.timestamp && kept.ordinal == line.ordinal
                &&& after.replacement_history == before.replacement_history
                &&& after.replacement_history_entries == before.replacement_history_entries
                &&& after.guardian_history == before.guardian_history
                &&& after.mcp_resource_origins == before.mcp_resource_origins
                &&& after.payload == before.payload
                &&& frame.context is None ==> after.retained_context is None
                &&& frame.context matches Some(context) ==> after.retained_context is Some
                    && after.retained_context->0.entries@ == context
            }
        }),
{
    let record_index = p.frames[i].record_index;
    lemma_found_frame(p, m, p.frames.len() as int, record_index);
    let plan = plan_of(p, m);
    assert(plan.frames.take(plan.frames.len() as int) =~= plan.frames);
    assert(crate::rollback_plan::known_boundary(p.frames[i].owner, p.boundaries.len()));
    assert(plan.frames[i].record_index == record_index);
}

/// How a checkpoint is rewritten: the anchor loses its history, a live one drops the user turns that
/// rollbacks reached, and the cuts in its approval evidence are those of the rollbacks. One whose
/// instruction was taken away is not rewritten.
pub proof fn plans_rewrite_what_rollbacks_reached(p: PlannerState, m: ModelReplay, i: int)
    requires
        p.wf(),
        0 <= i < p.frames.len(),
    ensures
        ({
            let frame = p.frames[i];
            let plan = plan_of(p, m);
            let live = frame.owner is None || p.stack.contains(frame.owner->0);
            let anchor = m.empty_replacement_history_compaction == Some(frame.record_index);
            let rewrite = plan.rewrite_at(frame.record_index);
            &&& anchor ==> rewrite == Some(CompactionRewrite::EmptyReplayAnchor)
            &&& !anchor && live && frame.drop_last_n_user_turns > 0 ==> rewrite == Some(
                CompactionRewrite::DropLastNUserTurns(frame.drop_last_n_user_turns),
            )
            &&& !anchor && (!live || frame.drop_last_n_user_turns == 0) ==> rewrite is None
            &&& anchor || live ==> plan.truncations_at(frame.record_index) == frame.truncations
            &&& !anchor && !live ==> plan.truncations_at(frame.record_index).len() == 0
            &&& plan.materializes(frame.record_index) == (rewrite is Some || plan.truncations_at(
                frame.record_index,
            ).len() > 0 || m.selected_compaction == Some(frame.record_index))
        }),
{
    let record_index = p.frames[i].record_index;
    lemma_found_frame(p, m, p.frames.len() as int, record_index);
    let plan = plan_of(p, m);
    assert(plan.frames.take(plan.frames.len() as int) =~= plan.frames);
    assert(crate::rollback_plan::known_boundary(p.frames[i].owner, p.boundaries.len()));
}

/// The references that are resolved are exactly those of the checkpoints that need it: the one that is
/// replayed, the anchor, those whose evidence was cut, and the live ones that drop turns.
pub proof fn plans_resolve_the_references_they_need(p: PlannerState, m: ModelReplay, id: String)
    requires
        p.wf(),
    ensures
        plan_of(p, m).requested.contains(id) <==> exists|i: int|
            0 <= i < p.frames.len() && (#[trigger] p.frames[i]).referenced.contains(id) && (
            m.selected_compaction == Some(p.frames[i].record_index)
                || m.empty_replacement_history_compaction == Some(p.frames[i].record_index)
                || p.frames[i].truncations.len() > 0 || (p.frames[i].drop_last_n_user_turns > 0 && (
            p.frames[i].owner is None || p.stack.contains(p.frames[i].owner->0)))),
{
    lemma_requested(p, m, p.frames.len() as int, id);
}

proof fn lemma_requested(p: PlannerState, m: ModelReplay, upto: int, id: String)
    requires
        p.wf(),
        0 <= upto <= p.frames.len(),
    ensures
        crate::rollback_apply::requested_ids(p, m, upto).contains(id) <==> exists|i: int|
            0 <= i < upto && (#[trigger] p.frames[i]).referenced.contains(id) && (
            m.selected_compaction == Some(p.frames[i].record_index)
                || m.empty_replacement_history_compaction == Some(p.frames[i].record_index)
                || p.frames[i].truncations.len() > 0 || (p.frames[i].drop_last_n_user_turns > 0 && (
            p.frames[i].owner is None || p.stack.contains(p.frames[i].owner->0)))),
    decreases upto,
{
    if upto > 0 {
        lemma_requested(p, m, upto - 1, id);
        let before = crate::rollback_apply::requested_ids(p, m, upto - 1);
        let now = crate::rollback_apply::requested_ids(p, m, upto);
        let own = p.frames[upto - 1].referenced;
        assert(crate::rollback_plan::known_boundary(
            p.frames[upto - 1].owner,
            p.boundaries.len(),
        ));
        assert((before + own).contains(id) == (before.contains(id) || own.contains(id))) by {
            if before.contains(id) {
                let k = choose|k: int| 0 <= k < before.len() && before[k] == id;
                assert((before + own)[k] == id);
            }
            if own.contains(id) {
                let k = choose|k: int| 0 <= k < own.len() && own[k] == id;
                assert((before + own)[before.len() + k] == id);
            }
        }
        assert((before + Seq::<String>::empty()) =~= before);
        if now.contains(id) && !before.contains(id) {
            assert(p.frames[upto - 1].referenced.contains(id));
        }
    }
}

/// Cutting approval evidence no turns leaves it whole; cutting it at a message that it holds leaves
/// exactly what stands before the first occurrence of the message; and cutting it by turns leaves what
/// stands before an instruction, where there are enough.
pub proof fn evidence_is_cut_at_the_first_removed_message(
    history: Seq<ResponseItem>,
    removed_turns: usize,
    id: Seq<char>,
    at: int,
)
    requires
        0 <= at < history.len(),
        history[at].id is Some && history[at].id->0@ == id,
        forall|i: int|
            0 <= i < at ==> !((#[trigger] history[i]).id is Some && history[i].id->0@ == id),
    ensures
        guardian_cut(history, 0, Some(id)) == history,
        guardian_cut(history, 0, None) == history,
        removed_turns > 0 ==> guardian_cut(history, removed_turns, Some(id)) == history.take(at),
{
    lemma_first_with_id_is(history, id, at);
}

proof fn lemma_first_with_id_is(history: Seq<ResponseItem>, id: Seq<char>, at: int)
    requires
        0 <= at < history.len(),
        history[at].id is Some && history[at].id->0@ == id,
        forall|i: int|
            0 <= i < at ==> !((#[trigger] history[i]).id is Some && history[i].id->0@ == id),
    ensures
        crate::rollback_apply::first_with_id(history, id) == at,
    decreases history.len(),
{
    let rest = history.drop_last();
    if at < history.len() - 1 {
        assert(forall|i: int| 0 <= i < rest.len() ==> rest[i] == history[i]);
        lemma_first_with_id_is(rest, id, at);
    } else {
        lemma_no_id(rest, id);
    }
}

proof fn lemma_no_id(history: Seq<ResponseItem>, id: Seq<char>)
    requires
        forall|i: int|
            0 <= i < history.len() ==> !((#[trigger] history[i]).id is Some && history[i].id->0@
                == id),
    ensures
        crate::rollback_apply::first_with_id(history, id) == history.len(),
    decreases history.len(),
{
    if history.len() > 0 {
        let rest = history.drop_last();
        assert(forall|i: int| 0 <= i < rest.len() ==> rest[i] == history[i]);
        lemma_no_id(rest, id);
        assert(history[history.len() - 1] == history.last());
    }
}

/// Evidence that does not hold the message, or that holds too few instructions, is dropped as a whole.
/// Evidence with enough of them is cut right before an instruction.
pub proof fn evidence_without_the_place_is_dropped(
    history: Seq<ResponseItem>,
    removed_turns: usize,
    id: Seq<char>,
)
    requires
        removed_turns > 0,
        forall|i: int|
            0 <= i < history.len() ==> !((#[trigger] history[i]).id is Some && history[i].id->0@
                == id),
    ensures
        guardian_cut(history, removed_turns, Some(id)).len() == 0,
        ({
            let cut = guardian_cut(history, removed_turns, None);
            cut.len() > 0 ==> cut.len() < history.len() && history[cut.len() as int].counts_as_boundary
        }),
{
    lemma_no_id(history, id);
    lemma_cut_before_instruction(history, removed_turns as int);
}

proof fn lemma_cut_before_instruction(history: Seq<ResponseItem>, n: int)
    requires
        n > 0,
    ensures
        ({
            let at = crate::rollback_apply::nth_boundary_from_end(history, n);
            &&& 0 <= at <= history.len()
            &&& at > 0 ==> at < history.len() && history[at].counts_as_boundary
        }),
    decreases history.len(),
{
    if history.len() > 0 {
        let rest = history.drop_last();
        if history.last().counts_as_boundary {
            if n > 1 {
                lemma_cut_before_instruction(rest, n - 1);
            }
        } else {
            lemma_cut_before_instruction(rest, n);
        }
    }
}

/// Several cuts are made one after the other.
pub proof fn evidence_is_cut_by_each_rollback_in_turn(
    history: Seq<ResponseItem>,
    cuts: Seq<GuardianHistoryTruncation>,
    cut: GuardianHistoryTruncation,
)
    ensures
        guardian_cuts(history, Seq::empty(), 0) == history,
        guardian_cuts(history, cuts.push(cut), cuts.len() as int + 1) == guardian_cut(
            guardian_cuts(history, cuts, cuts.len() as int),
            cut.removed_turns,
            match cut.first_removed_message_id {
                Some(id) => Some(id@),
                None => None,
            },
        ),
{
    lemma_earlier_cuts(history, cuts, cut, cuts.len() as int);
}

proof fn lemma_earlier_cuts(
    history: Seq<ResponseItem>,
    cuts: Seq<GuardianHistoryTruncation>,
    cut: GuardianHistoryTruncation,
    upto: int,
)
    requires
        0 <= upto <= cuts.len(),
    ensures
        guardian_cuts(history, cuts.push(cut), upto) == guardian_cuts(history, cuts, upto),
    decreases upto,
{
    if upto > 0 {
        lemma_earlier_cuts(history, cuts, cut, upto - 1);
        assert(cuts.push(cut)[upto - 1] == cuts[upto - 1]);
    }
}

/// A checkpoint cannot be resolved exactly where its history has to be resolved and some reference has
/// no source, or its evidence has to be resolved and cannot be.
pub proof fn checkpoints_fail_only_where_something_is_unresolved(
    checkpoint: CompactedItem,
    history: Result<Option<Vec<ResponseItemEnvelope>>, Vec<String>>,
    guardian: Result<Option<GuardianHistory>, String>,
)
    ensures
        resolution_problem(checkpoint, history, guardian) is Some <==> ((
        checkpoint.replacement_history is None && history is Err) || (checkpoint.guardian_history
            is Some && guardian is Err)),
{
}

} // verus!
