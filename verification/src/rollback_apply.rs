//! The finished rollback plan, and how it rewrites the records of a second pass.

use crate::error::migration_error;
use crate::error::migration_failure;
use crate::error::ThreadStoreResult;
use crate::outside::opt_text;
use crate::rollback_plan::context_entries;
use crate::rollback_plan::copy_context;
use crate::rollback_plan::frame_live;
use crate::rollback_plan::FrameState;
use crate::rollback_plan::GuardianHistoryTruncation;
use crate::rollback_plan::PlannerState;
use crate::rollback_plan::RollbackPlanner;
use crate::rollout::copy_name;
use crate::rollout::item_is_rollback_marker;
use crate::rollout::is_rollback_marker;
use crate::rollout::same_name;
use crate::rollout::CompactedItem;
use crate::rollout::CompactionResolution;
use crate::rollout::GuardianHistory;
use crate::rollout::ResponseItem;
use crate::rollout::ResponseItemEnvelope;
use crate::rollout::RetainedContext;
use crate::rollout::RetainedContextEntry;
use crate::rollout::RolloutItem;
use crate::rollout::RolloutLine;
use crate::text::concat2;
use crate::text::join_texts;
use crate::text::joined;
use crate::text::texts;
use vstd::prelude::*;

verus! {

/// How a rollback rewrites the history of a checkpoint.
#[derive(Clone, Copy, Debug, PartialEq, Eq, Structural)]
pub enum CompactionRewrite {
    /// The checkpoint stays as an anchor without history.
    EmptyReplayAnchor,
    /// The checkpoint loses its last user turns.
    DropLastNUserTurns(u32),
}

/// What replaying the model context selects.
#[derive(Clone, Copy, Debug)]
pub struct ModelReplay {
    /// The checkpoint that cold resume replays from.
    pub selected_compaction: Option<usize>,
    /// The checkpoint that stays as an anchor without history.
    pub empty_replacement_history_compaction: Option<usize>,
}

/// What the plan does to one checkpoint.
#[derive(Debug)]
pub struct PlannedCompaction {
    pub record_index: usize,
    pub rewrite: Option<CompactionRewrite>,
    pub replaces_context: bool,
    pub retained_context: Option<RetainedContext>,
    pub guardian_history_truncations: Vec<GuardianHistoryTruncation>,
}

/// What the plan does to one checkpoint, with its lists as sequences.
#[verifier::ext_equal]
pub struct PlannedFrame {
    pub record_index: usize,
    pub rewrite: Option<CompactionRewrite>,
    pub replaces_context: bool,
    pub context: Option<Seq<RetainedContextEntry>>,
    pub truncations: Seq<GuardianHistoryTruncation>,
}

impl View for PlannedCompaction {
    type V = PlannedFrame;

    open spec fn view(&self) -> PlannedFrame {
        PlannedFrame {
            record_index: self.record_index,
            rewrite: self.rewrite,
            replaces_context: self.replaces_context,
            context: context_entries(self.retained_context),
            truncations: self.guardian_history_truncations@,
        }
    }
}

/// Compact plan keyed by the index of the parsed source record.
#[derive(Debug)]
pub struct RollbackPlan {
    pub record_boundaries: Vec<Option<usize>>,
    pub boundary_alive: Vec<bool>,
    pub compactions: Vec<PlannedCompaction>,
    pub selected_compaction: Option<usize>,
    pub requested_item_ids: Vec<String>,
}

/// A rollback plan over sequences.
#[verifier::ext_equal]
pub struct PlanState {
    pub owners: Seq<Option<usize>>,
    pub alive: Seq<bool>,
    pub frames: Seq<PlannedFrame>,
    pub selected: Option<usize>,
    pub requested: Seq<String>,
}

/// The frames of a list of planned checkpoints.
pub open spec fn planned_frames(list: Seq<PlannedCompaction>) -> Seq<PlannedFrame> {
    list.map_values(|c: PlannedCompaction| c@)
}

impl View for RollbackPlan {
    type V = PlanState;

    open spec fn view(&self) -> PlanState {
        PlanState {
            owners: self.record_boundaries@,
            alive: self.boundary_alive@,
            frames: planned_frames(self.compactions@),
            selected: self.selected_compaction,
            requested: self.requested_item_ids@,
        }
    }
}

/// What a plan does to a checkpoint of the planner.
pub open spec fn planned_frame(p: PlannerState, m: ModelReplay, f: FrameState) -> PlannedFrame {
    let live = frame_live(p.boundaries, f);
    let anchor = m.empty_replacement_history_compaction == Some(f.record_index);
    PlannedFrame {
        record_index: f.record_index,
        rewrite: if anchor {
            Some(CompactionRewrite::EmptyReplayAnchor)
        } else if f.drop_last_n_user_turns > 0 && live {
            Some(CompactionRewrite::DropLastNUserTurns(f.drop_last_n_user_turns))
        } else {
            None
        },
        replaces_context: anchor || live,
        context: if anchor || live {
            f.context
        } else {
            None
        },
        truncations: if anchor || live {
            f.truncations
        } else {
            Seq::empty()
        },
    }
}

/// Whether the second pass resolves the references of a checkpoint.
pub open spec fn references_requested(p: PlannerState, m: ModelReplay, f: FrameState) -> bool {
    ||| m.selected_compaction == Some(f.record_index)
    ||| m.empty_replacement_history_compaction == Some(f.record_index)
    ||| f.truncations.len() > 0
    ||| f.drop_last_n_user_turns > 0 && frame_live(p.boundaries, f)
}

/// The identifiers that the second pass resolves for the first `upto` checkpoints.
pub open spec fn requested_ids(p: PlannerState, m: ModelReplay, upto: int) -> Seq<String>
    decreases upto,
{
    if upto <= 0 {
        Seq::empty()
    } else {
        let f = p.frames[upto - 1];
        requested_ids(p, m, upto - 1) + (if references_requested(p, m, f) {
            f.referenced
        } else {
            Seq::empty()
        })
    }
}

/// The plan that a planner comes to.
pub open spec fn plan_of(p: PlannerState, m: ModelReplay) -> PlanState {
    PlanState {
        owners: p.owners,
        alive: Seq::new(p.boundaries.len(), |i: int| p.boundaries[i].alive),
        frames: Seq::new(p.frames.len(), |i: int| planned_frame(p, m, p.frames[i])),
        selected: m.selected_compaction,
        requested: requested_ids(p, m, p.frames.len() as int),
    }
}

/// What the plan says of the checkpoint at a record.
pub open spec fn find_frame(frames: Seq<PlannedFrame>, record: usize) -> Option<PlannedFrame>
    decreases frames.len(),
{
    if frames.len() == 0 {
        None
    } else if frames.last().record_index == record {
        Some(frames.last())
    } else {
        find_frame(frames.drop_last(), record)
    }
}

impl PlanState {
    /// Every owner is a known boundary.
    pub open spec fn wf(self) -> bool {
        forall|i: int|
            0 <= i < self.owners.len() && (#[trigger] self.owners[i]) is Some
                ==> self.owners[i]->0 < self.alive.len()
    }

    /// How the plan rewrites the checkpoint at a record.
    pub open spec fn rewrite_at(self, record: usize) -> Option<CompactionRewrite> {
        match find_frame(self.frames, record) {
            Some(frame) => frame.rewrite,
            None => None,
        }
    }

    /// The cuts in the approval evidence of the checkpoint at a record.
    pub open spec fn truncations_at(self, record: usize) -> Seq<GuardianHistoryTruncation> {
        match find_frame(self.frames, record) {
            Some(frame) => frame.truncations,
            None => Seq::empty(),
        }
    }

    /// Whether the checkpoint at a record is resolved in full.
    pub open spec fn materializes(self, record: usize) -> bool {
        ||| self.selected == Some(record)
        ||| self.rewrite_at(record) is Some
        ||| self.truncations_at(record).len() > 0
    }

    /// Whether a record belongs to a removed instruction.
    pub open spec fn is_dead(self, record: usize) -> bool {
        self.owners[record as int] is Some && !self.alive[self.owners[record as int]->0 as int]
    }

    /// Whether a record is left out of the canonical history.
    pub open spec fn removes(self, record: usize, item: RolloutItem) -> bool {
        ||| is_rollback_marker(item)
        ||| self.is_dead(record) && self.rewrite_at(record) != Some(
            CompactionRewrite::EmptyReplayAnchor,
        )
    }
}

/// What becomes of a record of the second pass.
#[derive(Debug)]
pub enum PlannedRecord {
    /// The record is gone. Where it is given back, its explicit sources are still indexed.
    Removed { source: Option<RolloutItem> },
    /// The record stays; its explicit sources are indexed.
    Kept { line: RolloutLine },
    /// The checkpoint is resolved in full before it is rewritten.
    Materialize { line: RolloutLine, needs_history: bool, needs_guardian: bool },
}

/// Whether a plan makes some outcome of a record.
pub open spec fn plan_gives(
    plan: PlanState,
    index: usize,
    line: RolloutLine,
    record: PlannedRecord,
) -> bool {
    if plan.removes(index, line.item) {
        record == (PlannedRecord::Removed {
            source: if is_rollback_marker(line.item) {
                None
            } else {
                Some(line.item)
            },
        })
    } else if line.item is Compacted && plan.materializes(index) {
        record matches PlannedRecord::Materialize { line: kept, needs_history, needs_guardian } && {
            &&& line_context_replaced(plan, index, line, kept)
            &&& needs_history == (line.item->Compacted_0.replacement_history is None)
            &&& needs_guardian == (line.item->Compacted_0.guardian_history is Some)
        }
    } else {
        record matches PlannedRecord::Kept { line: kept } && line_context_replaced(
            plan,
            index,
            line,
            kept,
        )
    }
}

/// What becomes of a resolved checkpoint.
#[derive(Debug)]
pub enum RewrittenRecord {
    /// The checkpoint is written as it stands.
    Done { line: RolloutLine },
    /// The checkpoint is written once its last user turns are dropped.
    DropTurns { line: RolloutLine, num_turns: u32 },
}

/// Whether a checkpoint is another with its retained context as the plan has it.
pub open spec fn context_replaced(
    plan: PlanState,
    record: usize,
    before: CompactedItem,
    after: CompactedItem,
) -> bool {
    match find_frame(plan.frames, record) {
        Some(frame) => if frame.replaces_context {
            &&& after == (CompactedItem { retained_context: after.retained_context, ..before })
            &&& context_entries(after.retained_context) == frame.context
        } else {
            after == before
        },
        None => after == before,
    }
}

/// Whether a record is another with its retained context as the plan has it.
pub open spec fn line_context_replaced(
    plan: PlanState,
    record: usize,
    before: RolloutLine,
    after: RolloutLine,
) -> bool {
    &&& after.timestamp == before.timestamp
    &&& after.ordinal == before.ordinal
    &&& match before.item {
        RolloutItem::Compacted(item) => after.item is Compacted && context_replaced(
            plan,
            record,
            item,
            after.item->Compacted_0,
        ),
        _ => after.item == before.item,
    }
}

/// The first item with an identifier, or the length of the history.
pub open spec fn first_with_id(history: Seq<ResponseItem>, id: Seq<char>) -> int
    decreases history.len(),
{
    if history.len() == 0 {
        0
    } else {
        let earlier = first_with_id(history.drop_last(), id);
        if earlier < history.len() - 1 {
            earlier
        } else if opt_text(history.last().id) == Some(id) {
            history.len() - 1
        } else {
            history.len() as int
        }
    }
}

/// The position of the `n`th instruction from the end, or 0 where there are fewer.
pub open spec fn nth_boundary_from_end(history: Seq<ResponseItem>, n: int) -> int
    decreases history.len(),
{
    if history.len() == 0 {
        0
    } else if history.last().counts_as_boundary {
        if n == 1 {
            history.len() - 1
        } else {
            nth_boundary_from_end(history.drop_last(), n - 1)
        }
    } else {
        nth_boundary_from_end(history.drop_last(), n)
    }
}

/// The approval evidence after one cut. A message identifier gives the exact place; without one
/// the instructions are counted from the end. Where the place is not found nothing is kept.
pub open spec fn guardian_cut(
    history: Seq<ResponseItem>,
    removed_turns: usize,
    message_id: Option<Seq<char>>,
) -> Seq<ResponseItem> {
    if removed_turns == 0 {
        history
    } else {
        match message_id {
            Some(id) => if first_with_id(history, id) < history.len() {
                history.take(first_with_id(history, id))
            } else {
                Seq::empty()
            },
            None => history.take(nth_boundary_from_end(history, removed_turns as int)),
        }
    }
}

/// The approval evidence after the first `upto` cuts of a list.
pub open spec fn guardian_cuts(
    history: Seq<ResponseItem>,
    cuts: Seq<GuardianHistoryTruncation>,
    upto: int,
) -> Seq<ResponseItem>
    decreases upto,
{
    if upto <= 0 {
        history
    } else {
        let cut = cuts[upto - 1];
        guardian_cut(
            guardian_cuts(history, cuts, upto - 1),
            cut.removed_turns,
            opt_text(cut.first_removed_message_id),
        )
    }
}

proof fn lemma_first_with_id(history: Seq<ResponseItem>, id: Seq<char>)
    ensures
        0 <= first_with_id(history, id) <= history.len(),
        forall|i: int|
            0 <= i < first_with_id(history, id) ==> opt_text((#[trigger] history[i]).id) != Some(
                id,
            ),
        first_with_id(history, id) < history.len() ==> opt_text(
            history[first_with_id(history, id)].id,
        ) == Some(id),
    decreases history.len(),
{
    if history.len() > 0 {
        let head = history.drop_last();
        lemma_first_with_id(head, id);
        assert forall|i: int| 0 <= i < first_with_id(history, id) implies opt_text(
            (#[trigger] history[i]).id,
        ) != Some(id) by {
            if i < head.len() {
                assert(head[i] == history[i]);
            }
        }
        if first_with_id(history, id) < head.len() {
            assert(head[first_with_id(history, id)] == history[first_with_id(history, id)]);
        }
    }
}

proof fn lemma_nth_boundary(history: Seq<ResponseItem>, n: int)
    ensures
        0 <= nth_boundary_from_end(history, n) <= history.len(),
    decreases history.len(),
{
    if history.len() > 0 {
        lemma_nth_boundary(history.drop_last(), n);
        lemma_nth_boundary(history.drop_last(), n - 1);
    }
}

/// The number of instructions in a history.
pub open spec fn boundary_count(history: Seq<ResponseItem>) -> nat
    decreases history.len(),
{
    if history.len() == 0 {
        0
    } else {
        boundary_count(history.drop_last()) + (if history.last().counts_as_boundary {
            1nat
        } else {
            0
        })
    }
}

proof fn lemma_boundaries_before_cut(history: Seq<ResponseItem>, n: int)
    requires
        n > 0,
    ensures
        boundary_count(history.take(nth_boundary_from_end(history, n))) == (if boundary_count(
            history,
        ) > n {
            (boundary_count(history) - n) as nat
        } else {
            0
        }),
        boundary_count(history) < n ==> nth_boundary_from_end(history, n) == 0,
    decreases history.len(),
{
    lemma_nth_boundary(history, n);
    if history.len() > 0 {
        let head = history.drop_last();
        let at = nth_boundary_from_end(history, n);
        if history.last().counts_as_boundary {
            if n == 1 {
                assert(history.take(at) =~= head);
            } else {
                lemma_boundaries_before_cut(head, n - 1);
                lemma_nth_boundary(head, n - 1);
                assert(history.take(at) =~= head.take(at));
            }
        } else {
            lemma_boundaries_before_cut(head, n);
            lemma_nth_boundary(head, n);
            assert(history.take(at) =~= head.take(at));
        }
    } else {
        assert(history.take(0) =~= history);
    }
}

/// A cut keeps a beginning of the approval evidence. With a message identifier nothing from that
/// message on is kept; without one, as many instructions go as turns were removed, and where the
/// evidence holds fewer nothing is kept at all.
pub proof fn guardian_cut_keeps_no_later_grant(
    history: Seq<ResponseItem>,
    removed_turns: usize,
    message_id: Option<Seq<char>>,
)
    requires
        removed_turns > 0,
    ensures
        guardian_cut(history, removed_turns, message_id).is_prefix_of(history),
        message_id is Some ==> forall|i: int|
            0 <= i < guardian_cut(history, removed_turns, message_id).len() ==> opt_text(
                (#[trigger] guardian_cut(history, removed_turns, message_id)[i]).id,
            ) != message_id,
        message_id is None ==> boundary_count(guardian_cut(history, removed_turns, message_id)) == (
        if boundary_count(history) > removed_turns {
            (boundary_count(history) - removed_turns) as nat
        } else {
            0
        }),
        message_id is None && boundary_count(history) < removed_turns ==> guardian_cut(
            history,
            removed_turns,
            message_id,
        ).len() == 0,
{
    match message_id {
        Some(id) => {
            lemma_first_with_id(history, id);
        },
        None => {
            lemma_nth_boundary(history, removed_turns as int);
            lemma_boundaries_before_cut(history, removed_turns as int);
        },
    }
}

/// Cuts the approval evidence of a checkpoint.
pub fn truncate_guardian_history(
    history: &mut Vec<ResponseItem>,
    removed_turns: usize,
    first_removed_message_id: &Option<String>,
)
    ensures
        final(history)@ == guardian_cut(
            old(history)@,
            removed_turns,
            opt_text(*first_removed_message_id),
        ),
{
    if removed_turns == 0 {
        return;
    }
    let ghost before = history@;
    match first_removed_message_id {
        Some(id) => {
            proof {
                lemma_first_with_id(before, id@);
            }
            let wanted: Option<String> = Some(id.clone());
            let mut i: usize = 0;
            while i < history.len()
                invariant
                    i <= before.len(),
                    history@ == before,
                    opt_text(wanted) == Some(id@),
                    forall|j: int| 0 <= j < i ==> opt_text((#[trigger] before[j]).id) != Some(id@),
                ensures
                    i <= before.len(),
                    history@ == before,
                    forall|j: int| 0 <= j < i ==> opt_text((#[trigger] before[j]).id) != Some(id@),
                    i < before.len() ==> opt_text(before[i as int].id) == Some(id@),
                decreases before.len() - i,
            {
                if same_name(&history[i].id, &wanted) {
                    break;
                }
                i += 1;
            }
            proof {
                let at = first_with_id(before, id@);
                assert(at == i) by {
                    if at < i {
                        assert(opt_text(before[at].id) != Some(id@));
                    }
                    if i < at {
                        assert(opt_text(before[i as int].id) != Some(id@));
                    }
                }
            }
            if i < history.len() {
                history.truncate(i);
                assert(history@ =~= before.take(i as int));
            } else {
                history.truncate(0);
                assert(history@ =~= Seq::<ResponseItem>::empty());
            }
        },
        None => {
            let mut remaining: usize = removed_turns;
            let mut i: usize = history.len();
            proof {
                lemma_nth_boundary(before, removed_turns as int);
                assert(before.take(before.len() as int) =~= before);
            }
            while i > 0
                invariant_except_break
                    i <= before.len(),
                    history@ == before,
                    remaining > 0,
                    nth_boundary_from_end(before.take(i as int), remaining as int)
                        == nth_boundary_from_end(before, removed_turns as int),
                ensures
                    i <= before.len(),
                    history@ == before,
                    i == nth_boundary_from_end(before, removed_turns as int),
                decreases i,
            {
                assert(before.take(i as int).drop_last() =~= before.take(i - 1));
                assert(before.take(i as int).last() == before[i - 1]);
                if history[i - 1].counts_as_boundary {
                    if remaining == 1 {
                        i -= 1;
                        break;
                    }
                    remaining -= 1;
                }
                i -= 1;
            }
            history.truncate(i);
            assert(history@ =~= before.take(i as int));
        },
    }
}


fn copy_truncations(list: &Vec<GuardianHistoryTruncation>) -> (r: Vec<GuardianHistoryTruncation>)
    ensures
        r@ == list@,
{
    let mut out: Vec<GuardianHistoryTruncation> = Vec::new();
    let mut i: usize = 0;
    while i < list.len()
        invariant
            i <= list@.len(),
            out@ == list@.take(i as int),
        decreases list@.len() - i,
    {
        out.push(
            GuardianHistoryTruncation {
                removed_turns: list[i].removed_turns,
                first_removed_message_id: copy_name(&list[i].first_removed_message_id),
            },
        );
        assert(out@ =~= list@.take(i + 1));
        i += 1;
    }
    assert(list@.take(list@.len() as int) =~= list@);
    out
}

fn same_index(a: Option<usize>, b: usize) -> (r: bool)
    ensures
        r == (a == Some(b)),
{
    match a {
        Some(value) => value == b,
        None => false,
    }
}

impl RollbackPlanner {
    /// The plan, once every record has been observed.
    pub fn finish(self, replay: ModelReplay) -> (r: RollbackPlan)
        requires
            self.wf(),
        ensures
            r@.wf(),
            r@ == plan_of(self@, replay),
            r@.owners.len() == self@.owners.len(),
    {
        let ghost p = self@;
        let mut alive: Vec<bool> = Vec::new();
        let mut b: usize = 0;
        while b < self.boundaries.len()
            invariant
                b <= self.boundaries@.len(),
                alive@.len() == b,
                forall|i: int| 0 <= i < b ==> #[trigger] alive@[i] == self.boundaries@[i].alive,
            decreases self.boundaries@.len() - b,
        {
            alive.push(self.boundaries[b].alive);
            b += 1;
        }
        let mut compactions: Vec<PlannedCompaction> = Vec::new();
        let mut requested: Vec<String> = Vec::new();
        let mut i: usize = 0;
        while i < self.compactions.len()
            invariant
                self.wf(),
                p == self@,
                i <= self.compactions@.len(),
                compactions@.len() == i,
                forall|j: int|
                    0 <= j < i ==> (#[trigger] compactions@[j])@ == planned_frame(
                        p,
                        replay,
                        p.frames[j],
                    ),
                requested@ == requested_ids(p, replay, i as int),
            decreases self.compactions@.len() - i,
        {
            let frame = &self.compactions[i];
            let ghost f = p.frames[i as int];
            assert(f == frame@);
            assert(f.record_index < p.owners.len());
            let anchor: bool = same_index(
                replay.empty_replacement_history_compaction,
                frame.record_index,
            );
            let live: bool = match frame.owner {
                Some(boundary) => self.boundaries[boundary].alive,
                None => true,
            };
            let kept: bool = anchor || live;
            let rewrite: Option<CompactionRewrite> = if anchor {
                Some(CompactionRewrite::EmptyReplayAnchor)
            } else if frame.drop_last_n_user_turns > 0 && live {
                Some(CompactionRewrite::DropLastNUserTurns(frame.drop_last_n_user_turns))
            } else {
                None
            };
            let retained_context: Option<RetainedContext> = match &frame.retained_context {
                Some(context) => if kept {
                    Some(copy_context(context))
                } else {
                    None
                },
                None => None,
            };
            let truncations: Vec<GuardianHistoryTruncation> = if kept {
                copy_truncations(&frame.guardian_history_truncations)
            } else {
                Vec::new()
            };
            let wanted: bool = same_index(replay.selected_compaction, frame.record_index) || anchor
                || frame.guardian_history_truncations.len() > 0 || (frame.drop_last_n_user_turns
                > 0 && live);
            let ghost earlier = requested@;
            if wanted {
                let mut ids: Vec<String> = crate::text::copy_texts(&frame.referenced_item_ids);
                requested.append(&mut ids);
            }
            assert(requested@ =~= requested_ids(p, replay, i + 1));
            let planned = PlannedCompaction {
                record_index: frame.record_index,
                rewrite,
                replaces_context: kept,
                retained_context,
                guardian_history_truncations: truncations,
            };
            assert(planned@ =~= planned_frame(p, replay, f));
            compactions.push(planned);
            i += 1;
        }
        let plan = RollbackPlan {
            record_boundaries: self.record_boundaries,
            boundary_alive: alive,
            compactions,
            selected_compaction: replay.selected_compaction,
            requested_item_ids: requested,
        };
        assert(plan@.alive =~= plan_of(p, replay).alive);
        assert(plan@.frames =~= plan_of(p, replay).frames);
        assert(plan@ =~= plan_of(p, replay));
        assert(plan@.wf()) by {
            assert forall|i: int|
                0 <= i < plan@.owners.len() && (
                #[trigger] plan@.owners[i]) is Some implies plan@.owners[i]->0
                < plan@.alive.len() by {
                assert(crate::rollback_plan::known_boundary(p.owners[i], p.boundaries.len()));
            }
        }
        plan
    }
}

/// Why a checkpoint cannot be resolved, where it cannot.
pub open spec fn resolution_problem(
    checkpoint: CompactedItem,
    history: Result<Option<Vec<ResponseItemEnvelope>>, Vec<String>>,
    guardian: Result<Option<GuardianHistory>, String>,
) -> Option<Seq<char>> {
    if checkpoint.replacement_history is None && history is Err {
        Some(
            "compacted history references could not be resolved during rollback replay: "@
                + joined(texts(history->Err_0@), ", "@),
        )
    } else if checkpoint.guardian_history is Some && guardian is Err {
        Some(
            "Guardian history references could not be resolved during rollback replay: "@
                + guardian->Err_0@,
        )
    } else {
        None
    }
}

impl RollbackPlan {
    /// The number of records that the plan was made from.
    pub fn record_count(&self) -> (r: usize)
        ensures
            r == self@.owners.len(),
    {
        self.record_boundaries.len()
    }

    fn find(&self, record_index: usize) -> (r: Option<usize>)
        ensures
            match r {
                Some(i) => i < self.compactions@.len() && find_frame(self@.frames, record_index)
                    == Some(self.compactions@[i as int]@),
                None => find_frame(self@.frames, record_index) is None,
            },
    {
        let ghost frames = self@.frames;
        let mut i: usize = self.compactions.len();
        assert(frames.take(frames.len() as int) =~= frames);
        while i > 0
            invariant
                i <= self.compactions@.len(),
                frames == self@.frames,
                find_frame(frames.take(i as int), record_index) == find_frame(frames, record_index),
            decreases i,
        {
            assert(frames.take(i as int).drop_last() =~= frames.take(i - 1));
            assert(frames.take(i as int).last() == self.compactions@[i - 1]@);
            if self.compactions[i - 1].record_index == record_index {
                return Some(i - 1);
            }
            i -= 1;
        }
        None
    }

    /// How the checkpoint at a record takes part in reference validation.
    pub fn compaction_resolution(&self, record_index: usize) -> (r: CompactionResolution)
        ensures
            r == (if self@.materializes(record_index) {
                CompactionResolution::Strict
            } else {
                CompactionResolution::PreserveSuperseded
            }),
    {
        let rewritten: bool = match self.find(record_index) {
            Some(i) => self.compactions[i].rewrite.is_some()
                || self.compactions[i].guardian_history_truncations.len() > 0,
            None => false,
        };
        if same_index(self.selected_compaction, record_index) || rewritten {
            CompactionResolution::Strict
        } else {
            CompactionResolution::PreserveSuperseded
        }
    }

    /// Decides what becomes of a record of the second pass.
    pub fn apply(&self, record_index: usize, line: RolloutLine) -> (r: ThreadStoreResult<
        PlannedRecord,
    >)
        requires
            self@.wf(),
        ensures
            r is Err == (record_index >= self@.owners.len()),
            r is Err ==> r->Err_0@ == migration_failure(
                "rollback plan is shorter than source replay"@,
            ),
            r is Ok ==> plan_gives(self@, record_index, line, r->Ok_0),
    {
        if record_index >= self.record_boundaries.len() {
            return Err(migration_error("rollback plan is shorter than source replay"));
        }
        if item_is_rollback_marker(&line.item) {
            return Ok(PlannedRecord::Removed { source: None });
        }
        let found: Option<usize> = self.find(record_index);
        let rewrite: Option<CompactionRewrite> = match found {
            Some(i) => self.compactions[i].rewrite,
            None => None,
        };
        let dead: bool = match self.record_boundaries[record_index] {
            Some(boundary) => !self.boundary_alive[boundary],
            None => false,
        };
        let anchor: bool = match rewrite {
            Some(CompactionRewrite::EmptyReplayAnchor) => true,
            _ => false,
        };
        if dead && !anchor {
            return Ok(PlannedRecord::Removed { source: Some(line.item) });
        }
        let materializes: bool = same_index(self.selected_compaction, record_index)
            || rewrite.is_some() || (match found {
            Some(i) => self.compactions[i].guardian_history_truncations.len() > 0,
            None => false,
        });
        let RolloutLine { timestamp, ordinal, item } = line;
        match item {
            RolloutItem::Compacted(compacted) => {
                let mut compacted = compacted;
                match found {
                    Some(i) => {
                        if self.compactions[i].replaces_context {
                            compacted.retained_context =
                            match &self.compactions[i].retained_context {
                                Some(context) => Some(copy_context(context)),
                                None => None,
                            };
                        }
                    },
                    None => {},
                }
                let needs_history: bool = compacted.replacement_history.is_none();
                let needs_guardian: bool = compacted.guardian_history.is_some();
                let line = RolloutLine {
                    timestamp,
                    ordinal,
                    item: RolloutItem::Compacted(compacted),
                };
                if materializes {
                    Ok(PlannedRecord::Materialize { line, needs_history, needs_guardian })
                } else {
                    Ok(PlannedRecord::Kept { line })
                }
            },
            item => Ok(PlannedRecord::Kept { line: RolloutLine { timestamp, ordinal, item } }),
        }
    }

    /// Puts the resolved history and approval evidence of a checkpoint in place and cuts the
    /// evidence as the plan says. `history` is what the references of the checkpoint resolve to,
    /// where it has a history to resolve, or the references without a source; `guardian` is the
    /// resolved evidence, or why it cannot be resolved. Both matter only where the checkpoint has
    /// something to resolve.
    pub fn materialize(
        &self,
        record_index: usize,
        line: RolloutLine,
        history: Result<Option<Vec<ResponseItemEnvelope>>, Vec<String>>,
        guardian: Result<Option<GuardianHistory>, String>,
    ) -> (r: ThreadStoreResult<RolloutLine>)
        requires
            line.item is Compacted,
        ensures
            match resolution_problem(line.item->Compacted_0, history, guardian) {
                Some(message) => r is Err && r->Err_0@ == migration_failure(message),
                None => {
                    let before = line.item->Compacted_0;
                    let evidence = if before.guardian_history is Some {
                        guardian->Ok_0
                    } else {
                        None
                    };
                    let cuts = self@.truncations_at(record_index);
                    &&& r is Err == (cuts.len() > 0 && evidence is None)
                    &&& r is Err ==> r->Err_0@ == migration_failure(
                        "rollback Guardian rewrite lost its source checkpoint"@,
                    )
                    &&& r is Ok ==> r->Ok_0.timestamp == line.timestamp && r->Ok_0.ordinal
                        == line.ordinal && r->Ok_0.item is Compacted && {
                        let after = r->Ok_0.item->Compacted_0;
                        &&& after.retained_context == before.retained_context
                        &&& after.mcp_resource_origins == before.mcp_resource_origins
                        &&& after.payload == before.payload
                        &&& if before.replacement_history is None && history->Ok_0 is Some {
                            after.replacement_history == history->Ok_0
                                && after.replacement_history_entries is None
                        } else {
                            after.replacement_history == before.replacement_history
                                && after.replacement_history_entries
                                == before.replacement_history_entries
                        }
                        &&& after.guardian_history is Some == evidence is Some
                        &&& evidence is Some ==> after.guardian_history->0.entries
                            == evidence->0.entries && after.guardian_history->0.items@
                            == guardian_cuts(evidence->0.items@, cuts, cuts.len() as int)
                    }
                },
            },
    {
        let RolloutLine { timestamp, ordinal, item } = line;
        let mut compacted = match item {
            RolloutItem::Compacted(compacted) => compacted,
            _ => {
                return Err(
                    migration_error("strict rollback checkpoint no longer identifies a compaction"),
                );
            },
        };
        if compacted.replacement_history.is_none() {
            match history {
                Ok(Some(resolved)) => {
                    compacted.replacement_history = Some(resolved);
                    compacted.replacement_history_entries = None;
                },
                Ok(None) => {},
                Err(missing) => {
                    return Err(
                        migration_error(
                            concat2(
                                "compacted history references could not be resolved during rollback replay: ",
                                join_texts(&missing, ", ").as_str(),
                            ).as_str(),
                        ),
                    );
                },
            }
        }
        if compacted.guardian_history.is_some() {
            match guardian {
                Ok(evidence) => {
                    compacted.guardian_history = evidence;
                },
                Err(error) => {
                    return Err(
                        migration_error(
                            concat2(
                                "Guardian history references could not be resolved during rollback replay: ",
                                error.as_str(),
                            ).as_str(),
                        ),
                    );
                },
            }
        }
        match self.find(record_index) {
            Some(f) => {
                if self.compactions[f].guardian_history_truncations.len() > 0 {
                    let mut evidence = match compacted.guardian_history.take() {
                        Some(evidence) => evidence,
                        None => {
                            return Err(
                                migration_error(
                                    "rollback Guardian rewrite lost its source checkpoint",
                                ),
                            );
                        },
                    };
                    let ghost items = evidence.items@;
                    let ghost entries = evidence.entries;
                    let ghost cuts = self@.truncations_at(record_index);
                    let mut i: usize = 0;
                    while i < self.compactions[f].guardian_history_truncations.len()
                        invariant
                            f < self.compactions@.len(),
                            i <= cuts.len(),
                            cuts == self.compactions@[f as int].guardian_history_truncations@,
                            evidence.entries == entries,
                            evidence.items@ == guardian_cuts(items, cuts, i as int),
                        decreases cuts.len() - i,
                    {
                        let cut = &self.compactions[f].guardian_history_truncations[i];
                        truncate_guardian_history(
                            &mut evidence.items,
                            cut.removed_turns,
                            &cut.first_removed_message_id,
                        );
                        i += 1;
                    }
                    compacted.guardian_history = Some(evidence);
                }
            },
            None => {},
        }
        Ok(RolloutLine { timestamp, ordinal, item: RolloutItem::Compacted(compacted) })
    }

    /// Rewrites a resolved checkpoint. Its explicit sources are indexed before.
    pub fn rewrite(&self, record_index: usize, line: RolloutLine) -> (r: ThreadStoreResult<
        RewrittenRecord,
    >)
        requires
            line.item is Compacted,
        ensures
            ({
                let before = line.item->Compacted_0;
                match self@.rewrite_at(record_index) {
                    None => r == Ok::<RewrittenRecord, crate::error::ThreadStoreError>(
                        RewrittenRecord::Done { line },
                    ),
                    Some(CompactionRewrite::EmptyReplayAnchor) => {
                        &&& r is Ok
                        &&& r->Ok_0 is Done
                        &&& r->Ok_0->Done_line == (RolloutLine {
                            item: r->Ok_0->Done_line.item,
                            ..line
                        })
                        &&& r->Ok_0->Done_line.item is Compacted
                        &&& {
                            let after = r->Ok_0->Done_line.item->Compacted_0;
                            &&& after.replacement_history is Some
                            &&& after.replacement_history->0@.len() == 0
                            &&& after == (CompactedItem {
                                replacement_history: after.replacement_history,
                                replacement_history_entries: None,
                                mcp_resource_origins: None,
                                ..before
                            })
                        }
                    },
                    Some(CompactionRewrite::DropLastNUserTurns(n)) => {
                        &&& r is Err == (before.replacement_history is None)
                        &&& r is Err ==> r->Err_0@ == migration_failure(
                            "legacy rollback crosses a compaction without replacement history"@,
                        )
                        &&& r is Ok ==> r->Ok_0 == (RewrittenRecord::DropTurns {
                            num_turns: n,
                            line: RolloutLine {
                                item: RolloutItem::Compacted(
                                    CompactedItem { mcp_resource_origins: None, ..before },
                                ),
                                ..line
                            },
                        })
                    },
                }
            }),
    {
        let rewrite: Option<CompactionRewrite> = match self.find(record_index) {
            Some(i) => self.compactions[i].rewrite,
            None => None,
        };
        let rewrite: CompactionRewrite = match rewrite {
            Some(rewrite) => rewrite,
            None => {
                return Ok(RewrittenRecord::Done { line });
            },
        };
        let RolloutLine { timestamp, ordinal, item } = line;
        let mut compacted = match item {
            RolloutItem::Compacted(compacted) => compacted,
            _ => {
                return Err(
                    migration_error("rollback replay anchor no longer identifies a compaction"),
                );
            },
        };
        compacted.mcp_resource_origins = None;
        match rewrite {
            CompactionRewrite::EmptyReplayAnchor => {
                compacted.replacement_history = Some(Vec::new());
                compacted.replacement_history_entries = None;
                let item = RolloutItem::Compacted(compacted);
                Ok(RewrittenRecord::Done { line: RolloutLine { timestamp, ordinal, item } })
            },
            CompactionRewrite::DropLastNUserTurns(num_turns) => {
                if compacted.replacement_history.is_none() {
                    return Err(
                        migration_error(
                            "legacy rollback crosses a compaction without replacement history",
                        ),
                    );
                }
                let item = RolloutItem::Compacted(compacted);
                Ok(
                    RewrittenRecord::DropTurns {
                        line: RolloutLine { timestamp, ordinal, item },
                        num_turns,
                    },
                )
            },
        }
    }
}

} // verus!
