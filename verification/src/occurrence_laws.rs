//! Which identifiers response items and checkpoint entries have once they are prepared.

use crate::canonical_output::encoded_item;
use crate::canonical_output::tolerates_missing;
use crate::canonical_output::unresolved_after;
use crate::canonical_output::unresolved_references;
use crate::canonical_output::EncodedItem;
use crate::error::ThreadId;
use crate::item_ids::entry_ids;
use crate::item_ids::history_ids;
use crate::item_ids::record_ids;
use crate::occurrence_ids::assigned;
use crate::occurrence_ids::candidate_states;
use crate::occurrence_ids::collision;
use crate::occurrence_ids::entry_coordinate;
use crate::occurrence_ids::first_match;
use crate::occurrence_ids::is_history_checkpoint;
use crate::occurrence_ids::lemma_assigned;
use crate::occurrence_ids::lemma_collided_stays;
use crate::occurrence_ids::lemma_first_match;
use crate::occurrence_ids::preparation_collision;
use crate::occurrence_ids::preparation_finished;
use crate::occurrence_ids::preparation_outcome;
use crate::occurrence_ids::rebased;
use crate::occurrence_ids::shape_of;
use crate::occurrence_ids::top_coordinate;
use crate::occurrence_ids::CandidateState;
use crate::occurrence_ids::OccurrencePreparation;
use crate::occurrence_ids::OccurrenceState;
use crate::occurrence_ids::ResolvedHistory;
use crate::occurrence_ids::MIGRATION_OCCURRENCE_NAMESPACE;
use crate::outside::hyphenated;
use crate::outside::uuid_v5_value;
use crate::rollout::CompactedHistoryEntry;
use crate::rollout::CompactedItem;
use crate::rollout::CompactionResolution;
use crate::rollout::ResponseItem;
use crate::rollout::ResponseItemEnvelope;
use crate::rollout::RolloutItem;
use crate::text::decimal;
use vstd::prelude::*;
use vstd::utf8::encode_utf8;

verus! {

/// Whether an item carries that identifier. An empty one is none.
pub open spec fn carries_id(item: ResponseItem, id: Seq<char>) -> bool {
    item.id is Some && item.id->0@ == id && id.len() > 0
}

/// Whether an item carries no identifier. An empty one is none.
pub open spec fn carries_none(item: ResponseItem) -> bool {
    item.id is None || item.id->0@.len() == 0
}

/// Whether an item is another but for its identifier.
pub open spec fn differs_in_id_only(
    before: ResponseItemEnvelope,
    after: ResponseItemEnvelope,
) -> bool {
    &&& after.metadata == before.metadata
    &&& after.item.id_prefix == before.item.id_prefix
    &&& after.item.body == before.item.body
    &&& after.item.turn_id == before.item.turn_id
    &&& after.item.counts_as_boundary == before.item.counts_as_boundary
    &&& after.item.is_pre_turn_context_update == before.item.is_pre_turn_context_update
    &&& after.item.hook_prompt == before.item.hook_prompt
    &&& after.item.payload == before.item.payload
}

/// Whether two items say the same, beside their identifiers.
pub open spec fn says_the_same(a: ResponseItemEnvelope, b: ResponseItemEnvelope) -> bool {
    &&& a.item.payload@ == b.item.payload@
    &&& a.metadata is Some == b.metadata is Some
    &&& a.metadata is Some ==> a.metadata->0.user_input_order == b.metadata->0.user_input_order
        && a.metadata->0.payload@ == b.metadata->0.payload@
}

/// Whether an older occurrence says the same as an item.
pub open spec fn stands_for(candidate: CandidateState, item: ResponseItemEnvelope) -> bool {
    &&& candidate.shape.0 == item.item.payload@
    &&& candidate.shape.1 is Some == item.metadata is Some
    &&& item.metadata matches Some(metadata) ==> candidate.shape.1 == Some(
        (metadata.user_input_order, metadata.payload@),
    )
}

/// The number of older occurrences before one that say what an item says.
pub open spec fn occurrences_before(
    candidates: Seq<CandidateState>,
    item: ResponseItemEnvelope,
    at: int,
) -> nat
    decreases at,
{
    if at <= 0 {
        0
    } else {
        occurrences_before(candidates, item, at - 1) + (if stands_for(candidates[at - 1], item) {
            1nat
        } else {
            0
        })
    }
}

/// The number of entries before one that want an identifier and say the same.
pub open spec fn copies_before(
    entries: Seq<ResponseItemEnvelope>,
    item: ResponseItemEnvelope,
    at: int,
) -> nat
    decreases at,
{
    if at <= 0 {
        0
    } else {
        let e = entries[at - 1];
        copies_before(entries, item, at - 1) + (if carries_none(e.item) && e.item.id_prefix is Some
            && says_the_same(e, item) {
            1nat
        } else {
            0
        })
    }
}

/// The new identifier of what stands at a coordinate of a rollout.
pub open spec fn new_id(rollout_id: ThreadId, prefix: String, coordinate: Seq<char>) -> Seq<char> {
    prefix@ + "_"@ + hyphenated(
        uuid_v5_value(
            0x91a3_98f2_7c42_4e54_a8a4_2bc7_1a20_b6d1,
            encode_utf8(rollout_id.text() + ":"@ + coordinate),
        ),
    )
}

/// The coordinate of an entry.
pub open spec fn coordinate_of_entry(ordinal: u64, entry: int) -> Seq<char> {
    "ordinal:"@ + decimal(ordinal as nat) + ":checkpoint-entry:"@ + decimal(entry as nat)
}

proof fn lemma_same_shape(a: ResponseItemEnvelope, b: ResponseItemEnvelope, c: CandidateState)
    ensures
        says_the_same(a, b) == (shape_of(a) == shape_of(b)),
        stands_for(c, a) == (c.shape == shape_of(a)),
{
}

proof fn lemma_ranks_grow(
    candidates: Seq<CandidateState>,
    item: ResponseItemEnvelope,
    c: int,
    d: int,
)
    requires
        0 <= c <= d,
    ensures
        occurrences_before(candidates, item, c) <= occurrences_before(candidates, item, d),
        c < d && stands_for(candidates[c], item) ==> occurrences_before(candidates, item, c)
            < occurrences_before(candidates, item, d),
    decreases d,
{
    if c < d {
        lemma_ranks_grow(candidates, item, c, d - 1);
    }
}

proof fn lemma_rank_reached(
    candidates: Seq<CandidateState>,
    item: ResponseItemEnvelope,
    rank: nat,
    d: int,
) -> (c: int)
    requires
        0 <= d,
        rank < occurrences_before(candidates, item, d),
    ensures
        0 <= c < d,
        stands_for(candidates[c], item),
        occurrences_before(candidates, item, c) == rank,
    decreases d,
{
    if rank < occurrences_before(candidates, item, d - 1) {
        lemma_rank_reached(candidates, item, rank, d - 1)
    } else {
        d - 1
    }
}

/// Each entry that wants an identifier consumes the next older occurrence that says the same.
proof fn lemma_consumption(
    s: OccurrenceState,
    entries: Seq<ResponseItemEnvelope>,
    ordinal: u64,
    k: int,
    item: ResponseItemEnvelope,
    c: int,
)
    requires
        s.wf(),
        0 <= k <= entries.len(),
        assigned(s, entries, ordinal, k).collided is None,
        0 <= c < s.candidates.len(),
        stands_for(s.candidates[c], item),
    ensures
        assigned(s, entries, ordinal, k).consumed[c] == (occurrences_before(s.candidates, item, c)
            < copies_before(entries, item, k)),
    decreases k, 1int,
{
    if k > 0 {
        let a = assigned(s, entries, ordinal, k - 1);
        let e = entries[k - 1];
        lemma_assigned(s, entries, ordinal, k - 1);
        lemma_consumption(s, entries, ordinal, k - 1, item, c);
        lemma_same_shape(e, item, s.candidates[c]);
        lemma_same_shape(item, e, s.candidates[c]);
        if carries_none(e.item) && e.item.id_prefix is Some {
            let n = s.candidates.len() as int;
            lemma_first_match(s.candidates, a.consumed, shape_of(e), n);
            let at = first_match(s.candidates, a.consumed, shape_of(e), n);
            if says_the_same(e, item) {
                let m = copies_before(entries, item, k - 1);
                if at < n {
                    lemma_same_shape(item, e, s.candidates[at]);
                    lemma_next_is_taken(s, entries, ordinal, k, item, at);
                    if c < at {
                        lemma_ranks_grow(s.candidates, item, c, at);
                    } else if at < c {
                        lemma_ranks_grow(s.candidates, item, at, c);
                    }
                }
            } else if at < n {
                lemma_same_shape(item, e, s.candidates[at]);
                assert(at != c);
            }
        }
    }
}

/// The occurrence that an entry takes has as many equal ones before it as the entry has.
proof fn lemma_next_is_taken(
    s: OccurrenceState,
    entries: Seq<ResponseItemEnvelope>,
    ordinal: u64,
    k: int,
    item: ResponseItemEnvelope,
    at: int,
)
    requires
        s.wf(),
        0 < k <= entries.len(),
        assigned(s, entries, ordinal, k - 1).collided is None,
        shape_of(entries[k - 1]) == shape_of(item),
        at == first_match(
            s.candidates,
            assigned(s, entries, ordinal, k - 1).consumed,
            shape_of(item),
            s.candidates.len() as int,
        ),
        at < s.candidates.len(),
    ensures
        0 <= at,
        stands_for(s.candidates[at], item),
        occurrences_before(s.candidates, item, at) == copies_before(entries, item, k - 1),
    decreases k, 0int,
{
    let a = assigned(s, entries, ordinal, k - 1);
    let n = s.candidates.len() as int;
    let m = copies_before(entries, item, k - 1);
    lemma_assigned(s, entries, ordinal, k - 1);
    lemma_first_match(s.candidates, a.consumed, shape_of(item), n);
    lemma_same_shape(item, item, s.candidates[at]);
    lemma_consumption(s, entries, ordinal, k - 1, item, at);
    if m < occurrences_before(s.candidates, item, at) {
        let c = lemma_rank_reached(s.candidates, item, m, at);
        lemma_same_shape(item, item, s.candidates[c]);
        lemma_consumption(s, entries, ordinal, k - 1, item, c);
        assert(a.consumed[c] || s.candidates[c].shape != shape_of(item));
    }
}

proof fn lemma_ids_stay(
    s: OccurrenceState,
    entries: Seq<ResponseItemEnvelope>,
    ordinal: u64,
    k: int,
    n: int,
)
    requires
        s.wf(),
        0 < k <= n <= entries.len(),
        assigned(s, entries, ordinal, n).collided is None,
    ensures
        assigned(s, entries, ordinal, k).collided is None,
        assigned(s, entries, ordinal, k).ids.len() == k,
        assigned(s, entries, ordinal, n).ids.len() == n,
        assigned(s, entries, ordinal, n).ids[k - 1] == assigned(s, entries, ordinal, k).ids[k - 1],
    decreases n,
{
    lemma_assigned(s, entries, ordinal, n);
    lemma_assigned(s, entries, ordinal, k);
    if k < n {
        if assigned(s, entries, ordinal, n - 1).collided is Some {
            lemma_collided_stays(s, entries, ordinal, n - 1, n);
        }
        lemma_ids_stay(s, entries, ordinal, k, n - 1);
    }
}

/// A prepared checkpoint holds the resolved history, entry by entry. An entry with an identifier
/// keeps it; an entry that takes an identifier has one afterwards; any other has none. Nothing else
/// about the entries or the checkpoint changes.
pub proof fn checkpoint_entries_keep_their_identifiers(
    s: OccurrenceState,
    checkpoint: CompactedItem,
    items: Vec<ResponseItemEnvelope>,
    ordinal: u64,
    t: OccurrenceState,
    after: RolloutItem,
    preparation: OccurrencePreparation,
    i: int,
)
    requires
        s.wf(),
        checkpoint.replacement_history is Some || checkpoint.replacement_history_entries is Some,
        preparation_collision(
            s,
            RolloutItem::Compacted(checkpoint),
            ResolvedHistory::History { items },
            ordinal,
        ) is None,
        preparation_outcome(
            s,
            RolloutItem::Compacted(checkpoint),
            ResolvedHistory::History { items },
            ordinal,
            t,
            after,
            preparation,
        ),
        0 <= i < items@.len(),
    ensures
        after is Compacted,
        after->Compacted_0.replacement_history is Some,
        after->Compacted_0.replacement_history_entries is None,
        after->Compacted_0.guardian_history == checkpoint.guardian_history,
        after->Compacted_0.retained_context == checkpoint.retained_context,
        after->Compacted_0.mcp_resource_origins == checkpoint.mcp_resource_origins,
        after->Compacted_0.payload == checkpoint.payload,
        after->Compacted_0.replacement_history->0@.len() == items@.len(),
        t.rollout_id == s.rollout_id,
        t.reserved == s.reserved,
        t.candidates == s.candidates,
        ({
            let before = items@[i];
            let entry = after->Compacted_0.replacement_history->0@[i];
            &&& differs_in_id_only(before, entry)
            &&& !carries_none(before.item) ==> carries_id(entry.item, before.item.id->0@)
            &&& before.item.id_prefix is Some ==> entry.item.id is Some
            &&& carries_none(before.item) && before.item.id_prefix is None
                ==> entry.item.id is None
        }),
{
    let n = items@.len() as int;
    lemma_ids_stay(s, items@, ordinal, i + 1, n);
    if assigned(s, items@, ordinal, i).collided is Some {
        lemma_collided_stays(s, items@, ordinal, i, n);
    }
    lemma_assigned(s, items@, ordinal, i);
    let e = items@[i];
}

/// An entry that wants an identifier takes that of an older occurrence that says the same: the first
/// such entry takes the first, the second the second, and so on. Once they are used up, the entry
/// gets the identifier of its own coordinate.
pub proof fn checkpoint_entries_take_older_identifiers_in_order(
    s: OccurrenceState,
    checkpoint: CompactedItem,
    items: Vec<ResponseItemEnvelope>,
    ordinal: u64,
    t: OccurrenceState,
    after: RolloutItem,
    preparation: OccurrencePreparation,
    i: int,
)
    requires
        s.wf(),
        checkpoint.replacement_history is Some || checkpoint.replacement_history_entries is Some,
        preparation_collision(
            s,
            RolloutItem::Compacted(checkpoint),
            ResolvedHistory::History { items },
            ordinal,
        ) is None,
        preparation_outcome(
            s,
            RolloutItem::Compacted(checkpoint),
            ResolvedHistory::History { items },
            ordinal,
            t,
            after,
            preparation,
        ),
        0 <= i < items@.len(),
        carries_none(items@[i].item),
        items@[i].item.id_prefix is Some,
    ensures
        ({
            let before = items@[i];
            let entry = after->Compacted_0.replacement_history->0@[i];
            let earlier = copies_before(items@, before, i);
            let older = occurrences_before(s.candidates, before, s.candidates.len() as int);
            &&& entry.item.id is Some
            &&& earlier < older ==> forall|at: int|
                0 <= at < s.candidates.len() && stands_for(#[trigger] s.candidates[at], before)
                    && occurrences_before(s.candidates, before, at) == earlier
                    ==> entry.item.id->0@ == s.candidates[at].id
            &&& earlier >= older ==> {
                &&& entry.item.id->0@ == new_id(
                    s.rollout_id,
                    before.item.id_prefix->0,
                    coordinate_of_entry(ordinal, i),
                )
                &&& t.generated.contains(entry.item.id->0@)
            }
        }),
{
    let n = items@.len() as int;
    let before = items@[i];
    lemma_ids_stay(s, items@, ordinal, i + 1, n);
    if assigned(s, items@, ordinal, i).collided is Some {
        lemma_collided_stays(s, items@, ordinal, i, n);
    }
    lemma_assigned(s, items@, ordinal, i);
    let a = assigned(s, items@, ordinal, i);
    let m = s.candidates.len() as int;
    let at = first_match(s.candidates, a.consumed, shape_of(before), m);
    lemma_first_match(s.candidates, a.consumed, shape_of(before), m);
    let earlier = copies_before(items@, before, i);
    assert(items@[i] == before);
    if at < m {
        lemma_next_is_taken(s, items@, ordinal, i + 1, before, at);
        lemma_ranks_grow(s.candidates, before, at, m);
        assert forall|c: int|
            0 <= c < s.candidates.len() && stands_for(#[trigger] s.candidates[c], before)
                && occurrences_before(s.candidates, before, c) == earlier implies c == at by {
            if c < at {
                lemma_ranks_grow(s.candidates, before, c, at);
            } else if at < c {
                lemma_ranks_grow(s.candidates, before, at, c);
            }
        }
    } else {
        if earlier < occurrences_before(s.candidates, before, m) {
            let c = lemma_rank_reached(s.candidates, before, earlier, m);
            lemma_same_shape(before, before, s.candidates[c]);
            lemma_consumption(s, items@, ordinal, i, before, c);
            assert(a.consumed[c] || s.candidates[c].shape != shape_of(before));
        }
        lemma_generated_stays(s, items@, ordinal, i + 1, n);
    }
}

proof fn lemma_generated_stays(
    s: OccurrenceState,
    entries: Seq<ResponseItemEnvelope>,
    ordinal: u64,
    k: int,
    n: int,
)
    requires
        0 <= k <= n,
    ensures
        assigned(s, entries, ordinal, k).generated.subset_of(
            assigned(s, entries, ordinal, n).generated,
        ),
    decreases n,
{
    if k < n {
        lemma_generated_stays(s, entries, ordinal, k, n - 1);
    }
}

/// A checkpoint becomes the older history once its references are encoded: its entries with an
/// identifier, in order.
pub proof fn checkpoints_become_the_older_history(
    entries: Seq<ResponseItemEnvelope>,
    ids: Seq<Option<Seq<char>>>,
    k: int,
)
    requires
        0 <= k < entries.len(),
        entries.len() == ids.len(),
    ensures
        rebased(entries, ids, 0).len() == 0,
        ids[k] is None ==> rebased(entries, ids, k + 1) == rebased(entries, ids, k),
        ids[k] matches Some(id) ==> {
            let next = rebased(entries, ids, k + 1);
            &&& next.len() == rebased(entries, ids, k).len() + 1
            &&& next.drop_last() == rebased(entries, ids, k)
            &&& next.last().id == id
            &&& stands_for(next.last(), entries[k])
        },
{
    assert(rebased(entries, ids, k + 1).drop_last() =~= rebased(entries, ids, k) || ids[k] is None);
}

/// What a prepared checkpoint hands on as older history: an entry for each that has an identifier,
/// where all of them take one.
pub proof fn prepared_checkpoints_hand_on_their_entries(
    s: OccurrenceState,
    checkpoint: CompactedItem,
    items: Vec<ResponseItemEnvelope>,
    ordinal: u64,
    t: OccurrenceState,
    after: RolloutItem,
    preparation: OccurrencePreparation,
    i: int,
)
    requires
        s.wf(),
        checkpoint.replacement_history is Some || checkpoint.replacement_history_entries is Some,
        preparation_collision(
            s,
            RolloutItem::Compacted(checkpoint),
            ResolvedHistory::History { items },
            ordinal,
        ) is None,
        preparation_outcome(
            s,
            RolloutItem::Compacted(checkpoint),
            ResolvedHistory::History { items },
            ordinal,
            t,
            after,
            preparation,
        ),
        forall|j: int| 0 <= j < items@.len() ==> (#[trigger] items@[j]).item.id_prefix is Some,
        0 <= i < items@.len(),
    ensures
        preparation.clear_on_failure,
        preparation.next_candidates is Some,
        preparation.next_candidates->0@.len() == items@.len(),
        ({
            let next = preparation.next_candidates->0@[i];
            let entry = after->Compacted_0.replacement_history->0@[i];
            &&& entry.item.id is Some
            &&& next.id@ == entry.item.id->0@
            &&& next.payload@ == items@[i].item.payload@
            &&& next.metadata is Some == items@[i].metadata is Some
            &&& next.metadata is Some ==> next.metadata->0.user_input_order
                == items@[i].metadata->0.user_input_order && next.metadata->0.payload@
                == items@[i].metadata->0.payload@
        }),
{
    let n = items@.len() as int;
    let a = assigned(s, items@, ordinal, n);
    checkpoint_entries_keep_their_identifiers(
        s,
        checkpoint,
        items,
        ordinal,
        t,
        after,
        preparation,
        i,
    );
    assert forall|j: int| 0 <= j < n implies (#[trigger] a.ids[j]) is Some by {
        assert(items@[j].item.id_prefix is Some);
        checkpoint_entries_keep_their_identifiers(
            s,
            checkpoint,
            items,
            ordinal,
            t,
            after,
            preparation,
            j,
        );
    }
    lemma_assigned(s, items@, ordinal, n);
    lemma_all_handed_on(items@, a.ids, n);
    let next = preparation.next_candidates->0@;
    assert(candidate_states(next)[i] == rebased(items@, a.ids, n)[i]);
    assert(candidate_states(next).len() == next.len());
    assert(candidate_states(next)[i] == next[i]@);
}

proof fn lemma_all_handed_on(
    entries: Seq<ResponseItemEnvelope>,
    ids: Seq<Option<Seq<char>>>,
    k: int,
)
    requires
        0 <= k <= entries.len(),
        entries.len() == ids.len(),
        forall|j: int| 0 <= j < k ==> (#[trigger] ids[j]) is Some,
    ensures
        rebased(entries, ids, k).len() == k,
        forall|j: int|
            0 <= j < k ==> #[trigger] rebased(entries, ids, k)[j] == (CandidateState {
                id: ids[j]->0,
                shape: shape_of(entries[j]),
            }),
    decreases k,
{
    if k > 0 {
        lemma_all_handed_on(entries, ids, k - 1);
        assert(ids[k - 1] is Some);
    }
}

/// A response item with an identifier keeps it; one that takes an identifier and has none gets that
/// of its own coordinate; any other has none. With an identifier it becomes an older occurrence,
/// behind the others. Nothing else about the item changes.
pub proof fn items_keep_their_identifiers(
    s: OccurrenceState,
    envelope: ResponseItemEnvelope,
    resolved: ResolvedHistory,
    ordinal: u64,
    t: OccurrenceState,
    after: RolloutItem,
    preparation: OccurrencePreparation,
)
    requires
        preparation_outcome(
            s,
            RolloutItem::ResponseItem(envelope),
            resolved,
            ordinal,
            t,
            after,
            preparation,
        ),
    ensures
        after is ResponseItem,
        preparation.next_candidates is None,
        !preparation.clear_on_failure,
        t.rollout_id == s.rollout_id,
        t.reserved == s.reserved,
        ({
            let item = after->ResponseItem_0;
            let wants = carries_none(envelope.item) && envelope.item.id_prefix is Some;
            let fresh = new_id(
                s.rollout_id,
                envelope.item.id_prefix->0,
                "ordinal:"@ + decimal(ordinal as nat) + ":top"@,
            );
            &&& differs_in_id_only(envelope, item)
            &&& !carries_none(envelope.item) ==> carries_id(item.item, envelope.item.id->0@)
            &&& wants ==> item.item.id is Some && item.item.id->0@ == fresh && t.generated
                == s.generated.insert(fresh)
            &&& !wants ==> t.generated == s.generated
            &&& carries_none(envelope.item) && !wants ==> item.item.id is None && t.candidates
                == s.candidates
            &&& item.item.id is Some ==> {
                &&& t.candidates.len() == s.candidates.len() + 1
                &&& t.candidates.drop_last() == s.candidates
                &&& t.candidates.last().id == item.item.id->0@
                &&& stands_for(t.candidates.last(), envelope)
            }
        }),
{
    assert(s.candidates.push(t.candidates.last()).drop_last() =~= s.candidates);
}

/// A new identifier that is reserved or was generated before is a collision, and there is no other
/// for a response item.
pub proof fn items_collide_only_with_taken_identifiers(
    s: OccurrenceState,
    envelope: ResponseItemEnvelope,
    resolved: ResolvedHistory,
    ordinal: u64,
)
    ensures
        ({
            let problem = preparation_collision(
                s,
                RolloutItem::ResponseItem(envelope),
                resolved,
                ordinal,
            );
            let wants = carries_none(envelope.item) && envelope.item.id_prefix is Some;
            let fresh = new_id(
                s.rollout_id,
                envelope.item.id_prefix->0,
                "ordinal:"@ + decimal(ordinal as nat) + ":top"@,
            );
            &&& problem is Some == (wants && (s.reserved.contains(fresh) || s.generated.contains(
                fresh,
            )))
            &&& problem is Some ==> problem->0 == fresh
            &&& problem is Some ==> collision(problem->0)
                == "deterministic migration response item ID collided with an existing occurrence: "@
                + fresh
        }),
{
}

/// A checkpoint collides only where the new identifier of an entry is taken, and names it.
pub proof fn checkpoints_collide_only_with_taken_identifiers(
    s: OccurrenceState,
    checkpoint: CompactedItem,
    items: Vec<ResponseItemEnvelope>,
    ordinal: u64,
)
    ensures
        ({
            let problem = preparation_collision(
                s,
                RolloutItem::Compacted(checkpoint),
                ResolvedHistory::History { items },
                ordinal,
            );
            problem matches Some(id) ==> exists|i: int|
                0 <= i < items@.len() && carries_none((#[trigger] items@[i]).item)
                    && items@[i].item.id_prefix is Some && id == new_id(
                    s.rollout_id,
                    items@[i].item.id_prefix->0,
                    coordinate_of_entry(ordinal, i),
                )
        }),
{
    lemma_collision_is_new(s, items@, ordinal, items@.len() as int);
}

proof fn lemma_collision_is_new(
    s: OccurrenceState,
    items: Seq<ResponseItemEnvelope>,
    ordinal: u64,
    k: int,
)
    requires
        0 <= k <= items.len(),
    ensures
        assigned(s, items, ordinal, k).collided matches Some(id) ==> exists|i: int|
            0 <= i < items.len() && carries_none((#[trigger] items[i]).item)
                && items[i].item.id_prefix is Some && id == new_id(
                s.rollout_id,
                items[i].item.id_prefix->0,
                coordinate_of_entry(ordinal, i),
            ),
    decreases k,
{
    if k > 0 {
        lemma_collision_is_new(s, items, ordinal, k - 1);
        let e = items[k - 1];
        assert(items[k - 1].item == e.item);
    }
}

/// Every other record is left as it is, and so are the older occurrences: also a checkpoint that
/// replaces no history or has none to resolve. Only a checkpoint whose history cannot be resolved
/// ends them.
pub proof fn other_records_are_prepared_unchanged(
    s: OccurrenceState,
    item: RolloutItem,
    resolved: ResolvedHistory,
    ordinal: u64,
    t: OccurrenceState,
    after: RolloutItem,
    preparation: OccurrencePreparation,
)
    requires
        preparation_outcome(s, item, resolved, ordinal, t, after, preparation),
        !(item is ResponseItem),
    ensures
        ({
            let replaces = item is Compacted && (item->Compacted_0.replacement_history is Some
                || item->Compacted_0.replacement_history_entries is Some);
            &&& !replaces || !(resolved is History) ==> after == item
                && preparation.next_candidates is None && !preparation.clear_on_failure
            &&& !replaces || resolved is Nothing ==> t == s
            &&& replaces && resolved is Unresolved ==> t.candidates.len() == 0 && t.generated
                == s.generated && t.reserved == s.reserved && t.rollout_id == s.rollout_id
            &&& is_history_checkpoint(item) == replaces
            &&& !replaces ==> preparation_collision(s, item, resolved, ordinal) is None
        }),
{
}

/// What was prepared takes effect only where the references of the record are encoded. Where they
/// are not, a checkpoint ends the older occurrences; anything else leaves them.
pub proof fn prepared_candidates_take_effect_on_success(
    s: OccurrenceState,
    preparation: OccurrencePreparation,
)
    ensures
        ({
            let done = preparation_finished(s, preparation, true);
            let failed = preparation_finished(s, preparation, false);
            &&& done.generated == s.generated && failed.generated == s.generated
            &&& done.reserved == s.reserved && failed.reserved == s.reserved
            &&& done.rollout_id == s.rollout_id && failed.rollout_id == s.rollout_id
            &&& preparation.next_candidates is None ==> done.candidates == s.candidates
            &&& preparation.next_candidates matches Some(next) ==> {
                &&& done.candidates.len() == next@.len()
                &&& forall|i: int|
                    0 <= i < next@.len() ==> (#[trigger] done.candidates[i]).id == next@[i].id@
            }
            &&& preparation.clear_on_failure ==> failed.candidates.len() == 0
            &&& !preparation.clear_on_failure ==> failed.candidates == s.candidates
        }),
{
}

/// No two places of a rollout have the same coordinate.
pub proof fn coordinates_are_distinct(ordinal: u64, i: int, j: int)
    requires
        0 <= i,
        0 <= j,
        entry_coordinate(ordinal, i) == entry_coordinate(ordinal, j),
    ensures
        i == j,
        entry_coordinate(ordinal, i) == coordinate_of_entry(ordinal, i),
        top_coordinate(ordinal) == "ordinal:"@ + decimal(ordinal as nat) + ":top"@,
        MIGRATION_OCCURRENCE_NAMESPACE == 0x91a3_98f2_7c42_4e54_a8a4_2bc7_1a20_b6d1,
{
    let head = "ordinal:"@ + decimal(ordinal as nat) + ":checkpoint-entry:"@;
    let a = entry_coordinate(ordinal, i);
    let b = entry_coordinate(ordinal, j);
    assert(a.skip(head.len() as int) =~= decimal(i as nat));
    assert(b.skip(head.len() as int) =~= decimal(j as nat));
    crate::canonical_laws::decimal_tells_numbers_apart(i as nat, j as nat);
}

/// The identifiers of a record are those that its items carry or refer to: the item itself, the
/// items of a replacement history, and its entries. Empty identifiers are none, and no other record
/// has any.
pub proof fn records_have_the_identifiers_of_their_items(item: RolloutItem, id: Seq<char>)
    ensures
        record_ids(item).contains(id) <==> id.len() > 0 && match item {
            RolloutItem::ResponseItem(envelope) => carries_id(envelope.item, id),
            RolloutItem::Compacted(compacted) => {
                ||| compacted.replacement_history is Some && exists|i: int|
                    0 <= i < compacted.replacement_history->0@.len() && carries_id(
                        (#[trigger] compacted.replacement_history->0@[i]).item,
                        id,
                    )
                ||| compacted.replacement_history_entries is Some && exists|i: int|
                    0 <= i < compacted.replacement_history_entries->0@.len() && entry_names(
                        #[trigger] compacted.replacement_history_entries->0@[i],
                        id,
                    )
            },
            _ => false,
        },
{
    if item is Compacted {
        let compacted = item->Compacted_0;
        if compacted.replacement_history is Some {
            lemma_history_ids(compacted.replacement_history->0@, id);
        }
        if compacted.replacement_history_entries is Some {
            lemma_entry_ids(compacted.replacement_history_entries->0@, id);
        }
    }
}

/// Whether an entry of a checkpoint carries an identifier or refers to it.
pub open spec fn entry_names(entry: CompactedHistoryEntry, id: Seq<char>) -> bool {
    ||| entry matches CompactedHistoryEntry::Inline { item, .. } && carries_id(item, id)
    ||| entry matches CompactedHistoryEntry::Reference { item_id } && item_id@ == id && id.len() > 0
    ||| entry matches CompactedHistoryEntry::ReferenceV2 { item_id, .. } && item_id@ == id
        && id.len() > 0
}

proof fn lemma_history_ids(history: Seq<ResponseItemEnvelope>, id: Seq<char>)
    ensures
        history_ids(history).contains(id) <==> exists|i: int|
            0 <= i < history.len() && carries_id((#[trigger] history[i]).item, id),
    decreases history.len(),
{
    if history.len() > 0 {
        let rest = history.drop_last();
        lemma_history_ids(rest, id);
        if exists|i: int| 0 <= i < history.len() && carries_id((#[trigger] history[i]).item, id) {
            let i = choose|i: int|
                0 <= i < history.len() && carries_id((#[trigger] history[i]).item, id);
            if i < rest.len() {
                assert(rest[i] == history[i]);
            }
        }
        if exists|i: int| 0 <= i < rest.len() && carries_id((#[trigger] rest[i]).item, id) {
            let i = choose|i: int| 0 <= i < rest.len() && carries_id((#[trigger] rest[i]).item, id);
            assert(history[i] == rest[i]);
        }
        assert(history[history.len() - 1] == history.last());
    }
}

proof fn lemma_entry_ids(entries: Seq<CompactedHistoryEntry>, id: Seq<char>)
    ensures
        entry_ids(entries).contains(id) <==> exists|i: int|
            0 <= i < entries.len() && entry_names(#[trigger] entries[i], id),
    decreases entries.len(),
{
    if entries.len() > 0 {
        let rest = entries.drop_last();
        lemma_entry_ids(rest, id);
        if exists|i: int| 0 <= i < entries.len() && entry_names(#[trigger] entries[i], id) {
            let i = choose|i: int| 0 <= i < entries.len() && entry_names(#[trigger] entries[i], id);
            if i < rest.len() {
                assert(rest[i] == entries[i]);
            }
        }
        if exists|i: int| 0 <= i < rest.len() && entry_names(#[trigger] rest[i], id) {
            let i = choose|i: int| 0 <= i < rest.len() && entry_names(#[trigger] rest[i], id);
            assert(entries[i] == rest[i]);
        }
        assert(entries[entries.len() - 1] == entries.last());
    }
}

/// A record whose references are unresolved is written only where it is superseded, or where it is a
/// checkpoint that a newer one may still supersede. What is written is the record that was encoded.
pub proof fn unresolved_records_are_written_only_where_they_may_be(
    checkpoint: bool,
    resolution: CompactionResolution,
    before: Option<Seq<Seq<char>>>,
    item: RolloutItem,
    missing: Vec<String>,
)
    ensures
        tolerates_missing(checkpoint, CompactionResolution::PreserveSuperseded),
        tolerates_missing(checkpoint, CompactionResolution::InferSelected) == checkpoint,
        !tolerates_missing(checkpoint, CompactionResolution::Strict),
        encoded_item(EncodedItem::Encoded { item }) == item,
        encoded_item(EncodedItem::Missing { item, missing }) == item,
        unresolved_after(before, false, resolution, EncodedItem::Missing { item, missing })
            == before,
        unresolved_after(before, false, resolution, EncodedItem::Encoded { item }) == before,
        unresolved_after(
            before,
            checkpoint,
            CompactionResolution::Strict,
            EncodedItem::Missing { item, missing },
        ) == before,
        unresolved_after(
            before,
            checkpoint,
            CompactionResolution::PreserveSuperseded,
            EncodedItem::Missing { item, missing },
        ) == before,
{
}

/// A record that must resolve and does not names each of its missing references, in order.
pub proof fn unresolved_references_are_named(earlier: Seq<Seq<char>>, missing: Seq<char>)
    ensures
        unresolved_references(seq![missing])
            == "compacted history references could not be resolved during migration canonicalization: "@
            + missing,
        earlier.len() > 0 ==> unresolved_references(earlier.push(missing)) == unresolved_references(
            earlier,
        ) + ", "@ + missing,
{
    assert(earlier.push(missing).drop_last() =~= earlier);
}

} // verus!
