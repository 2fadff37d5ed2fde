//! Stable identifiers for historical response items that predate durable identifiers.
//!
//! An identifier stands for one ordered occurrence, not merely for equal content: full equality
//! and left-to-right consumption decide whether a checkpoint copy came from an older occurrence.

use crate::error::migration_error;
use crate::error::migration_failure;
use crate::error::ThreadId;
use crate::error::ThreadStoreResult;
use crate::outside::hyphenated;
use crate::outside::uuid_v5_value;
use crate::rollout::replaces_history;
use crate::rollout::CompactedItem;
use crate::rollout::ItemMetadata;
use crate::rollout::ResponseItem;
use crate::rollout::ResponseItemEnvelope;
use crate::rollout::RolloutItem;
use crate::text::concat2;
use crate::text::concat3;
use crate::text::decimal;
use crate::text::decimal_text;
use vstd::hash_set::StringHashSet;
use vstd::prelude::*;
use vstd::utf8::encode_utf8;

verus! {

/// The namespace of migration identifiers. It never changes: retries must give the same output.
pub const MIGRATION_OCCURRENCE_NAMESPACE: u128 = 0x91a3_98f2_7c42_4e54_a8a4_2bc7_1a20_b6d1;

/// An item and its metadata without the identifier.
pub type Shape = (Seq<char>, Option<(Option<u64>, Seq<char>)>);

/// Optional metadata by its order and its text.
pub open spec fn metadata_view(metadata: Option<ItemMetadata>) -> Option<
    (Option<u64>, Seq<char>),
> {
    match metadata {
        Some(m) => Some((m.user_input_order, m.payload@)),
        None => None,
    }
}

/// An item and its metadata without the identifier.
pub open spec fn shape_of(envelope: ResponseItemEnvelope) -> Shape {
    (envelope.item.payload@, metadata_view(envelope.metadata))
}

/// An older occurrence that a checkpoint copy can stand for.
#[derive(Debug)]
pub struct CandidateOccurrence {
    pub id: String,
    pub payload: String,
    pub metadata: Option<ItemMetadata>,
}

/// An older occurrence by its identifier and shape.
pub struct CandidateState {
    pub id: Seq<char>,
    pub shape: Shape,
}

impl View for CandidateOccurrence {
    type V = CandidateState;

    open spec fn view(&self) -> CandidateState {
        CandidateState { id: self.id@, shape: (self.payload@, metadata_view(self.metadata)) }
    }
}

/// The occurrences of a list.
pub open spec fn candidate_states(list: Seq<CandidateOccurrence>) -> Seq<CandidateState> {
    list.map_values(|c: CandidateOccurrence| c@)
}

/// What the references of a checkpoint resolve to.
#[derive(Debug)]
pub enum ResolvedHistory {
    /// Some reference has no source.
    Unresolved,
    /// There is no history to resolve.
    Nothing,
    /// The complete history.
    History { items: Vec<ResponseItemEnvelope> },
}

/// Deferred update of the candidates for one item.
#[derive(Debug)]
pub struct OccurrencePreparation {
    pub next_candidates: Option<Vec<CandidateOccurrence>>,
    pub clear_on_failure: bool,
}

/// The state of identifier assignment over sets and sequences.
#[verifier::ext_equal]
pub struct OccurrenceState {
    pub rollout_id: ThreadId,
    pub reserved: Set<Seq<char>>,
    pub generated: Set<Seq<char>>,
    pub candidates: Seq<CandidateState>,
}

/// Assigns deterministic identifiers while one legacy rollout is canonicalised.
pub struct MigrationOccurrenceIds {
    pub rollout_id: ThreadId,
    pub reserved_ids: StringHashSet,
    pub generated_ids: StringHashSet,
    pub active_candidates: Vec<CandidateOccurrence>,
}

impl View for MigrationOccurrenceIds {
    type V = OccurrenceState;

    open spec fn view(&self) -> OccurrenceState {
        OccurrenceState {
            rollout_id: self.rollout_id,
            reserved: self.reserved_ids@,
            generated: self.generated_ids@,
            candidates: candidate_states(self.active_candidates@),
        }
    }
}

/// Where a top-level item stands in the output.
pub open spec fn top_coordinate(ordinal: u64) -> Seq<char> {
    "ordinal:"@ + decimal(ordinal as nat) + ":top"@
}

/// Where a checkpoint entry stands in the output.
pub open spec fn entry_coordinate(ordinal: u64, entry: int) -> Seq<char> {
    "ordinal:"@ + decimal(ordinal as nat) + ":checkpoint-entry:"@ + decimal(entry as nat)
}

/// The identifier of the occurrence at a coordinate: it depends on the rollout, the coordinate and
/// the kind of the item alone.
pub open spec fn occurrence_id(
    rollout_id: ThreadId,
    prefix: Seq<char>,
    coordinate: Seq<char>,
) -> Seq<char> {
    let name = rollout_id.text() + ":"@ + coordinate;
    prefix + "_"@ + hyphenated(
        uuid_v5_value(MIGRATION_OCCURRENCE_NAMESPACE, encode_utf8(name)),
    )
}

/// The identifier of an item, where an empty one counts as none.
pub open spec fn usable_id(item: ResponseItem) -> Option<Seq<char>> {
    match item.id {
        Some(id) => if id@.len() == 0 {
            None
        } else {
            Some(id@)
        },
        None => None,
    }
}

/// Whether an item takes an identifier and has none.
pub open spec fn lacks_id(item: ResponseItem) -> bool {
    usable_id(item) is None && item.id_prefix is Some
}

/// The message of a collision.
pub open spec fn collision(id: Seq<char>) -> Seq<char> {
    "deterministic migration response item ID collided with an existing occurrence: "@ + id
}

impl OccurrenceState {
    /// Generated identifiers never coincide with reserved ones.
    pub open spec fn wf(self) -> bool {
        forall|id: Seq<char>| #[trigger]
            self.generated.contains(id) ==> !self.reserved.contains(id)
    }

    /// Whether an identifier is already taken.
    pub open spec fn taken(self, id: Seq<char>) -> bool {
        self.reserved.contains(id) || self.generated.contains(id)
    }
}

/// The first candidate among the first `upto` with a shape that has not been consumed, or `upto`.
pub open spec fn first_match(
    candidates: Seq<CandidateState>,
    consumed: Seq<bool>,
    shape: Shape,
    upto: int,
) -> int
    decreases upto,
{
    if upto <= 0 {
        0
    } else {
        let earlier = first_match(candidates, consumed, shape, upto - 1);
        if earlier < upto - 1 {
            earlier
        } else if !consumed[upto - 1] && candidates[upto - 1].shape == shape {
            upto - 1
        } else {
            upto
        }
    }
}

/// How far the entries of a checkpoint have been given identifiers.
#[verifier::ext_equal]
pub struct Assignment {
    /// The identifier of each entry.
    pub ids: Seq<Option<Seq<char>>>,
    /// The older occurrence that each entry stands for.
    pub sources: Seq<Option<int>>,
    pub consumed: Seq<bool>,
    pub generated: Set<Seq<char>>,
    /// The identifier that was already taken, where one was.
    pub collided: Option<Seq<char>>,
}

/// The identifiers of the first `k` entries of a checkpoint, left to right: an entry with an
/// identifier keeps it, one that copies an older occurrence takes the identifier of the first such
/// occurrence that no earlier entry took, and any other gets a new one.
pub open spec fn assigned(
    s: OccurrenceState,
    entries: Seq<ResponseItemEnvelope>,
    ordinal: u64,
    k: int,
) -> Assignment
    decreases k,
{
    if k <= 0 {
        Assignment {
            ids: Seq::empty(),
            sources: Seq::empty(),
            consumed: Seq::new(s.candidates.len(), |i: int| false),
            generated: s.generated,
            collided: None,
        }
    } else {
        let a = assigned(s, entries, ordinal, k - 1);
        let e = entries[k - 1];
        if a.collided is Some {
            a
        } else if !lacks_id(e.item) {
            Assignment { ids: a.ids.push(usable_id(e.item)), sources: a.sources.push(None), ..a }
        } else {
            let n = s.candidates.len() as int;
            let at = first_match(s.candidates, a.consumed, shape_of(e), n);
            if at < n {
                Assignment {
                    ids: a.ids.push(Some(s.candidates[at].id)),
                    sources: a.sources.push(Some(at)),
                    consumed: a.consumed.update(at, true),
                    ..a
                }
            } else {
                let id = occurrence_id(
                    s.rollout_id,
                    e.item.id_prefix->0@,
                    entry_coordinate(ordinal, k - 1),
                );
                if s.reserved.contains(id) || a.generated.contains(id) {
                    Assignment { collided: Some(id), ..a }
                } else {
                    Assignment {
                        ids: a.ids.push(Some(id)),
                        sources: a.sources.push(None),
                        generated: a.generated.insert(id),
                        ..a
                    }
                }
            }
        }
    }
}

/// The occurrences that the first `k` entries of a checkpoint stand for afterwards.
pub open spec fn rebased(
    entries: Seq<ResponseItemEnvelope>,
    ids: Seq<Option<Seq<char>>>,
    k: int,
) -> Seq<CandidateState>
    decreases k,
{
    if k <= 0 {
        Seq::empty()
    } else {
        let earlier = rebased(entries, ids, k - 1);
        match ids[k - 1] {
            Some(id) => earlier.push(CandidateState { id, shape: shape_of(entries[k - 1]) }),
            None => earlier,
        }
    }
}

/// Whether an envelope is another with the given identifier.
pub open spec fn with_id(
    before: ResponseItemEnvelope,
    after: ResponseItemEnvelope,
    id: Option<Seq<char>>,
) -> bool {
    &&& after == (ResponseItemEnvelope {
        item: ResponseItem { id: after.item.id, ..before.item },
        ..before
    })
    &&& crate::outside::opt_text(after.item.id) == id
}

pub(crate) proof fn lemma_first_match(
    candidates: Seq<CandidateState>,
    consumed: Seq<bool>,
    shape: Shape,
    upto: int,
)
    requires
        0 <= upto <= candidates.len(),
        consumed.len() == candidates.len(),
    ensures
        0 <= first_match(candidates, consumed, shape, upto) <= upto,
        forall|i: int|
            0 <= i < first_match(candidates, consumed, shape, upto) ==> #[trigger] consumed[i]
                || candidates[i].shape != shape,
        first_match(candidates, consumed, shape, upto) < upto ==> !consumed[first_match(
            candidates,
            consumed,
            shape,
            upto,
        )] && candidates[first_match(candidates, consumed, shape, upto)].shape == shape,
    decreases upto,
{
    if upto > 0 {
        lemma_first_match(candidates, consumed, shape, upto - 1);
    }
}

pub(crate) proof fn lemma_assigned(
    s: OccurrenceState,
    entries: Seq<ResponseItemEnvelope>,
    ordinal: u64,
    k: int,
)
    requires
        0 <= k <= entries.len(),
        s.wf(),
    ensures
        ({
            let a = assigned(s, entries, ordinal, k);
            &&& a.consumed.len() == s.candidates.len()
            &&& a.collided is None ==> a.ids.len() == k && a.sources.len() == k
            &&& a.ids.len() == a.sources.len()
            &&& forall|id: Seq<char>| #[trigger]
                a.generated.contains(id) ==> !s.reserved.contains(id)
            &&& forall|id: Seq<char>|
                s.generated.contains(id) ==> #[trigger] a.generated.contains(id)
            &&& forall|i: int|
                0 <= i < a.sources.len() && (#[trigger] a.sources[i]) is Some ==> 0
                    <= a.sources[i]->0 < s.candidates.len() && a.consumed[a.sources[i]->0]
            &&& forall|i: int, j: int|
                0 <= i < j < a.sources.len() && (#[trigger] a.sources[i]) is Some && (
                #[trigger] a.sources[j]) is Some ==> a.sources[i]->0 != a.sources[j]->0
        }),
    decreases k,
{
    if k > 0 {
        lemma_assigned(s, entries, ordinal, k - 1);
        let a = assigned(s, entries, ordinal, k - 1);
        lemma_first_match(
            s.candidates,
            a.consumed,
            shape_of(entries[k - 1]),
            s.candidates.len() as int,
        );
    }
}

/// No older occurrence is taken twice by the entries of one checkpoint.
pub proof fn checkpoint_entries_take_distinct_occurrences(
    s: OccurrenceState,
    entries: Seq<ResponseItemEnvelope>,
    ordinal: u64,
    i: int,
    j: int,
)
    requires
        s.wf(),
        0 <= i < j < entries.len(),
        assigned(s, entries, ordinal, entries.len() as int).collided is None,
        assigned(s, entries, ordinal, entries.len() as int).sources[i] is Some,
        assigned(s, entries, ordinal, entries.len() as int).sources[j] is Some,
    ensures
        assigned(s, entries, ordinal, entries.len() as int).sources[i]->0 != assigned(
            s,
            entries,
            ordinal,
            entries.len() as int,
        ).sources[j]->0,
{
    lemma_assigned(s, entries, ordinal, entries.len() as int);
}

/// What a checkpoint generates never coincides with a reserved identifier, and what was generated
/// before stays taken.
pub proof fn generated_identifiers_are_fresh(
    s: OccurrenceState,
    entries: Seq<ResponseItemEnvelope>,
    ordinal: u64,
    id: Seq<char>,
)
    requires
        s.wf(),
    ensures
        assigned(s, entries, ordinal, entries.len() as int).generated.contains(id)
            ==> !s.reserved.contains(id),
        s.generated.contains(id) ==> assigned(
            s,
            entries,
            ordinal,
            entries.len() as int,
        ).generated.contains(id),
{
    lemma_assigned(s, entries, ordinal, entries.len() as int);
}

/// An empty identifier is dropped.
pub fn normalize_empty_id(item: &mut ResponseItem)
    ensures
        *final(item) == (ResponseItem { id: final(item).id, ..*old(item) }),
        crate::outside::opt_text(final(item).id) == usable_id(*old(item)),
        usable_id(*final(item)) == usable_id(*old(item)),
{
    let empty: bool = match &item.id {
        Some(id) => id.as_str().is_empty(),
        None => false,
    };
    if empty {
        item.id = None;
    }
}

fn candidate(envelope: &ResponseItemEnvelope, id: &str) -> (r: CandidateOccurrence)
    ensures
        r@ == (CandidateState { id: id@, shape: shape_of(*envelope) }),
{
    CandidateOccurrence {
        id: id.to_owned(),
        payload: envelope.item.payload.clone(),
        metadata: match &envelope.metadata {
            Some(metadata) => Some(
                ItemMetadata {
                    user_input_order: metadata.user_input_order,
                    payload: metadata.payload.clone(),
                },
            ),
            None => None,
        },
    }
}

fn same_shape(candidate: &CandidateOccurrence, envelope: &ResponseItemEnvelope) -> (r: bool)
    ensures
        r == (candidate@.shape == shape_of(*envelope)),
{
    let same_metadata: bool = match (&candidate.metadata, &envelope.metadata) {
        (Some(a), Some(b)) => {
            let same_order: bool = match (a.user_input_order, b.user_input_order) {
                (Some(x), Some(y)) => x == y,
                (None, None) => true,
                _ => false,
            };
            same_order && a.payload == b.payload
        },
        (None, None) => true,
        _ => false,
    };
    candidate.payload == envelope.item.payload && same_metadata
}

impl MigrationOccurrenceIds {
    /// An assignment that starts with the given identifiers reserved.
    pub fn new(rollout_id: ThreadId, reserved_ids: StringHashSet) -> (r: Self)
        ensures
            r@.wf(),
            r@ == (OccurrenceState {
                rollout_id,
                reserved: reserved_ids@,
                generated: Set::empty(),
                candidates: Seq::empty(),
            }),
    {
        let r = MigrationOccurrenceIds {
            rollout_id,
            reserved_ids,
            generated_ids: StringHashSet::new(),
            active_candidates: Vec::new(),
        };
        assert(r@.candidates =~= Seq::<CandidateState>::empty());
        r
    }

    fn generate_id(&mut self, prefix: &str, coordinate: &str) -> (r: ThreadStoreResult<String>)
        requires
            old(self)@.wf(),
        ensures
            ({
                let id = occurrence_id(old(self)@.rollout_id, prefix@, coordinate@);
                &&& final(self)@.wf()
                &&& r is Err == old(self)@.taken(id)
                &&& r is Err ==> r->Err_0@ == migration_failure(collision(id)) && final(self)@
                    == old(self)@
                &&& r is Ok ==> r->Ok_0@ == id && final(self)@ == (OccurrenceState {
                    generated: old(self)@.generated.insert(id),
                    ..old(self)@
                })
            }),
    {
        let name: String = concat3(self.rollout_id.to_text().as_str(), ":", coordinate);
        let suffix: u128 = crate::outside::uuid_v5(
            MIGRATION_OCCURRENCE_NAMESPACE,
            name.as_str().as_bytes(),
        );
        let id: String = concat3(prefix, "_", crate::outside::uuid_text(suffix).as_str());
        if self.reserved_ids.contains(id.as_str()) || self.generated_ids.contains(id.as_str()) {
            return Err(
                migration_error(
                    concat2(
                        "deterministic migration response item ID collided with an existing occurrence: ",
                        id.as_str(),
                    ).as_str(),
                ),
            );
        }
        let _ = self.generated_ids.insert(id.clone());
        Ok(id)
    }

    fn match_candidate(&self, consumed: &Vec<bool>, envelope: &ResponseItemEnvelope) -> (r: usize)
        requires
            consumed@.len() == self.active_candidates@.len(),
        ensures
            r == first_match(
                self@.candidates,
                consumed@,
                shape_of(*envelope),
                self@.candidates.len() as int,
            ),
            r <= self.active_candidates@.len(),
    {
        let ghost n = self@.candidates.len() as int;
        let ghost at = first_match(self@.candidates, consumed@, shape_of(*envelope), n);
        proof {
            lemma_first_match(self@.candidates, consumed@, shape_of(*envelope), n);
        }
        let mut i: usize = 0;
        while i < self.active_candidates.len()
            invariant
                i <= at <= n,
                n == self.active_candidates@.len(),
                consumed@.len() == n,
                at == first_match(self@.candidates, consumed@, shape_of(*envelope), n),
                forall|j: int|
                    0 <= j < at ==> #[trigger] consumed@[j] || self@.candidates[j].shape
                        != shape_of(*envelope),
                at < n ==> !consumed@[at] && self@.candidates[at].shape == shape_of(*envelope),
            decreases n - i,
        {
            assert(self@.candidates[i as int] == self.active_candidates@[i as int]@);
            if !consumed[i] && same_shape(&self.active_candidates[i], envelope) {
                return i;
            }
            i += 1;
        }
        i
    }
}


/// What preparing a top-level item leads to.
pub open spec fn item_prepared(
    s: OccurrenceState,
    before: ResponseItemEnvelope,
    ordinal: u64,
    t: OccurrenceState,
    after: ResponseItemEnvelope,
) -> bool {
    let fresh = occurrence_id(s.rollout_id, before.item.id_prefix->0@, top_coordinate(ordinal));
    let id = if lacks_id(before.item) {
        Some(fresh)
    } else {
        usable_id(before.item)
    };
    &&& with_id(before, after, id)
    &&& t == (OccurrenceState {
        generated: if lacks_id(before.item) {
            s.generated.insert(fresh)
        } else {
            s.generated
        },
        candidates: if id is Some {
            s.candidates.push(CandidateState { id: id->0, shape: shape_of(before) })
        } else {
            s.candidates
        },
        ..s
    })
}

/// What preparing a resolved checkpoint leads to.
pub open spec fn checkpoint_prepared(
    s: OccurrenceState,
    before: CompactedItem,
    items: Seq<ResponseItemEnvelope>,
    ordinal: u64,
    t: OccurrenceState,
    after: CompactedItem,
    preparation: OccurrencePreparation,
) -> bool {
    let a = assigned(s, items, ordinal, items.len() as int);
    &&& after == (CompactedItem {
        replacement_history: after.replacement_history,
        replacement_history_entries: None,
        ..before
    })
    &&& after.replacement_history is Some
    &&& after.replacement_history->0@.len() == items.len()
    &&& forall|i: int|
        0 <= i < items.len() ==> with_id(
            #[trigger] items[i],
            after.replacement_history->0@[i],
            a.ids[i],
        )
    &&& t == (OccurrenceState { generated: a.generated, ..s })
    &&& preparation.clear_on_failure
    &&& preparation.next_candidates is Some
    &&& candidate_states(preparation.next_candidates->0@) == rebased(
        items,
        a.ids,
        items.len() as int,
    )
}

/// Whether an item needs the older history to be prepared.
pub open spec fn is_history_checkpoint(item: RolloutItem) -> bool {
    item is Compacted && replaces_history(item->Compacted_0)
}

/// Why an item cannot be prepared, where it cannot.
pub open spec fn preparation_collision(
    s: OccurrenceState,
    item: RolloutItem,
    resolved: ResolvedHistory,
    ordinal: u64,
) -> Option<Seq<char>> {
    match item {
        RolloutItem::ResponseItem(envelope) => {
            let id = occurrence_id(
                s.rollout_id,
                envelope.item.id_prefix->0@,
                top_coordinate(ordinal),
            );
            if lacks_id(envelope.item) && s.taken(id) {
                Some(id)
            } else {
                None
            }
        },
        RolloutItem::Compacted(compacted) => match resolved {
            ResolvedHistory::History { items } => if replaces_history(compacted) {
                assigned(s, items@, ordinal, items@.len() as int).collided
            } else {
                None
            },
            _ => None,
        },
        _ => None,
    }
}

/// What preparing an item leads to.
pub open spec fn preparation_outcome(
    s: OccurrenceState,
    item: RolloutItem,
    resolved: ResolvedHistory,
    ordinal: u64,
    t: OccurrenceState,
    after: RolloutItem,
    preparation: OccurrencePreparation,
) -> bool {
    if item is ResponseItem {
        &&& after is ResponseItem
        &&& item_prepared(s, item->ResponseItem_0, ordinal, t, after->ResponseItem_0)
        &&& preparation.next_candidates is None && !preparation.clear_on_failure
    } else if is_history_checkpoint(item) && resolved is History {
        &&& after is Compacted
        &&& checkpoint_prepared(
            s,
            item->Compacted_0,
            resolved->items@,
            ordinal,
            t,
            after->Compacted_0,
            preparation,
        )
    } else {
        &&& after == item
        &&& preparation.next_candidates is None && !preparation.clear_on_failure
        &&& t == (if is_history_checkpoint(item) && resolved is Unresolved {
            OccurrenceState { candidates: Seq::empty(), ..s }
        } else {
            s
        })
    }
}

/// The state once the references of a prepared item are encoded, or turned out unresolved.
pub open spec fn preparation_finished(
    s: OccurrenceState,
    preparation: OccurrencePreparation,
    success: bool,
) -> OccurrenceState {
    OccurrenceState {
        candidates: if success && preparation.next_candidates is Some {
            candidate_states(preparation.next_candidates->0@)
        } else if !success && preparation.clear_on_failure {
            Seq::empty()
        } else {
            s.candidates
        },
        ..s
    }
}

pub(crate) proof fn lemma_collided_stays(
    s: OccurrenceState,
    entries: Seq<ResponseItemEnvelope>,
    ordinal: u64,
    k: int,
    n: int,
)
    requires
        0 <= k <= n,
        assigned(s, entries, ordinal, k).collided is Some,
    ensures
        assigned(s, entries, ordinal, n) == assigned(s, entries, ordinal, k),
    decreases n,
{
    if k < n {
        lemma_collided_stays(s, entries, ordinal, k, n - 1);
    }
}

impl MigrationOccurrenceIds {
    fn assign_entries(
        &mut self,
        items: Vec<ResponseItemEnvelope>,
        ordinal: u64,
    ) -> (r: ThreadStoreResult<Vec<ResponseItemEnvelope>>)
        requires
            old(self)@.wf(),
        ensures
            ({
                let a = assigned(old(self)@, items@, ordinal, items@.len() as int);
                &&& r is Err == a.collided is Some
                &&& r is Err ==> r->Err_0@ == migration_failure(collision(a.collided->0))
                &&& r is Ok ==> {
                    &&& final(self)@.wf()
                    &&& final(self)@ == (OccurrenceState {
                        generated: a.generated,
                        ..old(self)@
                    })
                    &&& r->Ok_0@.len() == items@.len()
                    &&& forall|i: int|
                        0 <= i < items@.len() ==> with_id(
                            #[trigger] items@[i],
                            r->Ok_0@[i],
                            a.ids[i],
                        )
                }
            }),
    {
        let ghost s = self@;
        let ghost entries = items@;
        let mut out = items;
        let mut consumed: Vec<bool> = Vec::new();
        let mut c: usize = 0;
        while c < self.active_candidates.len()
            invariant
                c <= self.active_candidates@.len(),
                consumed@.len() == c,
                forall|i: int| 0 <= i < c ==> !#[trigger] consumed@[i],
            decreases self.active_candidates@.len() - c,
        {
            consumed.push(false);
            c += 1;
        }
        assert(consumed@ =~= assigned(s, entries, ordinal, 0).consumed);
        let mut i: usize = 0;
        while i < out.len()
            invariant
                s == old(self)@,
                entries == items@,
                s.wf(),
                self@.wf(),
                i <= out@.len(),
                out@.len() == entries.len(),
                self@ == (OccurrenceState {
                    generated: assigned(s, entries, ordinal, i as int).generated,
                    ..s
                }),
                consumed@ == assigned(s, entries, ordinal, i as int).consumed,
                assigned(s, entries, ordinal, i as int).collided is None,
                forall|j: int| i <= j < entries.len() ==> #[trigger] out@[j] == entries[j],
                forall|j: int|
                    0 <= j < i ==> with_id(
                        #[trigger] entries[j],
                        out@[j],
                        assigned(s, entries, ordinal, i as int).ids[j],
                    ),
            decreases out@.len() - i,
        {
            proof {
                lemma_assigned(s, entries, ordinal, i as int);
                lemma_assigned(s, entries, ordinal, i + 1);
            }
            let ghost a = assigned(s, entries, ordinal, i as int);
            let ghost e = entries[i as int];
            let ghost earlier_items = out@;
            let absent: bool = match &out[i].item.id {
                Some(id) => id.as_str().is_empty(),
                None => true,
            };
            let takes: bool = out[i].item.id_prefix.is_some();
            if absent && takes {
                let at: usize = self.match_candidate(&consumed, &out[i]);
                let id: String = if at < self.active_candidates.len() {
                    consumed.set(at, true);
                    assert(s.candidates[at as int] == self.active_candidates@[at as int]@);
                    self.active_candidates[at].id.clone()
                } else {
                    let coordinate: String = crate::text::concat4(
                        "ordinal:",
                        decimal_text(ordinal).as_str(),
                        ":checkpoint-entry:",
                        decimal_text(i as u64).as_str(),
                    );
                    let prefix: String = match &out[i].item.id_prefix {
                        Some(prefix) => prefix.clone(),
                        None => String::new(),
                    };
                    match self.generate_id(prefix.as_str(), coordinate.as_str()) {
                        Ok(id) => id,
                        Err(error) => {
                            proof {
                                let id = occurrence_id(
                                    s.rollout_id,
                                    e.item.id_prefix->0@,
                                    entry_coordinate(ordinal, i as int),
                                );
                                assert(assigned(s, entries, ordinal, i + 1).collided == Some(id));
                                assert(error@ == migration_failure(collision(id)));
                                lemma_collided_stays(
                                    s,
                                    entries,
                                    ordinal,
                                    i + 1,
                                    entries.len() as int,
                                );
                            }
                            return Err(error);
                        },
                    }
                };
                out[i].item.id = Some(id);
            } else if absent {
                out[i].item.id = None;
            }
            proof {
                let b = assigned(s, entries, ordinal, i + 1);
                assert(b.ids.drop_last() =~= a.ids);
                assert forall|j: int| 0 <= j < i + 1 implies with_id(
                    #[trigger] entries[j],
                    out@[j],
                    b.ids[j],
                ) by {
                    if j < i {
                        assert(b.ids[j] == a.ids[j]);
                        assert(out@[j] == earlier_items[j]);
                    }
                }
            }
            i += 1;
        }
        Ok(out)
    }

    /// Gives stable identifiers to an item before references to it are encoded. `resolved` is what
    /// the references of a checkpoint resolve to.
    pub fn prepare_item(
        &mut self,
        item: RolloutItem,
        resolved: ResolvedHistory,
        output_ordinal: u64,
    ) -> (r: ThreadStoreResult<(RolloutItem, OccurrencePreparation)>)
        requires
            old(self)@.wf(),
        ensures
            r is Err == preparation_collision(
                old(self)@,
                item,
                resolved,
                output_ordinal,
            ) is Some,
            r is Err ==> r->Err_0@ == migration_failure(
                collision(
                    preparation_collision(old(self)@, item, resolved, output_ordinal)->0,
                ),
            ),
            r is Ok ==> final(self)@.wf() && final(self)@.rollout_id == old(self)@.rollout_id
                && final(self)@.reserved == old(self)@.reserved,
            r is Ok ==> preparation_outcome(
                old(self)@,
                item,
                resolved,
                output_ordinal,
                final(self)@,
                (r->Ok_0).0,
                (r->Ok_0).1,
            ),
    {
        let ghost s = self@;
        let unchanged = OccurrencePreparation { next_candidates: None, clear_on_failure: false };
        match item {
            RolloutItem::ResponseItem(envelope) => {
                let ghost before = envelope;
                let mut envelope = envelope;
                normalize_empty_id(&mut envelope.item);
                if envelope.item.id.is_none() && envelope.item.id_prefix.is_some() {
                    let coordinate: String = concat3(
                        "ordinal:",
                        decimal_text(output_ordinal).as_str(),
                        ":top",
                    );
                    let prefix: String = match &envelope.item.id_prefix {
                        Some(prefix) => prefix.clone(),
                        None => String::new(),
                    };
                    let id: String = match self.generate_id(prefix.as_str(), coordinate.as_str()) {
                        Ok(id) => id,
                        Err(error) => {
                            return Err(error);
                        },
                    };
                    envelope.item.id = Some(id);
                }
                let ghost middle = self.active_candidates@;
                match &envelope.item.id {
                    Some(id) => {
                        self.active_candidates.push(candidate(&envelope, id.as_str()));
                    },
                    None => {},
                }
                proof {
                    assert(shape_of(envelope) == shape_of(before));
                    if envelope.item.id is Some {
                        assert(candidate_states(self.active_candidates@) =~= candidate_states(
                            middle,
                        ).push(
                            CandidateState {
                                id: envelope.item.id->0@,
                                shape: shape_of(before),
                            },
                        ));
                    }
                    assert(item_prepared(s, before, output_ordinal, self@, envelope));
                }
                Ok((RolloutItem::ResponseItem(envelope), unchanged))
            },
            RolloutItem::Compacted(compacted) => {
                let mut compacted = compacted;
                if compacted.replacement_history.is_none()
                    && compacted.replacement_history_entries.is_none() {
                    return Ok((RolloutItem::Compacted(compacted), unchanged));
                }
                let items: Vec<ResponseItemEnvelope> = match resolved {
                    ResolvedHistory::Unresolved => {
                        self.active_candidates.clear();
                        assert(self@.candidates =~= Seq::<CandidateState>::empty());
                        return Ok((RolloutItem::Compacted(compacted), unchanged));
                    },
                    ResolvedHistory::Nothing => {
                        return Ok((RolloutItem::Compacted(compacted), unchanged));
                    },
                    ResolvedHistory::History { items } => items,
                };
                let ghost entries = items@;
                let items: Vec<ResponseItemEnvelope> = match self.assign_entries(
                    items,
                    output_ordinal,
                ) {
                    Ok(items) => items,
                    Err(error) => {
                        return Err(error);
                    },
                };
                let ghost a = assigned(s, entries, output_ordinal, entries.len() as int);
                proof {
                    lemma_assigned(s, entries, output_ordinal, entries.len() as int);
                }
                let mut next: Vec<CandidateOccurrence> = Vec::new();
                let mut i: usize = 0;
                assert(candidate_states(next@) =~= rebased(entries, a.ids, 0));
                while i < items.len()
                    invariant
                        i <= items@.len(),
                        items@.len() == entries.len(),
                        a.ids.len() == entries.len(),
                        forall|j: int|
                            0 <= j < entries.len() ==> with_id(
                                #[trigger] entries[j],
                                items@[j],
                                a.ids[j],
                            ),
                        candidate_states(next@) == rebased(entries, a.ids, i as int),
                    decreases items@.len() - i,
                {
                    assert(with_id(entries[i as int], items@[i as int], a.ids[i as int]));
                    let ghost earlier = next@;
                    match &items[i].item.id {
                        Some(id) => {
                            next.push(candidate(&items[i], id.as_str()));
                            assert(candidate_states(next@) =~= candidate_states(earlier).push(
                                CandidateState {
                                    id: a.ids[i as int]->0,
                                    shape: shape_of(entries[i as int]),
                                },
                            ));
                        },
                        None => {},
                    }
                    i += 1;
                }
                compacted.replacement_history = Some(items);
                compacted.replacement_history_entries = None;
                let preparation = OccurrencePreparation {
                    next_candidates: Some(next),
                    clear_on_failure: true,
                };
                Ok((RolloutItem::Compacted(compacted), preparation))
            },
            item => Ok((item, unchanged)),
        }
    }

    /// Commits the candidates of an item once its references are encoded.
    pub fn finish_item(&mut self, preparation: OccurrencePreparation, success: bool)
        ensures
            final(self)@ == preparation_finished(old(self)@, preparation, success),
            old(self)@.wf() ==> final(self)@.wf(),
    {
        let clear: bool = preparation.clear_on_failure;
        let ghost before = self@;
        if success {
            match preparation.next_candidates {
                Some(next) => {
                    self.active_candidates = next;
                },
                None => {},
            }
        } else if clear {
            self.active_candidates.clear();
            assert(self@.candidates =~= Seq::<CandidateState>::empty());
        }
        assert(self@.generated == before.generated && self@.reserved == before.reserved);
    }
}

/// Identifiers are deterministic: two copies of a rollout that have come to the same point give a
/// response item the same identifier, and the entries of a checkpoint the same identifiers.
pub proof fn identifiers_are_deterministic(
    s: OccurrenceState,
    item: RolloutItem,
    resolved: ResolvedHistory,
    ordinal: u64,
    t1: OccurrenceState,
    after1: RolloutItem,
    preparation1: OccurrencePreparation,
    t2: OccurrenceState,
    after2: RolloutItem,
    preparation2: OccurrencePreparation,
)
    requires
        preparation_outcome(s, item, resolved, ordinal, t1, after1, preparation1),
        preparation_outcome(s, item, resolved, ordinal, t2, after2, preparation2),
    ensures
        item is ResponseItem ==> after1 is ResponseItem && after2 is ResponseItem && usable_id(
            after1->ResponseItem_0.item,
        ) == usable_id(after2->ResponseItem_0.item),
        is_history_checkpoint(item) && resolved is History ==> {
            &&& after1 is Compacted && after2 is Compacted
            &&& after1->Compacted_0.replacement_history is Some
            &&& after2->Compacted_0.replacement_history is Some
            &&& history_names(after1->Compacted_0.replacement_history->0@) == history_names(
                after2->Compacted_0.replacement_history->0@,
            )
        },
        t1.generated == t2.generated,
        t1.candidates == t2.candidates,
{
    if is_history_checkpoint(item) && resolved is History {
        let items = resolved->items@;
        let a = assigned(s, items, ordinal, items.len() as int);
        let x = after1->Compacted_0.replacement_history->0@;
        let y = after2->Compacted_0.replacement_history->0@;
        assert forall|i: int| 0 <= i < items.len() implies #[trigger] history_names(x)[i]
            == history_names(y)[i] by {
            assert(with_id(items[i], x[i], a.ids[i]));
            assert(with_id(items[i], y[i], a.ids[i]));
        }
        assert(history_names(x) =~= history_names(y));
    }
}

/// The identifiers of the entries of a history.
pub open spec fn history_names(history: Seq<ResponseItemEnvelope>) -> Seq<Option<Seq<char>>> {
    history.map_values(|envelope: ResponseItemEnvelope| usable_id(envelope.item))
}

} // verus!
