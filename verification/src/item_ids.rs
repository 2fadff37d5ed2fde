//! The identifiers that response items of a rollout already carry.

use crate::rollout::CompactedHistoryEntry;
use crate::rollout::ResponseItem;
use crate::rollout::ResponseItemEnvelope;
use crate::rollout::RolloutItem;
use vstd::hash_set::StringHashSet;
use vstd::prelude::*;

verus! {

/// The identifier that an item carries, as a set: an empty one does not count.
pub open spec fn carried_id(id: Option<String>) -> Set<Seq<char>> {
    match id {
        Some(text) => named_id(text),
        None => Set::empty(),
    }
}

/// An identifier, as a set: an empty one does not count.
pub open spec fn named_id(text: String) -> Set<Seq<char>> {
    if text@.len() > 0 {
        Set::empty().insert(text@)
    } else {
        Set::empty()
    }
}

/// The identifiers that the items of a history carry.
pub open spec fn history_ids(history: Seq<ResponseItemEnvelope>) -> Set<Seq<char>>
    decreases history.len(),
{
    if history.len() == 0 {
        Set::empty()
    } else {
        history_ids(history.drop_last()).union(carried_id(history.last().item.id))
    }
}

/// The identifier that an entry of a checkpoint carries or refers to.
pub open spec fn entry_id(entry: CompactedHistoryEntry) -> Set<Seq<char>> {
    match entry {
        CompactedHistoryEntry::Inline { item, .. } => carried_id(item.id),
        CompactedHistoryEntry::Reference { item_id } => named_id(item_id),
        CompactedHistoryEntry::ReferenceV2 { item_id, .. } => named_id(item_id),
    }
}

/// The identifiers that the entries of a checkpoint carry or refer to.
pub open spec fn entry_ids(entries: Seq<CompactedHistoryEntry>) -> Set<Seq<char>>
    decreases entries.len(),
{
    if entries.len() == 0 {
        Set::empty()
    } else {
        entry_ids(entries.drop_last()).union(entry_id(entries.last()))
    }
}

/// A set of identifiers.
pub type ItemIds = StringHashSet;

/// No identifiers.
pub fn no_item_ids() -> (r: ItemIds)
    ensures
        r@ == Set::<Seq<char>>::empty(),
{
    StringHashSet::new()
}

/// The identifiers that a record carries or refers to.
pub open spec fn record_ids(item: RolloutItem) -> Set<Seq<char>> {
    match item {
        RolloutItem::ResponseItem(envelope) => carried_id(envelope.item.id),
        RolloutItem::Compacted(compacted) => (match compacted.replacement_history {
            Some(history) => history_ids(history@),
            None => Set::empty(),
        }).union(
            match compacted.replacement_history_entries {
                Some(entries) => entry_ids(entries@),
                None => Set::empty(),
            },
        ),
        _ => Set::empty(),
    }
}

fn collect_id(id: &String, item_ids: &mut ItemIds)
    ensures
        final(item_ids)@ == old(item_ids)@.union(named_id(*id)),
{
    if id.as_str().is_empty() {
        assert(item_ids@.union(named_id(*id)) =~= item_ids@);
    } else {
        let ghost before = item_ids@;
        item_ids.insert(id.clone());
        assert(item_ids@ =~= before.union(named_id(*id)));
    }
}

fn collect_item_id(item: &ResponseItem, item_ids: &mut ItemIds)
    ensures
        final(item_ids)@ == old(item_ids)@.union(carried_id(item.id)),
{
    match &item.id {
        Some(id) => collect_id(id, item_ids),
        None => {
            assert(item_ids@.union(carried_id(item.id)) =~= item_ids@);
        },
    }
}

/// Adds the identifier that an item carries.
pub fn collect_response_item_envelope_id(
    envelope: &ResponseItemEnvelope,
    item_ids: &mut ItemIds,
)
    ensures
        final(item_ids)@ == old(item_ids)@.union(carried_id(envelope.item.id)),
{
    collect_item_id(&envelope.item, item_ids)
}

/// Adds the identifiers that a record carries or refers to, with which identifiers that the
/// migration makes up must not collide.
pub fn collect_response_item_ids(item: &RolloutItem, item_ids: &mut ItemIds)
    ensures
        final(item_ids)@ == old(item_ids)@.union(record_ids(*item)),
{
    let ghost before = item_ids@;
    match item {
        RolloutItem::ResponseItem(envelope) => collect_response_item_envelope_id(
            envelope,
            item_ids,
        ),
        RolloutItem::Compacted(compacted) => {
            let ghost mut from_history: Set<Seq<char>> = Set::empty();
            let ghost mut from_entries: Set<Seq<char>> = Set::empty();
            assert(item_ids@ =~= before.union(from_history));
            if let Some(history) = &compacted.replacement_history {
                let mut i: usize = 0;
                while i < history.len()
                    invariant
                        i <= history@.len(),
                        item_ids@ == before.union(history_ids(history@.take(i as int))),
                    decreases history.len() - i,
                {
                    collect_response_item_envelope_id(&history[i], item_ids);
                    proof {
                        let head = history@.take(i + 1);
                        assert(head.drop_last() =~= history@.take(i as int));
                        assert(item_ids@ =~= before.union(history_ids(head)));
                    }
                    i += 1;
                }
                proof {
                    assert(history@.take(history@.len() as int) =~= history@);
                    from_history = history_ids(history@);
                }
            }
            if let Some(entries) = &compacted.replacement_history_entries {
                let mut i: usize = 0;
                let ghost middle = item_ids@;
                assert(item_ids@ =~= middle.union(entry_ids(entries@.take(0))));
                while i < entries.len()
                    invariant
                        i <= entries@.len(),
                        item_ids@ == middle.union(entry_ids(entries@.take(i as int))),
                    decreases entries.len() - i,
                {
                    match &entries[i] {
                        CompactedHistoryEntry::Inline { item, .. } => collect_item_id(
                            item,
                            item_ids,
                        ),
                        CompactedHistoryEntry::Reference { item_id } => collect_id(
                            item_id,
                            item_ids,
                        ),
                        CompactedHistoryEntry::ReferenceV2 { item_id, .. } => collect_id(
                            item_id,
                            item_ids,
                        ),
                    }
                    proof {
                        let head = entries@.take(i + 1);
                        assert(head.drop_last() =~= entries@.take(i as int));
                        assert(item_ids@ =~= middle.union(entry_ids(head)));
                    }
                    i += 1;
                }
                proof {
                    assert(entries@.take(entries@.len() as int) =~= entries@);
                    from_entries = entry_ids(entries@);
                    assert(item_ids@ =~= before.union(from_history).union(from_entries));
                }
            }
            assert(item_ids@ =~= before.union(from_history.union(from_entries)));
        },
        _ => {
            assert(item_ids@.union(record_ids(*item)) =~= item_ids@);
        },
    }
}

} // verus!
