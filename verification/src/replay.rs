//! Replayed history that a caller supplies, and whether it is still current.

use crate::error::ErrorView;
use crate::error::ThreadId;
use crate::error::ThreadStoreError;
use crate::error::ThreadStoreResult;
use crate::outside::json_same;
use crate::outside::json_same_value;
use crate::outside::json_value;
use crate::rollout::ThreadHistoryMode;
use crate::text::concat2;
use crate::text::concat5;
use crate::text::decimal;
use crate::text::decimal_text;
use crate::text::texts;
use vstd::prelude::*;

verus! {

/// Which thread a head record names, and how that thread is stored.
#[derive(Clone, Copy, Debug, PartialEq, Eq, Structural)]
pub struct ReplayHead {
    pub id: ThreadId,
    pub history_mode: ThreadHistoryMode,
}

/// One item of a supplied replay.
#[derive(Debug, PartialEq, Eq)]
pub struct ReplayItem {
    /// What the item says, where it is a head record.
    pub head: Option<ReplayHead>,
    /// The item as JSON.
    pub json: String,
}

/// The first head in a replay, if it has one.
pub open spec fn first_head(items: Seq<ReplayItem>) -> Option<ReplayHead>
    decreases items.len(),
{
    if items.len() == 0 {
        None
    } else if items[0].head is Some {
        items[0].head
    } else {
        first_head(items.skip(1))
    }
}

/// The first head in a replay, if it has one.
pub fn supplied_head(items: &Vec<ReplayItem>) -> (r: Option<ReplayHead>)
    ensures
        r == first_head(items@),
{
    let mut i: usize = 0;
    assert(items@.skip(0) =~= items@);
    while i < items.len()
        invariant
            i <= items@.len(),
            first_head(items@.skip(i as int)) == first_head(items@),
        decreases items.len() - i,
    {
        assert(items@.skip(i as int).skip(1) =~= items@.skip(i + 1));
        if items[i].head.is_some() {
            return items[i].head;
        }
        i += 1;
    }
    None
}

/// The JSON texts of a replay.
pub open spec fn replay_texts(items: Seq<ReplayItem>) -> Seq<Seq<char>> {
    items.map_values(|item: ReplayItem| item.json@)
}

/// The error of a comparison that failed at an item.
pub open spec fn comparison_failure(
    thread_id: ThreadId,
    supplied: bool,
    index: nat,
    error: Seq<char>,
) -> ErrorView {
    ErrorView::Internal(
        (if supplied {
            "failed to compare supplied replay item "@
        } else {
            "failed to compare canonical replay item "@
        }) + decimal(index) + " for thread "@ + thread_id.text() + ": "@ + error,
    )
}

/// What the comparison of the items at an index comes to: the items are the same, they differ, or
/// one of them could not be read.
pub open spec fn compared(
    thread_id: ThreadId,
    index: nat,
    comparison: Result<bool, (bool, Seq<char>)>,
) -> Result<bool, ErrorView> {
    match comparison {
        Ok(same) => Ok(same),
        Err((supplied, error)) => Err(comparison_failure(thread_id, supplied, index, error)),
    }
}

/// A comparison by its texts.
pub open spec fn comparison_view(comparison: Result<bool, (bool, String)>) -> Result<
    bool,
    (bool, Seq<char>),
> {
    match comparison {
        Ok(same) => Ok(same),
        Err((supplied, error)) => Err((supplied, error@)),
    }
}

/// A result by the view of its error.
pub open spec fn result_view(result: ThreadStoreResult<bool>) -> Result<bool, ErrorView> {
    match result {
        Ok(same) => Ok(same),
        Err(error) => Err(error@),
    }
}

/// What the comparison of the items at an index comes to.
pub fn take_comparison(
    thread_id: ThreadId,
    index: usize,
    comparison: Result<bool, (bool, String)>,
) -> (r: ThreadStoreResult<bool>)
    ensures
        result_view(r) == compared(thread_id, index as nat, comparison_view(comparison)),
{
    match comparison {
        Ok(same) => Ok(same),
        Err((supplied, error)) => {
            let what: &str = if supplied {
                "failed to compare supplied replay item "
            } else {
                "failed to compare canonical replay item "
            };
            let head: String = concat5(
                what,
                decimal_text(index as u64).as_str(),
                " for thread ",
                thread_id.to_text().as_str(),
                ": ",
            );
            Err(ThreadStoreError::Internal { message: concat2(head.as_str(), error.as_str()) })
        },
    }
}

/// What the comparison of a supplied item with the current one at the same index comes to.
pub fn compare_replay_item(
    thread_id: ThreadId,
    index: usize,
    supplied: &ReplayItem,
    current: &str,
) -> (r: ThreadStoreResult<bool>)
    ensures
        result_view(r) == compared(thread_id, index as nat, json_same(supplied.json@, current@)),
{
    take_comparison(thread_id, index, json_same_value(supplied.json.as_str(), current))
}

/// Whether the items of two replays are the same from an index on. The first pair that differs or
/// cannot be compared decides.
pub open spec fn same_from(
    thread_id: ThreadId,
    supplied: Seq<Seq<char>>,
    current: Seq<Seq<char>>,
    index: nat,
) -> Result<bool, ErrorView>
    decreases supplied.len() - index,
{
    if index >= supplied.len() {
        Ok(true)
    } else {
        match compared(
            thread_id,
            index,
            json_same(supplied[index as int], current[index as int]),
        ) {
            Ok(true) => same_from(thread_id, supplied, current, index + 1),
            decided => decided,
        }
    }
}

/// Whether a supplied replay is the current one.
pub open spec fn replay_is_current(
    thread_id: ThreadId,
    supplied: Seq<Seq<char>>,
    current: Seq<Seq<char>>,
) -> Result<bool, ErrorView> {
    if supplied.len() != current.len() {
        Ok(false)
    } else {
        same_from(thread_id, supplied, current, 0)
    }
}

/// Whether a replay that was supplied before the writer lock was taken is still the current one.
/// The items are compared one by one.
pub fn supplied_history_matches_current(
    thread_id: ThreadId,
    supplied: &Vec<ReplayItem>,
    current: &Vec<String>,
) -> (r: ThreadStoreResult<bool>)
    ensures
        result_view(r) == replay_is_current(thread_id, replay_texts(supplied@), texts(current@)),
{
    if supplied.len() != current.len() {
        return Ok(false);
    }
    let mut index: usize = 0;
    while index < supplied.len()
        invariant
            index <= supplied@.len(),
            supplied@.len() == current@.len(),
            same_from(thread_id, replay_texts(supplied@), texts(current@), index as nat)
                == replay_is_current(thread_id, replay_texts(supplied@), texts(current@)),
        decreases supplied.len() - index,
    {
        match compare_replay_item(thread_id, index, &supplied[index], current[index].as_str()) {
            Ok(true) => {},
            decided => {
                return decided;
            },
        }
        index += 1;
    }
    Ok(true)
}

/// Replays that are not of the same length are never taken for the same.
pub proof fn replays_of_other_lengths_are_stale(
    thread_id: ThreadId,
    supplied: Seq<Seq<char>>,
    current: Seq<Seq<char>>,
)
    ensures
        supplied.len() != current.len() ==> replay_is_current(thread_id, supplied, current)
            == Ok::<bool, ErrorView>(false),
{
}

/// A replay is taken for the current one exactly where there are as many items in both and each
/// item holds the same JSON value as its counterpart.
pub proof fn current_replays_agree_item_by_item(
    thread_id: ThreadId,
    supplied: Seq<Seq<char>>,
    current: Seq<Seq<char>>,
)
    ensures
        replay_is_current(thread_id, supplied, current) == Ok::<bool, ErrorView>(true) <==> {
            &&& supplied.len() == current.len()
            &&& forall|i: int|
                0 <= i < supplied.len() ==> json_value(supplied[i]) is Ok && json_value(
                    supplied[i],
                ) == #[trigger] json_value(current[i])
        },
{
    if supplied.len() == current.len() {
        lemma_same_from(thread_id, supplied, current, 0);
        if forall|i: int|
            0 <= i < supplied.len() ==> json_value(supplied[i]) is Ok && json_value(supplied[i])
                == #[trigger] json_value(current[i]) {
            assert forall|i: int| 0 <= i < supplied.len() implies json_same(
                supplied[i],
                #[trigger] current[i],
            ) == Ok::<bool, (bool, Seq<char>)>(true) by {
                assert(json_value(supplied[i]) == json_value(current[i]));
            }
        }
    }
}

/// A replay whose items can be read and that has not changed is taken for the current one.
pub proof fn unchanged_replays_are_current(thread_id: ThreadId, supplied: Seq<Seq<char>>)
    requires
        forall|i: int| 0 <= i < supplied.len() ==> #[trigger] json_value(supplied[i]) is Ok,
    ensures
        replay_is_current(thread_id, supplied, supplied) == Ok::<bool, ErrorView>(true),
{
    current_replays_agree_item_by_item(thread_id, supplied, supplied);
}

/// Which of two replays was supplied does not matter, where the items of both can be read.
pub proof fn replays_agree_both_ways(
    thread_id: ThreadId,
    supplied: Seq<Seq<char>>,
    current: Seq<Seq<char>>,
)
    requires
        forall|i: int| 0 <= i < supplied.len() ==> #[trigger] json_value(supplied[i]) is Ok,
        forall|i: int| 0 <= i < current.len() ==> #[trigger] json_value(current[i]) is Ok,
    ensures
        replay_is_current(thread_id, supplied, current) == replay_is_current(
            thread_id,
            current,
            supplied,
        ),
{
    if supplied.len() == current.len() {
        lemma_same_from_both_ways(thread_id, supplied, current, 0);
    }
}

proof fn lemma_same_from_both_ways(
    thread_id: ThreadId,
    supplied: Seq<Seq<char>>,
    current: Seq<Seq<char>>,
    index: nat,
)
    requires
        supplied.len() == current.len(),
        forall|i: int| 0 <= i < supplied.len() ==> #[trigger] json_value(supplied[i]) is Ok,
        forall|i: int| 0 <= i < current.len() ==> #[trigger] json_value(current[i]) is Ok,
    ensures
        same_from(thread_id, supplied, current, index) == same_from(
            thread_id,
            current,
            supplied,
            index,
        ),
    decreases supplied.len() - index,
{
    if index < supplied.len() {
        assert(json_value(supplied[index as int]) is Ok);
        assert(json_value(current[index as int]) is Ok);
        lemma_same_from_both_ways(thread_id, supplied, current, index + 1);
    }
}

proof fn lemma_same_from(
    thread_id: ThreadId,
    supplied: Seq<Seq<char>>,
    current: Seq<Seq<char>>,
    index: nat,
)
    requires
        supplied.len() == current.len(),
    ensures
        same_from(thread_id, supplied, current, index) == Ok::<bool, ErrorView>(true) <==> (forall|
            i: int,
        |
            index <= i < supplied.len() ==> json_same(supplied[i], #[trigger] current[i]) == Ok::<
                bool,
                (bool, Seq<char>),
            >(true)),
    decreases supplied.len() - index,
{
    if index < supplied.len() {
        lemma_same_from(thread_id, supplied, current, index + 1);
    }
}

} // verus!
