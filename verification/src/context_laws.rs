//! What holds of every loaded context.

use crate::error::ErrorView;
use crate::error::ThreadId;
use crate::error::ThreadStoreError;
use crate::model_context::context_problem_view;
use crate::model_context::fork_begun;
use crate::model_context::full_replay;
use crate::model_context::with_head;
use crate::model_context::ContextAction;
use crate::model_context::ContextProblem;
use crate::model_context::ContextReply;
use crate::model_context::ContextStepView;
use crate::model_context::ForkStageView;
use crate::model_context::ForkView;
use crate::model_context::LoadStageView;
use crate::model_context::LoadView;
use crate::model_context::ResolvedRollout;
use crate::model_context::ScanStageView;
use crate::model_context::ScanView;
use crate::paths::is_compressed;
use crate::paths::RolloutPath;
use crate::rollout::HistoryPosition;
use crate::rollout::RolloutItem;
use crate::rollout::SessionMeta;
use crate::rollout::ThreadHistoryMode;
use vstd::prelude::*;

verus! {

/// The records of a lineage: the segments oldest first, the records of each newest first. A record
/// that cannot be read has no item.
pub type Lineage = Seq<Seq<Option<RolloutItem>>>;

/// What one segment adds to the history, newest first: its items up to its head.
pub open spec fn delta(records: Seq<Option<RolloutItem>>) -> Seq<RolloutItem>
    decreases records.len(),
{
    if records.len() == 0 {
        Seq::empty()
    } else {
        match records[0] {
            None => delta(records.skip(1)),
            Some(item) => if item is SessionMeta {
                Seq::empty()
            } else {
                seq![item] + delta(records.skip(1))
            },
        }
    }
}

/// What the segments from a position on add to the history, newest first.
pub open spec fn deltas_from(lineage: Lineage, from: nat) -> Seq<RolloutItem>
    decreases lineage.len() - from,
{
    if from >= lineage.len() {
        Seq::empty()
    } else {
        deltas_from(lineage, from + 1) + delta(lineage[from as int])
    }
}

/// The full context of a lineage: the head of the thread, then the history, oldest first.
pub open spec fn full_context(lineage: Lineage, head: SessionMeta) -> Seq<RolloutItem> {
    full_replay(deltas_from(lineage, 0), head)
}

/// Whether a reply tells the truth about a lineage, of whose current segment so many records have
/// been read.
pub open spec fn reads(lineage: Lineage, v: ScanView, read: nat, reply: ContextReply) -> bool {
    match v.stage {
        ScanStageView::OpeningBounded { .. } => reply is Done,
        ScanStageView::ReadingBounded { index } => next_record(lineage, index, read) == reply,
        ScanStageView::Offering { .. } => reply is Answer,
        ScanStageView::Finishing => reply is Items,
        ScanStageView::OpeningFull { .. } => reply is Done,
        ScanStageView::ReadingFull { index, .. } => next_record(lineage, index, read) == reply,
    }
}

/// What comes next in a segment, of which so many records have been read.
pub open spec fn next_record(lineage: Lineage, index: usize, read: nat) -> ContextReply {
    if read < lineage[index as int].len() {
        ContextReply::Record(lineage[index as int][read as int])
    } else {
        ContextReply::NoMore
    }
}

/// Whether a full reading has collected what it has read so far.
pub open spec fn collected(lineage: Lineage, v: ScanView, read: nat) -> bool {
    &&& v.segments == lineage.len()
    &&& match v.stage {
        ScanStageView::OpeningFull { index, items } => {
            &&& index < lineage.len()
            &&& read == 0
            &&& items == deltas_from(lineage, index as nat + 1)
        },
        ScanStageView::ReadingFull { index, items } => {
            &&& index < lineage.len()
            &&& read <= lineage[index as int].len()
            &&& items + delta(lineage[index as int].skip(read as int)) == deltas_from(
                lineage,
                index as nat,
            )
        },
        _ => false,
    }
}

/// Where a full reading stands, and how much of its segment has been read.
pub open spec fn full_step(
    lineage: Lineage,
    head: SessionMeta,
    step: ContextStepView<ScanView>,
    read: nat,
) -> bool {
    match step {
        ContextStepView::Ask(v, action) => {
            &&& v.head == head
            &&& collected(lineage, v, read)
        },
        ContextStepView::End(Ok(items)) => items == full_context(lineage, head),
        ContextStepView::End(Err(_)) => false,
    }
}

/// How many records of its segment a reading has read after a reply.
pub open spec fn read_after(v: ScanView, read: nat, reply: ContextReply) -> nat {
    match (v.stage, reply) {
        (ScanStageView::Offering { .. }, _) => read,
        (ScanStageView::ReadingBounded { .. }, ContextReply::Record(None)) => read + 1,
        (ScanStageView::ReadingBounded { .. }, ContextReply::Record(Some(item))) => {
            if item is SessionMeta {
                0
            } else {
                read + 1
            }
        },
        (ScanStageView::OpeningFull { .. }, _) => 0,
        (ScanStageView::ReadingFull { .. }, ContextReply::Record(None)) => read + 1,
        (ScanStageView::ReadingFull { .. }, ContextReply::Record(Some(item))) => {
            if item is SessionMeta {
                0
            } else {
                read + 1
            }
        },
        _ => 0,
    }
}

/// A full reading collects what every segment adds, and ends with the head of the thread followed
/// by the whole history in order. Records that cannot be read are passed over, and of each segment
/// nothing is taken from its head on.
pub proof fn full_readings_collect_every_delta(
    lineage: Lineage,
    v: ScanView,
    read: nat,
    reply: ContextReply,
)
    requires
        collected(lineage, v, read),
        reads(lineage, v, read, reply),
    ensures
        full_step(lineage, v.head, v.next(reply), read_after(v, read, reply)),
{
    match v.stage {
        ScanStageView::OpeningFull { index, items } => {
            let records = lineage[index as int];
            assert(records.skip(0) =~= records);
        },
        ScanStageView::ReadingFull { index, items } => {
            let records = lineage[index as int];
            let rest = records.skip(read as int);
            if read < records.len() {
                assert(rest.skip(1) =~= records.skip((read + 1) as int));
                match records[read as int] {
                    None => {},
                    Some(item) => {
                        if item is SessionMeta {
                            assert(items + delta(rest) =~= items);
                        } else {
                            assert(items.push(item) + delta(rest.skip(1)) =~= items + (seq![item]
                                + delta(rest.skip(1))));
                        }
                    },
                }
            } else {
                assert(items + delta(rest) =~= items);
            }
        },
        _ => {},
    }
}

/// A full reading begins with the newest segment and nothing collected.
pub proof fn full_readings_begin_empty(lineage: Lineage, v: ScanView)
    requires
        v.segments == lineage.len(),
    ensures
        full_step(lineage, v.head, v.full_from(v.segments as nat, Seq::empty()), 0),
{
}

/// A bounded reading never reads on before the last item has been answered, and it never offers a
/// head. Where it is complete it is finished with the head of the thread. Where it is not complete
/// at the end of the lineage, the lineage is read in full.
pub proof fn bounded_readings_end_complete_or_in_full(v: ScanView, reply: ContextReply)
    ensures
        v.next(reply) matches ContextStepView::Ask(next, action) ==> {
            &&& next.head == v.head && next.segments == v.segments
            &&& action matches ContextAction::Offer { item } ==> {
                &&& v.stage is ReadingBounded && reply == ContextReply::Record(Some(item))
                &&& item !is SessionMeta
            }
            &&& next.stage is Finishing ==> {
                &&& v.stage is Offering && reply == ContextReply::Answer(true)
                &&& action == (ContextAction::FinishBounded { head: v.head })
            }
            &&& next.stage is OpeningFull && v.stage is ReadingBounded ==> {
                &&& v.stage->ReadingBounded_index == 0
                &&& next.stage->OpeningFull_index == v.segments - 1
                &&& next.stage->OpeningFull_items.len() == 0
            }
        },
{
}

/// The items offered so far, with the one that a step offers.
pub open spec fn offered_after(
    offered: Seq<RolloutItem>,
    step: ContextStepView<ScanView>,
) -> Seq<RolloutItem> {
    match step {
        ContextStepView::Ask(_, ContextAction::Offer { item }) => offered.push(item),
        _ => offered,
    }
}

/// Whether a reading has offered what it has read so far, and whether it has ended or goes on in
/// full only where it was complete or everything has been offered.
pub open spec fn has_offered(
    lineage: Lineage,
    step: ContextStepView<ScanView>,
    read: nat,
    offered: Seq<RolloutItem>,
) -> bool {
    let all = deltas_from(lineage, 0);
    match step {
        ContextStepView::Ask(v, action) => {
            &&& v.segments == lineage.len()
            &&& match v.stage {
                ScanStageView::OpeningBounded { index } => {
                    &&& index < lineage.len()
                    &&& read == 0
                    &&& offered == deltas_from(lineage, index as nat + 1)
                },
                ScanStageView::ReadingBounded { index } => {
                    &&& index < lineage.len()
                    &&& read <= lineage[index as int].len()
                    &&& offered + delta(lineage[index as int].skip(read as int)) == deltas_from(
                        lineage,
                        index as nat,
                    )
                },
                ScanStageView::Offering { index } => {
                    &&& index < lineage.len()
                    &&& read <= lineage[index as int].len()
                    &&& offered.len() > 0
                    &&& action == (ContextAction::Offer { item: offered.last() })
                    &&& offered + delta(lineage[index as int].skip(read as int)) == deltas_from(
                        lineage,
                        index as nat,
                    )
                },
                ScanStageView::Finishing => offered.is_prefix_of(all),
                ScanStageView::OpeningFull { .. } => offered == all,
                ScanStageView::ReadingFull { .. } => offered == all,
            }
        },
        ContextStepView::End(_) => offered.is_prefix_of(all),
    }
}

proof fn lemma_deltas_are_prefixes(lineage: Lineage, from: nat, to: nat)
    requires
        from <= to,
    ensures
        deltas_from(lineage, to).is_prefix_of(deltas_from(lineage, from)),
    decreases to - from,
{
    if from < to && from < lineage.len() {
        lemma_deltas_are_prefixes(lineage, from + 1, to);
    }
}

/// Whatever a reading has offered is a beginning of the history, newest item first.
proof fn lemma_offered_is_a_prefix(
    lineage: Lineage,
    step: ContextStepView<ScanView>,
    read: nat,
    offered: Seq<RolloutItem>,
)
    requires
        has_offered(lineage, step, read, offered),
    ensures
        offered.is_prefix_of(deltas_from(lineage, 0)),
{
    if let ContextStepView::Ask(v, _) = step {
        match v.stage {
            ScanStageView::OpeningBounded { index } => {
                lemma_deltas_are_prefixes(lineage, 0, index as nat + 1);
            },
            ScanStageView::ReadingBounded { index } => {
                lemma_deltas_are_prefixes(lineage, 0, index as nat);
            },
            ScanStageView::Offering { index } => {
                lemma_deltas_are_prefixes(lineage, 0, index as nat);
            },
            _ => {},
        }
    }
}

/// A reading begins with nothing offered.
pub proof fn bounded_readings_begin_with_nothing_offered(lineage: Lineage, v: ScanView)
    requires
        v.segments == lineage.len(),
    ensures
        has_offered(lineage, v.bounded_from(v.segments as nat), 0, Seq::empty()),
{
    if lineage.len() > 0 {
        assert(deltas_from(lineage, lineage.len()) =~= Seq::<RolloutItem>::empty());
    } else {
        assert(deltas_from(lineage, 0) =~= Seq::<RolloutItem>::empty());
    }
}

/// A bounded reading offers every item at most once and in order: the items offered so far are
/// always the newest ones of the history, with none left out. The lineage is read in full only
/// where all of them have been offered.
pub proof fn bounded_readings_offer_the_newest_items(
    lineage: Lineage,
    v: ScanView,
    action: ContextAction,
    read: nat,
    offered: Seq<RolloutItem>,
    reply: ContextReply,
)
    requires
        has_offered(lineage, ContextStepView::Ask(v, action), read, offered),
        reads(lineage, v, read, reply),
    ensures
        has_offered(
            lineage,
            v.next(reply),
            read_after(v, read, reply),
            offered_after(offered, v.next(reply)),
        ),
        offered_after(offered, v.next(reply)).is_prefix_of(deltas_from(lineage, 0)),
{
    let next = v.next(reply);
    let more = offered_after(offered, next);
    match v.stage {
        ScanStageView::OpeningBounded { index } => {
            let records = lineage[index as int];
            assert(records.skip(0) =~= records);
        },
        ScanStageView::ReadingBounded { index } => {
            let records = lineage[index as int];
            let rest = records.skip(read as int);
            if read < records.len() {
                assert(rest.skip(1) =~= records.skip((read + 1) as int));
                match records[read as int] {
                    None => {},
                    Some(item) => {
                        if item is SessionMeta {
                            assert(offered + delta(rest) =~= offered);
                        } else {
                            assert(offered.push(item) + delta(rest.skip(1)) =~= offered + (
                            seq![item] + delta(rest.skip(1))));
                        }
                    },
                }
            } else {
                assert(offered + delta(rest) =~= offered);
            }
        },
        ScanStageView::Offering { index } => {
            lemma_offered_is_a_prefix(lineage, ContextStepView::Ask(v, action), read, offered);
        },
        _ => {},
    }
    lemma_offered_is_a_prefix(lineage, next, read_after(v, read, reply), more);
}

/// Every context of a paginated lineage begins with a head.
pub proof fn contexts_begin_with_a_head(v: ScanView, reply: ContextReply)
    ensures
        v.next(reply) matches ContextStepView::End(Ok(items)) ==> items.len() > 0
            && items[0] is SessionMeta,
{
}

/// Putting a head in front of a context that has one changes nothing.
pub proof fn heads_are_put_in_front_once(items: Seq<RolloutItem>, head: SessionMeta)
    ensures
        with_head(with_head(items, head), head) == with_head(items, head),
{
}

/// The replay of items that were read newest first begins with the head and holds the items oldest
/// first, each once.
pub proof fn replays_hold_the_items_oldest_first(
    newest_first: Seq<RolloutItem>,
    head: SessionMeta,
    i: int,
)
    ensures
        full_replay(newest_first, head).len() == newest_first.len() + 1,
        full_replay(newest_first, head)[0] == RolloutItem::SessionMeta(head),
        0 <= i < newest_first.len() ==> full_replay(newest_first, head)[newest_first.len() - i]
            == newest_first[i],
{
}

/// A context keeps its items behind the head: with a head in front it is unchanged, and without one
/// it is moved back by the head alone.
pub proof fn heads_are_put_before_the_items(items: Seq<RolloutItem>, head: SessionMeta)
    ensures
        items.len() > 0 && items[0] is SessionMeta ==> with_head(items, head) == items,
        items.len() == 0 || items[0] !is SessionMeta ==> {
            &&& with_head(items, head).len() == items.len() + 1
            &&& with_head(items, head)[0] == RolloutItem::SessionMeta(head)
            &&& with_head(items, head).skip(1) == items
        },
{
}

/// Whether a reading asks for what its stage waits for.
pub open spec fn asks_for_its_stage(v: ScanView, action: ContextAction) -> bool {
    match v.stage {
        ScanStageView::OpeningBounded { index } => action == (ContextAction::OpenSegment { index }),
        ScanStageView::ReadingBounded { .. } => action == ContextAction::NextRecord,
        ScanStageView::Offering { .. } => action is Offer,
        ScanStageView::Finishing => action == (ContextAction::FinishBounded { head: v.head }),
        ScanStageView::OpeningFull { index, .. } => action == (ContextAction::OpenSegment {
            index,
        }),
        ScanStageView::ReadingFull { .. } => action == ContextAction::NextRecord,
    }
}

/// A reading always asks for what it waits for: the segment that it opens, the next record, the
/// answer to an offer, or the items of the bounded context of its head. Its head and its number of
/// segments never change.
pub proof fn readings_ask_for_what_they_wait_for(v: ScanView, reply: ContextReply)
    ensures
        v.next(reply) matches ContextStepView::Ask(next, action) ==> asks_for_its_stage(next, action)
            && next.head == v.head && next.segments == v.segments,
        v.bounded_from(v.segments as nat) matches ContextStepView::Ask(next, action)
            ==> asks_for_its_stage(next, action) && next.head == v.head && next.segments
            == v.segments,
{
}

/// A reading that is told of a failure ends with it, wherever it stands, and no reading ends without
/// its context on a reply that it does not wait for.
pub proof fn readings_end_with_the_failure_they_are_told(
    v: ScanView,
    error: String,
    rejection: ThreadStoreError,
)
    ensures
        v.next(ContextReply::Failed(error)) == ContextStepView::<ScanView>::End(
            Err(ContextProblem::ScanFailed { error }),
        ),
        v.next(ContextReply::Rejected(rejection)) == ContextStepView::<ScanView>::End(
            Err(ContextProblem::Rejected(rejection)),
        ),
        v.next(ContextReply::Resolved(None)) == ContextStepView::<ScanView>::End(
            Err(ContextProblem::UnexpectedReply),
        ),
        v.next(ContextReply::Lineage { segments: 0 }) == ContextStepView::<ScanView>::End(
            Err(ContextProblem::UnexpectedReply),
        ),
{
}

/// The items of a bounded context that is complete are the context, behind the head of the thread.
pub proof fn complete_contexts_are_their_items(head: SessionMeta, segments: usize, items: Vec<RolloutItem>)
    ensures
        ({
            let v = ScanView { head, segments, stage: ScanStageView::Finishing };
            let end = v.next(ContextReply::Items(items));
            &&& end is End
            &&& end->End_0 is Ok
            &&& items@.len() > 0 && items@[0] is SessionMeta ==> end->End_0->Ok_0 == items@
            &&& items@.len() == 0 || items@[0] !is SessionMeta ==> end->End_0->Ok_0 == seq![
                RolloutItem::SessionMeta(head),
            ] + items@
        }),
{
}

/// A fork begins with the head of its source. With a base it goes on to the lineage up to the base
/// and opens the newest segment of that; the head alone is its context only where it has no base or
/// the lineage has no segment. Without a source there is nothing to load.
pub proof fn forks_read_the_lineage_up_to_their_base(
    path: RolloutPath,
    base: HistoryPosition,
    head: SessionMeta,
    segments: usize,
)
    ensures
        fork_begun(None, Some(base)) == ContextStepView::<ForkView>::End(
            Err(ContextProblem::NoSource),
        ),
        fork_begun(None, None) == ContextStepView::<ForkView>::End(Err(ContextProblem::NoSource)),
        ({
            let begun = fork_begun(Some(path), Some(base));
            let read = begun->Ask_0.next(ContextReply::Head(head));
            let cut = read->Ask_0.next(ContextReply::Lineage { segments });
            &&& begun is Ask && begun->Ask_1 == (ContextAction::ReadHead { path })
            &&& read is Ask && read->Ask_1 == (ContextAction::TruncateLineage { base })
            &&& segments > 0 ==> {
                &&& cut is Ask
                &&& cut->Ask_1 == (ContextAction::OpenSegment { index: (segments - 1) as usize })
                &&& cut->Ask_0.history_base == Some(base)
                &&& cut->Ask_0.stage is Scanning
                &&& cut->Ask_0.stage->Scanning_0.head == head
                &&& cut->Ask_0.stage->Scanning_0.segments == segments
                &&& cut->Ask_0.stage->Scanning_0.stage == (ScanStageView::OpeningBounded {
                    index: (segments - 1) as usize,
                })
            }
            &&& segments == 0 ==> cut == ContextStepView::<ForkView>::End(
                Ok(seq![RolloutItem::SessionMeta(head)]),
            )
        }),
        ({
            let begun = fork_begun(Some(path), None);
            let read = begun->Ask_0.next(ContextReply::Head(head));
            &&& begun is Ask && begun->Ask_1 == (ContextAction::ReadHead { path })
            &&& read == ContextStepView::<ForkView>::End(Ok(seq![RolloutItem::SessionMeta(head)]))
        }),
{
    assert(Seq::<RolloutItem>::empty().reverse() =~= Seq::empty());
    assert(seq![RolloutItem::SessionMeta(head)] + Seq::<RolloutItem>::empty() =~= seq![
        RolloutItem::SessionMeta(head),
    ]);
}

/// Whether the reading of a fork stands where it has read the lineage so far.
pub open spec fn fork_reads(lineage: Lineage, scan: ScanView, read: nat) -> bool {
    &&& scan.segments == lineage.len()
    &&& match scan.stage {
        ScanStageView::OpeningBounded { index } => index < lineage.len(),
        ScanStageView::ReadingBounded { index } => index < lineage.len(),
        ScanStageView::Offering { index } => index < lineage.len(),
        ScanStageView::Finishing => lineage.len() > 0,
        _ => collected(lineage, scan, read),
    }
}

/// A fork with a base ends only with what reading the lineage ends with: the bounded context behind
/// the head where the reading is finishing one, and the full context of the lineage behind the head
/// where the reading has read all of it. Until then it goes on reading the same lineage.
pub proof fn forks_end_with_what_their_lineage_holds(
    lineage: Lineage,
    base: HistoryPosition,
    scan: ScanView,
    read: nat,
    reply: ContextReply,
)
    requires
        fork_reads(lineage, scan, read),
        reads(lineage, scan, read, reply),
    ensures
        ({
            let v = ForkView { history_base: Some(base), stage: ForkStageView::Scanning(scan) };
            match v.next(reply) {
                ContextStepView::End(Ok(context)) => {
                    ||| scan.stage is ReadingFull && context == full_context(lineage, scan.head)
                    ||| scan.stage is Finishing && reply is Items && context == with_head(
                        reply->Items_0@,
                        scan.head,
                    )
                },
                ContextStepView::End(Err(_)) => false,
                ContextStepView::Ask(next, action) => {
                    &&& next.history_base == Some(base)
                    &&& next.stage is Scanning
                    &&& next.stage->Scanning_0.head == scan.head
                    &&& fork_reads(lineage, next.stage->Scanning_0, read_after(scan, read, reply))
                    &&& asks_for_its_stage(next.stage->Scanning_0, action)
                },
            }
        }),
{
    if collected(lineage, scan, read) {
        full_readings_collect_every_delta(lineage, scan, read, reply);
    } else {
        full_readings_begin_empty(lineage, scan);
    }
    readings_ask_for_what_they_wait_for(scan, reply);
}

/// A fork whose head cannot be read says so; a lineage that cannot be cut, or a reading that fails,
/// ends it with that failure.
pub proof fn forks_end_with_the_failure_they_are_told(
    v: ForkView,
    error: String,
    rejection: ThreadStoreError,
)
    ensures
        v.next(ContextReply::Failed(error)) == ContextStepView::<ForkView>::End(
            match v.stage {
                ForkStageView::ReadingHead(path) => Err(
                    ContextProblem::UnreadableHead { path, error },
                ),
                _ => Err(ContextProblem::ScanFailed { error }),
            },
        ),
        v.next(ContextReply::Rejected(rejection)) == ContextStepView::<ForkView>::End(
            Err(ContextProblem::Rejected(rejection)),
        ),
{
}

/// The loading of a thread begins with the head of its rollout, and fails where there is none.
pub proof fn loadings_begin_with_the_head_of_the_rollout(thread_id: ThreadId, rollout: ResolvedRollout)
    ensures
        ({
            let v = LoadView { thread_id, stage: LoadStageView::Resolving };
            let found = v.next(ContextReply::Resolved(Some(rollout)));
            let known = v.from_rollout(rollout);
            &&& v.next(ContextReply::Resolved(None)) == ContextStepView::<LoadView>::End(
                Err(ContextProblem::NotFound { thread_id }),
            )
            &&& found is Ask && found->Ask_1 == (ContextAction::ReadHead { path: rollout.path })
            &&& found->Ask_0.stage == LoadStageView::ReadingHead(rollout)
            &&& found->Ask_0.thread_id == thread_id
            &&& known == found
        }),
{
}

/// What the head of a rollout calls for: a rollout of another thread is refused; a plain paginated
/// one has its lineage read, newest segment first; a legacy or compressed one is loaded as it is.
pub proof fn heads_decide_how_a_context_is_read(
    thread_id: ThreadId,
    rollout: ResolvedRollout,
    head: SessionMeta,
    segments: usize,
)
    ensures
        ({
            let v = LoadView { thread_id, stage: LoadStageView::ReadingHead(rollout) };
            let step = v.next(ContextReply::Head(head));
            let lineage = (head.history_mode == ThreadHistoryMode::Paginated || head.history_mode
                == ThreadHistoryMode::PaginatedRefsV1) && !is_compressed(rollout.path@);
            let cut = step->Ask_0.next(ContextReply::Lineage { segments });
            &&& head.id != thread_id ==> step == ContextStepView::<LoadView>::End(
                Err(
                    ContextProblem::OtherThread {
                        path: rollout.path,
                        found: head.id,
                        thread_id,
                    },
                ),
            )
            &&& head.id == thread_id && lineage ==> {
                &&& step is Ask
                &&& step->Ask_0.thread_id == thread_id
                &&& step->Ask_1 == (ContextAction::ResolveLineage {
                    thread_id,
                    rollout_id: rollout.rollout_id,
                    path: rollout.path,
                })
                &&& segments > 0 ==> {
                    &&& cut is Ask
                    &&& cut->Ask_1 == (ContextAction::OpenSegment {
                        index: (segments - 1) as usize,
                    })
                    &&& cut->Ask_0.stage is Scanning
                    &&& cut->Ask_0.stage->Scanning_0.head == head
                    &&& cut->Ask_0.stage->Scanning_0.segments == segments
                    &&& cut->Ask_0.stage->Scanning_0.stage == (ScanStageView::OpeningBounded {
                        index: (segments - 1) as usize,
                    })
                }
                &&& segments == 0 ==> cut == ContextStepView::<LoadView>::End(
                    Ok(seq![RolloutItem::SessionMeta(head)]),
                )
            }
            &&& head.id == thread_id && !lineage ==> {
                &&& step is Ask
                &&& step->Ask_0.stage is Loading
                &&& step->Ask_1 == (ContextAction::LoadHistory { path: rollout.path })
            }
        }),
{
    assert(Seq::<RolloutItem>::empty().reverse() =~= Seq::empty());
    assert(seq![RolloutItem::SessionMeta(head)] + Seq::<RolloutItem>::empty() =~= seq![
        RolloutItem::SessionMeta(head),
    ]);
}

/// A history that is loaded as it is is the context, unchanged.
pub proof fn loaded_histories_are_the_context(thread_id: ThreadId, items: Vec<RolloutItem>)
    ensures
        (LoadView { thread_id, stage: LoadStageView::Loading }).next(ContextReply::Items(items))
            == ContextStepView::<LoadView>::End(Ok(items@)),
{
}

/// A thread whose lineage is read has what reading the lineage ends with as its context.
pub proof fn threads_end_with_what_their_lineage_holds(
    lineage: Lineage,
    thread_id: ThreadId,
    scan: ScanView,
    read: nat,
    reply: ContextReply,
)
    requires
        fork_reads(lineage, scan, read),
        reads(lineage, scan, read, reply),
    ensures
        ({
            let v = LoadView { thread_id, stage: LoadStageView::Scanning(scan) };
            match v.next(reply) {
                ContextStepView::End(Ok(context)) => {
                    ||| scan.stage is ReadingFull && context == full_context(lineage, scan.head)
                    ||| scan.stage is Finishing && reply is Items && context == with_head(
                        reply->Items_0@,
                        scan.head,
                    )
                },
                ContextStepView::End(Err(_)) => false,
                ContextStepView::Ask(next, action) => {
                    &&& next.thread_id == thread_id
                    &&& next.stage is Scanning
                    &&& next.stage->Scanning_0.head == scan.head
                    &&& fork_reads(lineage, next.stage->Scanning_0, read_after(scan, read, reply))
                    &&& asks_for_its_stage(next.stage->Scanning_0, action)
                },
            }
        }),
{
    if collected(lineage, scan, read) {
        full_readings_collect_every_delta(lineage, scan, read, reply);
    } else {
        full_readings_begin_empty(lineage, scan);
    }
    readings_ask_for_what_they_wait_for(scan, reply);
}

/// The loading of a thread ends with the failure it is told, and says where the head cannot be read.
pub proof fn loadings_end_with_the_failure_they_are_told(
    v: LoadView,
    error: String,
    rejection: ThreadStoreError,
)
    ensures
        v.next(ContextReply::Failed(error)) == ContextStepView::<LoadView>::End(
            match v.stage {
                LoadStageView::ReadingHead(rollout) => Err(
                    ContextProblem::UnreadableHead { path: rollout.path, error },
                ),
                _ => Err(ContextProblem::ScanFailed { error }),
            },
        ),
        v.next(ContextReply::Rejected(rejection)) == ContextStepView::<LoadView>::End(
            Err(ContextProblem::Rejected(rejection)),
        ),
{
}

/// A request for a thread without a rollout, or with the rollout of another thread, is invalid; every
/// other problem is an internal error, and a rejection is handed on.
pub proof fn missing_and_foreign_rollouts_are_invalid_requests(
    thread_id: ThreadId,
    found: ThreadId,
    path: RolloutPath,
    error: String,
    rejection: ThreadStoreError,
)
    ensures
        context_problem_view(ContextProblem::NotFound { thread_id }) == ErrorView::InvalidRequest(
            "no rollout found for thread id "@ + thread_id.text(),
        ),
        context_problem_view(ContextProblem::OtherThread { path, found, thread_id })
            == ErrorView::InvalidRequest(
            "rollout at "@ + path@ + " belongs to thread "@ + found.text() + ", not "@
                + thread_id.text(),
        ),
        context_problem_view(ContextProblem::Rejected(rejection)) == rejection@,
        context_problem_view(ContextProblem::ScanFailed { error }) == ErrorView::Internal(
            "failed to scan paginated model context lineage: "@ + error@,
        ),
        context_problem_view(ContextProblem::ScanLost { error }) == ErrorView::Internal(
            "failed to join model context scan: "@ + error@,
        ),
        context_problem_view(ContextProblem::UnreadableHead { path, error })
            == ErrorView::Internal("failed to read session metadata "@ + path@ + ": "@ + error@),
        context_problem_view(ContextProblem::NoSource) == ErrorView::Internal(
            "fork lineage has no source segment"@,
        ),
        context_problem_view(ContextProblem::UnexpectedReply) is Internal,
{
}

} // verus!
