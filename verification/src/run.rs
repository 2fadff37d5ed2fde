//! The parts of a migration run and of a retirement pass.

use crate::error::migration_error;
use crate::error::migration_failure;
use crate::error::ErrorView;
use crate::error::ThreadId;
use crate::error::ThreadStoreError;
use crate::error::ThreadStoreResult;
use crate::id_order::text_before;
use crate::id_order::texts_stand_in_the_order_of_values;
use crate::report::matches_selection;
use crate::report::selects;
use crate::report::RolloutMigrationOutcome;
use crate::report::RolloutMigrationProgress;
use crate::report::RolloutMigrationReport;
use crate::report::RolloutMigrationStatus;
use vstd::prelude::*;

verus! {

/// Whether a run may go on, given whether the maintenance lock could be taken.
pub fn maintenance_lock_taken(taken: Result<bool, String>) -> (r: ThreadStoreResult<()>)
    ensures
        match taken {
            Ok(true) => r is Ok,
            Ok(false) => r is Err && r->Err_0@ == ErrorView::Conflict(
                "rollout compression or another migration is already running"@,
            ),
            Err(message) => r is Err && r->Err_0@ == migration_failure(message@),
        },
{
    match taken {
        Ok(true) => Ok(()),
        Ok(false) => Err(
            ThreadStoreError::Conflict {
                message: "rollout compression or another migration is already running".to_owned(),
            },
        ),
        Err(message) => Err(migration_error(message.as_str())),
    }
}

/// A run that has handled some of its rollouts.
#[derive(Debug)]
pub struct MigrationRun {
    pub total_paths: usize,
    pub processed_paths: usize,
    pub report: RolloutMigrationReport,
}

/// The status of an outcome.
pub open spec fn status_of(outcome: Option<RolloutMigrationOutcome>) -> Option<
    RolloutMigrationStatus,
> {
    match outcome {
        Some(outcome) => Some(outcome.status),
        None => None,
    }
}

impl MigrationRun {
    /// A run over some rollouts.
    pub fn new(total_paths: usize) -> (r: Self)
        ensures
            r.total_paths == total_paths,
            r.processed_paths == 0,
            r.report.outcomes@.len() == 0,
    {
        MigrationRun {
            total_paths,
            processed_paths: 0,
            report: RolloutMigrationReport { outcomes: Vec::new() },
        }
    }

    /// Takes in the outcome of one more rollout, where it was asked for, and says how far the run
    /// has come.
    pub fn take_outcome(&mut self, outcome: Option<RolloutMigrationOutcome>) -> (r:
        RolloutMigrationProgress)
        requires
            old(self).processed_paths < old(self).total_paths,
        ensures
            final(self).total_paths == old(self).total_paths,
            final(self).processed_paths == old(self).processed_paths + 1,
            final(self).report.outcomes@ == match outcome {
                Some(outcome) => old(self).report.outcomes@.push(outcome),
                None => old(self).report.outcomes@,
            },
            r == (RolloutMigrationProgress {
                processed_paths: final(self).processed_paths,
                total_paths: old(self).total_paths,
                outcome_status: status_of(outcome),
            }),
    {
        let outcome_status: Option<RolloutMigrationStatus> = match &outcome {
            Some(outcome) => Some(outcome.status),
            None => None,
        };
        if let Some(outcome) = outcome {
            self.report.outcomes.push(outcome);
        }
        self.processed_paths = self.processed_paths + 1;
        RolloutMigrationProgress {
            processed_paths: self.processed_paths,
            total_paths: self.total_paths,
            outcome_status,
        }
    }

    /// What the run reports.
    pub fn finish(self) -> (r: RolloutMigrationReport)
        ensures
            r == self.report,
    {
        self.report
    }
}

/// Whether identifiers stand in ascending order.
pub open spec fn ascends(ids: Seq<ThreadId>) -> bool {
    forall|i: int, j: int|
        0 <= i < j < ids.len() ==> (#[trigger] ids[i]).value <= (#[trigger] ids[j]).value
}

/// Whether identifiers stand in the order of their texts.
pub open spec fn ascends_by_text(ids: Seq<ThreadId>) -> bool {
    forall|i: int, j: int|
        0 <= i < j < ids.len() ==> #[trigger] ids[i] == #[trigger] ids[j] || text_before(
            ids[i].text(),
            ids[j].text(),
        )
}

/// The threads with a retained record that are asked for, in the order of the texts of their
/// identifiers.
pub fn retirement_order(retained: &Vec<ThreadId>, selected: &Vec<ThreadId>) -> (r: Vec<ThreadId>)
    ensures
        ascends_by_text(r@),
        r@.to_multiset() == retained@.filter(
            |id: ThreadId| selects(selected@, Some(id)),
        ).to_multiset(),
{
    let ghost keep = |id: ThreadId| selects(selected@, Some(id));
    let mut sorted: Vec<ThreadId> = Vec::new();
    let mut i: usize = 0;
    proof {
        reveal(Seq::filter);
        assert(retained@.take(0) =~= Seq::<ThreadId>::empty());
    }
    while i < retained.len()
        invariant
            i <= retained@.len(),
            keep == |id: ThreadId| selects(selected@, Some(id)),
            ascends(sorted@),
            sorted@.to_multiset() == retained@.take(i as int).filter(keep).to_multiset(),
        decreases retained.len() - i,
    {
        let id: ThreadId = retained[i];
        proof {
            reveal(Seq::filter);
            assert(retained@.take(i + 1).drop_last() =~= retained@.take(i as int));
        }
        if matches_selection(selected, Some(id)) {
            let mut at: usize = sorted.len();
            while at > 0 && sorted[at - 1].value > id.value
                invariant
                    at <= sorted@.len(),
                    ascends(sorted@),
                    forall|j: int| at <= j < sorted@.len() ==> (#[trigger] sorted@[j]).value > id.value,
                decreases at,
            {
                at -= 1;
            }
            let ghost before = sorted@;
            sorted.insert(at, id);
            proof {
                let after = sorted@;
                assert forall|x: int, y: int| 0 <= x < y < after.len() implies (
                #[trigger] after[x]).value <= (#[trigger] after[y]).value by {
                    if x < at && y < at {
                        assert(after[x] == before[x] && after[y] == before[y]);
                    } else if x < at && y == at {
                        assert(after[x] == before[x]);
                        if at > 0 {
                            assert(before[at - 1].value <= id.value);
                            if x < at - 1 {
                                assert(before[x].value <= before[at - 1].value);
                            }
                        }
                    } else if x < at {
                        assert(after[x] == before[x] && after[y] == before[y - 1]);
                    } else if x == at {
                        assert(after[y] == before[y - 1]);
                        assert(before[y - 1].value > id.value);
                    } else {
                        assert(after[x] == before[x - 1] && after[y] == before[y - 1]);
                    }
                }
                lemma_insert_id(before, at as int, id);
                retained@.take(i as int).filter(keep).to_multiset_ensures();
            }
        }
        i += 1;
    }
    proof {
        assert(retained@.take(retained@.len() as int) =~= retained@);
        let ids = sorted@;
        assert forall|x: int, y: int| 0 <= x < y < ids.len() implies #[trigger] ids[x]
            == #[trigger] ids[y] || text_before(ids[x].text(), ids[y].text()) by {
            if ids[x].value < ids[y].value {
                texts_stand_in_the_order_of_values(ids[x], ids[y]);
            }
        }
    }
    sorted
}

proof fn lemma_insert_id(s: Seq<ThreadId>, at: int, id: ThreadId)
    requires
        0 <= at <= s.len(),
    ensures
        s.insert(at, id).to_multiset() == s.to_multiset().insert(id),
{
    let head = s.take(at);
    let tail = s.skip(at);
    assert(s =~= head + tail);
    assert(s.insert(at, id) =~= head.push(id) + tail);
    vstd::seq_lib::lemma_multiset_commutative(head, tail);
    vstd::seq_lib::lemma_multiset_commutative(head.push(id), tail);
    head.to_multiset_ensures();
    assert(s.insert(at, id).to_multiset() =~= s.to_multiset().insert(id));
}

} // verus!
