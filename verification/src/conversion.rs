//! Turning the records of a source into a staged rollout.

use crate::error::migration_error;
use crate::error::migration_failure;
use crate::error::ThreadId;
use crate::error::ThreadStoreResult;
use crate::report::RolloutMigrationFailure;
use crate::report::RolloutMigrationFailureReason;
use crate::rollback_apply::plan_gives;
use crate::rollback_apply::PlanState;
use crate::rollback_apply::PlannedRecord;
use crate::rollback_apply::RollbackPlan;
use crate::rollout::is_rollback_marker;
use crate::rollout::item_is_rollback_marker;
use crate::rollout::CompactionResolution;
use crate::rollout::RolloutItem;
use crate::rollout::RolloutLine;
use crate::rollout::SessionMeta;
use crate::rollout::ThreadHistoryMode;
use crate::text::concat2;
use crate::text::concat4;
use crate::text::decimal;
use crate::text::decimal_text;
use crate::text::join_texts;
use crate::text::joined;
use crate::text::texts;
use vstd::prelude::*;

verus! {

/// The search for the metadata with which canonical history begins: what one more record of the
/// source gives, or an error at the end of the source.
pub fn canonical_head(line: Option<Option<RolloutLine>>) -> (r: Result<
    Option<RolloutLine>,
    RolloutMigrationFailure,
>)
    ensures
        match line {
            None => r is Err && r->Err_0.reason
                == RolloutMigrationFailureReason::InvalidSessionMetadata && r->Err_0.error@
                == migration_failure("rollout contains no session metadata"@),
            Some(line) => r is Ok && r->Ok_0 == if line is Some && line->0.item is SessionMeta {
                line
            } else {
                None
            },
        },
{
    match line {
        None => Err(
            RolloutMigrationFailure::new(
                RolloutMigrationFailureReason::InvalidSessionMetadata,
                migration_error("rollout contains no session metadata"),
            ),
        ),
        Some(None) => Ok(None),
        Some(Some(line)) => match &line.item {
            RolloutItem::SessionMeta(_) => Ok(Some(line)),
            _ => Ok(None),
        },
    }
}

/// How an attempt to write canonical history ended.
#[derive(Clone, Copy, Debug, PartialEq, Eq, Structural)]
pub enum CanonicalizationAttempt {
    Complete { expected_length: u64, expected_ordinal: u64 },
    /// The source holds a rollback, and the attempt had no plan for it.
    NeedsRollbackPlan,
}

/// What follows an attempt.
#[derive(Clone, Copy, Debug, PartialEq, Eq, Structural)]
pub enum AfterAttempt {
    /// The staged rollout is complete.
    Written { expected_length: u64, expected_ordinal: u64 },
    /// The staged rollout is discarded, a plan is made, and a second attempt follows it.
    PlanAndRetry,
}

/// What follows an attempt, made with a plan or without one.
pub fn write_rollout_with_rollback_plan(planned: bool, attempt: CanonicalizationAttempt) -> (r:
    ThreadStoreResult<AfterAttempt>)
    ensures
        r is Err <==> planned && attempt is NeedsRollbackPlan,
        r is Err ==> r->Err_0@ == migration_failure(
            "planned rollout still contains a rollback marker"@,
        ),
        r is Ok ==> r->Ok_0 == match attempt {
            CanonicalizationAttempt::Complete { expected_length, expected_ordinal } => {
                AfterAttempt::Written { expected_length, expected_ordinal }
            },
            CanonicalizationAttempt::NeedsRollbackPlan => AfterAttempt::PlanAndRetry,
        },
{
    match attempt {
        CanonicalizationAttempt::Complete { expected_length, expected_ordinal } => Ok(
            AfterAttempt::Written { expected_length, expected_ordinal },
        ),
        CanonicalizationAttempt::NeedsRollbackPlan => {
            if planned {
                Err(migration_error("planned rollout still contains a rollback marker"))
            } else {
                Ok(AfterAttempt::PlanAndRetry)
            }
        },
    }
}

/// What becomes of one record of the source.
#[derive(Debug)]
pub enum ReplayStep {
    /// The attempt ends here: it needs a plan.
    NeedsRollbackPlan,
    /// The record goes into canonical history as it is.
    Process { line: RolloutLine },
    /// The plan has decided.
    Planned { record: PlannedRecord, resolution: CompactionResolution },
}

/// One pass over the source, with a plan for its rollbacks or without one.
#[derive(Debug)]
pub struct CanonicalReplay {
    pub plan: Option<RollbackPlan>,
    pub parsed_record_index: usize,
    pub last_timestamp: String,
}

/// The time of the last record that stays, once one more record has been decided.
pub open spec fn later_timestamp(before: Seq<char>, line: RolloutLine, step: ReplayStep) -> Seq<
    char,
> {
    match step {
        ReplayStep::NeedsRollbackPlan => before,
        ReplayStep::Process { .. } => line.timestamp@,
        ReplayStep::Planned { record, .. } => if record is Removed {
            before
        } else {
            line.timestamp@
        },
    }
}

impl CanonicalReplay {
    /// Whether the plan is well formed.
    pub open spec fn wf(self) -> bool {
        self.plan is Some ==> (self.plan->0)@.wf()
    }

    /// A pass from the beginning of a source, whose metadata has the given time.
    pub fn new(plan: Option<RollbackPlan>, timestamp: &str) -> (r: Self)
        ensures
            r.plan == plan,
            r.parsed_record_index == 0,
            r.last_timestamp@ == timestamp@,
    {
        CanonicalReplay { plan, parsed_record_index: 0, last_timestamp: timestamp.to_owned() }
    }

    /// Decides what becomes of one more record. Without a plan a rollback ends the pass; with one
    /// the plan decides, and a checkpoint is resolved as the plan says.
    pub fn take_line(&mut self, line: RolloutLine) -> (r: ThreadStoreResult<ReplayStep>)
        requires
            old(self).wf(),
        ensures
            final(self).wf(),
            final(self).plan == old(self).plan,
            match old(self).plan {
                None => {
                    &&& r is Ok
                    &&& final(self).parsed_record_index == old(self).parsed_record_index
                    &&& r->Ok_0 == if is_rollback_marker(line.item) {
                        ReplayStep::NeedsRollbackPlan
                    } else {
                        ReplayStep::Process { line }
                    }
                },
                Some(plan) => {
                    let index = old(self).parsed_record_index;
                    &&& r is Err <==> index >= plan@.owners.len() || index == usize::MAX
                    &&& r is Err ==> r->Err_0@ == migration_failure(
                        if index >= plan@.owners.len() {
                            "rollback plan is shorter than source replay"@
                        } else {
                            "legacy rollout record index overflow"@
                        },
                    )
                    &&& r is Ok ==> {
                        &&& final(self).parsed_record_index == index + 1
                        &&& r->Ok_0 is Planned
                        &&& plan_gives(plan@, index, line, r->Ok_0->record)
                        &&& r->Ok_0->resolution == if plan@.materializes(index) {
                            CompactionResolution::Strict
                        } else {
                            CompactionResolution::PreserveSuperseded
                        }
                    }
                },
            },
            r is Ok ==> final(self).last_timestamp@ == later_timestamp(
                old(self).last_timestamp@,
                line,
                r->Ok_0,
            ),
    {
        let timestamp: String = line.timestamp.clone();
        let index: usize = self.parsed_record_index;
        let (record, resolution) = match &self.plan {
            None => {
                if item_is_rollback_marker(&line.item) {
                    return Ok(ReplayStep::NeedsRollbackPlan);
                }
                self.last_timestamp = timestamp;
                return Ok(ReplayStep::Process { line });
            },
            Some(plan) => {
                let resolution = plan.compaction_resolution(index);
                match plan.apply(index, line) {
                    Ok(record) => (record, resolution),
                    Err(error) => {
                        return Err(error);
                    },
                }
            },
        };
        if index == usize::MAX {
            return Err(migration_error("legacy rollout record index overflow"));
        }
        self.parsed_record_index = index + 1;
        let removed: bool = match &record {
            PlannedRecord::Removed { .. } => true,
            _ => false,
        };
        if !removed {
            self.last_timestamp = timestamp;
        }
        Ok(ReplayStep::Planned { record, resolution })
    }

    /// Whether the pass saw as many records as the plan was made for.
    pub fn check_end(&self) -> (r: ThreadStoreResult<()>)
        ensures
            r is Err <==> self.plan is Some && self.parsed_record_index != (
            self.plan->0)@.owners.len(),
            r is Err ==> r->Err_0@ == migration_failure(
                "rollback plan source length changed during replay"@,
            ),
    {
        match &self.plan {
            None => Ok(()),
            Some(plan) => {
                if self.parsed_record_index != plan.record_count() {
                    Err(migration_error("rollback plan source length changed during replay"))
                } else {
                    Ok(())
                }
            },
        }
    }
}

/// With a plan a rollback is never met again: a pass that follows a plan does not ask for one, so
/// a second attempt never fails for want of a plan.
pub proof fn planned_passes_need_no_other_plan(
    plan: PlanState,
    index: usize,
    line: RolloutLine,
    record: PlannedRecord,
)
    requires
        plan_gives(plan, index, line, record),
    ensures
        record matches PlannedRecord::Kept { line: kept } ==> !is_rollback_marker(kept.item),
        record matches PlannedRecord::Materialize { line: kept, .. } ==> !is_rollback_marker(
            kept.item,
        ),
{
}

/// A record of a bounded subagent history, with the time of the metadata.
pub fn bounded_subagent_line(timestamp: &str, item: RolloutItem) -> (r: RolloutLine)
    ensures
        r.timestamp@ == timestamp@,
        r.ordinal is None,
        r.item == item,
{
    RolloutLine { timestamp: timestamp.to_owned(), ordinal: None, item }
}

/// The head of a staged subagent rollout, with the ordinal at which the history of the subagent
/// itself begins.
pub fn rewrite_subagent_history_boundary(head: RolloutLine, boundary: u64) -> (r: ThreadStoreResult<
    RolloutLine,
>)
    ensures
        r is Ok <==> head.item is SessionMeta,
        r is Err ==> r->Err_0@ == migration_failure("staged rollout head is not session metadata"@),
        r is Ok ==> r->Ok_0 == (RolloutLine {
            item: RolloutItem::SessionMeta(
                SessionMeta {
                    subagent_history_start_ordinal: Some(boundary),
                    ..head.item->SessionMeta_0
                },
            ),
            ..head
        }),
{
    let RolloutLine { timestamp, ordinal, item } = head;
    match item {
        RolloutItem::SessionMeta(meta) => {
            let mut meta = meta;
            meta.subagent_history_start_ordinal = Some(boundary);
            Ok(RolloutLine { timestamp, ordinal, item: RolloutItem::SessionMeta(meta) })
        },
        _ => Err(migration_error("staged rollout head is not session metadata")),
    }
}

/// The upgrade of a rollout that is already paginated. Ordinals, times, the order of records and
/// whatever is no checkpoint stay as they are; only the format of the head changes, and the
/// encoding of checkpoints.
#[derive(Debug)]
pub struct PaginatedUpgrade {
    pub thread_id: ThreadId,
    pub next_ordinal: u64,
    pub output_byte_offset: u64,
    pub saw_canonical_head: bool,
}

/// What becomes of one record of a paginated rollout.
#[derive(Debug)]
pub enum UpgradeStep {
    /// The head, with its new format, is written.
    Head { line: RolloutLine },
    /// The record is written, with references where it is a checkpoint.
    Body { line: RolloutLine },
}

/// An optional number as it stands in a message.
pub open spec fn shown_ordinal(ordinal: Option<u64>) -> Seq<char> {
    match ordinal {
        Some(n) => "Some("@ + decimal(n as nat) + ")"@,
        None => "None"@,
    }
}

fn show_ordinal(ordinal: Option<u64>) -> (r: String)
    ensures
        r@ == shown_ordinal(ordinal),
{
    match ordinal {
        Some(n) => crate::text::concat3("Some(", decimal_text(n).as_str(), ")"),
        None => "None".to_owned(),
    }
}

/// Why a record of a paginated rollout cannot be upgraded.
pub open spec fn upgrade_problem(state: PaginatedUpgrade, line: Option<RolloutLine>) -> Option<
    Seq<char>,
> {
    match line {
        None => Some("paginated rollout contains an empty record"@),
        Some(line) => if line.ordinal != Some(state.next_ordinal) {
            Some(
                "paginated rollout ordinal changed: expected "@ + decimal(state.next_ordinal as nat)
                    + ", found "@ + shown_ordinal(line.ordinal),
            )
        } else if state.saw_canonical_head {
            None
        } else {
            match line.item {
                RolloutItem::SessionMeta(meta) => if meta.id != state.thread_id || meta.history_mode
                    != ThreadHistoryMode::Paginated {
                    Some("paginated rollout canonical metadata changed during upgrade"@)
                } else {
                    None
                },
                _ => Some("paginated rollout does not start with canonical session metadata"@),
            }
        },
    }
}

impl PaginatedUpgrade {
    /// The upgrade of a rollout with the given metadata.
    pub fn new(thread_id: ThreadId, canonical_session_meta: &RolloutLine) -> (r: ThreadStoreResult<
        Self,
    >)
        ensures
            r is Ok <==> canonical_session_meta.item is SessionMeta,
            r is Err ==> r->Err_0@ == migration_failure(
                "paginated rollout canonical metadata is missing"@,
            ),
            r is Ok ==> r->Ok_0 == (PaginatedUpgrade {
                thread_id,
                next_ordinal: match canonical_session_meta.item->SessionMeta_0.history_base {
                    Some(base) => base.end_ordinal_exclusive,
                    None => 0,
                },
                output_byte_offset: 0,
                saw_canonical_head: false,
            }),
    {
        match &canonical_session_meta.item {
            RolloutItem::SessionMeta(meta) => Ok(
                PaginatedUpgrade {
                    thread_id,
                    next_ordinal: match &meta.history_base {
                        Some(base) => base.end_ordinal_exclusive,
                        None => 0,
                    },
                    output_byte_offset: 0,
                    saw_canonical_head: false,
                },
            ),
            _ => Err(migration_error("paginated rollout canonical metadata is missing")),
        }
    }

    /// Decides what becomes of one more record. Its ordinal must be the next one.
    pub fn take_record(&mut self, line: Option<RolloutLine>) -> (r: ThreadStoreResult<UpgradeStep>)
        ensures
            match upgrade_problem(*old(self), line) {
                Some(message) => {
                    &&& r is Err
                    &&& r->Err_0@ == migration_failure(message)
                    &&& *final(self) == *old(self)
                },
                None => {
                    &&& r is Ok
                    &&& *final(self) == (PaginatedUpgrade { saw_canonical_head: true, ..*old(self) })
                    &&& r->Ok_0 == if old(self).saw_canonical_head {
                        UpgradeStep::Body { line: line->0 }
                    } else {
                        UpgradeStep::Head {
                            line: RolloutLine {
                                item: RolloutItem::SessionMeta(
                                    SessionMeta {
                                        history_mode: ThreadHistoryMode::PaginatedRefsV1,
                                        ..line->0.item->SessionMeta_0
                                    },
                                ),
                                ..line->0
                            },
                        }
                    }
                },
            },
    {
        let line: RolloutLine = match line {
            None => {
                return Err(migration_error("paginated rollout contains an empty record"));
            },
            Some(line) => line,
        };
        let expected: bool = match line.ordinal {
            Some(ordinal) => ordinal == self.next_ordinal,
            None => false,
        };
        if !expected {
            let message: String = concat4(
                "paginated rollout ordinal changed: expected ",
                decimal_text(self.next_ordinal).as_str(),
                ", found ",
                show_ordinal(line.ordinal).as_str(),
            );
            return Err(migration_error(message.as_str()));
        }
        if self.saw_canonical_head {
            return Ok(UpgradeStep::Body { line });
        }
        let RolloutLine { timestamp, ordinal, item } = line;
        match item {
            RolloutItem::SessionMeta(meta) => {
                if meta.id != self.thread_id || meta.history_mode != ThreadHistoryMode::Paginated {
                    return Err(
                        migration_error(
                            "paginated rollout canonical metadata changed during upgrade",
                        ),
                    );
                }
                let mut meta = meta;
                meta.history_mode = ThreadHistoryMode::PaginatedRefsV1;
                self.saw_canonical_head = true;
                Ok(
                    UpgradeStep::Head {
                        line: RolloutLine {
                            timestamp,
                            ordinal,
                            item: RolloutItem::SessionMeta(meta),
                        },
                    },
                )
            },
            _ => Err(
                migration_error("paginated rollout does not start with canonical session metadata"),
            ),
        }
    }

    /// Counts a record of the given size that has been written.
    pub fn commit_record(&mut self, encoded_len: u64) -> (r: ThreadStoreResult<()>)
        ensures
            final(self).thread_id == old(self).thread_id,
            final(self).saw_canonical_head == old(self).saw_canonical_head,
            r is Err <==> old(self).output_byte_offset + encoded_len > u64::MAX || old(
                self,
            ).next_ordinal == u64::MAX,
            r is Err ==> r->Err_0@ == migration_failure(
                if old(self).output_byte_offset + encoded_len > u64::MAX {
                    "paginated rollout byte offset overflow"@
                } else {
                    "paginated rollout ordinal overflow"@
                },
            ),
            r is Ok ==> final(self).output_byte_offset == old(self).output_byte_offset
                + encoded_len && final(self).next_ordinal == old(self).next_ordinal + 1,
    {
        if encoded_len > u64::MAX - self.output_byte_offset {
            return Err(migration_error("paginated rollout byte offset overflow"));
        }
        self.output_byte_offset = self.output_byte_offset + encoded_len;
        if self.next_ordinal == u64::MAX {
            return Err(migration_error("paginated rollout ordinal overflow"));
        }
        self.next_ordinal = self.next_ordinal + 1;
        Ok(())
    }

    /// The size of the upgraded rollout and its next ordinal.
    pub fn finish(&self) -> (r: ThreadStoreResult<(u64, u64)>)
        ensures
            r is Ok <==> self.saw_canonical_head,
            r is Ok ==> r->Ok_0 == (self.output_byte_offset, self.next_ordinal),
            r is Err ==> r->Err_0@ == migration_failure(
                "paginated rollout contains no canonical session metadata"@,
            ),
    {
        if self.saw_canonical_head {
            Ok((self.output_byte_offset, self.next_ordinal))
        } else {
            Err(migration_error("paginated rollout contains no canonical session metadata"))
        }
    }
}

/// The error of a checkpoint whose references lead nowhere.
pub fn upgrade_unresolved(missing: &Vec<String>) -> (r: crate::error::ThreadStoreError)
    ensures
        r@ == migration_failure(
            "compacted history references could not be resolved during paginated upgrade: "@
                + joined(texts(missing@), ", "@),
        ),
{
    let list: String = join_texts(missing, ", ");
    let message: String = concat2(
        "compacted history references could not be resolved during paginated upgrade: ",
        list.as_str(),
    );
    migration_error(message.as_str())
}

} // verus!
