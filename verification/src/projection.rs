//! Handing a rollout to the history index, batch by batch.

use crate::error::migration_error;
use crate::error::migration_failure;
use crate::error::ThreadStoreResult;
use crate::outside::parse_rfc3339;
use crate::outside::rfc3339_instant;
use crate::record::RolloutRecord;
use crate::record::PROJECTION_BATCH_BYTES;
use crate::rollout::RolloutItem;
use crate::rollout::RolloutLine;
use crate::rollout::SessionMeta;
use vstd::prelude::*;

verus! {

/// One line of a rollout on its way into the index.
#[derive(Debug, PartialEq, Eq)]
pub struct ProjectedLine {
    pub ordinal: u64,
    pub start_byte_offset: u64,
    pub end_byte_offset: u64,
    pub fallback_created_at_ms: i64,
    /// Whether the line repeats history that the thread has inherited. Such a line changes
    /// nothing in the index.
    pub inherited: bool,
    pub line: RolloutLine,
}

impl ProjectedLine {
    /// Whether the line carries a realtime item into the index.
    pub fn carries_realtime_item(&self) -> (r: bool)
        ensures
            r == (self.line.item is RealtimeItem && !self.inherited),
    {
        match &self.line.item {
            RolloutItem::RealtimeItem { .. } => !self.inherited,
            _ => false,
        }
    }
}

/// A stretch of a rollout that goes into the index at once.
#[derive(Debug, PartialEq, Eq)]
pub struct ProjectionBatch {
    pub start_byte_offset: u64,
    pub end_byte_offset: u64,
    pub initial_ordinal: u64,
    pub lines: Vec<ProjectedLine>,
}

/// Cuts a rollout into batches.
#[derive(Debug)]
pub struct ProjectionBatcher {
    pub subagent_history_start_ordinal: Option<u64>,
    pub initial_ordinal: u64,
    pub batch: Vec<ProjectedLine>,
    pub batch_start: u64,
    pub offset: u64,
}

/// Why a record cannot go into the index.
pub open spec fn projection_problem(offset: u64, record: RolloutRecord) -> Option<Seq<char>> {
    if offset + record.byte_count > u64::MAX {
        Some("staged rollout byte offset overflow"@)
    } else {
        match record.line {
            None => None,
            Some(line) => if line.ordinal is None {
                Some("staged rollout line is missing its ordinal"@)
            } else {
                match rfc3339_instant(line.timestamp@) {
                    Err(message) => Some(message),
                    Ok(_) => None,
                }
            },
        }
    }
}

/// The line of a record that stands at a position, on its way into the index.
pub open spec fn projected(
    offset: u64,
    record: RolloutRecord,
    start_ordinal: Option<u64>,
) -> ProjectedLine {
    let line = record.line->0;
    ProjectedLine {
        ordinal: line.ordinal->0,
        start_byte_offset: offset,
        end_byte_offset: (offset + record.byte_count) as u64,
        fallback_created_at_ms: (rfc3339_instant(line.timestamp@)->Ok_0).1,
        inherited: start_ordinal is Some && line.ordinal->0 < start_ordinal->0,
        line,
    }
}

/// The part of a rollout that has been read since the last batch.
#[verifier::ext_equal]
pub struct Filling {
    pub lines: Seq<ProjectedLine>,
    pub start: u64,
    pub offset: u64,
}

/// A batch that was handed out.
#[verifier::ext_equal]
pub struct Handed {
    pub lines: Seq<ProjectedLine>,
    pub start: u64,
    pub end: u64,
}

/// A rollout of which nothing has been read.
pub open spec fn nothing_read() -> Filling {
    Filling { lines: Seq::empty(), start: 0, offset: 0 }
}

/// What one record leads to: a batch is handed out where a line has made it large enough. The next
/// batch begins where it ends.
pub open spec fn filled(f: Filling, record: RolloutRecord, start_ordinal: Option<u64>) -> (
    Filling,
    Option<Handed>,
) {
    let end = (f.offset + record.byte_count) as u64;
    if record.line is None {
        (Filling { offset: end, ..f }, None)
    } else {
        let lines = f.lines.push(projected(f.offset, record, start_ordinal));
        if end - f.start >= PROJECTION_BATCH_BYTES {
            (
                Filling { lines: Seq::empty(), start: end, offset: end },
                Some(Handed { lines, start: f.start, end }),
            )
        } else {
            (Filling { lines, offset: end, ..f }, None)
        }
    }
}

/// A batch by its lines.
pub open spec fn handed(batch: Option<ProjectionBatch>) -> Option<Handed> {
    match batch {
        Some(batch) => Some(
            Handed {
                lines: batch.lines@,
                start: batch.start_byte_offset,
                end: batch.end_byte_offset,
            },
        ),
        None => None,
    }
}

impl ProjectionBatcher {
    /// Whether the batch that is being filled does not begin behind its end.
    pub open spec fn wf(self) -> bool {
        self.batch_start <= self.offset
    }

    /// What has been read since the last batch.
    pub open spec fn filling(self) -> Filling {
        Filling { lines: self.batch@, start: self.batch_start, offset: self.offset }
    }

    /// A rollout with the given metadata, from its beginning. Its ordinals go on where those of
    /// the history that it is based on end.
    pub fn new(metadata: &SessionMeta) -> (r: Self)
        ensures
            r.wf(),
            r.subagent_history_start_ordinal == metadata.subagent_history_start_ordinal,
            r.initial_ordinal == match metadata.history_base {
                Some(base) => base.end_ordinal_exclusive,
                None => 0,
            },
            r.filling() == nothing_read(),
    {
        ProjectionBatcher {
            subagent_history_start_ordinal: metadata.subagent_history_start_ordinal,
            initial_ordinal: match &metadata.history_base {
                Some(base) => base.end_ordinal_exclusive,
                None => 0,
            },
            batch: Vec::new(),
            batch_start: 0,
            offset: 0,
        }
    }

    /// Takes in one record. Returns a batch where enough has come together, which begins where the
    /// one before ended. A record without a line fills no batch up.
    pub fn take_record(&mut self, record: RolloutRecord) -> (r: ThreadStoreResult<
        Option<ProjectionBatch>,
    >)
        requires
            old(self).wf(),
        ensures
            final(self).subagent_history_start_ordinal == old(self).subagent_history_start_ordinal,
            final(self).initial_ordinal == old(self).initial_ordinal,
            match projection_problem(old(self).offset, record) {
                Some(message) => r is Err && r->Err_0@ == migration_failure(message),
                None => {
                    &&& r is Ok
                    &&& final(self).wf()
                    &&& (final(self).filling(), handed(r->Ok_0)) == filled(
                        old(self).filling(),
                        record,
                        old(self).subagent_history_start_ordinal,
                    )
                    &&& r->Ok_0 is Some ==> r->Ok_0->0.initial_ordinal == old(
                        self,
                    ).initial_ordinal
                },
            },
    {
        if record.byte_count > u64::MAX - self.offset {
            return Err(migration_error("staged rollout byte offset overflow"));
        }
        let next_offset: u64 = self.offset + record.byte_count;
        let line: RolloutLine = match record.line {
            Some(line) => line,
            None => {
                self.offset = next_offset;
                return Ok(None);
            },
        };
        let ordinal: u64 = match line.ordinal {
            Some(ordinal) => ordinal,
            None => {
                return Err(migration_error("staged rollout line is missing its ordinal"));
            },
        };
        let fallback_created_at_ms: i64 = match parse_rfc3339(line.timestamp.as_str()) {
            Ok(instant) => instant.1,
            Err(message) => {
                return Err(migration_error(message.as_str()));
            },
        };
        let inherited: bool = match self.subagent_history_start_ordinal {
            Some(start) => ordinal < start,
            None => false,
        };
        self.batch.push(
            ProjectedLine {
                ordinal,
                start_byte_offset: self.offset,
                end_byte_offset: next_offset,
                fallback_created_at_ms,
                inherited,
                line,
            },
        );
        self.offset = next_offset;
        if self.offset - self.batch_start >= PROJECTION_BATCH_BYTES {
            let mut lines: Vec<ProjectedLine> = Vec::new();
            std::mem::swap(&mut lines, &mut self.batch);
            let batch = ProjectionBatch {
                start_byte_offset: self.batch_start,
                end_byte_offset: self.offset,
                initial_ordinal: self.initial_ordinal,
                lines,
            };
            self.batch_start = self.offset;
            return Ok(Some(batch));
        }
        Ok(None)
    }

    /// The last batch, where anything has been read since the one before.
    pub fn finish(self) -> (r: Option<ProjectionBatch>)
        ensures
            r is Some <==> self.batch_start != self.offset,
            r is Some ==> handed(r) == Some(
                Handed {
                    lines: self.filling().lines,
                    start: self.filling().start,
                    end: self.filling().offset,
                },
            ) && r->0.initial_ordinal == self.initial_ordinal,
    {
        if self.batch_start != self.offset {
            Some(
                ProjectionBatch {
                    start_byte_offset: self.batch_start,
                    end_byte_offset: self.offset,
                    initial_ordinal: self.initial_ordinal,
                    lines: self.batch,
                },
            )
        } else {
            None
        }
    }
}

/// How far the first `n` records of a rollout reach.
pub open spec fn reached(records: Seq<RolloutRecord>, n: int) -> int
    decreases n,
{
    if n <= 0 {
        0
    } else {
        reached(records, n - 1) + records[n - 1].byte_count
    }
}

/// The lines of the first `n` records of a rollout, on their way into the index.
pub open spec fn all_projected(
    records: Seq<RolloutRecord>,
    start_ordinal: Option<u64>,
    n: int,
) -> Seq<ProjectedLine>
    decreases n,
{
    if n <= 0 {
        Seq::empty()
    } else {
        let before = all_projected(records, start_ordinal, n - 1);
        if records[n - 1].line is Some {
            before.push(
                projected(reached(records, n - 1) as u64, records[n - 1], start_ordinal),
            )
        } else {
            before
        }
    }
}

/// What the first `n` records of a rollout lead to: what waits, and the batches in their order.
pub open spec fn filled_through(
    records: Seq<RolloutRecord>,
    start_ordinal: Option<u64>,
    n: int,
) -> (Filling, Seq<Handed>)
    decreases n,
{
    if n <= 0 {
        (nothing_read(), Seq::empty())
    } else {
        let (before, batches) = filled_through(records, start_ordinal, n - 1);
        let (after, batch) = filled(before, records[n - 1], start_ordinal);
        (
            after,
            match batch {
                Some(batch) => batches.push(batch),
                None => batches,
            },
        )
    }
}

/// The lines of all batches, one after the other.
pub open spec fn handed_lines(batches: Seq<Handed>) -> Seq<ProjectedLine>
    decreases batches.len(),
{
    if batches.len() == 0 {
        Seq::empty()
    } else {
        handed_lines(batches.drop_last()) + batches.last().lines
    }
}

/// Where the next batch begins.
pub open spec fn next_start(batches: Seq<Handed>) -> u64 {
    if batches.len() == 0 {
        0
    } else {
        batches.last().end
    }
}

/// Batches cover a rollout without a gap and without an overlap: each begins where the one before
/// ended, the first at the beginning, and together with what still waits they hold every line of
/// the rollout once and in order.
pub proof fn batches_cover_the_rollout(
    records: Seq<RolloutRecord>,
    start_ordinal: Option<u64>,
    n: int,
)
    requires
        0 <= n <= records.len(),
        reached(records, n) <= u64::MAX,
    ensures
        ({
            let (waiting, batches) = filled_through(records, start_ordinal, n);
            &&& waiting.offset == reached(records, n)
            &&& waiting.start == next_start(batches)
            &&& waiting.start <= waiting.offset
            &&& handed_lines(batches) + waiting.lines == all_projected(records, start_ordinal, n)
            &&& forall|i: int|
                0 <= i < batches.len() ==> (#[trigger] batches[i]).start == next_start(
                    batches.take(i),
                ) && batches[i].start <= batches[i].end
        }),
    decreases n,
{
    if n > 0 {
        batches_cover_the_rollout(records, start_ordinal, n - 1);
        let (before, earlier) = filled_through(records, start_ordinal, n - 1);
        let record = records[n - 1];
        let (after, batch) = filled(before, record, start_ordinal);
        let (waiting, batches) = filled_through(records, start_ordinal, n);
        match batch {
            Some(batch) => {
                assert(batches.drop_last() =~= earlier);
                assert(handed_lines(batches) + waiting.lines =~= handed_lines(earlier)
                    + before.lines.push(projected(before.offset, record, start_ordinal)));
                assert forall|i: int| 0 <= i < batches.len() implies (
                #[trigger] batches[i]).start == next_start(batches.take(i)) && batches[i].start
                    <= batches[i].end by {
                    if i < earlier.len() {
                        assert(batches[i] == earlier[i]);
                        assert(batches.take(i) =~= earlier.take(i));
                    } else {
                        assert(batches.take(i) =~= earlier);
                    }
                }
            },
            None => {},
        }
        assert(handed_lines(batches) + waiting.lines =~= all_projected(records, start_ordinal, n));
    } else {
        assert(handed_lines(Seq::<Handed>::empty()) + Seq::<ProjectedLine>::empty() =~= Seq::<
            ProjectedLine,
        >::empty());
    }
}

} // verus!
