//! What holds of a source that is read record by record, from its beginning to its end.

use crate::error::ThreadStoreResult;
use crate::inspection::scan_closes;
use crate::inspection::RolloutScanFailure;
use crate::record::appended;
use crate::record::read_limit_of;
use crate::record::record_closes;
use crate::record::unread;
use crate::record::RecordParse;
use crate::record::RecordState;
use crate::record::RolloutRecord;
use crate::record::RolloutRecordCursor;
use crate::record::TrailingPartialPolicy;
use crate::torn_strings::first_line;
use vstd::prelude::*;

verus! {

/// What one read takes from the front of a source: the rest of the line, its line break included,
/// and no more bytes than the limit.
pub open spec fn next_read(source: Seq<u8>, limit: int) -> Seq<u8> {
    let line = first_line(source);
    if line.len() <= limit {
        line
    } else {
        line.take(limit)
    }
}

/// The record at the front of a source, read chunk by chunk: its state, how many bytes were taken
/// from the source, and whether every chunk was taken in.
pub open spec fn gathered(state: RecordState, source: Seq<u8>) -> (RecordState, nat, bool)
    decreases source.len(),
{
    let chunk = next_read(source, read_limit_of(state));
    if chunk.len() == 0 || chunk.len() > source.len() {
        (state, 0, true)
    } else {
        let (next, ended) = appended(state, chunk);
        match ended {
            Err(_) => (next, chunk.len(), false),
            Ok(true) => (next, chunk.len(), true),
            Ok(false) => {
                let (last, taken, whole) = gathered(next, source.skip(chunk.len() as int));
                (last, chunk.len() + taken, whole)
            },
        }
    }
}

/// How a record was closed, and what came of it.
pub enum Closing {
    /// With `read_rollout_record_blocking`.
    Scanned(
        TrailingPartialPolicy,
        RecordParse,
        Result<Option<RolloutRecord>, RolloutScanFailure>,
    ),
    /// With `read_rollout_record` or `read_strict_paginated_record`.
    Read(TrailingPartialPolicy, RecordParse, ThreadStoreResult<Option<RolloutRecord>>),
}

impl Closing {
    /// Whether closing a record moves a position in this way.
    pub open spec fn closes(
        self,
        state: RecordState,
        before: RolloutRecordCursor,
        after: RolloutRecordCursor,
    ) -> bool {
        match self {
            Closing::Scanned(trailing_partial, parsed, result) => scan_closes(
                state,
                before,
                after,
                trailing_partial,
                parsed,
                result,
            ),
            Closing::Read(trailing_partial, parsed, result) => record_closes(
                state,
                before,
                after,
                trailing_partial,
                parsed,
                result,
            ),
        }
    }

    /// Whether no error came of it.
    pub open spec fn succeeded(self) -> bool {
        match self {
            Closing::Scanned(_, _, result) => result is Ok,
            Closing::Read(_, _, result) => result is Ok,
        }
    }

    /// The record that came of it, or nothing.
    pub open spec fn record(self) -> Option<RolloutRecord> {
        match self {
            Closing::Scanned(_, _, Ok(record)) => record,
            Closing::Read(_, _, Ok(record)) => record,
            _ => None,
        }
    }
}

/// One call that reads a record: how the record was closed, and the position behind it.
pub struct RecordRead {
    pub closing: Closing,
    pub after: RolloutRecordCursor,
}

/// Whether a source is read by these calls, one after the other, from a position, and none of them
/// fails.
pub open spec fn reads_from(
    source: Seq<u8>,
    cursor: RolloutRecordCursor,
    reads: Seq<RecordRead>,
) -> bool
    decreases reads.len(),
{
    reads.len() > 0 ==> {
        let (state, taken, whole) = gathered(unread(), source);
        let read = reads.first();
        &&& whole
        &&& read.closing.succeeded()
        &&& read.closing.closes(state, cursor, read.after)
        &&& reads_from(source.skip(taken as int), read.after, reads.drop_first())
    }
}

/// The position before a call.
pub open spec fn before_read(
    start: RolloutRecordCursor,
    reads: Seq<RecordRead>,
    i: int,
) -> RolloutRecordCursor {
    if i == 0 {
        start
    } else {
        reads[i - 1].after
    }
}

/// The size of a record that a call gave, or zero.
pub open spec fn size_of_read(read: RecordRead) -> int {
    match read.closing.record() {
        Some(record) => record.byte_count as int,
        None => 0,
    }
}

/// The sizes of all records that the calls gave.
pub open spec fn sizes(reads: Seq<RecordRead>) -> int
    decreases reads.len(),
{
    if reads.len() == 0 {
        0
    } else {
        size_of_read(reads.first()) + sizes(reads.drop_first())
    }
}

proof fn lemma_first_line_fits(source: Seq<u8>)
    ensures
        first_line(source).len() <= source.len(),
        source.len() > 0 ==> first_line(source).len() > 0,
    decreases source.len(),
{
    if source.len() > 0 {
        lemma_first_line_fits(source.skip(1));
    }
}

proof fn lemma_gathered(state: RecordState, source: Seq<u8>)
    requires
        gathered(state, source).2,
    ensures
        gathered(state, source).1 <= source.len(),
        source.len() > 0 ==> gathered(state, source).1 > 0,
        gathered(state, source).0.source_bytes == state.source_bytes + gathered(state, source).1,
        gathered(state, source).1 > 0 ==> gathered(state, source).0.source_bytes <= u64::MAX,
    decreases source.len(),
{
    lemma_first_line_fits(source);
    let chunk = next_read(source, read_limit_of(state));
    if chunk.len() > 0 {
        reveal(appended);
        let (next, ended) = appended(state, chunk);
        if ended == Ok::<bool, Seq<char>>(false) {
            lemma_gathered(next, source.skip(chunk.len() as int));
        }
    }
}

/// What one call does: the position moves behind the record that it gives, and it gives one
/// wherever something is left to read.
pub open spec fn moves_on(read: RecordRead, before: RolloutRecordCursor, taken: nat) -> bool {
    match read.closing.record() {
        Some(record) => {
            &&& record.byte_count == taken && taken > 0
            &&& read.after.ordinal == before.ordinal + 1
            &&& read.after.byte_offset == before.byte_offset + record.byte_count
        },
        None => taken == 0 && read.after == before,
    }
}

proof fn lemma_one_read(source: Seq<u8>, before: RolloutRecordCursor, read: RecordRead)
    requires
        gathered(unread(), source).2,
        read.closing.succeeded(),
        read.closing.closes(gathered(unread(), source).0, before, read.after),
    ensures
        moves_on(read, before, gathered(unread(), source).1),
        gathered(unread(), source).1 <= source.len(),
        gathered(unread(), source).1 == 0 <==> source.len() == 0,
{
    lemma_gathered(unread(), source);
}

proof fn lemma_reads(source: Seq<u8>, start: RolloutRecordCursor, reads: Seq<RecordRead>)
    requires
        reads_from(source, start, reads),
    ensures
        0 <= sizes(reads) <= source.len(),
        reads.len() > 0 ==> reads.last().after.byte_offset == start.byte_offset + sizes(reads),
        forall|i: int|
            #![trigger reads[i]]
            0 <= i < reads.len() ==> {
                let before = before_read(start, reads, i);
                let size = size_of_read(reads[i]);
                &&& size >= 0 && moves_on(reads[i], before, size as nat)
                &&& reads[i].closing.record() is None <==> before.byte_offset == start.byte_offset
                    + source.len()
            },
    decreases reads.len(),
{
    if reads.len() > 0 {
        let read = reads.first();
        let (state, taken, whole) = gathered(unread(), source);
        let rest = source.skip(taken as int);
        let later = reads.drop_first();
        lemma_one_read(source, start, read);
        lemma_reads(rest, read.after, later);
        assert forall|i: int| #![trigger reads[i]] 0 <= i < reads.len() implies {
            let before = before_read(start, reads, i);
            let size = size_of_read(reads[i]);
            &&& size >= 0 && moves_on(reads[i], before, size as nat)
            &&& reads[i].closing.record() is None <==> before.byte_offset == start.byte_offset
                + source.len()
        } by {
            if i > 0 {
                assert(reads[i] == later[i - 1]);
                assert(before_read(start, reads, i) == before_read(read.after, later, i - 1));
            }
        }
        if later.len() > 0 {
            assert(later.last() == reads.last());
        }
    }
}

/// Reading a source from its beginning, record by record, misses nothing and reads nothing twice.
/// Each record that comes out has a size, and moves the position by one record and by that size.
/// Nothing comes out only where the whole source has been read, and leaves the position where it
/// is. So where nothing came out at last, the position is the length of the source, and the sizes
/// of all records add up to it.
pub proof fn whole_sources_are_read(source: Seq<u8>, reads: Seq<RecordRead>)
    requires
        reads_from(source, RolloutRecordCursor { ordinal: 0, byte_offset: 0 }, reads),
        reads.len() > 0,
        reads.last().closing.record() is None,
    ensures
        reads.last().after.byte_offset == source.len(),
        sizes(reads) == source.len(),
        forall|i: int|
            #![trigger reads[i]]
            0 <= i < reads.len() ==> {
                let before = before_read(
                    RolloutRecordCursor { ordinal: 0, byte_offset: 0 },
                    reads,
                    i,
                );
                match reads[i].closing.record() {
                    Some(record) => {
                        &&& record.byte_count > 0
                        &&& reads[i].after.ordinal == before.ordinal + 1
                        &&& reads[i].after.byte_offset == before.byte_offset + record.byte_count
                    },
                    None => before.byte_offset == source.len() && reads[i].after == before,
                }
            },
{
    let start = RolloutRecordCursor { ordinal: 0, byte_offset: 0 };
    lemma_reads(source, start, reads);
    let last = reads.len() - 1;
    assert(reads[last] == reads.last());
}

} // verus!
