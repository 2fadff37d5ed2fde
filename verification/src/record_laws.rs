//! How records are read, inspected, projected and upgraded, one at a time.

use crate::conversion::later_timestamp;
use crate::conversion::upgrade_problem;
use crate::conversion::PaginatedUpgrade;
use crate::conversion::ReplayStep;
use crate::error::migration_failure;
use crate::error::spelled_thread_id;
use crate::error::ErrorView;
use crate::error::ThreadId;
use crate::error::ThreadStoreResult;
use crate::inspection::inspected_line;
use crate::inspection::says_invalid_metadata;
use crate::inspection::scan_closes;
use crate::inspection::tells_scan_failure;
use crate::inspection::InspectionState;
use crate::inspection::ReadFailure;
use crate::inspection::RolloutInspection;
use crate::inspection::RolloutInspectionDepth;
use crate::inspection::RolloutScanFailure;
use crate::inspection::RolloutValidationFailure;
use crate::limiter::counted_sum;
use crate::outside::json_text;
use crate::outside::json_truncated;
use crate::outside::rfc3339_instant;
use crate::projection::filled;
use crate::projection::projected;
use crate::projection::projection_problem;
use crate::projection::Filling;
use crate::record::advanced;
use crate::record::appended;
use crate::record::error_text;
use crate::record::grown;
use crate::record::lexed;
use crate::record::read_limit_of;
use crate::record::record_closes;
use crate::record::record_comes_out;
use crate::record::record_is_passed;
use crate::record::record_verdict;
use crate::record::scanned;
use crate::record::unread;
use crate::record::LexState;
use crate::record::RecordParse;
use crate::record::RecordState;
use crate::record::RecordVerdict;
use crate::record::RolloutRecord;
use crate::record::RolloutRecordCursor;
use crate::record::RolloutRecordValidationError;
use crate::record::TrailingPartialPolicy;
use crate::report::RolloutMigrationFailureReason;
use crate::rollback_apply::PlannedRecord;
use crate::rollout::RolloutItem;
use crate::rollout::RolloutLine;
use crate::rollout::SessionMeta;
use crate::rollout::ThreadHistoryMode;
use crate::source_owner::header_owner;
use crate::source_owner::line_owner;
use crate::text::decimal;
use crate::text::is_blank_text;
use vstd::prelude::*;

verus! {

/// Whether a byte is inside a string is told by the quotes before it that no backslash stands before.
pub proof fn quotes_begin_and_end_strings(state: LexState, byte: u8)
    ensures
        !state.in_string && byte == 34 ==> lexed(state, byte).in_string,
        !state.in_string && byte != 34 ==> lexed(state, byte) == state,
        state.in_string && !state.escaped && byte == 34 ==> !lexed(state, byte).in_string,
        state.in_string && !state.escaped && byte == 92 ==> lexed(state, byte).in_string && lexed(
            state,
            byte,
        ).escaped,
        state.in_string && state.escaped ==> lexed(state, byte).in_string && !lexed(
            state,
            byte,
        ).escaped,
        state.in_string && !state.escaped && byte != 34 && byte != 92 ==> lexed(state, byte)
            == state,
{
}

/// Bytes are scanned one after the other, and scanning none changes nothing.
pub proof fn bytes_are_scanned_in_order(state: LexState, bytes: Seq<u8>, byte: u8)
    ensures
        scanned(state, Seq::empty()) == state,
        scanned(state, bytes.push(byte)) == lexed(scanned(state, bytes), byte),
{
    assert(bytes.push(byte).drop_last() =~= bytes);
}

/// A line that ends outside of a string ends the record, with all of its bytes; what comes without a
/// line break is taken in as it is, and the record goes on.
pub proof fn whole_lines_end_the_record(state: RecordState, content: Seq<u8>)
    requires
        state.source_bytes + content.len() + 1 <= u64::MAX,
        state.logical_bytes + content.len() + 1 <= 25165824,
        content.len() == 0 || content.last() != 10,
        !scanned(state.lex, content).in_string,
    ensures
        ({
            let (whole, ended) = appended(state, content.push(10));
            let (part, goes_on) = appended(state, content);
            &&& ended == Ok::<bool, Seq<char>>(true)
            &&& whole.bytes == state.bytes + content.push(10)
            &&& whole.source_bytes == state.source_bytes + content.len() + 1
            &&& whole.logical_bytes == state.logical_bytes + content.len() + 1
            &&& whole.terminated && whole.repaired == state.repaired
            &&& goes_on == Ok::<bool, Seq<char>>(false)
            &&& part.bytes == state.bytes + content
            &&& part.source_bytes == state.source_bytes + content.len()
            &&& !part.terminated && part.repaired == state.repaired
            &&& part.lex == scanned(state.lex, content)
        }),
{
    reveal(appended);
    assert(content.push(10).drop_last() =~= content);
}

/// A line break inside a string is taken in as a backslash and an `n`, without a carriage return
/// before it. The record goes on and counts as repaired.
pub proof fn torn_lines_go_on(state: RecordState, content: Seq<u8>)
    requires
        state.source_bytes + content.len() + 1 <= u64::MAX,
        state.logical_bytes + content.len() + 2 <= 25165824,
        scanned(state.lex, content).in_string,
        !scanned(state.lex, content).escaped,
    ensures
        ({
            let (torn, ended) = appended(state, content.push(10));
            let kept = if content.len() > 0 && content.last() == 13 {
                content.drop_last()
            } else {
                content
            };
            &&& ended == Ok::<bool, Seq<char>>(false)
            &&& torn.bytes == state.bytes + kept + seq![92u8, 110u8]
            &&& torn.source_bytes == state.source_bytes + content.len() + 1
            &&& torn.logical_bytes == state.logical_bytes + kept.len() + 2
            &&& torn.repaired && !torn.terminated
            &&& torn.lex == scanned(state.lex, content)
        }),
{
    reveal(appended);
    assert(content.push(10).drop_last() =~= content);
}

/// A record past the limit keeps none of its bytes, but is still counted.
pub proof fn long_records_are_only_counted(state: RecordState, bytes: Seq<u8>)
    requires
        state.logical_bytes + bytes.len() <= u64::MAX,
    ensures
        grown(state, bytes).logical_bytes == state.logical_bytes + bytes.len(),
        grown(state, bytes).source_bytes == state.source_bytes,
        state.logical_bytes + bytes.len() <= 25165824 ==> grown(state, bytes).bytes == state.bytes
            + bytes,
        state.logical_bytes <= 25165824 && state.logical_bytes + bytes.len() > 25165824 ==> grown(
            state,
            bytes,
        ).bytes.len() == 0,
        state.logical_bytes > 25165824 ==> grown(state, bytes).bytes == state.bytes,
{
}

/// A read takes at most a batch, and not more than one byte past what a record may hold.
pub proof fn reads_stop_one_byte_past_the_limit(state: RecordState)
    ensures
        read_limit_of(state) <= 262144,
        state.logical_bytes > 25165824 ==> read_limit_of(state) == 262144,
        state.logical_bytes <= 25165824 ==> {
            &&& read_limit_of(state) >= 1
            &&& state.logical_bytes + read_limit_of(state) <= 25165824 + 1
            &&& read_limit_of(state) < 262144 ==> state.logical_bytes + read_limit_of(state)
                == 25165824 + 1
        },
{
}

/// The position behind a record is that of the record, moved by its size and one ordinal.
pub proof fn positions_move_by_the_size_of_the_record(cursor: RolloutRecordCursor, size: u64)
    ensures
        cursor.byte_offset + size <= u64::MAX && cursor.ordinal < u64::MAX ==> {
            let (after, problem) = advanced(cursor, size);
            &&& problem is None
            &&& after.byte_offset == cursor.byte_offset + size
            &&& after.ordinal == cursor.ordinal + 1
        },
        advanced(cursor, size).1 is Some <==> cursor.byte_offset + size > u64::MAX || cursor.ordinal
            == u64::MAX,
        cursor.byte_offset + size > u64::MAX ==> advanced(cursor, size).1 == Some(
            "rollout record byte offset overflow"@,
        ) && advanced(cursor, size).0 == cursor,
{
}

/// A legacy record is what was read of it. Without a line where one is needed, because it was
/// repaired, it is malformed; one that cannot be read is malformed too, unless it is the unfinished end
/// of a rollout and may be discarded.
pub proof fn legacy_records_are_what_was_read(
    bytes: Seq<u8>,
    terminated: bool,
    policy: TrailingPartialPolicy,
    needed: bool,
    line: RolloutLine,
    error: String,
)
    ensures
        record_verdict(bytes, terminated, policy, needed, RecordParse::Legacy(Ok(Some(line))))
            == RecordVerdict::Line(Some(line)),
        !needed ==> record_verdict(bytes, terminated, policy, needed, RecordParse::Legacy(Ok(None)))
            == RecordVerdict::Line(None),
        needed ==> record_verdict(bytes, terminated, policy, needed, RecordParse::Legacy(Ok(None)))
            is Malformed,
        ({
            let discarded = !terminated && policy == TrailingPartialPolicy::DiscardIncomplete
                && json_truncated(bytes);
            let verdict = record_verdict(
                bytes,
                terminated,
                policy,
                needed,
                RecordParse::Legacy(Err(error)),
            );
            &&& discarded ==> verdict == RecordVerdict::Line(None)
            &&& !discarded ==> verdict == RecordVerdict::Malformed(error@)
        }),
{
}

/// A strict record is what was read of it where it is one whole line, and malformed otherwise.
pub proof fn strict_records_are_whole_lines(
    bytes: Seq<u8>,
    terminated: bool,
    policy: TrailingPartialPolicy,
    repaired: bool,
    line: RolloutLine,
    error: String,
)
    ensures
        terminated && !repaired ==> record_verdict(
            bytes,
            terminated,
            policy,
            repaired,
            RecordParse::Strict(Ok(line)),
        ) == RecordVerdict::Line(Some(line)) && record_verdict(
            bytes,
            terminated,
            policy,
            repaired,
            RecordParse::Strict(Err(error)),
        ) == RecordVerdict::Malformed(error@),
        !terminated || repaired ==> record_verdict(
            bytes,
            terminated,
            policy,
            repaired,
            RecordParse::Strict(Ok(line)),
        ) is Malformed && record_verdict(
            bytes,
            terminated,
            policy,
            repaired,
            RecordParse::Strict(Err(error)),
        ) is Malformed,
{
}

/// A record within the limit comes out with its line and its size in the source; one past the limit is
/// oversized, and one that cannot be read malformed, each at its position.
pub proof fn records_come_out_with_their_line_and_size(
    state: RecordState,
    cursor: RolloutRecordCursor,
    policy: TrailingPartialPolicy,
    line: Option<RolloutLine>,
    out: Result<RolloutRecord, RolloutRecordValidationError>,
)
    requires
        state.source_bytes <= u64::MAX,
        state.logical_bytes <= u64::MAX,
        record_comes_out(state, cursor, policy, RecordParse::Legacy(Ok(line)), out),
    ensures
        state.logical_bytes > 25165824 ==> {
            &&& out is Err && out->Err_0 is Oversized
            &&& out->Err_0->Oversized_ordinal == cursor.ordinal
            &&& out->Err_0->Oversized_byte_offset == cursor.byte_offset
            &&& out->Err_0->Oversized_observed_bytes == state.logical_bytes
            &&& out->Err_0->Oversized_source_bytes == state.source_bytes
            &&& out->Err_0->limit_bytes == 25165824
        },
        state.logical_bytes <= 25165824 && (line is Some || !state.repaired) ==> {
            &&& out is Ok
            &&& out->Ok_0.line == line
            &&& out->Ok_0.byte_count == state.source_bytes
        },
        state.logical_bytes <= 25165824 && line is None && state.repaired ==> {
            &&& out is Err && out->Err_0 is Malformed
            &&& out->Err_0->Malformed_ordinal == cursor.ordinal
            &&& out->Err_0->Malformed_byte_offset == cursor.byte_offset
            &&& out->Err_0->Malformed_source_bytes == state.source_bytes
        },
{
}

/// A record that comes out moves the position past it, and one that does not leaves it.
pub proof fn records_that_come_out_are_passed(
    out: Result<RolloutRecord, RolloutRecordValidationError>,
    before: RolloutRecordCursor,
    after: RolloutRecordCursor,
    result: ThreadStoreResult<Option<RolloutRecord>>,
)
    requires
        record_is_passed(out, before, after, result),
    ensures
        out is Err ==> after == before && result is Err,
        (out is Ok && before.byte_offset + out->Ok_0.byte_count <= u64::MAX && before.ordinal
            < u64::MAX) ==> {
            &&& result is Ok && result->Ok_0 == Some(out->Ok_0)
            &&& after.byte_offset == before.byte_offset + out->Ok_0.byte_count
            &&& after.ordinal == before.ordinal + 1
        },
{
}

/// Where nothing was read there is no record, and the position stays.
pub proof fn the_end_of_a_source_is_no_record(
    state: RecordState,
    before: RolloutRecordCursor,
    after: RolloutRecordCursor,
    policy: TrailingPartialPolicy,
    parsed: RecordParse,
    result: ThreadStoreResult<Option<RolloutRecord>>,
    scanned: Result<Option<RolloutRecord>, RolloutScanFailure>,
)
    requires
        state.source_bytes == 0,
    ensures
        record_closes(state, before, after, policy, parsed, result) ==> result is Ok && result->Ok_0
            is None && after == before,
        scan_closes(state, before, after, policy, parsed, scanned) ==> scanned is Ok
            && scanned->Ok_0 is None && after == before,
        unread().source_bytes == 0 && unread().logical_bytes == 0 && unread().bytes.len() == 0,
        !unread().lex.in_string && !unread().lex.escaped && !unread().repaired,
{
}

/// A record error says where the record stands and how long it is.
pub proof fn record_errors_say_where_they_stand(
    ordinal: u64,
    byte_offset: u64,
    observed_bytes: u64,
    source_bytes: u64,
    limit_bytes: u64,
    parser_error: String,
)
    ensures
        error_text(
            RolloutRecordValidationError::Oversized {
                ordinal,
                byte_offset,
                observed_bytes,
                source_bytes,
                limit_bytes,
            },
        ) == "rollout record at ordinal "@ + decimal(ordinal as nat) + ", byte offset "@ + decimal(
            byte_offset as nat,
        ) + " is "@ + decimal(observed_bytes as nat) + " bytes, exceeding the "@ + decimal(
            limit_bytes as nat,
        ) + "-byte limit"@,
        error_text(
            RolloutRecordValidationError::Malformed {
                ordinal,
                byte_offset,
                observed_bytes,
                source_bytes,
                parser_error,
            },
        ) == "rollout record at ordinal "@ + decimal(ordinal as nat) + ", byte offset "@ + decimal(
            byte_offset as nat,
        ) + " is malformed ("@ + decimal(observed_bytes as nat) + " bytes): "@ + parser_error@,
{
}

/// What a record tells an inspection: the first metadata is remembered, and ends an inspection that
/// wants no more or has found a migrated rollout; later metadata is passed over; content before any
/// metadata makes the rollout headless; nothing else matters.
pub proof fn inspections_look_for_the_first_metadata(
    depth: RolloutInspectionDepth,
    known: Option<SessionMeta>,
    line: RolloutLine,
)
    ensures
        inspected_line(depth, known, None) == InspectionState::Looking(known),
        ({
            let state = inspected_line(depth, known, Some(line));
            let content = line.item is ResponseItem || line.item is InterAgentCommunication;
            &&& line.item matches RolloutItem::SessionMeta(meta) ==> {
                &&& known is Some ==> state == InspectionState::Looking(known)
                &&& known is None && (meta.history_mode == ThreadHistoryMode::PaginatedRefsV1
                    || depth == RolloutInspectionDepth::MetadataOnly) ==> state
                    == InspectionState::Found(meta)
                &&& known is None && meta.history_mode != ThreadHistoryMode::PaginatedRefsV1
                    && depth == RolloutInspectionDepth::FullLegacy ==> state
                    == InspectionState::Looking(Some(meta))
            }
            &&& content && known is None ==> state == InspectionState::Headless
            &&& content && known is Some ==> state == InspectionState::Looking(known)
            &&& !content && !(line.item is SessionMeta) ==> state == InspectionState::Looking(known)
        }),
{
}

/// A failed inspection is told by its reason, with its message, the bytes that it read, and how a read
/// failed.
pub proof fn failed_inspections_are_told_by_their_reason(
    told: RolloutValidationFailure,
    error: ReadFailure,
    message: String,
    bytes: u64,
    record: RolloutRecordValidationError,
)
    ensures
        tells_scan_failure(told, RolloutScanFailure::Read { error, bytes_processed: bytes }) ==> {
            &&& told.failure.reason == RolloutMigrationFailureReason::RolloutReadFailed
            &&& told.failure.error@ == migration_failure(error.message@)
            &&& told.bytes_processed == bytes
            &&& told.read_error_kind == Some(error.kind)
        },
        tells_scan_failure(
            told,
            RolloutScanFailure::InvalidSessionMetadata { message, bytes_processed: bytes },
        ) ==> {
            &&& told.failure.reason == RolloutMigrationFailureReason::InvalidSessionMetadata
            &&& told.failure.error@ == migration_failure(message@)
            &&& told.bytes_processed == bytes
            &&& told.read_error_kind is None
        },
        tells_scan_failure(told, RolloutScanFailure::Record(record)) ==> {
            let end = match record {
                RolloutRecordValidationError::Oversized { byte_offset, source_bytes, .. } => {
                    byte_offset + source_bytes
                },
                RolloutRecordValidationError::Malformed { byte_offset, source_bytes, .. } => {
                    byte_offset + source_bytes
                },
            };
            &&& record is Oversized ==> told.failure.reason
                == RolloutMigrationFailureReason::OversizedRolloutRecord
            &&& record is Malformed ==> told.failure.reason
                == RolloutMigrationFailureReason::MalformedRolloutRecord
            &&& told.bytes_processed == (if end > u64::MAX {
                u64::MAX as int
            } else {
                end
            })
            &&& told.read_error_kind is None
        },
{
}

/// A staged record is projected with its ordinal, the bytes that it spans and the time of its
/// timestamp. It is inherited where it stands before the history of the subagent.
pub proof fn staged_records_are_projected_as_they_stand(
    offset: u64,
    line: RolloutLine,
    size: u64,
    start: Option<u64>,
    ordinal: u64,
    seconds: i64,
    millis: i64,
)
    requires
        offset + size <= u64::MAX,
        line.ordinal == Some(ordinal),
        rfc3339_instant(line.timestamp@) == Ok::<(i64, i64), Seq<char>>((seconds, millis)),
    ensures
        ({
            let record = RolloutRecord { line: Some(line), byte_count: size };
            let p = projected(offset, record, start);
            &&& projection_problem(offset, record) is None
            &&& p.ordinal == ordinal
            &&& p.start_byte_offset == offset
            &&& p.end_byte_offset == offset + size
            &&& p.fallback_created_at_ms == millis
            &&& p.line == line
            &&& start is None ==> !p.inherited
            &&& start matches Some(first) ==> p.inherited == (ordinal < first)
        }),
{
}

/// A staged record is refused where the offsets overflow, where it has no ordinal, or where it has no
/// time; an empty record is not.
pub proof fn staged_records_need_an_ordinal_and_a_time(offset: u64, record: RolloutRecord)
    ensures
        projection_problem(offset, record) is Some <==> offset + record.byte_count > u64::MAX || (
        record.line is Some && (record.line->0.ordinal is None || rfc3339_instant(
            record.line->0.timestamp@,
        ) is Err)),
        offset + record.byte_count <= u64::MAX && record.line is Some && record.line->0.ordinal
            is Some && rfc3339_instant(record.line->0.timestamp@) is Err ==> projection_problem(
            offset,
            record,
        ) == Some(rfc3339_instant(record.line->0.timestamp@)->Err_0),
{
}

/// A batch is handed over once it spans enough bytes, with every record since the last one, and the
/// next one begins behind it. An empty record only moves the end.
pub proof fn batches_are_handed_over_when_they_are_full(
    f: Filling,
    record: RolloutRecord,
    start: Option<u64>,
)
    requires
        f.start <= f.offset,
        f.offset + record.byte_count <= u64::MAX,
    ensures
        ({
            let end = f.offset + record.byte_count;
            let (after, batch) = filled(f, record, start);
            let all = f.lines.push(projected(f.offset, record, start));
            &&& after.offset == end
            &&& record.line is None ==> batch is None && after.lines == f.lines && after.start
                == f.start
            &&& record.line is Some && end - f.start < 262144 ==> batch is None && after.lines
                == all && after.start == f.start
            &&& record.line is Some && end - f.start >= 262144 ==> {
                &&& batch is Some && batch->0.lines == all
                &&& batch->0.start == f.start && batch->0.end == end
                &&& after.lines.len() == 0 && after.start == end
            }
        }),
{
}

/// A paginated rollout is upgraded record by record: each has the ordinal that is due, and the first is
/// the paginated head of the thread.
pub proof fn upgrades_take_the_records_that_are_due(state: PaginatedUpgrade, line: RolloutLine)
    ensures
        upgrade_problem(state, None) == Some("paginated rollout contains an empty record"@),
        ({
            let due = line.ordinal == Some(state.next_ordinal);
            let head = line.item is SessionMeta && line.item->SessionMeta_0.id == state.thread_id
                && line.item->SessionMeta_0.history_mode == ThreadHistoryMode::Paginated;
            upgrade_problem(state, Some(line)) is None <==> due && (state.saw_canonical_head
                || head)
        }),
        line.ordinal is None ==> upgrade_problem(state, Some(line)) == Some(
            "paginated rollout ordinal changed: expected "@ + decimal(state.next_ordinal as nat)
                + ", found "@ + "None"@,
        ),
        line.ordinal matches Some(found) ==> found != state.next_ordinal ==> upgrade_problem(
            state,
            Some(line),
        ) == Some(
            "paginated rollout ordinal changed: expected "@ + decimal(state.next_ordinal as nat)
                + ", found "@ + ("Some("@ + decimal(found as nat) + ")"@),
        ),
{
}

/// The last timestamp is that of the last record that was not removed.
pub proof fn removed_records_leave_the_timestamp(
    before: Seq<char>,
    line: RolloutLine,
    record: PlannedRecord,
    resolution: crate::rollout::CompactionResolution,
)
    ensures
        later_timestamp(before, line, ReplayStep::NeedsRollbackPlan) == before,
        later_timestamp(before, line, ReplayStep::Process { line }) == line.timestamp@,
        record is Removed ==> later_timestamp(
            before,
            line,
            ReplayStep::Planned { record, resolution },
        ) == before,
        !(record is Removed) ==> later_timestamp(
            before,
            line,
            ReplayStep::Planned { record, resolution },
        ) == line.timestamp@,
{
}

/// A preserved source belongs to the thread that its first session metadata names. Blank lines and
/// other records say nothing; metadata without a valid identifier is a failure.
pub proof fn sources_belong_to_the_thread_of_their_metadata(line: Seq<char>, id: Seq<char>)
    ensures
        is_blank_text(line) ==> line_owner(line) is None,
        header_owner(Ok((None, Some(id)))) is None,
        ({
            let owner = header_owner(Ok((Some("session_meta"@), Some(id))));
            &&& spelled_thread_id(id) matches Some(thread) ==> owner == Some(
                Ok::<ThreadId, ErrorView>(thread),
            )
            &&& spelled_thread_id(id) is None ==> owner is Some && owner->0 is Err
        }),
        header_owner(Ok((Some("session_meta"@), None))) is Some && header_owner(
            Ok((Some("session_meta"@), None)),
        )->0 is Err,
        !is_blank_text(line) && json_text(line, "/type"@) == Ok::<Option<Seq<char>>, Seq<char>>(
            Some("session_meta"@),
        ) && json_text(line, "/payload/id"@) == Ok::<Option<Seq<char>>, Seq<char>>(Some(id))
            ==> line_owner(line) == header_owner(Ok((Some("session_meta"@), Some(id)))),
        !is_blank_text(line) && json_text(line, "/type"@) == Err::<Option<Seq<char>>, Seq<char>>(id)
            ==> line_owner(line) == Some(Err::<ThreadId, ErrorView>(migration_failure(id))),
{
}

/// Another kind of record has no owner.
pub proof fn other_records_name_no_owner(kind: Seq<char>, id: Option<Seq<char>>)
    requires
        kind != "session_meta"@,
    ensures
        header_owner(Ok((Some(kind), id))) is None,
{
}

/// Byte counts are added up, and stop at the largest one.
pub proof fn byte_counts_stop_at_the_largest(a: u64, b: u64)
    ensures
        a + b <= u64::MAX ==> counted_sum(a, b) == a + b,
        a + b > u64::MAX ==> counted_sum(a, b) == u64::MAX,
{
}

/// A record that cannot be read is malformed at its position, with what the parser said, unless it may
/// be discarded.
pub proof fn unreadable_records_are_malformed_where_they_stand(
    state: RecordState,
    cursor: RolloutRecordCursor,
    error: String,
    out: Result<RolloutRecord, RolloutRecordValidationError>,
)
    requires
        state.logical_bytes <= 25165824,
        state.source_bytes <= u64::MAX,
        state.bytes.len() <= u64::MAX,
        record_comes_out(
            state,
            cursor,
            TrailingPartialPolicy::Reject,
            RecordParse::Legacy(Err(error)),
            out,
        ),
    ensures
        out is Err && out->Err_0 is Malformed,
        out->Err_0->Malformed_ordinal == cursor.ordinal,
        out->Err_0->Malformed_byte_offset == cursor.byte_offset,
        out->Err_0->Malformed_observed_bytes == state.bytes.len(),
        out->Err_0->Malformed_source_bytes == state.source_bytes,
        out->Err_0->parser_error@ == error@,
{
}

/// A scan passes a record with a line, moves the position behind it, and stops at a damaged one, where
/// the position stays.
pub proof fn scans_pass_whole_records(
    state: RecordState,
    before: RolloutRecordCursor,
    after: RolloutRecordCursor,
    policy: TrailingPartialPolicy,
    line: RolloutLine,
    result: Result<Option<RolloutRecord>, RolloutScanFailure>,
)
    requires
        0 < state.source_bytes <= u64::MAX,
        state.logical_bytes <= u64::MAX,
        before.byte_offset + state.source_bytes <= u64::MAX,
        before.ordinal < u64::MAX,
        scan_closes(state, before, after, policy, RecordParse::Legacy(Ok(Some(line))), result),
    ensures
        state.logical_bytes <= 25165824 ==> {
            &&& result is Ok && result->Ok_0 is Some
            &&& result->Ok_0->0.line == Some(line)
            &&& result->Ok_0->0.byte_count == state.source_bytes
            &&& after.byte_offset == before.byte_offset + state.source_bytes
            &&& after.ordinal == before.ordinal + 1
        },
        state.logical_bytes > 25165824 ==> {
            &&& result is Err && result->Err_0 is Record && result->Err_0->Record_0 is Oversized
            &&& after == before
        },
{
}

/// Reading a record gives its line and its size, and the position behind it; an oversized one fails,
/// and the position stays.
pub proof fn reads_give_whole_records(
    state: RecordState,
    before: RolloutRecordCursor,
    after: RolloutRecordCursor,
    policy: TrailingPartialPolicy,
    line: RolloutLine,
    result: ThreadStoreResult<Option<RolloutRecord>>,
)
    requires
        0 < state.source_bytes <= u64::MAX,
        state.logical_bytes <= u64::MAX,
        before.byte_offset + state.source_bytes <= u64::MAX,
        before.ordinal < u64::MAX,
        record_closes(state, before, after, policy, RecordParse::Legacy(Ok(Some(line))), result),
    ensures
        state.logical_bytes <= 25165824 ==> {
            &&& result is Ok && result->Ok_0 is Some
            &&& result->Ok_0->0.line == Some(line)
            &&& result->Ok_0->0.byte_count == state.source_bytes
            &&& after.byte_offset == before.byte_offset + state.source_bytes
            &&& after.ordinal == before.ordinal + 1
        },
        state.logical_bytes > 25165824 ==> result is Err && after == before,
{
}

/// A look that found no valid metadata is told as such, with what it says and with the bytes that it
/// had read.
pub proof fn looks_without_metadata_are_told_with_their_bytes(
    result: Result<RolloutInspection, RolloutScanFailure>,
    message: Seq<char>,
    bytes: u64,
    told: RolloutValidationFailure,
)
    requires
        says_invalid_metadata(result, message, bytes),
        result is Err ==> tells_scan_failure(told, result->Err_0),
    ensures
        result is Err,
        told.failure.reason == RolloutMigrationFailureReason::InvalidSessionMetadata,
        told.failure.error@ == migration_failure(message),
        told.bytes_processed == bytes,
        told.read_error_kind is None,
{
}

} // verus!
