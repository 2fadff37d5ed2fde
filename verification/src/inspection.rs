//! Looking over a rollout before anything is done to it.

use crate::error::migration_error;
use crate::error::migration_failure;
use crate::record::advanced;
use crate::record::error_extent;
use crate::record::error_text;
use crate::record::record_comes_out;
use crate::record::says_malformed;
use crate::record::LogicalRolloutRecord;
use crate::record::RecordParse;
use crate::record::RecordState;
use crate::record::RolloutRecord;
use crate::record::RolloutRecordCursor;
use crate::record::RolloutRecordValidationError;
use crate::record::TrailingPartialPolicy;
use crate::record::MAX_ROLLOUT_LINE_BYTES;
use crate::report::RolloutMigrationFailure;
use crate::report::RolloutMigrationFailureReason;
use crate::rollout::RolloutItem;
use crate::rollout::RolloutLine;
use crate::rollout::SessionMeta;
use crate::rollout::ThreadHistoryMode;
use vstd::prelude::*;

verus! {

/// How much of a rollout is looked over.
#[derive(Clone, Copy, Debug, PartialEq, Eq, Structural)]
pub enum RolloutInspectionDepth {
    MetadataOnly,
    FullLegacy,
}

/// What kind of failure a read met, as far as that is told apart.
#[derive(Clone, Copy, Debug, PartialEq, Eq, Structural)]
pub enum ReadErrorKind {
    NotFound,
    Other,
}

/// A read that failed.
#[derive(Debug, PartialEq, Eq)]
pub struct ReadFailure {
    pub kind: ReadErrorKind,
    pub message: String,
}

/// Why a rollout cannot be looked over.
#[derive(Debug, PartialEq, Eq)]
pub enum RolloutScanFailure {
    Read { error: ReadFailure, bytes_processed: u64 },
    InvalidSessionMetadata { message: String, bytes_processed: u64 },
    Record(RolloutRecordValidationError),
}

/// What a rollout was found to be.
#[derive(Debug, PartialEq, Eq)]
pub struct RolloutInspection {
    pub metadata: SessionMeta,
    pub bytes_processed: u64,
}

/// Why a rollout is not accepted, with what a report says about it.
#[derive(Debug, PartialEq, Eq)]
pub struct RolloutValidationFailure {
    pub failure: RolloutMigrationFailure,
    pub bytes_processed: u64,
    pub read_error_kind: Option<ReadErrorKind>,
}

/// The failure of a read in the middle of a record: what was read counts up to the failure.
pub fn scan_read_failure(
    cursor: &RolloutRecordCursor,
    record: &LogicalRolloutRecord,
    error: ReadFailure,
) -> (r: RolloutScanFailure)
    ensures
        r == (RolloutScanFailure::Read {
            error,
            bytes_processed: vstd::math::min(
                cursor.byte_offset + record.source_bytes,
                u64::MAX as int,
            ) as u64,
        }),
{
    RolloutScanFailure::Read {
        error,
        bytes_processed: cursor.byte_offset.saturating_add(record.source_bytes),
    }
}

/// Whether closing a record during a scan gives a result and a new position.
pub open spec fn scan_closes(
    state: RecordState,
    before: RolloutRecordCursor,
    after: RolloutRecordCursor,
    trailing_partial: TrailingPartialPolicy,
    parsed: RecordParse,
    result: Result<Option<RolloutRecord>, RolloutScanFailure>,
) -> bool {
    if state.source_bytes == 0 {
        result is Ok && result->Ok_0 is None && after == before
    } else {
        exists|out: Result<RolloutRecord, RolloutRecordValidationError>|
            #![trigger record_comes_out(state, before, trailing_partial, parsed, out)]
            record_comes_out(state, before, trailing_partial, parsed, out) && match out {
                Err(error) => {
                    &&& after == before
                    &&& result is Err
                    &&& result->Err_0 == RolloutScanFailure::Record(error)
                },
                Ok(record) => {
                    &&& after == advanced(before, record.byte_count).0
                    &&& match advanced(before, record.byte_count).1 {
                        Some(message) => {
                            &&& result is Err
                            &&& result->Err_0 is Read
                            &&& result->Err_0->error.kind == ReadErrorKind::Other
                            &&& result->Err_0->error.message@ == message
                            &&& result->Err_0->Read_bytes_processed == after.byte_offset
                        },
                        None => result is Ok && result->Ok_0 == Some(record),
                    }
                },
            }
    }
}

/// Closes a record during a scan, given what the tolerant parser made of its bytes. Returns
/// nothing at the end of the source.
pub fn read_rollout_record_blocking(
    record: LogicalRolloutRecord,
    cursor: &mut RolloutRecordCursor,
    trailing_partial: TrailingPartialPolicy,
    parsed: Result<Option<RolloutLine>, String>,
) -> (r: Result<Option<RolloutRecord>, RolloutScanFailure>)
    ensures
        scan_closes(
            record@,
            *old(cursor),
            *final(cursor),
            trailing_partial,
            RecordParse::Legacy(parsed),
            r,
        ),
{
    if record.source_bytes == 0 {
        return Ok(None);
    }
    let ghost state = record@;
    let out = record.finish(*cursor, trailing_partial, parsed);
    assert(record_comes_out(
        state,
        *old(cursor),
        trailing_partial,
        RecordParse::Legacy(parsed),
        out,
    ));
    match out {
        Err(error) => Err(RolloutScanFailure::Record(error)),
        Ok(record) => match cursor.advance(record.byte_count) {
            Ok(()) => Ok(Some(record)),
            Err(message) => Err(
                RolloutScanFailure::Read {
                    error: ReadFailure { kind: ReadErrorKind::Other, message: message.to_owned() },
                    bytes_processed: cursor.byte_offset,
                },
            ),
        },
    }
}

/// Where a look over a rollout stands behind some records.
pub enum InspectionState {
    /// It goes on, with the metadata found so far.
    Looking(Option<SessionMeta>),
    /// It has found what it was looking for.
    Found(SessionMeta),
    /// The conversation begins before any metadata.
    Headless,
}

/// Whether a record belongs to the conversation, which cannot begin before the metadata.
pub open spec fn needs_metadata(item: RolloutItem) -> bool {
    item is ResponseItem || item is InterAgentCommunication
}

/// Where a look over a rollout stands behind one more record.
pub open spec fn inspected_line(
    depth: RolloutInspectionDepth,
    known: Option<SessionMeta>,
    line: Option<RolloutLine>,
) -> InspectionState {
    match line {
        None => InspectionState::Looking(known),
        Some(line) => match line.item {
            RolloutItem::SessionMeta(candidate) => if known is Some {
                InspectionState::Looking(known)
            } else if candidate.history_mode == ThreadHistoryMode::PaginatedRefsV1 || depth
                == RolloutInspectionDepth::MetadataOnly {
                InspectionState::Found(candidate)
            } else {
                InspectionState::Looking(Some(candidate))
            },
            _ => if known is None && needs_metadata(line.item) {
                InspectionState::Headless
            } else {
                InspectionState::Looking(known)
            },
        },
    }
}

/// Where a look over a rollout stands behind all its records.
pub open spec fn inspected(
    depth: RolloutInspectionDepth,
    known: Option<SessionMeta>,
    lines: Seq<Option<RolloutLine>>,
) -> InspectionState
    decreases lines.len(),
{
    if lines.len() == 0 {
        InspectionState::Looking(known)
    } else {
        match inspected_line(depth, known, lines[0]) {
            InspectionState::Looking(next) => inspected(depth, next, lines.skip(1)),
            end => end,
        }
    }
}

/// Whether a result says that the metadata of a rollout is not valid.
pub open spec fn says_invalid_metadata(
    result: Result<RolloutInspection, RolloutScanFailure>,
    message: Seq<char>,
    bytes_processed: u64,
) -> bool {
    &&& result is Err
    &&& result->Err_0 is InvalidSessionMetadata
    &&& result->Err_0->message@ == message
    &&& result->Err_0->InvalidSessionMetadata_bytes_processed == bytes_processed
}

/// A look over a rollout, record by record.
#[derive(Debug)]
pub struct RolloutInspector {
    pub depth: RolloutInspectionDepth,
    pub metadata: Option<SessionMeta>,
}

impl RolloutInspector {
    /// A look that has not begun.
    pub fn new(depth: RolloutInspectionDepth) -> (r: Self)
        ensures
            r.depth == depth,
            r.metadata is None,
    {
        RolloutInspector { depth, metadata: None }
    }

    /// Looks at one more record, which ends at the given position. Returns the result where the
    /// look is over.
    pub fn observe(&mut self, line: Option<RolloutLine>, byte_offset: u64) -> (r: Option<
        Result<RolloutInspection, RolloutScanFailure>,
    >)
        ensures
            final(self).depth == old(self).depth,
            match inspected_line(old(self).depth, old(self).metadata, line) {
                InspectionState::Looking(known) => r is None && final(self).metadata == known,
                InspectionState::Found(metadata) => {
                    &&& r is Some
                    &&& r->0 == Ok::<RolloutInspection, RolloutScanFailure>(
                        RolloutInspection { metadata, bytes_processed: byte_offset },
                    )
                    &&& final(self).metadata == old(self).metadata
                },
                InspectionState::Headless => {
                    &&& r is Some
                    &&& says_invalid_metadata(
                        r->0,
                        "rollout does not start with session metadata"@,
                        byte_offset,
                    )
                    &&& final(self).metadata == old(self).metadata
                },
            },
    {
        match line {
            None => None,
            Some(line) => match line.item {
                RolloutItem::SessionMeta(candidate) => {
                    if self.metadata.is_none() {
                        if candidate.history_mode == ThreadHistoryMode::PaginatedRefsV1
                            || self.depth == RolloutInspectionDepth::MetadataOnly {
                            return Some(
                                Ok(
                                    RolloutInspection {
                                        metadata: candidate,
                                        bytes_processed: byte_offset,
                                    },
                                ),
                            );
                        }
                        self.metadata = Some(candidate);
                    }
                    None
                },
                RolloutItem::ResponseItem(_) | RolloutItem::InterAgentCommunication { .. } => {
                    if self.metadata.is_none() {
                        return Some(
                            Err(
                                RolloutScanFailure::InvalidSessionMetadata {
                                    message:
                                        "rollout does not start with session metadata".to_owned(),
                                    bytes_processed: byte_offset,
                                },
                            ),
                        );
                    }
                    None
                },
                _ => None,
            },
        }
    }

    /// The result at the end of the rollout, which ends at the given position.
    pub fn finish(self, byte_offset: u64) -> (r: Result<RolloutInspection, RolloutScanFailure>)
        ensures
            match self.metadata {
                Some(metadata) => r == Ok::<RolloutInspection, RolloutScanFailure>(
                    RolloutInspection { metadata, bytes_processed: byte_offset },
                ),
                None => says_invalid_metadata(
                    r,
                    "rollout contains no session metadata"@,
                    byte_offset,
                ),
            },
    {
        match self.metadata {
            Some(metadata) => Ok(RolloutInspection { metadata, bytes_processed: byte_offset }),
            None => Err(
                RolloutScanFailure::InvalidSessionMetadata {
                    message: "rollout contains no session metadata".to_owned(),
                    bytes_processed: byte_offset,
                },
            ),
        }
    }
}

/// Whether a failure tells a report about a scan that ended in some way.
pub open spec fn tells_scan_failure(
    told: RolloutValidationFailure,
    failure: RolloutScanFailure,
) -> bool {
    match failure {
        RolloutScanFailure::Read { error, bytes_processed } => {
            &&& told.failure.reason == RolloutMigrationFailureReason::RolloutReadFailed
            &&& told.failure.error@ == migration_failure(error.message@)
            &&& told.bytes_processed == bytes_processed
            &&& told.read_error_kind == Some(error.kind)
        },
        RolloutScanFailure::InvalidSessionMetadata { message, bytes_processed } => {
            &&& told.failure.reason == RolloutMigrationFailureReason::InvalidSessionMetadata
            &&& told.failure.error@ == migration_failure(message@)
            &&& told.bytes_processed == bytes_processed
            &&& told.read_error_kind is None
        },
        RolloutScanFailure::Record(error) => {
            &&& told.failure.reason == (if error is Oversized {
                RolloutMigrationFailureReason::OversizedRolloutRecord
            } else {
                RolloutMigrationFailureReason::MalformedRolloutRecord
            })
            &&& told.failure.error@ == migration_failure(error_text(error))
            &&& told.bytes_processed == vstd::math::min(
                error_extent(error).0 + error_extent(error).1,
                u64::MAX as int,
            )
            &&& told.read_error_kind is None
        },
    }
}

/// What a scan on another thread came to: its result, or the failure of the thread.
pub fn inspect_rollout_records(
    result: Result<Result<RolloutInspection, RolloutScanFailure>, String>,
) -> (r: Result<RolloutInspection, RolloutValidationFailure>)
    ensures
        match result {
            Ok(Ok(inspection)) => r is Ok && r->Ok_0 == inspection,
            Ok(Err(failure)) => r is Err && tells_scan_failure(r->Err_0, failure),
            Err(message) => {
                &&& r is Err
                &&& r->Err_0.failure.reason == RolloutMigrationFailureReason::RolloutReadFailed
                &&& r->Err_0.failure.error@ == migration_failure(message@)
                &&& r->Err_0.bytes_processed == 0
                &&& r->Err_0.read_error_kind is None
            },
        },
{
    match result {
        Err(message) => Err(
            RolloutValidationFailure {
                failure: RolloutMigrationFailure::new(
                    RolloutMigrationFailureReason::RolloutReadFailed,
                    migration_error(message.as_str()),
                ),
                bytes_processed: 0,
                read_error_kind: None,
            },
        ),
        Ok(Ok(inspection)) => Ok(inspection),
        Ok(Err(RolloutScanFailure::Read { error, bytes_processed })) => Err(
            RolloutValidationFailure {
                failure: RolloutMigrationFailure::new(
                    RolloutMigrationFailureReason::RolloutReadFailed,
                    migration_error(error.message.as_str()),
                ),
                bytes_processed,
                read_error_kind: Some(error.kind),
            },
        ),
        Ok(Err(RolloutScanFailure::InvalidSessionMetadata { message, bytes_processed })) => Err(
            RolloutValidationFailure {
                failure: RolloutMigrationFailure::new(
                    RolloutMigrationFailureReason::InvalidSessionMetadata,
                    migration_error(message.as_str()),
                ),
                bytes_processed,
                read_error_kind: None,
            },
        ),
        Ok(Err(RolloutScanFailure::Record(error))) => {
            let reason = error.failure_reason();
            let bytes_processed: u64 = error.bytes_processed();
            Err(
                RolloutValidationFailure {
                    failure: RolloutMigrationFailure::new(
                        reason,
                        migration_error(error.to_text().as_str()),
                    ),
                    bytes_processed,
                    read_error_kind: None,
                },
            )
        },
    }
}

/// A record that cannot be read stops a scan: one beyond the limit as oversized, and a complete one
/// that does not parse, or a mended one that holds no line, as malformed. The failure says where the
/// record stands and how long it is, the position stays in front of it, and nothing behind it is
/// looked at.
pub proof fn damaged_records_stop_a_scan(
    state: RecordState,
    before: RolloutRecordCursor,
    after: RolloutRecordCursor,
    trailing_partial: TrailingPartialPolicy,
    parsed: Result<Option<RolloutLine>, String>,
    result: Result<Option<RolloutRecord>, RolloutScanFailure>,
)
    requires
        0 < state.source_bytes <= u64::MAX,
        state.logical_bytes <= u64::MAX,
        scan_closes(state, before, after, trailing_partial, RecordParse::Legacy(parsed), result),
    ensures
        state.logical_bytes > MAX_ROLLOUT_LINE_BYTES ==> {
            &&& after == before
            &&& result matches Err(RolloutScanFailure::Record(error)) && error == (
            RolloutRecordValidationError::Oversized {
                ordinal: before.ordinal,
                byte_offset: before.byte_offset,
                observed_bytes: state.logical_bytes as u64,
                source_bytes: state.source_bytes as u64,
                limit_bytes: MAX_ROLLOUT_LINE_BYTES,
            })
        },
        state.logical_bytes <= MAX_ROLLOUT_LINE_BYTES && state.terminated && parsed is Err ==> {
            &&& after == before
            &&& result matches Err(RolloutScanFailure::Record(error)) && says_malformed(
                error,
                before,
                state.bytes.len(),
                state.source_bytes as u64,
                parsed->Err_0@,
            )
        },
        state.logical_bytes <= MAX_ROLLOUT_LINE_BYTES && state.repaired && (parsed matches Ok(
            line,
        ) && line is None) ==> {
            &&& after == before
            &&& result matches Err(RolloutScanFailure::Record(error)) && says_malformed(
                error,
                before,
                state.bytes.len(),
                state.source_bytes as u64,
                "newline-repaired record is not a supported rollout line"@,
            )
        },
{
}

/// Two scans that stop at the same record say the same about it, where the parser said the same.
pub proof fn scans_say_the_same_of_a_damaged_record(
    state: RecordState,
    cursor: RolloutRecordCursor,
    trailing_partial: TrailingPartialPolicy,
    first: Result<Option<RolloutLine>, String>,
    second: Result<Option<RolloutLine>, String>,
    first_error: RolloutRecordValidationError,
    second_error: RolloutRecordValidationError,
)
    requires
        match (first, second) {
            (Ok(a), Ok(b)) => a is None == b is None,
            (Err(a), Err(b)) => a@ == b@,
            _ => false,
        },
        record_comes_out(
            state,
            cursor,
            trailing_partial,
            RecordParse::Legacy(first),
            Err(first_error),
        ),
        record_comes_out(
            state,
            cursor,
            trailing_partial,
            RecordParse::Legacy(second),
            Err(second_error),
        ),
    ensures
        first_error is Oversized == second_error is Oversized,
        error_text(first_error) == error_text(second_error),
        error_extent(first_error) == error_extent(second_error),
{
}

/// Whether a record may stand before the metadata.
pub open spec fn precedes_metadata(line: Option<RolloutLine>) -> bool {
    line is Some ==> !(line->0.item is SessionMeta) && !needs_metadata(line->0.item)
}

/// Whether the first session metadata of a rollout stands at a position, with no part of the
/// conversation before it.
pub open spec fn first_metadata_at(
    lines: Seq<Option<RolloutLine>>,
    i: int,
    metadata: SessionMeta,
) -> bool {
    &&& 0 <= i < lines.len()
    &&& lines[i] is Some
    &&& lines[i]->0.item == RolloutItem::SessionMeta(metadata)
    &&& forall|j: int| 0 <= j < i ==> precedes_metadata(#[trigger] lines[j])
}

/// A look over a rollout that succeeds answers with the first session metadata in it, and no part
/// of the conversation stands before that metadata.
pub proof fn inspection_answers_with_the_first_metadata(
    depth: RolloutInspectionDepth,
    lines: Seq<Option<RolloutLine>>,
    metadata: SessionMeta,
)
    requires
        ({
            let end = inspected(depth, None, lines);
            end == InspectionState::Found(metadata) || end == InspectionState::Looking(
                Some(metadata),
            )
        }),
    ensures
        exists|i: int| first_metadata_at(lines, i, metadata),
    decreases lines.len(),
{
    if lines.len() > 0 {
        let rest = lines.skip(1);
        match inspected_line(depth, None, lines[0]) {
            InspectionState::Looking(Some(found)) => {
                lemma_known_metadata_stays(depth, found, rest);
                assert(first_metadata_at(lines, 0, metadata));
            },
            InspectionState::Looking(None) => {
                inspection_answers_with_the_first_metadata(depth, rest, metadata);
                let k = choose|i: int| first_metadata_at(rest, i, metadata);
                assert(lines[k + 1] == rest[k]);
                assert forall|j: int| 0 <= j < k + 1 implies precedes_metadata(
                    #[trigger] lines[j],
                ) by {
                    if j > 0 {
                        assert(lines[j] == rest[j - 1]);
                    }
                }
                assert(first_metadata_at(lines, k + 1, metadata));
            },
            _ => {
                assert(first_metadata_at(lines, 0, metadata));
            },
        }
    }
}

proof fn lemma_known_metadata_stays(
    depth: RolloutInspectionDepth,
    known: SessionMeta,
    lines: Seq<Option<RolloutLine>>,
)
    ensures
        inspected(depth, Some(known), lines) == InspectionState::Looking(Some(known)),
    decreases lines.len(),
{
    if lines.len() > 0 {
        lemma_known_metadata_stays(depth, known, lines.skip(1));
    }
}

/// A rollout that already uses references is recognised by its metadata alone: the records behind
/// the metadata are not looked at.
pub proof fn migrated_rollouts_are_recognised_by_their_head(
    depth: RolloutInspectionDepth,
    metadata: SessionMeta,
    head: RolloutLine,
    rest: Seq<Option<RolloutLine>>,
)
    requires
        head.item == RolloutItem::SessionMeta(metadata),
        metadata.history_mode == ThreadHistoryMode::PaginatedRefsV1,
    ensures
        inspected(depth, None, seq![Some(head)] + rest) == InspectionState::Found(metadata),
{
    assert((seq![Some(head)] + rest)[0] == Some(head));
}

} // verus!
