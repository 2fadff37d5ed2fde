//! Rollout records as they are read from disk: one JSON document per line, of bounded size, with
//! repair of strings that a line break has torn apart.

use crate::error::migration_error;
use crate::error::migration_failure;
use crate::error::ThreadStoreResult;
use crate::outside::json_is_truncated;
use crate::outside::json_truncated;
use crate::report::RolloutMigrationFailureReason;
use crate::rollout::RolloutLine;
use crate::text::decimal;
use crate::text::decimal_text;
use vstd::prelude::*;

verus! {

/// How many bytes are processed between two points at which other work may run.
pub const PROJECTION_BATCH_BYTES: u64 = 262144;

/// The largest record that is read. Inline compaction checkpoints of legacy rollouts come close
/// to it.
pub const MAX_ROLLOUT_LINE_BYTES: u64 = 25165824;

/// Where a scanner of JSON text stands: inside a string or not, and behind a backslash or not.
pub struct LexState {
    pub in_string: bool,
    pub escaped: bool,
}

/// The state behind one more byte.
pub open spec fn lexed(state: LexState, byte: u8) -> LexState {
    if state.in_string {
        if state.escaped {
            LexState { in_string: true, escaped: false }
        } else if byte == 0x5c {
            LexState { in_string: true, escaped: true }
        } else if byte == 0x22 {
            LexState { in_string: false, escaped: false }
        } else {
            state
        }
    } else if byte == 0x22 {
        LexState { in_string: true, escaped: state.escaped }
    } else {
        state
    }
}

/// The state behind a run of bytes.
pub open spec fn scanned(state: LexState, bytes: Seq<u8>) -> LexState
    decreases bytes.len(),
{
    if bytes.len() == 0 {
        state
    } else {
        lexed(scanned(state, bytes.drop_last()), bytes.last())
    }
}

/// A record that is being read.
#[verifier::ext_equal]
pub struct RecordState {
    pub bytes: Seq<u8>,
    pub source_bytes: nat,
    pub logical_bytes: nat,
    pub lex: LexState,
    pub repaired: bool,
    pub terminated: bool,
}

/// A record of which nothing has been read.
pub open spec fn unread() -> RecordState {
    RecordState {
        bytes: Seq::empty(),
        source_bytes: 0,
        logical_bytes: 0,
        lex: LexState { in_string: false, escaped: false },
        repaired: false,
        terminated: false,
    }
}

/// The record with more content, or the same record with what is counted unchanged where the
/// count would not fit. Content beyond the limit is counted and not kept.
pub open spec fn grown(state: RecordState, bytes: Seq<u8>) -> RecordState {
    let logical = state.logical_bytes + bytes.len();
    if logical > u64::MAX {
        state
    } else {
        RecordState {
            bytes: if logical <= MAX_ROLLOUT_LINE_BYTES {
                state.bytes + bytes
            } else if state.logical_bytes <= MAX_ROLLOUT_LINE_BYTES {
                Seq::empty()
            } else {
                state.bytes
            },
            logical_bytes: logical,
            ..state
        }
    }
}

/// Whether more content can be counted.
pub open spec fn can_grow(state: RecordState, bytes: Seq<u8>) -> bool {
    state.logical_bytes + bytes.len() <= u64::MAX
}

/// Content without a carriage return at its end.
pub open spec fn without_return(content: Seq<u8>) -> Seq<u8> {
    if content.len() > 0 && content.last() == 0x0d {
        content.drop_last()
    } else {
        content
    }
}

/// The two bytes that stand for a line break inside a JSON string.
pub open spec fn escaped_break() -> Seq<u8> {
    seq![0x5cu8, 0x6eu8]
}

/// Whether a chunk ends with a line break.
pub open spec fn ends_line(chunk: Seq<u8>) -> bool {
    chunk.len() > 0 && chunk.last() == 0x0a
}

/// A chunk without its line break.
pub open spec fn line_content(chunk: Seq<u8>) -> Seq<u8> {
    if ends_line(chunk) {
        chunk.drop_last()
    } else {
        chunk
    }
}

/// A record behind one more chunk, and whether that chunk ends it; or the record as it is left
/// behind by a failure, and the message of the failure.
#[verifier::opaque]
pub open spec fn appended(state: RecordState, chunk: Seq<u8>) -> (
    RecordState,
    Result<bool, Seq<char>>,
) {
    if state.source_bytes + chunk.len() > u64::MAX {
        (state, Err("rollout record source byte count overflow"@))
    } else {
        let content = line_content(chunk);
        let read = RecordState {
            source_bytes: state.source_bytes + chunk.len(),
            lex: scanned(state.lex, content),
            ..state
        };
        if ends_line(chunk) && read.lex.in_string && !read.lex.escaped {
            let kept = without_return(content);
            if !can_grow(read, kept) {
                (read, Err("rollout record logical byte count overflow"@))
            } else if !can_grow(grown(read, kept), escaped_break()) {
                (grown(read, kept), Err("rollout record logical byte count overflow"@))
            } else {
                (
                    RecordState {
                        repaired: true,
                        terminated: false,
                        ..grown(grown(read, kept), escaped_break())
                    },
                    Ok(false),
                )
            }
        } else if !can_grow(read, chunk) {
            (read, Err("rollout record logical byte count overflow"@))
        } else {
            (
                RecordState { terminated: ends_line(chunk), ..grown(read, chunk) },
                Ok(ends_line(chunk)),
            )
        }
    }
}

/// How many bytes may be read before a record is looked at again: one batch at most, and no more
/// than one byte beyond the largest record.
pub open spec fn read_limit_of(state: RecordState) -> int {
    if state.logical_bytes > MAX_ROLLOUT_LINE_BYTES {
        PROJECTION_BATCH_BYTES as int
    } else {
        vstd::math::min(
            MAX_ROLLOUT_LINE_BYTES + 1 - state.logical_bytes,
            PROJECTION_BATCH_BYTES as int,
        )
    }
}

/// A record that is being read, chunk by chunk.
#[derive(Debug)]
pub struct LogicalRolloutRecord {
    pub bytes: Vec<u8>,
    pub source_bytes: u64,
    pub logical_bytes: u64,
    pub in_string: bool,
    pub escaped: bool,
    pub repaired: bool,
    pub terminated: bool,
}

impl View for LogicalRolloutRecord {
    type V = RecordState;

    open spec fn view(&self) -> RecordState {
        RecordState {
            bytes: self.bytes@,
            source_bytes: self.source_bytes as nat,
            logical_bytes: self.logical_bytes as nat,
            lex: LexState { in_string: self.in_string, escaped: self.escaped },
            repaired: self.repaired,
            terminated: self.terminated,
        }
    }
}

impl Default for LogicalRolloutRecord {
    fn default() -> (r: Self)
        ensures
            r@ == unread(),
    {
        LogicalRolloutRecord {
            bytes: Vec::new(),
            source_bytes: 0,
            logical_bytes: 0,
            in_string: false,
            escaped: false,
            repaired: false,
            terminated: false,
        }
    }
}

impl LogicalRolloutRecord {
    /// How many bytes may be read before the record is looked at again: one batch at most, and
    /// no more than one byte beyond the largest record.
    pub fn read_limit(&self) -> (r: u64)
        ensures
            r == read_limit_of(self@),
            1 <= r <= PROJECTION_BATCH_BYTES,
    {
        if self.logical_bytes > MAX_ROLLOUT_LINE_BYTES {
            return PROJECTION_BATCH_BYTES;
        }
        let rest: u64 = MAX_ROLLOUT_LINE_BYTES + 1 - self.logical_bytes;
        if rest < PROJECTION_BATCH_BYTES {
            rest
        } else {
            PROJECTION_BATCH_BYTES
        }
    }

    /// Takes in one chunk of the source, which holds a line break at its end or nowhere. Returns
    /// whether the record ends with it.
    ///
    /// A line break inside a JSON string does not end the record: it is kept as the escape that
    /// the string should have held. A pending escape, or a line break outside a string, ends the
    /// record, so that nothing but a torn string is ever joined.
    pub fn append_chunk(&mut self, chunk: &[u8]) -> (r: Result<bool, &'static str>)
        ensures
            final(self)@ == appended(old(self)@, chunk@).0,
            match r {
                Ok(ended) => appended(old(self)@, chunk@).1 == Ok::<bool, Seq<char>>(ended),
                Err(message) => appended(old(self)@, chunk@).1 == Err::<bool, Seq<char>>(message@),
            },
    {
        proof {
            reveal(appended);
        }
        let count: u64 = chunk.len() as u64;
        if count > u64::MAX - self.source_bytes {
            return Err("rollout record source byte count overflow");
        }
        self.source_bytes = self.source_bytes + count;
        let terminated: bool = chunk.len() > 0 && chunk[chunk.len() - 1] == 0x0a;
        let content: &[u8] = if terminated {
            vstd::slice::slice_subrange(chunk, 0, chunk.len() - 1)
        } else {
            chunk
        };
        assert(content@ =~= line_content(chunk@));
        self.scan_json_string_state(content);
        if terminated && self.in_string && !self.escaped {
            let torn: &[u8] = if content.len() > 0 && content[content.len() - 1] == 0x0d {
                vstd::slice::slice_subrange(content, 0, content.len() - 1)
            } else {
                content
            };
            assert(torn@ =~= without_return(content@));
            match self.append_logical_bytes(torn) {
                Ok(()) => {},
                Err(message) => {
                    return Err(message);
                },
            }
            let line_break: Vec<u8> = vec![0x5c, 0x6e];
            assert(line_break@ =~= escaped_break());
            match self.append_logical_bytes(line_break.as_slice()) {
                Ok(()) => {},
                Err(message) => {
                    return Err(message);
                },
            }
            self.repaired = true;
            self.terminated = false;
            return Ok(false);
        }
        match self.append_logical_bytes(chunk) {
            Ok(()) => {},
            Err(message) => {
                return Err(message);
            },
        }
        self.terminated = terminated;
        Ok(terminated)
    }

    /// Moves the JSON scanner over more content.
    pub fn scan_json_string_state(&mut self, bytes: &[u8])
        ensures
            final(self)@ == (RecordState { lex: scanned(old(self)@.lex, bytes@), ..old(self)@ }),
    {
        let ghost start = self@;
        let mut i: usize = 0;
        while i < bytes.len()
            invariant
                i <= bytes.len(),
                self@ == (RecordState { lex: scanned(start.lex, bytes@.take(i as int)), ..start }),
            decreases bytes.len() - i,
        {
            let byte: u8 = bytes[i];
            if self.in_string {
                if self.escaped {
                    self.escaped = false;
                } else if byte == 0x5c {
                    self.escaped = true;
                } else if byte == 0x22 {
                    self.in_string = false;
                }
            } else if byte == 0x22 {
                self.in_string = true;
            }
            assert(bytes@.take(i + 1).drop_last() =~= bytes@.take(i as int));
            i += 1;
        }
        assert(bytes@.take(bytes@.len() as int) =~= bytes@);
    }

    /// Adds content to the record.
    pub fn append_logical_bytes(&mut self, bytes: &[u8]) -> (r: Result<(), &'static str>)
        ensures
            final(self)@ == grown(old(self)@, bytes@),
            r is Ok <==> can_grow(old(self)@, bytes@),
            r is Err ==> r->Err_0@ == "rollout record logical byte count overflow"@,
    {
        let previous: u64 = self.logical_bytes;
        let count: u64 = bytes.len() as u64;
        if count > u64::MAX - previous {
            return Err("rollout record logical byte count overflow");
        }
        self.logical_bytes = previous + count;
        if self.logical_bytes <= MAX_ROLLOUT_LINE_BYTES {
            let ghost before = self.bytes@;
            self.bytes.extend_from_slice(bytes);
            assert(self.bytes@ =~= before + bytes@);
        } else if previous <= MAX_ROLLOUT_LINE_BYTES {
            self.bytes.clear();
        }
        Ok(())
    }

    /// Takes in what one read returned, and says whether the record is complete: an empty read
    /// means that the source has ended.
    pub fn take_read(&mut self, chunk: &[u8]) -> (r: Result<bool, &'static str>)
        ensures
            chunk@.len() == 0 ==> r == Ok::<bool, &'static str>(true) && final(self)@ == old(self)@,
            chunk@.len() > 0 ==> final(self)@ == appended(old(self)@, chunk@).0 && match r {
                Ok(ended) => appended(old(self)@, chunk@).1 == Ok::<bool, Seq<char>>(ended),
                Err(message) => appended(old(self)@, chunk@).1 == Err::<bool, Seq<char>>(message@),
            },
    {
        if chunk.len() == 0 {
            return Ok(true);
        }
        self.append_chunk(chunk)
    }
}

/// The position of a record in its rollout.
#[derive(Clone, Copy, Debug, PartialEq, Eq, Structural)]
pub struct RolloutRecordCursor {
    pub ordinal: u64,
    pub byte_offset: u64,
}

impl Default for RolloutRecordCursor {
    fn default() -> (r: Self)
        ensures
            r == (RolloutRecordCursor { ordinal: 0, byte_offset: 0 }),
    {
        RolloutRecordCursor { ordinal: 0, byte_offset: 0 }
    }
}

/// A position behind a record of the given size; or the position that a failure leaves behind,
/// and the message of the failure.
pub open spec fn advanced(cursor: RolloutRecordCursor, byte_count: u64) -> (
    RolloutRecordCursor,
    Option<Seq<char>>,
) {
    if cursor.byte_offset + byte_count > u64::MAX {
        (cursor, Some("rollout record byte offset overflow"@))
    } else if cursor.ordinal == u64::MAX {
        (
            RolloutRecordCursor {
                byte_offset: (cursor.byte_offset + byte_count) as u64,
                ..cursor
            },
            Some("rollout record ordinal overflow"@),
        )
    } else {
        (
            RolloutRecordCursor {
                byte_offset: (cursor.byte_offset + byte_count) as u64,
                ordinal: (cursor.ordinal + 1) as u64,
            },
            None,
        )
    }
}

impl RolloutRecordCursor {
    /// Moves behind a record of the given size.
    pub fn advance(&mut self, byte_count: u64) -> (r: Result<(), &'static str>)
        ensures
            *final(self) == advanced(*old(self), byte_count).0,
            match r {
                Ok(_) => advanced(*old(self), byte_count).1 is None,
                Err(message) => advanced(*old(self), byte_count).1 == Some(message@),
            },
    {
        if byte_count > u64::MAX - self.byte_offset {
            return Err("rollout record byte offset overflow");
        }
        self.byte_offset = self.byte_offset + byte_count;
        if self.ordinal == u64::MAX {
            return Err("rollout record ordinal overflow");
        }
        self.ordinal = self.ordinal + 1;
        Ok(())
    }
}

/// What becomes of a last line that a writer did not finish.
#[derive(Clone, Copy, Debug, PartialEq, Eq, Structural)]
pub enum TrailingPartialPolicy {
    DiscardIncomplete,
    Reject,
}

/// Why a record cannot be used.
#[derive(Debug, PartialEq, Eq)]
pub enum RolloutRecordValidationError {
    Oversized {
        ordinal: u64,
        byte_offset: u64,
        observed_bytes: u64,
        source_bytes: u64,
        limit_bytes: u64,
    },
    Malformed {
        ordinal: u64,
        byte_offset: u64,
        observed_bytes: u64,
        source_bytes: u64,
        parser_error: String,
    },
}

/// Where the unusable record stands, by its first byte and its size in the source.
pub open spec fn error_extent(error: RolloutRecordValidationError) -> (u64, u64) {
    match error {
        RolloutRecordValidationError::Oversized { byte_offset, source_bytes, .. } => (
            byte_offset,
            source_bytes,
        ),
        RolloutRecordValidationError::Malformed { byte_offset, source_bytes, .. } => (
            byte_offset,
            source_bytes,
        ),
    }
}

/// The message of a validation error.
pub open spec fn error_text(error: RolloutRecordValidationError) -> Seq<char> {
    match error {
        RolloutRecordValidationError::Oversized {
            ordinal,
            byte_offset,
            observed_bytes,
            limit_bytes,
            ..
        } => "rollout record at ordinal "@ + decimal(ordinal as nat) + ", byte offset "@ + decimal(
            byte_offset as nat,
        ) + " is "@ + decimal(observed_bytes as nat) + " bytes, exceeding the "@ + decimal(
            limit_bytes as nat,
        ) + "-byte limit"@,
        RolloutRecordValidationError::Malformed {
            ordinal,
            byte_offset,
            observed_bytes,
            parser_error,
            ..
        } => "rollout record at ordinal "@ + decimal(ordinal as nat) + ", byte offset "@ + decimal(
            byte_offset as nat,
        ) + " is malformed ("@ + decimal(observed_bytes as nat) + " bytes): "@ + parser_error@,
    }
}

impl RolloutRecordValidationError {
    /// The reason that a report gives for the error.
    pub fn failure_reason(&self) -> (r: RolloutMigrationFailureReason)
        ensures
            self is Oversized ==> r == RolloutMigrationFailureReason::OversizedRolloutRecord,
            self is Malformed ==> r == RolloutMigrationFailureReason::MalformedRolloutRecord,
    {
        match self {
            RolloutRecordValidationError::Oversized { .. } => {
                RolloutMigrationFailureReason::OversizedRolloutRecord
            },
            RolloutRecordValidationError::Malformed { .. } => {
                RolloutMigrationFailureReason::MalformedRolloutRecord
            },
        }
    }

    /// How far the source has been read: to the end of the record, as far as that can be counted.
    pub fn bytes_processed(&self) -> (r: u64)
        ensures
            r == vstd::math::min(
                error_extent(*self).0 + error_extent(*self).1,
                u64::MAX as int,
            ),
    {
        match self {
            RolloutRecordValidationError::Oversized { byte_offset, source_bytes, .. } => {
                byte_offset.saturating_add(*source_bytes)
            },
            RolloutRecordValidationError::Malformed { byte_offset, source_bytes, .. } => {
                byte_offset.saturating_add(*source_bytes)
            },
        }
    }

    /// The message of the error.
    pub fn to_text(&self) -> (r: String)
        ensures
            r@ == error_text(*self),
    {
        let mut out: String = "rollout record at ordinal ".to_owned();
        match self {
            RolloutRecordValidationError::Oversized {
                ordinal,
                byte_offset,
                observed_bytes,
                limit_bytes,
                ..
            } => {
                out.append(decimal_text(*ordinal).as_str());
                out.append(", byte offset ");
                out.append(decimal_text(*byte_offset).as_str());
                out.append(" is ");
                out.append(decimal_text(*observed_bytes).as_str());
                out.append(" bytes, exceeding the ");
                out.append(decimal_text(*limit_bytes).as_str());
                out.append("-byte limit");
            },
            RolloutRecordValidationError::Malformed {
                ordinal,
                byte_offset,
                observed_bytes,
                parser_error,
                ..
            } => {
                out.append(decimal_text(*ordinal).as_str());
                out.append(", byte offset ");
                out.append(decimal_text(*byte_offset).as_str());
                out.append(" is malformed (");
                out.append(decimal_text(*observed_bytes).as_str());
                out.append(" bytes): ");
                out.append(parser_error.as_str());
            },
        }
        out
    }
}

/// What a parser makes of the bytes of one record.
#[derive(Debug, PartialEq, Eq)]
pub enum RecordParse {
    /// The tolerant parser for legacy records, which finds a line, nothing that is kept, or an
    /// error.
    Legacy(Result<Option<RolloutLine>, String>),
    /// The strict parser for paginated records, which finds a line or an error.
    Strict(Result<RolloutLine, String>),
}

/// What becomes of a record: the line it holds, if it holds one, or the text of the complaint.
pub enum RecordVerdict {
    Line(Option<RolloutLine>),
    Malformed(Seq<char>),
}

/// What becomes of a record, given what its parser made of it.
pub open spec fn record_verdict(
    bytes: Seq<u8>,
    terminated: bool,
    trailing_partial: TrailingPartialPolicy,
    require_rollout_line: bool,
    parsed: RecordParse,
) -> RecordVerdict {
    match parsed {
        RecordParse::Strict(line) => if !terminated || require_rollout_line {
            RecordVerdict::Malformed(
                "paginated rollout record is not one complete terminated JSONL line"@,
            )
        } else {
            match line {
                Ok(line) => RecordVerdict::Line(Some(line)),
                Err(error) => RecordVerdict::Malformed(error@),
            }
        },
        RecordParse::Legacy(Ok(None)) if require_rollout_line => RecordVerdict::Malformed(
            "newline-repaired record is not a supported rollout line"@,
        ),
        RecordParse::Legacy(Ok(line)) => RecordVerdict::Line(line),
        RecordParse::Legacy(Err(error)) => if !terminated && trailing_partial
            == TrailingPartialPolicy::DiscardIncomplete && json_truncated(bytes) {
            RecordVerdict::Line(None)
        } else {
            RecordVerdict::Malformed(error@)
        },
    }
}

/// Whether an error says that the record at a position is malformed.
pub open spec fn says_malformed(
    error: RolloutRecordValidationError,
    cursor: RolloutRecordCursor,
    observed_bytes: nat,
    source_bytes: u64,
    text: Seq<char>,
) -> bool {
    error matches RolloutRecordValidationError::Malformed {
        ordinal,
        byte_offset,
        observed_bytes: observed,
        source_bytes: source,
        parser_error,
    } && ordinal == cursor.ordinal && byte_offset == cursor.byte_offset && observed
        == observed_bytes && source == source_bytes && parser_error@ == text
}

fn malformed_record(
    cursor: RolloutRecordCursor,
    observed_bytes: usize,
    source_bytes: u64,
    parser_error: String,
) -> (r: RolloutRecordValidationError)
    ensures
        says_malformed(r, cursor, observed_bytes as nat, source_bytes, parser_error@),
{
    RolloutRecordValidationError::Malformed {
        ordinal: cursor.ordinal,
        byte_offset: cursor.byte_offset,
        observed_bytes: observed_bytes as u64,
        source_bytes,
        parser_error,
    }
}

/// The legacy record in some bytes, given what the tolerant parser made of them.
pub fn parse_rollout_record(
    bytes: &[u8],
    terminated: bool,
    source_bytes: u64,
    cursor: RolloutRecordCursor,
    trailing_partial: TrailingPartialPolicy,
    require_rollout_line: bool,
    parsed: Result<Option<RolloutLine>, String>,
) -> (r: Result<Option<RolloutLine>, RolloutRecordValidationError>)
    ensures
        match record_verdict(
            bytes@,
            terminated,
            trailing_partial,
            require_rollout_line,
            RecordParse::Legacy(parsed),
        ) {
            RecordVerdict::Line(line) => r == Ok::<_, RolloutRecordValidationError>(line),
            RecordVerdict::Malformed(text) => r is Err && says_malformed(
                r->Err_0,
                cursor,
                bytes@.len(),
                source_bytes,
                text,
            ),
        },
{
    parse_rollout_record_with_mode(
        bytes,
        terminated,
        source_bytes,
        cursor,
        trailing_partial,
        require_rollout_line,
        RecordParse::Legacy(parsed),
    )
}

/// The record in some bytes, given what its parser made of them. The last line of a legacy
/// rollout may be discarded where the writer stopped between two bytes: where it has no line
/// break, and JSON finds that it ends too early. Any other record that does not parse is an error.
pub fn parse_rollout_record_with_mode(
    bytes: &[u8],
    terminated: bool,
    source_bytes: u64,
    cursor: RolloutRecordCursor,
    trailing_partial: TrailingPartialPolicy,
    require_rollout_line: bool,
    parsed: RecordParse,
) -> (r: Result<Option<RolloutLine>, RolloutRecordValidationError>)
    ensures
        match record_verdict(bytes@, terminated, trailing_partial, require_rollout_line, parsed) {
            RecordVerdict::Line(line) => r == Ok::<_, RolloutRecordValidationError>(line),
            RecordVerdict::Malformed(text) => r is Err && says_malformed(
                r->Err_0,
                cursor,
                bytes@.len(),
                source_bytes,
                text,
            ),
        },
{
    match parsed {
        RecordParse::Strict(line) => {
            if !terminated || require_rollout_line {
                let complaint: String =
                    "paginated rollout record is not one complete terminated JSONL line".to_owned();
                return Err(malformed_record(cursor, bytes.len(), source_bytes, complaint));
            }
            match line {
                Ok(line) => Ok(Some(line)),
                Err(error) => Err(malformed_record(cursor, bytes.len(), source_bytes, error)),
            }
        },
        RecordParse::Legacy(Ok(line)) => {
            if require_rollout_line && line.is_none() {
                let complaint: String =
                    "newline-repaired record is not a supported rollout line".to_owned();
                return Err(malformed_record(cursor, bytes.len(), source_bytes, complaint));
            }
            Ok(line)
        },
        RecordParse::Legacy(Err(error)) => {
            if !terminated && trailing_partial == TrailingPartialPolicy::DiscardIncomplete
                && json_is_truncated(bytes) {
                return Ok(None);
            }
            Err(malformed_record(cursor, bytes.len(), source_bytes, error))
        },
    }
}

/// A record that has been read, with its size in the source.
#[derive(Debug, PartialEq, Eq)]
pub struct RolloutRecord {
    pub line: Option<RolloutLine>,
    pub byte_count: u64,
}

/// Whether a record that has been read comes out as a result, given what its parser made of it.
pub open spec fn record_comes_out(
    state: RecordState,
    cursor: RolloutRecordCursor,
    trailing_partial: TrailingPartialPolicy,
    parsed: RecordParse,
    result: Result<RolloutRecord, RolloutRecordValidationError>,
) -> bool {
    if state.logical_bytes > MAX_ROLLOUT_LINE_BYTES {
        result == Err::<RolloutRecord, _>(
            RolloutRecordValidationError::Oversized {
                ordinal: cursor.ordinal,
                byte_offset: cursor.byte_offset,
                observed_bytes: state.logical_bytes as u64,
                source_bytes: state.source_bytes as u64,
                limit_bytes: MAX_ROLLOUT_LINE_BYTES,
            },
        )
    } else {
        match record_verdict(
            state.bytes,
            state.terminated,
            trailing_partial,
            state.repaired,
            parsed,
        ) {
            RecordVerdict::Line(line) => result == Ok::<_, RolloutRecordValidationError>(
                RolloutRecord { line, byte_count: state.source_bytes as u64 },
            ),
            RecordVerdict::Malformed(text) => result is Err && says_malformed(
                result->Err_0,
                cursor,
                state.bytes.len(),
                state.source_bytes as u64,
                text,
            ),
        }
    }
}

impl LogicalRolloutRecord {
    /// The legacy record, given what the tolerant parser made of its bytes. A record that was
    /// mended has to hold a line.
    pub fn finish(
        self,
        cursor: RolloutRecordCursor,
        trailing_partial: TrailingPartialPolicy,
        parsed: Result<Option<RolloutLine>, String>,
    ) -> (r: Result<RolloutRecord, RolloutRecordValidationError>)
        ensures
            record_comes_out(self@, cursor, trailing_partial, RecordParse::Legacy(parsed), r),
    {
        self.finish_with_parser(cursor, trailing_partial, RecordParse::Legacy(parsed))
    }

    /// The paginated record, given what the strict parser made of its bytes. Neither a torn string
    /// nor an unfinished line is accepted.
    pub fn finish_strict_paginated(
        self,
        cursor: RolloutRecordCursor,
        parsed: Result<RolloutLine, String>,
    ) -> (r: Result<RolloutRecord, RolloutRecordValidationError>)
        ensures
            record_comes_out(
                self@,
                cursor,
                TrailingPartialPolicy::Reject,
                RecordParse::Strict(parsed),
                r,
            ),
    {
        self.finish_with_parser(cursor, TrailingPartialPolicy::Reject, RecordParse::Strict(parsed))
    }

    /// The record, given what its parser made of its bytes.
    pub fn finish_with_parser(
        self,
        cursor: RolloutRecordCursor,
        trailing_partial: TrailingPartialPolicy,
        parsed: RecordParse,
    ) -> (r: Result<RolloutRecord, RolloutRecordValidationError>)
        ensures
            record_comes_out(self@, cursor, trailing_partial, parsed, r),
    {
        if self.logical_bytes > MAX_ROLLOUT_LINE_BYTES {
            return Err(
                RolloutRecordValidationError::Oversized {
                    ordinal: cursor.ordinal,
                    byte_offset: cursor.byte_offset,
                    observed_bytes: self.logical_bytes,
                    source_bytes: self.source_bytes,
                    limit_bytes: MAX_ROLLOUT_LINE_BYTES,
                },
            );
        }
        match parse_rollout_record_with_mode(
            self.bytes.as_slice(),
            self.terminated,
            self.source_bytes,
            cursor,
            trailing_partial,
            self.repaired,
            parsed,
        ) {
            Ok(line) => Ok(RolloutRecord { line, byte_count: self.source_bytes }),
            Err(error) => Err(error),
        }
    }
}

/// Whether closing a record at a position gives a result and a new position: nothing where
/// nothing was read; the record where it comes out and the position can move behind it; otherwise
/// the failure.
pub open spec fn record_closes(
    state: RecordState,
    before: RolloutRecordCursor,
    after: RolloutRecordCursor,
    trailing_partial: TrailingPartialPolicy,
    parsed: RecordParse,
    result: ThreadStoreResult<Option<RolloutRecord>>,
) -> bool {
    if state.source_bytes == 0 {
        result is Ok && result->Ok_0 is None && after == before
    } else {
        exists|out: Result<RolloutRecord, RolloutRecordValidationError>|
            #![trigger record_comes_out(state, before, trailing_partial, parsed, out)]
            record_comes_out(state, before, trailing_partial, parsed, out) && record_is_passed(
                out,
                before,
                after,
                result,
            )
    }
}

/// Whether moving a position behind a record gives a result and a new position: a record that did
/// not come out leaves the position where it was.
pub open spec fn record_is_passed(
    out: Result<RolloutRecord, RolloutRecordValidationError>,
    before: RolloutRecordCursor,
    after: RolloutRecordCursor,
    result: ThreadStoreResult<Option<RolloutRecord>>,
) -> bool {
    match out {
        Err(error) => {
            &&& after == before
            &&& result is Err
            &&& result->Err_0@ == migration_failure(error_text(error))
        },
        Ok(record) => {
            &&& after == advanced(before, record.byte_count).0
            &&& match advanced(before, record.byte_count).1 {
                Some(message) => result is Err && result->Err_0@ == migration_failure(message),
                None => result is Ok && result->Ok_0 == Some(record),
            }
        },
    }
}

fn pass_record(
    out: Result<RolloutRecord, RolloutRecordValidationError>,
    cursor: &mut RolloutRecordCursor,
) -> (r: ThreadStoreResult<Option<RolloutRecord>>)
    ensures
        record_is_passed(out, *old(cursor), *final(cursor), r),
{
    match out {
        Err(error) => Err(migration_error(error.to_text().as_str())),
        Ok(record) => match cursor.advance(record.byte_count) {
            Ok(()) => Ok(Some(record)),
            Err(message) => Err(migration_error(message)),
        },
    }
}

/// Closes a legacy record that has been read, given what the tolerant parser made of its bytes.
/// Returns nothing at the end of the source.
pub fn read_rollout_record(
    record: LogicalRolloutRecord,
    cursor: &mut RolloutRecordCursor,
    trailing_partial: TrailingPartialPolicy,
    parsed: Result<Option<RolloutLine>, String>,
) -> (r: ThreadStoreResult<Option<RolloutRecord>>)
    ensures
        record_closes(
            record@,
            *old(cursor),
            *final(cursor),
            trailing_partial,
            RecordParse::Legacy(parsed),
            r,
        ),
{
    if record.source_bytes == 0 {
        return Ok(None);
    }
    pass_record(record.finish(*cursor, trailing_partial, parsed), cursor)
}

/// Closes a paginated record that has been read, given what the strict parser made of its bytes.
/// Returns nothing at the end of the source.
pub fn read_strict_paginated_record(
    record: LogicalRolloutRecord,
    cursor: &mut RolloutRecordCursor,
    parsed: Result<RolloutLine, String>,
) -> (r: ThreadStoreResult<Option<RolloutRecord>>)
    ensures
        record_closes(
            record@,
            *old(cursor),
            *final(cursor),
            TrailingPartialPolicy::Reject,
            RecordParse::Strict(parsed),
            r,
        ),
{
    if record.source_bytes == 0 {
        return Ok(None);
    }
    pass_record(record.finish_strict_paginated(*cursor, parsed), cursor)
}

} // verus!
