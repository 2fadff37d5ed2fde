//! How records are read, mended and refused.

use rollout_migration::inspection::inspect_rollout_records;
use rollout_migration::inspection::read_rollout_record_blocking;
use rollout_migration::inspection::scan_read_failure;
use rollout_migration::inspection::ReadErrorKind;
use rollout_migration::inspection::ReadFailure;
use rollout_migration::inspection::RolloutInspectionDepth;
use rollout_migration::inspection::RolloutInspector;
use rollout_migration::inspection::RolloutScanFailure;
use rollout_migration::error::ThreadId;
use rollout_migration::record::parse_rollout_record;
use rollout_migration::record::read_rollout_record;
use rollout_migration::record::read_strict_paginated_record;
use rollout_migration::record::LogicalRolloutRecord;
use rollout_migration::record::RolloutRecordCursor;
use rollout_migration::record::RolloutRecordValidationError;
use rollout_migration::record::TrailingPartialPolicy;
use rollout_migration::record::MAX_ROLLOUT_LINE_BYTES;
use rollout_migration::record::PROJECTION_BATCH_BYTES;
use rollout_migration::report::RolloutMigrationFailureReason;
use rollout_migration::rollout::RolloutItem;
use rollout_migration::rollout::RolloutLine;
use rollout_migration::rollout::SessionMeta;
use rollout_migration::rollout::SessionSource;
use rollout_migration::rollout::ThreadHistoryMode;
use rollout_migration::source_owner::preserved_source_thread_id;
use rollout_migration::source_owner::preserved_source_without_owner;
use rollout_migration::paths::RolloutPath;
use rollout_migration::torn_strings::fracture_json_string_newlines;

fn parsed(bytes: &[u8]) -> Result<Option<RolloutLine>, String> {
    match serde_json::from_slice::<serde_json::Value>(bytes) {
        Ok(_) => Err("missing field `timestamp`".to_owned()),
        Err(error) => Err(error.to_string()),
    }
}

#[test]
fn trailing_partial_policy_only_discards_truncated_legacy_json() {
    assert!(parse_rollout_record(
        br#"{"timestamp":"unterminated""#,
        /*terminated*/ false,
        br#"{"timestamp":"unterminated""#.len() as u64,
        RolloutRecordCursor::default(),
        TrailingPartialPolicy::DiscardIncomplete,
        /*require_rollout_line*/ false,
        parsed(br#"{"timestamp":"unterminated""#),
    )
    .expect("discard truncated legacy tail")
    .is_none());
    assert!(matches!(
        parse_rollout_record(
            b"{}",
            /*terminated*/ false,
            b"{}".len() as u64,
            RolloutRecordCursor::default(),
            TrailingPartialPolicy::DiscardIncomplete,
            /*require_rollout_line*/ false,
            parsed(b"{}"),
        ),
        Err(RolloutRecordValidationError::Malformed { .. })
    ));
    assert!(matches!(
        parse_rollout_record(
            br#"{"timestamp":"unterminated""#,
            /*terminated*/ false,
            br#"{"timestamp":"unterminated""#.len() as u64,
            RolloutRecordCursor::default(),
            TrailingPartialPolicy::Reject,
            /*require_rollout_line*/ false,
            parsed(br#"{"timestamp":"unterminated""#),
        ),
        Err(RolloutRecordValidationError::Malformed { .. })
    ));
}

fn line(text: &str) -> RolloutLine {
    RolloutLine {
        timestamp: "2025-01-03T12:00:00Z".to_owned(),
        ordinal: None,
        item: RolloutItem::TurnContext { payload: text.to_owned() },
    }
}

fn read(record: &mut LogicalRolloutRecord, chunks: &[&[u8]]) -> bool {
    let mut ended = false;
    for chunk in chunks {
        assert!(!ended, "a record ended before its last chunk");
        ended = record.append_chunk(chunk).expect("append");
    }
    ended
}

#[test]
fn a_record_ends_with_its_line() {
    let mut record = LogicalRolloutRecord::default();
    assert!(read(&mut record, &[b"{\"a\":", b"1}\n"]));
    assert_eq!(record.bytes, b"{\"a\":1}\n");
    assert_eq!(record.source_bytes, 8);
    assert!(record.terminated);
    assert!(!record.repaired);
}

#[test]
fn newlines_inside_strings_are_mended_without_losing_text() {
    let mut record = LogicalRolloutRecord::default();
    assert!(!read(&mut record, &[b"{\"text\":\"first\n"]));
    assert!(record.append_chunk(b"second\"}\n").expect("append"));
    assert!(record.repaired);
    let value: serde_json::Value =
        serde_json::from_slice(&record.bytes).expect("the mended record is JSON");
    assert_eq!(value["text"], "first\nsecond");
}

#[test]
fn fractured_records_read_back_as_they_were() {
    let whole = br#"{"text":"first\nsecond\nthird"}"#;
    let torn = fracture_json_string_newlines(whole);
    assert!(torn.contains(&b'\n'));
    let mut bytes = torn.clone();
    bytes.push(b'\n');
    let mut record = LogicalRolloutRecord::default();
    let mut ended = false;
    for part in bytes.split_inclusive(|byte| *byte == b'\n') {
        ended = record.append_chunk(part).expect("append");
    }
    assert!(ended);
    assert_eq!(record.bytes.strip_suffix(b"\n"), Some(whole.as_slice()));
}

#[test]
fn reads_are_bounded_by_the_record_limit() {
    let record = LogicalRolloutRecord::default();
    assert_eq!(record.read_limit(), PROJECTION_BATCH_BYTES);
    let mut nearly = LogicalRolloutRecord::default();
    nearly.logical_bytes = MAX_ROLLOUT_LINE_BYTES - 4;
    assert_eq!(nearly.read_limit(), 5);
    nearly.logical_bytes = MAX_ROLLOUT_LINE_BYTES + 1;
    assert_eq!(nearly.read_limit(), PROJECTION_BATCH_BYTES);
}

#[test]
fn oversized_records_are_refused_with_their_place() {
    let mut record = LogicalRolloutRecord::default();
    record.bytes = vec![b'x'; 3];
    record.source_bytes = MAX_ROLLOUT_LINE_BYTES + 2;
    record.logical_bytes = MAX_ROLLOUT_LINE_BYTES + 1;
    record.terminated = true;
    let cursor = RolloutRecordCursor { ordinal: 4, byte_offset: 100 };
    let error = record
        .finish(cursor, TrailingPartialPolicy::DiscardIncomplete, Ok(None))
        .expect_err("too long");
    assert_eq!(error.failure_reason(), RolloutMigrationFailureReason::OversizedRolloutRecord);
    assert_eq!(error.bytes_processed(), 100 + MAX_ROLLOUT_LINE_BYTES + 2);
    assert!(error.to_text().contains("ordinal 4, byte offset 100"));
    assert!(error.to_text().contains(&MAX_ROLLOUT_LINE_BYTES.to_string()));
}

#[test]
fn a_complete_record_at_the_limit_is_accepted() {
    let mut record = LogicalRolloutRecord::default();
    record.bytes = b"{}".to_vec();
    record.source_bytes = MAX_ROLLOUT_LINE_BYTES + 1;
    record.logical_bytes = MAX_ROLLOUT_LINE_BYTES;
    record.terminated = true;
    let finished = record
        .finish(
            RolloutRecordCursor::default(),
            TrailingPartialPolicy::Reject,
            Ok(Some(line("a"))),
        )
        .expect("at the limit");
    assert_eq!(finished.byte_count, MAX_ROLLOUT_LINE_BYTES + 1);
    assert_eq!(finished.line, Some(line("a")));
}

#[test]
fn malformed_records_are_refused_with_the_words_of_the_parser() {
    let mut record = LogicalRolloutRecord::default();
    read(&mut record, &[b"nonsense\n"]);
    let error = record
        .finish(
            RolloutRecordCursor { ordinal: 1, byte_offset: 20 },
            TrailingPartialPolicy::DiscardIncomplete,
            Err("expected ident".to_owned()),
        )
        .expect_err("malformed");
    assert_eq!(error.failure_reason(), RolloutMigrationFailureReason::MalformedRolloutRecord);
    assert_eq!(error.bytes_processed(), 29);
    assert_eq!(
        error.to_text(),
        "rollout record at ordinal 1, byte offset 20 is malformed (9 bytes): expected ident"
    );
}

#[test]
fn mended_records_must_be_rollout_records() {
    let mut record = LogicalRolloutRecord::default();
    read(&mut record, &[b"{\"text\":\"first\n"]);
    record.append_chunk(b"second\"}\n").expect("append");
    assert!(record
        .finish(
            RolloutRecordCursor::default(),
            TrailingPartialPolicy::DiscardIncomplete,
            Ok(None),
        )
        .is_err());
}

#[test]
fn cursors_advance_with_every_record() {
    let mut cursor = RolloutRecordCursor::default();
    let mut record = LogicalRolloutRecord::default();
    read(&mut record, &[b"{}\n"]);
    let read_one = read_rollout_record(
        record,
        &mut cursor,
        TrailingPartialPolicy::DiscardIncomplete,
        Ok(Some(line("a"))),
    )
    .expect("read")
    .expect("a record");
    assert_eq!(read_one.byte_count, 3);
    assert_eq!(cursor, RolloutRecordCursor { ordinal: 1, byte_offset: 3 });

    let nothing = read_rollout_record(
        LogicalRolloutRecord::default(),
        &mut cursor,
        TrailingPartialPolicy::DiscardIncomplete,
        Ok(None),
    )
    .expect("the end");
    assert!(nothing.is_none());

    let mut strict = LogicalRolloutRecord::default();
    strict.take_read(b"{}\n").expect("read");
    assert!(strict.take_read(b"").expect("the end of the file"));
    assert!(read_strict_paginated_record(strict, &mut cursor, Err("no".to_owned())).is_err());
    let mut full = RolloutRecordCursor { ordinal: u64::MAX, byte_offset: 0 };
    assert!(full.advance(1).is_err());
}

#[test]
fn the_sizes_of_all_records_add_up_to_the_source() {
    let mut source = b"{\"a\":1}\n\n{\"text\":\"torn\napart\"}\n".to_vec();
    source.extend(vec![b'x'; 300_000]);
    source.extend(b"\n{\"last\":");
    let mut rest = source.as_slice();
    let mut cursor = RolloutRecordCursor::default();
    let mut sizes = Vec::new();
    loop {
        let mut record = LogicalRolloutRecord::default();
        loop {
            let limit = rest.len().min(record.read_limit() as usize);
            let size = match rest[..limit].iter().position(|byte| *byte == b'\n') {
                Some(end) => end + 1,
                None => limit,
            };
            let (chunk, later) = rest.split_at(size);
            rest = later;
            if record.take_read(chunk).expect("a chunk") {
                break;
            }
        }
        let before = cursor;
        let read = read_rollout_record_blocking(
            record,
            &mut cursor,
            TrailingPartialPolicy::DiscardIncomplete,
            Ok(Some(line("any"))),
        )
        .expect("a record or the end");
        match read {
            Some(record) => {
                assert_eq!(cursor.ordinal, before.ordinal + 1);
                assert_eq!(cursor.byte_offset, before.byte_offset + record.byte_count);
                sizes.push(record.byte_count);
            }
            None => {
                assert_eq!(cursor, before);
                break;
            }
        }
    }
    assert_eq!(sizes, vec![8, 1, 22, 300_001, 8]);
    assert_eq!(cursor.byte_offset, source.len() as u64);
    assert_eq!(sizes.iter().sum::<u64>(), source.len() as u64);
}

fn meta(mode: ThreadHistoryMode) -> RolloutLine {
    RolloutLine {
        timestamp: "2025-01-03T12:00:00Z".to_owned(),
        ordinal: None,
        item: RolloutItem::SessionMeta(SessionMeta {
            id: ThreadId::from_u128(1),
            history_mode: mode,
            history_base: None,
            subagent_history_start_ordinal: None,
            source: SessionSource::Other { label: "cli".to_owned() },
            thread_source: None,
            payload: "{}".to_owned(),
        }),
    }
}

#[test]
fn inspection_reads_legacy_rollouts_to_their_end() {
    let mut inspector = RolloutInspector::new(RolloutInspectionDepth::FullLegacy);
    assert!(inspector.observe(Some(meta(ThreadHistoryMode::Legacy)), 10).is_none());
    assert!(inspector.observe(Some(line("a")), 20).is_none());
    assert!(inspector.observe(None, 30).is_none());
    let inspection = inspector.finish(40).expect("legacy");
    assert_eq!(inspection.metadata.history_mode, ThreadHistoryMode::Legacy);
    assert_eq!(inspection.bytes_processed, 40);
}

#[test]
fn inspection_stops_at_the_head_where_that_is_enough() {
    let mut inspector = RolloutInspector::new(RolloutInspectionDepth::MetadataOnly);
    let found = inspector
        .observe(Some(meta(ThreadHistoryMode::Legacy)), 10)
        .expect("decided")
        .expect("head");
    assert_eq!(found.bytes_processed, 10);
    let mut inspector = RolloutInspector::new(RolloutInspectionDepth::FullLegacy);
    let found = inspector
        .observe(Some(meta(ThreadHistoryMode::PaginatedRefsV1)), 10)
        .expect("decided")
        .expect("head");
    assert_eq!(found.metadata.history_mode, ThreadHistoryMode::PaginatedRefsV1);
}

#[test]
fn rollouts_without_metadata_are_invalid() {
    let inspector = RolloutInspector::new(RolloutInspectionDepth::FullLegacy);
    let failure = inspector.finish(12).expect_err("no head");
    assert!(matches!(
        failure,
        RolloutScanFailure::InvalidSessionMetadata { bytes_processed: 12, .. }
    ));
    let validated = inspect_rollout_records(Ok(Err(failure))).expect_err("no head");
    assert_eq!(
        validated.failure.reason,
        RolloutMigrationFailureReason::InvalidSessionMetadata
    );
    assert_eq!(validated.bytes_processed, 12);
    assert_eq!(validated.read_error_kind, None);
}

#[test]
fn read_failures_keep_their_kind() {
    let mut record = LogicalRolloutRecord::default();
    read(&mut record, &[b"{\"a\""]);
    let failure = scan_read_failure(
        &RolloutRecordCursor { ordinal: 2, byte_offset: 50 },
        &record,
        ReadFailure { kind: ReadErrorKind::NotFound, message: "gone".to_owned() },
    );
    let validated = inspect_rollout_records(Ok(Err(failure))).expect_err("gone");
    assert_eq!(validated.failure.reason, RolloutMigrationFailureReason::RolloutReadFailed);
    assert_eq!(validated.read_error_kind, Some(ReadErrorKind::NotFound));
    assert_eq!(validated.bytes_processed, 54);
}

#[test]
fn preserved_sources_name_their_thread() {
    let id = ThreadId::from_u128(0x1234);
    assert!(preserved_source_thread_id("  ").is_none());
    assert!(preserved_source_thread_id("{\"type\":\"event_msg\"}").is_none());
    let head = format!(
        "{{\"type\":\"session_meta\",\"payload\":{{\"id\":\"{}\"}}}}",
        id.to_text()
    );
    assert_eq!(preserved_source_thread_id(&head), Some(Ok(id)));
    let error = preserved_source_thread_id("{\"type\":\"session_meta\",\"payload\":{}}")
        .expect("a head")
        .expect_err("no id");
    assert!(error.to_text().ends_with("preserved rollout SessionMeta has no valid id"));
    assert!(preserved_source_thread_id("{\"type\":").expect("a line").is_err());
    assert!(preserved_source_without_owner(&RolloutPath::new("/a".to_owned()))
        .to_text()
        .ends_with("preserved rollout has no SessionMeta: /a"));
}
