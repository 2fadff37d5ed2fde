//! Rollouts with records that cannot be read, in dry runs and in migrations.

use rollout_migration::error::ThreadId;
use rollout_migration::inspection::inspect_rollout_records;
use rollout_migration::inspection::read_rollout_record_blocking;
use rollout_migration::inspection::RolloutInspection;
use rollout_migration::inspection::RolloutInspectionDepth;
use rollout_migration::inspection::RolloutInspector;
use rollout_migration::inspection::RolloutScanFailure;
use rollout_migration::inspection::RolloutValidationFailure;
use rollout_migration::migrate_path::MigratePath;
use rollout_migration::migrate_path::PathAction;
use rollout_migration::migrate_path::PathReply;
use rollout_migration::migrate_path::PathStep;
use rollout_migration::paths::RolloutPath;
use rollout_migration::record::LogicalRolloutRecord;
use rollout_migration::record::RolloutRecordCursor;
use rollout_migration::record::TrailingPartialPolicy;
use rollout_migration::record::MAX_ROLLOUT_LINE_BYTES;
use rollout_migration::report::RolloutMigrationFailureReason;
use rollout_migration::report::RolloutMigrationMode;
use rollout_migration::report::RolloutMigrationOutcome;
use rollout_migration::report::RolloutMigrationStatus;
use rollout_migration::rollout::RolloutItem;
use rollout_migration::rollout::RolloutLine;
use rollout_migration::rollout::SessionMeta;
use rollout_migration::rollout::SessionSource;
use rollout_migration::rollout::ThreadHistoryMode;
use rollout_migration::torn_strings::fracture_json_string_newlines;

const TIMESTAMP: &str = "2025-01-03T12:00:00Z";

fn thread() -> ThreadId {
    ThreadId::from_u128(1)
}

fn rollout_path() -> RolloutPath {
    RolloutPath::new(format!("/home/sessions/rollout-2025-{}.jsonl", thread().to_text()))
}

fn metadata_record() -> Vec<u8> {
    format!("{{\"timestamp\":\"{TIMESTAMP}\",\"type\":\"session_meta\",\"payload\":{{}}}}\n").into_bytes()
}

fn context_record(text: &str) -> Vec<u8> {
    let text = serde_json::Value::String(text.to_owned());
    format!("{{\"timestamp\":\"{TIMESTAMP}\",\"type\":\"turn_context\",\"payload\":{text}}}\n").into_bytes()
}

fn parse(bytes: &[u8]) -> Result<Option<RolloutLine>, String> {
    let value: serde_json::Value =
        serde_json::from_slice(bytes).map_err(|error| error.to_string())?;
    let item = match value["type"].as_str() {
        Some("session_meta") => RolloutItem::SessionMeta(SessionMeta {
            id: thread(),
            history_mode: ThreadHistoryMode::Legacy,
            history_base: None,
            subagent_history_start_ordinal: None,
            source: SessionSource::Other { label: "cli".to_owned() },
            thread_source: None,
            payload: "{}".to_owned(),
        }),
        Some("turn_context") => RolloutItem::TurnContext { payload: value["payload"].to_string() },
        Some("event_msg") => return Ok(None),
        _ => return Err("unknown record".to_owned()),
    };
    Ok(Some(RolloutLine { timestamp: TIMESTAMP.to_owned(), ordinal: None, item }))
}

fn scan(
    source: &[u8],
    depth: RolloutInspectionDepth,
) -> Result<RolloutInspection, RolloutScanFailure> {
    let mut rest = source;
    let mut cursor = RolloutRecordCursor::default();
    let mut inspector = RolloutInspector::new(depth);
    loop {
        let mut record = LogicalRolloutRecord::default();
        loop {
            let most = rest.len().min(record.read_limit() as usize);
            let taken = match rest[..most].iter().position(|byte| *byte == b'\n') {
                Some(at) => at + 1,
                None => most,
            };
            let (read, behind) = rest.split_at(taken);
            rest = behind;
            if record.take_read(&read.to_vec()).expect("the source can be counted") {
                break;
            }
        }
        let parsed = parse(&record.bytes);
        let closed = read_rollout_record_blocking(
            record,
            &mut cursor,
            TrailingPartialPolicy::DiscardIncomplete,
            parsed,
        )?;
        match closed {
            None => return inspector.finish(cursor.byte_offset),
            Some(record) => {
                if let Some(result) = inspector.observe(record.line, cursor.byte_offset) {
                    return result;
                }
            }
        }
    }
}

fn inspect(
    source: &[u8],
    depth: RolloutInspectionDepth,
) -> Result<RolloutInspection, RolloutValidationFailure> {
    inspect_rollout_records(Ok(scan(source, depth)))
}

/// Handles a source that may only be looked at.
fn look(
    mode: RolloutMigrationMode,
    selected: Vec<ThreadId>,
    source: &[u8],
) -> Option<RolloutMigrationOutcome> {
    let mut bytes_processed = 0;
    let mut step = MigratePath::new(mode, selected, rollout_path()).begin();
    loop {
        match step {
            PathStep::Ask(machine, action) => {
                let reply = match action {
                    PathAction::Inspect { path, depth } => {
                        assert_eq!(path, rollout_path());
                        PathReply::Inspected(inspect(source, depth))
                    }
                    PathAction::Account { bytes } => {
                        bytes_processed += bytes;
                        PathReply::Done
                    }
                    PathAction::IsEmpty { .. } => PathReply::Answer(source.is_empty()),
                    action => panic!("only looking is allowed: {action:?}"),
                };
                step = machine.advance(reply);
            }
            PathStep::End(result) => {
                return result
                    .expect("no error")
                    .map(|verdict| verdict.to_outcome(bytes_processed));
            }
        }
    }
}

fn assert_failed_with_reason(
    outcome: &RolloutMigrationOutcome,
    failure_reason: RolloutMigrationFailureReason,
) {
    assert_eq!(
        (outcome.status, outcome.failure_reason),
        (RolloutMigrationStatus::Failed, Some(failure_reason))
    );
}

/// The outcome of a dry run, which must be that of a migration too.
fn blocked(source: &[u8], failure_reason: RolloutMigrationFailureReason) -> RolloutMigrationOutcome {
    let dry_run = look(RolloutMigrationMode::DryRun, Vec::new(), source).expect("dry run");
    let apply = look(RolloutMigrationMode::Apply, Vec::new(), source).expect("apply");
    assert_failed_with_reason(&dry_run, failure_reason);
    assert_eq!(
        (
            dry_run.status,
            dry_run.failure_reason,
            dry_run.bytes_processed,
            dry_run.message.as_deref(),
        ),
        (
            apply.status,
            apply.failure_reason,
            apply.bytes_processed,
            apply.message.as_deref(),
        )
    );
    dry_run
}

#[test]
fn complete_malformed_record_blocks_dry_run_and_apply_without_resynchronizing() {
    let mut source = metadata_record();
    source.extend_from_slice(&context_record("kept question"));
    let malformed = b"{not valid rollout json\n";
    let byte_offset = source.len();
    source.extend_from_slice(malformed);
    source.extend_from_slice(&context_record("kept answer"));

    let outcome = blocked(&source, RolloutMigrationFailureReason::MalformedRolloutRecord);
    assert!(outcome.message.as_deref().is_some_and(|message| message.contains(&format!(
        "rollout record at ordinal 2, byte offset {byte_offset} is malformed ({} bytes)",
        malformed.len()
    ))));
    assert_eq!(outcome.bytes_processed, (byte_offset + malformed.len()) as u64);
    assert_eq!(outcome.preserved_source_path, None);

    let selected = look(RolloutMigrationMode::Apply, vec![thread()], &source).expect("selected");
    assert_failed_with_reason(&selected, RolloutMigrationFailureReason::MalformedRolloutRecord);
    assert_eq!(selected.message, outcome.message);
    assert_eq!(look(RolloutMigrationMode::Apply, vec![ThreadId::from_u128(2)], &source), None);
}

fn sized_retired_record(record_bytes: usize) -> Vec<u8> {
    let prefix = format!(
        r#"{{"timestamp":"{TIMESTAMP}","type":"event_msg","payload":{{"type":"thread_name_updated","name":""#
    );
    let suffix = b"\"}}\n";
    let name_bytes = record_bytes
        .checked_sub(prefix.len() + suffix.len())
        .expect("record size can contain the valid rollout envelope");
    let mut record = prefix.into_bytes();
    record.resize(record.len() + name_bytes, b'x');
    record.extend_from_slice(suffix);
    assert_eq!(record.len(), record_bytes);
    record
}

#[test]
fn oversized_record_blocks_dry_run_and_apply_without_mutating_the_source() {
    let observed_bytes = MAX_ROLLOUT_LINE_BYTES as usize + 1;
    let mut source = sized_retired_record(observed_bytes);
    source.extend_from_slice(&metadata_record());
    source.extend_from_slice(&context_record("kept question"));
    let byte_offset = 0;

    let outcome = blocked(&source, RolloutMigrationFailureReason::OversizedRolloutRecord);
    let expected_message = format!(
        "thread-store internal error: rollout migration failed: rollout record at ordinal 0, byte offset {byte_offset} is {observed_bytes} bytes, exceeding the {}-byte limit",
        MAX_ROLLOUT_LINE_BYTES
    );
    assert_eq!(outcome.message.as_deref(), Some(expected_message.as_str()));
}

#[test]
fn records_at_the_safety_limit_are_eligible() {
    let mut source = sized_retired_record(MAX_ROLLOUT_LINE_BYTES as usize);
    source.extend_from_slice(&metadata_record());
    source.extend_from_slice(&context_record("kept question"));
    let outcome = look(RolloutMigrationMode::DryRun, Vec::new(), &source).expect("dry run");
    assert_eq!(outcome.status, RolloutMigrationStatus::Eligible);
    assert_eq!(outcome.bytes_processed, source.len() as u64);
}

#[test]
fn newline_repaired_retired_record_fails_closed_instead_of_being_skipped() {
    let retired_record = format!(
        "{}\n",
        format!(
            r#"{{"timestamp":"{TIMESTAMP}","type":"event_msg","payload":{{"type":"thread_name_updated","name":"before\nafter"}}}}"#
        )
    );
    let fractured = fracture_json_string_newlines(retired_record.as_bytes());
    let mut source = metadata_record();
    source.extend_from_slice(&fractured);

    let outcome = blocked(&source, RolloutMigrationFailureReason::MalformedRolloutRecord);
    assert!(outcome.message.as_deref().is_some_and(|message| {
        message.contains("newline-repaired record is not a supported rollout line")
    }));
}

#[test]
fn newline_repaired_logical_record_over_limit_blocks_dry_run_and_apply() {
    let base_record = context_record("prefix\n\nsuffix");
    let observed_bytes = MAX_ROLLOUT_LINE_BYTES as usize + 1;
    let filler_bytes = observed_bytes
        .checked_sub(base_record.len())
        .expect("record fits below migration safety limit");
    let text = format!("prefix\n{}\nsuffix", "x".repeat(filler_bytes));
    let logical_record = context_record(&text);
    assert_eq!(logical_record.len(), observed_bytes);
    let fractured = fracture_json_string_newlines(&logical_record);
    let mut source = metadata_record();
    let byte_offset = source.len();
    source.extend_from_slice(&fractured);

    let outcome = blocked(&source, RolloutMigrationFailureReason::OversizedRolloutRecord);
    assert!(outcome.message.as_deref().is_some_and(|message| message.contains(&format!(
        "rollout record at ordinal 1, byte offset {byte_offset} is {observed_bytes} bytes, exceeding the {}-byte limit",
        MAX_ROLLOUT_LINE_BYTES
    ))));
}

#[test]
fn newline_split_records_are_eligible() {
    let expected_text = [
        "fragment one",
        "fragment two",
        "fragment three",
        "fragment four",
        "fragment five",
        "fragment six",
        "fragment seven",
        "fragment eight",
        "fragment nine",
    ]
    .join("\n");
    let fractured = fracture_json_string_newlines(&context_record(&expected_text));
    assert_eq!(fractured.iter().filter(|byte| **byte == b'\n').count(), 9);
    let mut source = metadata_record();
    source.extend_from_slice(&fractured);
    let outcome = look(RolloutMigrationMode::DryRun, Vec::new(), &source).expect("dry run");
    assert_eq!(outcome.status, RolloutMigrationStatus::Eligible);
}

#[test]
fn invalid_session_metadata_blocks_dry_run_and_apply() {
    let outcome = blocked(
        &context_record("no metadata"),
        RolloutMigrationFailureReason::InvalidSessionMetadata,
    );
    assert!(outcome
        .message
        .as_deref()
        .is_some_and(|message| message.contains("rollout contains no session metadata")));
}

#[test]
fn only_a_trailing_partial_record_is_discarded() {
    let mut source = metadata_record();
    source.extend_from_slice(&context_record("kept question"));
    let whole = source.len() as u64;
    let partial = br#"{"timestamp":"unterminated""#;
    source.extend_from_slice(partial);
    let outcome = look(RolloutMigrationMode::DryRun, Vec::new(), &source).expect("dry run");
    assert_eq!(outcome.status, RolloutMigrationStatus::Eligible);
    assert_eq!(outcome.bytes_processed, whole + partial.len() as u64);

    source.push(b'\n');
    source.extend_from_slice(&context_record("kept answer"));
    let outcome = blocked(&source, RolloutMigrationFailureReason::MalformedRolloutRecord);
    assert!(outcome
        .message
        .as_deref()
        .is_some_and(|message| message.contains(&format!("ordinal 2, byte offset {whole}"))));
}

#[test]
fn a_valid_final_record_needs_no_newline() {
    let mut source = metadata_record();
    source.extend_from_slice(&context_record("question"));
    source.extend_from_slice(&context_record("answer"));
    assert_eq!(source.pop(), Some(b'\n'));
    let outcome = look(RolloutMigrationMode::DryRun, Vec::new(), &source).expect("dry run");
    assert_eq!(outcome.status, RolloutMigrationStatus::Eligible);
    assert_eq!(outcome.bytes_processed, source.len() as u64);
}

#[test]
fn metadata_may_stand_behind_other_records() {
    let mut source = context_record("before metadata");
    source.extend_from_slice(&metadata_record());
    let outcome = look(RolloutMigrationMode::DryRun, Vec::new(), &source).expect("dry run");
    assert_eq!(outcome.status, RolloutMigrationStatus::Eligible);
    assert_eq!(outcome.thread_id, Some(thread()));
}

#[test]
fn empty_rollouts_are_reported_as_empty() {
    let outcome = look(RolloutMigrationMode::DryRun, Vec::new(), b"").expect("dry run");
    assert_eq!(outcome.status, RolloutMigrationStatus::SkippedEmpty);
    assert_eq!(outcome.failure_reason, None);
}
