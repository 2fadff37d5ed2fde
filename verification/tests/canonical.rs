//! Legacy records and the canonical history that they become.

use rollout_migration::canonicalizer::LegacyRolloutCanonicalizer;
use rollout_migration::canonicalizer::LineEffects;
use rollout_migration::conversion::bounded_subagent_line;
use rollout_migration::conversion::canonical_head;
use rollout_migration::conversion::rewrite_subagent_history_boundary;
use rollout_migration::conversion::upgrade_unresolved;
use rollout_migration::conversion::write_rollout_with_rollback_plan;
use rollout_migration::conversion::AfterAttempt;
use rollout_migration::conversion::CanonicalReplay;
use rollout_migration::conversion::CanonicalizationAttempt;
use rollout_migration::conversion::PaginatedUpgrade;
use rollout_migration::conversion::ReplayStep;
use rollout_migration::conversion::UpgradeStep;
use rollout_migration::error::ThreadId;
use rollout_migration::item_ids::no_item_ids;
use rollout_migration::projection::ProjectionBatcher;
use rollout_migration::record::RolloutRecord;
use rollout_migration::record::PROJECTION_BATCH_BYTES;
use rollout_migration::report::RolloutMigrationFailureReason;
use rollout_migration::rollout::EventMsg;
use rollout_migration::rollout::HistoryPosition;
use rollout_migration::rollout::ItemCompleted;
use rollout_migration::rollout::LegacyConversion;
use rollout_migration::rollout::LegacyEvent;
use rollout_migration::rollout::LegacyItemDraft;
use rollout_migration::rollout::ResponseBody;
use rollout_migration::rollout::ResponseItem;
use rollout_migration::rollout::ResponseItemEnvelope;
use rollout_migration::rollout::RolloutItem;
use rollout_migration::rollout::RolloutLine;
use rollout_migration::rollout::SessionMeta;
use rollout_migration::rollout::SessionSource;
use rollout_migration::rollout::ThreadHistoryMode;
use rollout_migration::rollout::TurnAborted;
use rollout_migration::rollout::TurnComplete;
use rollout_migration::rollout::TurnItem;
use rollout_migration::rollout::TurnStarted;
use rollout_migration::rollout::UserMessage;

const TIMESTAMP: &str = "2025-01-03T12:00:00Z";
const SECONDS: i64 = 1735905600;

fn line(item: RolloutItem) -> RolloutLine {
    RolloutLine { timestamp: TIMESTAMP.to_owned(), ordinal: None, item }
}

fn event(msg: EventMsg) -> RolloutLine {
    line(RolloutItem::EventMsg(msg))
}

fn user(text: &str) -> RolloutLine {
    event(EventMsg::UserMessage(UserMessage {
        message: text.to_owned(),
        images: None,
        audio: None,
        local_images: Vec::new(),
        local_audio: Vec::new(),
        draft: LegacyItemDraft { id: None, payload: text.to_owned() },
        conversion_error: None,
    }))
}

fn item_event(text: &str, turn_id: Option<&str>) -> RolloutLine {
    event(EventMsg::Other {
        event: LegacyEvent {
            conversion: LegacyConversion::Item {
                draft: LegacyItemDraft { id: None, payload: text.to_owned() },
                turn_id: turn_id.map(str::to_owned),
            },
            payload: text.to_owned(),
        },
    })
}

fn started(turn_id: &str) -> RolloutLine {
    event(EventMsg::TurnStarted(TurnStarted {
        turn_id: turn_id.to_owned(),
        started_at: None,
        payload: "{}".to_owned(),
    }))
}

fn completed(turn_id: &str) -> RolloutLine {
    event(EventMsg::TurnComplete(TurnComplete {
        turn_id: turn_id.to_owned(),
        completed_at: None,
        payload: "{}".to_owned(),
    }))
}

fn meta(id: ThreadId) -> SessionMeta {
    SessionMeta {
        id,
        history_mode: ThreadHistoryMode::Legacy,
        history_base: None,
        subagent_history_start_ordinal: None,
        source: SessionSource::Other { label: "cli".to_owned() },
        thread_source: None,
        payload: "{}".to_owned(),
    }
}

fn canonicalizer() -> LegacyRolloutCanonicalizer {
    LegacyRolloutCanonicalizer::new(ThreadId::from_u128(1), ThreadId::from_u128(1), no_item_ids())
}

/// What was written, in short.
fn summary(effects: &LineEffects) -> Vec<String> {
    effects
        .writes
        .iter()
        .map(|item| match item {
            RolloutItem::EventMsg(EventMsg::TurnStarted(event)) => {
                format!("start {}", event.turn_id)
            }
            RolloutItem::EventMsg(EventMsg::TurnComplete(event)) => {
                format!("complete {}", event.turn_id)
            }
            RolloutItem::EventMsg(EventMsg::TurnAborted(event)) => {
                format!("abort {}", event.turn_id.as_deref().unwrap_or("none"))
            }
            RolloutItem::EventMsg(EventMsg::ItemCompleted(event)) => {
                let what = match &event.item {
                    TurnItem::UserMessage { id, payload } => format!("user {id} {payload}"),
                    TurnItem::Converted { id, payload } => format!("item {id} {payload}"),
                    TurnItem::HookPrompt { payload } => format!("hook {payload}"),
                    TurnItem::Reasoning(item) => format!(
                        "reasoning {} [{}] [{}]",
                        item.id,
                        item.summary_text.join("|"),
                        item.raw_content.join("|")
                    ),
                    TurnItem::Canonical { payload } => format!("canonical {payload}"),
                };
                format!("{} in {}", what, event.turn_id)
            }
            RolloutItem::EventMsg(_) => "event".to_owned(),
            RolloutItem::ResponseItem(_) => "response".to_owned(),
            _ => "other".to_owned(),
        })
        .collect()
}

fn feed(canonicalizer: &mut LegacyRolloutCanonicalizer, line: RolloutLine) -> Vec<String> {
    let effects = canonicalizer.process_line(line);
    assert!(effects.failure.is_none(), "{:?}", effects.failure);
    summary(&effects)
}

#[test]
fn implied_turns_are_opened_and_closed() {
    let mut it = canonicalizer();
    assert_eq!(
        feed(&mut it, user("first question")),
        vec!["start rollout-0", "user item-1 first question in rollout-0"]
    );
    assert_eq!(
        feed(&mut it, item_event("first answer", None)),
        vec!["item item-2 first answer in rollout-0"]
    );
    assert_eq!(
        feed(&mut it, user("second question")),
        vec![
            "complete rollout-0",
            "start rollout-2",
            "user item-3 second question in rollout-2",
        ]
    );
    let effects = it.finish(TIMESTAMP);
    assert_eq!(summary(&effects), vec!["complete rollout-2"]);
    match &effects.writes[0] {
        RolloutItem::EventMsg(EventMsg::TurnComplete(event)) => {
            assert_eq!(event.completed_at, Some(SECONDS));
        }
        _ => panic!("expected the completion of a turn"),
    }
}

#[test]
fn explicit_turns_stay_open_until_they_say_so() {
    let mut it = canonicalizer();
    assert_eq!(feed(&mut it, started("turn-a")), vec!["start turn-a"]);
    assert_eq!(feed(&mut it, user("hello")), vec!["user item-1 hello in turn-a"]);
    assert_eq!(feed(&mut it, user("again")), vec!["user item-2 again in turn-a"]);
    assert_eq!(feed(&mut it, completed("turn-a")), vec!["complete turn-a"]);
    assert!(it.finish(TIMESTAMP).writes.is_empty());
}

#[test]
fn a_turn_start_closes_an_implied_turn() {
    let mut it = canonicalizer();
    feed(&mut it, user("hello"));
    assert_eq!(
        feed(&mut it, started("turn-a")),
        vec!["complete rollout-0", "start turn-a"]
    );
}

#[test]
fn late_completions_stay_in_their_original_turn() {
    let mut it = canonicalizer();
    feed(&mut it, started("turn-a"));
    feed(&mut it, completed("turn-a"));
    feed(&mut it, started("turn-b"));
    assert_eq!(
        feed(&mut it, item_event("late", Some("turn-a"))),
        vec!["item item-1 late in turn-a"]
    );
    feed(&mut it, completed("turn-b"));
    assert_eq!(
        feed(&mut it, item_event("later", Some("turn-b"))),
        vec!["item item-2 later in turn-b"]
    );
    // A turn that nobody knows is implied by its item.
    assert_eq!(
        feed(&mut it, item_event("new", Some("turn-c"))),
        vec!["start turn-c", "item item-3 new in turn-c"]
    );
}

#[test]
fn reasoning_accumulates_until_something_else_happens() {
    let mut it = canonicalizer();
    let reasoning = |text: &str| event(EventMsg::AgentReasoning { text: text.to_owned() });
    let raw = |text: &str| event(EventMsg::AgentReasoningRawContent { text: text.to_owned() });
    assert_eq!(
        feed(&mut it, reasoning("one")),
        vec!["start rollout-0", "reasoning item-1 [one] [] in rollout-0"]
    );
    assert_eq!(feed(&mut it, raw("two")), vec!["reasoning item-1 [one] [two] in rollout-0"]);
    assert!(feed(&mut it, reasoning("")).is_empty());
    feed(&mut it, item_event("answer", None));
    assert_eq!(
        feed(&mut it, reasoning("three")),
        vec!["reasoning item-3 [three] [] in rollout-0"]
    );
}

#[test]
fn aborts_take_the_open_turn() {
    let mut it = canonicalizer();
    feed(&mut it, started("turn-a"));
    let abort = event(EventMsg::TurnAborted(TurnAborted {
        turn_id: None,
        payload: "{}".to_owned(),
    }));
    assert_eq!(feed(&mut it, abort), vec!["abort turn-a"]);
    assert!(it.finish(TIMESTAMP).writes.is_empty());
}

#[test]
fn completed_items_move_to_the_thread_of_the_rollout() {
    let mut it = canonicalizer();
    let effects = it.process_line(event(EventMsg::ItemCompleted(ItemCompleted {
        thread_id: ThreadId::from_u128(99),
        turn_id: "turn-a".to_owned(),
        item: TurnItem::Canonical { payload: "{}".to_owned() },
        started_at_ms: None,
        completed_at_ms: 5,
    })));
    match &effects.writes[0] {
        RolloutItem::EventMsg(EventMsg::ItemCompleted(event)) => {
            assert_eq!(event.thread_id, ThreadId::from_u128(1));
            assert_eq!(event.completed_at_ms, 5);
        }
        _ => panic!("expected a completed item"),
    }
}

#[test]
fn events_are_kept_only_where_they_are_persisted() {
    let other = |persisted: bool| {
        event(EventMsg::Other {
            event: LegacyEvent {
                conversion: LegacyConversion::Event { persisted },
                payload: "{}".to_owned(),
            },
        })
    };
    let mut it = canonicalizer();
    assert_eq!(feed(&mut it, other(true)), vec!["event"]);
    assert!(feed(&mut it, other(false)).is_empty());
}

fn response(body: ResponseBody, hook_prompt: Option<&str>) -> RolloutLine {
    line(RolloutItem::ResponseItem(ResponseItemEnvelope {
        item: ResponseItem {
            id: Some("msg_a".to_owned()),
            id_prefix: Some("msg".to_owned()),
            body,
            turn_id: None,
            counts_as_boundary: false,
            is_pre_turn_context_update: false,
            hook_prompt: hook_prompt.map(str::to_owned),
            payload: "{}".to_owned(),
        },
        metadata: None,
    }))
}

#[test]
fn hook_prompts_of_user_messages_become_items() {
    let mut it = canonicalizer();
    let body = || ResponseBody::Message { role: "user".to_owned(), content: Vec::new() };
    assert_eq!(
        feed(&mut it, response(body(), Some("prompt"))),
        vec!["response", "start rollout-0", "hook prompt in rollout-0"]
    );
    assert_eq!(feed(&mut it, response(body(), None)), vec!["response"]);
}

fn failure(effects: LineEffects) -> String {
    effects.failure.expect("the record cannot be converted").to_text()
}

#[test]
fn records_that_cannot_be_converted_fail_closed() {
    let prefix = "thread-store internal error: rollout migration failed: ";
    assert_eq!(
        failure(canonicalizer().process_line(response(ResponseBody::Other, None))),
        format!("{prefix}legacy rollout contains an unsupported response item")
    );
    assert_eq!(
        failure(canonicalizer().process_line(event(EventMsg::ThreadRolledBack { num_turns: 1 }))),
        format!("{prefix}rollback marker reached canonical writer without a rollback plan")
    );
    let broken = event(EventMsg::Other {
        event: LegacyEvent {
            conversion: LegacyConversion::Failed { error: "no such tool".to_owned() },
            payload: "{}".to_owned(),
        },
    });
    assert!(failure(canonicalizer().process_line(broken)).contains("no such tool"));
    let mut undated = user("hello");
    undated.timestamp = "yesterday".to_owned();
    assert!(failure(canonicalizer().process_line(undated)).starts_with(prefix));
}

#[test]
fn session_metadata_in_the_middle_is_dropped() {
    let mut it = canonicalizer();
    assert!(feed(&mut it, line(RolloutItem::SessionMeta(meta(ThreadId::from_u128(1))))).is_empty());
}

#[test]
fn the_head_takes_the_reference_format_and_loses_its_base() {
    let it = canonicalizer();
    let mut head = meta(ThreadId::from_u128(1));
    head.history_base = Some(HistoryPosition {
        thread_id: ThreadId::from_u128(9),
        end_ordinal_exclusive: 3,
        end_byte_offset: 40,
    });
    head.subagent_history_start_ordinal = Some(4);
    match it.write_head_session_meta(line(RolloutItem::SessionMeta(head))).expect("head") {
        RolloutItem::SessionMeta(written) => {
            assert_eq!(written.history_mode, ThreadHistoryMode::PaginatedRefsV1);
            assert_eq!(written.history_base, None);
            assert_eq!(written.subagent_history_start_ordinal, None);
        }
        _ => panic!("expected a head"),
    }
    let error = it
        .write_head_session_meta(line(RolloutItem::SessionMeta(meta(ThreadId::from_u128(2)))))
        .expect_err("another thread");
    assert!(error.to_text().ends_with("rollout metadata thread id changed"));
    let error = it.write_head_session_meta(user("hello")).expect_err("no head");
    assert!(error.to_text().ends_with("canonical session metadata is missing"));
}

#[test]
fn the_head_of_a_source_is_its_first_record_where_that_is_metadata() {
    let head = line(RolloutItem::SessionMeta(meta(ThreadId::from_u128(1))));
    assert!(canonical_head(Some(Some(head))).expect("head").is_some());
    assert!(canonical_head(Some(Some(user("a")))).expect("no head yet").is_none());
    assert!(canonical_head(Some(None)).expect("skipped record").is_none());
    let failure = canonical_head(None).expect_err("nothing but the end");
    assert_eq!(failure.reason, RolloutMigrationFailureReason::InvalidSessionMetadata);
}

#[test]
fn a_rollback_marker_asks_for_a_plan_once() {
    let mut replay = CanonicalReplay::new(None, TIMESTAMP);
    assert!(matches!(
        replay.take_line(event(EventMsg::ThreadRolledBack { num_turns: 1 })),
        Ok(ReplayStep::NeedsRollbackPlan)
    ));
    assert!(matches!(replay.take_line(user("a")), Ok(ReplayStep::Process { .. })));
    assert!(replay.check_end().is_ok());

    assert_eq!(
        write_rollout_with_rollback_plan(false, CanonicalizationAttempt::NeedsRollbackPlan),
        Ok(AfterAttempt::PlanAndRetry)
    );
    assert!(write_rollout_with_rollback_plan(true, CanonicalizationAttempt::NeedsRollbackPlan)
        .is_err());
    assert_eq!(
        write_rollout_with_rollback_plan(
            true,
            CanonicalizationAttempt::Complete { expected_length: 9, expected_ordinal: 2 },
        ),
        Ok(AfterAttempt::Written { expected_length: 9, expected_ordinal: 2 })
    );
}

#[test]
fn subagent_boundaries_are_recorded_in_the_head() {
    let head = line(RolloutItem::SessionMeta(meta(ThreadId::from_u128(1))));
    let rewritten = rewrite_subagent_history_boundary(head, 12).expect("rewrite");
    match rewritten.item {
        RolloutItem::SessionMeta(meta) => {
            assert_eq!(meta.subagent_history_start_ordinal, Some(12));
        }
        _ => panic!("expected a head"),
    }
    assert!(rewrite_subagent_history_boundary(user("a"), 12).is_err());
    let bounded = bounded_subagent_line(TIMESTAMP, user("a").item);
    assert_eq!(bounded.timestamp, TIMESTAMP);
    assert_eq!(bounded.ordinal, None);
}

#[test]
fn paginated_rollouts_are_upgraded_in_place() {
    let id = ThreadId::from_u128(1);
    let mut head = meta(id);
    head.history_mode = ThreadHistoryMode::Paginated;
    head.history_base = Some(HistoryPosition {
        thread_id: ThreadId::from_u128(9),
        end_ordinal_exclusive: 3,
        end_byte_offset: 40,
    });
    let mut head_line = line(RolloutItem::SessionMeta(head));
    head_line.ordinal = Some(3);
    let mut upgrade = PaginatedUpgrade::new(id, &head_line).expect("upgrade");
    assert_eq!(upgrade.next_ordinal, 3);
    match upgrade.take_record(Some(head_line)).expect("head") {
        UpgradeStep::Head { line } => match line.item {
            RolloutItem::SessionMeta(meta) => {
                assert_eq!(meta.history_mode, ThreadHistoryMode::PaginatedRefsV1);
                assert!(meta.history_base.is_some());
            }
            _ => panic!("expected a head"),
        },
        UpgradeStep::Body { .. } => panic!("expected a head"),
    }
    upgrade.commit_record(100).expect("commit");
    let mut body = user("a");
    body.ordinal = Some(4);
    assert!(matches!(upgrade.take_record(Some(body)), Ok(UpgradeStep::Body { .. })));
    upgrade.commit_record(50).expect("commit");
    assert_eq!(upgrade.finish().expect("finish"), (150, 5));
    assert!(upgrade_unresolved(&vec!["msg_a".to_owned(), "msg_b".to_owned()])
        .to_text()
        .ends_with("msg_a, msg_b"));
}

fn projected(item: RolloutLine, ordinal: u64, byte_count: u64) -> RolloutRecord {
    let mut line = item;
    line.ordinal = Some(ordinal);
    RolloutRecord { line: Some(line), byte_count }
}

#[test]
fn projection_goes_in_batches() {
    let mut head = meta(ThreadId::from_u128(1));
    head.subagent_history_start_ordinal = Some(1);
    let mut batcher = ProjectionBatcher::new(&head);
    assert!(batcher.take_record(projected(user("a"), 0, 10)).expect("first").is_none());
    let batch = batcher
        .take_record(projected(user("b"), 1, PROJECTION_BATCH_BYTES))
        .expect("second")
        .expect("a full batch");
    assert_eq!((batch.start_byte_offset, batch.end_byte_offset), (0, 10 + PROJECTION_BATCH_BYTES));
    assert_eq!(batch.lines.len(), 2);
    assert!(batch.lines[0].inherited);
    assert!(!batch.lines[1].inherited);
    assert_eq!(batch.lines[1].start_byte_offset, 10);
    assert_eq!(batch.lines[1].fallback_created_at_ms, SECONDS * 1000);
    assert!(!batch.lines[1].carries_realtime_item());
    assert!(batcher.take_record(projected(user("c"), 2, 7)).expect("third").is_none());
    let rest = batcher.finish().expect("the rest");
    assert_eq!(rest.lines.len(), 1);
    assert_eq!(rest.end_byte_offset, 17 + PROJECTION_BATCH_BYTES);
}
