//! Rollbacks in a legacy history, and what is left of the history behind them.

use rollout_migration::conversion::CanonicalReplay;
use rollout_migration::conversion::ReplayStep;
use rollout_migration::rollback_apply::truncate_guardian_history;
use rollout_migration::rollback_apply::ModelReplay;
use rollout_migration::rollback_apply::PlannedRecord;
use rollout_migration::rollback_apply::RewrittenRecord;
use rollout_migration::rollback_apply::RollbackPlan;
use rollout_migration::rollback_plan::user_response_matches_event;
use rollout_migration::rollback_plan::RollbackPlanner;
use rollout_migration::rollout::CompactedItem;
use rollout_migration::rollout::CompactionResolution;
use rollout_migration::rollout::ContentItem;
use rollout_migration::rollout::EventMsg;
use rollout_migration::rollout::ItemCompleted;
use rollout_migration::rollout::LegacyConversion;
use rollout_migration::rollout::LegacyEvent;
use rollout_migration::rollout::LegacyItemDraft;
use rollout_migration::rollout::ResponseBody;
use rollout_migration::rollout::ResponseItem;
use rollout_migration::rollout::ResponseItemEnvelope;
use rollout_migration::rollout::RolloutItem;
use rollout_migration::rollout::RolloutLine;
use rollout_migration::rollout::ThreadHistoryMode;
use rollout_migration::rollout::TurnComplete;
use rollout_migration::rollout::TurnItem;
use rollout_migration::rollout::TurnStarted;
use rollout_migration::rollout::UserMessage;
use rollout_migration::error::ThreadId;
use rollout_migration::rollout::SessionMeta;
use rollout_migration::rollout::SessionSource;

fn user_event(text: &str) -> UserMessage {
    UserMessage {
        message: text.to_owned(),
        images: None,
        audio: None,
        local_images: Vec::new(),
        local_audio: Vec::new(),
        draft: LegacyItemDraft { id: None, payload: text.to_owned() },
        conversion_error: None,
    }
}

fn user_message(text: &str) -> RolloutItem {
    RolloutItem::EventMsg(EventMsg::UserMessage(user_event(text)))
}

fn agent_message(text: &str) -> RolloutItem {
    RolloutItem::EventMsg(EventMsg::Other {
        event: LegacyEvent {
            conversion: LegacyConversion::Item {
                draft: LegacyItemDraft { id: None, payload: text.to_owned() },
                turn_id: None,
            },
            payload: text.to_owned(),
        },
    })
}

fn started(turn_id: &str) -> RolloutItem {
    RolloutItem::EventMsg(EventMsg::TurnStarted(TurnStarted {
        turn_id: turn_id.to_owned(),
        started_at: None,
        payload: "{}".to_owned(),
    }))
}

fn completed(turn_id: &str) -> RolloutItem {
    RolloutItem::EventMsg(EventMsg::TurnComplete(TurnComplete {
        turn_id: turn_id.to_owned(),
        completed_at: None,
        payload: "{}".to_owned(),
    }))
}

fn item_completed(turn_id: &str, payload: &str) -> RolloutItem {
    RolloutItem::EventMsg(EventMsg::ItemCompleted(ItemCompleted {
        thread_id: ThreadId::from_u128(1),
        turn_id: turn_id.to_owned(),
        item: TurnItem::Canonical { payload: payload.to_owned() },
        started_at_ms: None,
        completed_at_ms: 0,
    }))
}

fn rolled_back(num_turns: u32) -> RolloutItem {
    RolloutItem::EventMsg(EventMsg::ThreadRolledBack { num_turns })
}

fn response(role: &str, text: &str, boundary: bool) -> ResponseItem {
    ResponseItem {
        id: Some(format!("msg_{text}")),
        id_prefix: Some("msg".to_owned()),
        body: ResponseBody::Message {
            role: role.to_owned(),
            content: vec![ContentItem::InputText { text: text.to_owned() }],
        },
        turn_id: None,
        counts_as_boundary: boundary,
        is_pre_turn_context_update: false,
        hook_prompt: None,
        payload: text.to_owned(),
    }
}

fn response_item(role: &str, text: &str, boundary: bool) -> RolloutItem {
    RolloutItem::ResponseItem(ResponseItemEnvelope {
        item: response(role, text, boundary),
        metadata: None,
    })
}

fn checkpoint(history: Option<Vec<&str>>) -> RolloutItem {
    RolloutItem::Compacted(CompactedItem {
        replacement_history: history.map(|texts| {
            texts
                .into_iter()
                .map(|text| ResponseItemEnvelope {
                    item: response("user", text, true),
                    metadata: None,
                })
                .collect()
        }),
        replacement_history_entries: None,
        guardian_history: None,
        retained_context: None,
        mcp_resource_origins: Some("origins".to_owned()),
        payload: "checkpoint".to_owned(),
    })
}

fn line(item: RolloutItem) -> RolloutLine {
    RolloutLine { timestamp: "2025-01-03T12:00:00Z".to_owned(), ordinal: None, item }
}

fn planner(items: Vec<RolloutItem>) -> RollbackPlanner {
    let mut planner = RollbackPlanner::new();
    for item in items {
        planner.observe(&line(item)).expect("observe");
    }
    planner
}

fn plan(items: Vec<RolloutItem>) -> RollbackPlan {
    planner(items).finish(ModelReplay {
        selected_compaction: None,
        empty_replacement_history_compaction: None,
    })
}

/// Which records survive.
fn kept(build: fn() -> Vec<RolloutItem>) -> Vec<bool> {
    let plan = plan(build());
    assert_eq!(plan.record_count(), build().len());
    build()
        .into_iter()
        .enumerate()
        .map(|(index, item)| {
            !matches!(
                plan.apply(index, line(item)).expect("planned record"),
                PlannedRecord::Removed { .. }
            )
        })
        .collect()
}

fn positions(kept: &[bool]) -> Vec<usize> {
    kept.iter()
        .enumerate()
        .filter_map(|(index, kept)| kept.then_some(index))
        .collect()
}

#[test]
fn historical_rollbacks_remove_the_turns_they_name() {
    fn items() -> Vec<RolloutItem> {
        vec![
            started("keep"),
            user_message("keep question"),
            agent_message("keep answer"),
            completed("keep"),
            started("remove"),
            user_message("remove question"),
            agent_message("remove answer"),
            completed("remove"),
            started("shell"),
            completed("shell"),
            rolled_back(1),
            started("replacement"),
            user_message("replacement question"),
            agent_message("replacement answer"),
            completed("replacement"),
        ]
    }
    assert_eq!(positions(&kept(items)), vec![0, 1, 2, 3, 11, 12, 13, 14]);
}

#[test]
fn cumulative_and_overflowing_rollbacks_remove_everything_before_them() {
    fn items() -> Vec<RolloutItem> {
        vec![
            started("first"),
            user_message("first question"),
            completed("first"),
            started("second"),
            user_message("second question"),
            completed("second"),
            rolled_back(1),
            started("third"),
            user_message("third question"),
            completed("third"),
            rolled_back(99),
            user_message("replacement question"),
        ]
    }
    assert_eq!(positions(&kept(items)), vec![11]);
}

#[test]
fn response_and_inter_agent_boundaries_roll_back() {
    fn responses() -> Vec<RolloutItem> {
        vec![response_item("user", "remove", true), rolled_back(1), user_message("keep")]
    }
    assert_eq!(positions(&kept(responses)), vec![2]);
    fn deliveries() -> Vec<RolloutItem> {
        vec![
            RolloutItem::InterAgentCommunicationMetadata { trigger_turn: true },
            response_item("user", "delivered", false),
            rolled_back(1),
            user_message("keep"),
        ]
    }
    assert_eq!(positions(&kept(deliveries)), vec![3]);
    fn communication() -> Vec<RolloutItem> {
        vec![
            RolloutItem::InterAgentCommunication { payload: "{}".to_owned() },
            rolled_back(1),
            user_message("keep"),
        ]
    }
    assert_eq!(positions(&kept(communication)), vec![2]);
}

#[test]
fn a_response_and_its_event_are_one_instruction() {
    fn repeated() -> Vec<RolloutItem> {
        vec![
            user_message("earlier"),
            response_item("user", "question", true),
            user_message("question"),
            rolled_back(1),
        ]
    }
    assert_eq!(positions(&kept(repeated)), vec![0]);
    fn distinct() -> Vec<RolloutItem> {
        vec![
            user_message("earlier"),
            response_item("user", "one question", true),
            user_message("another question"),
            rolled_back(1),
        ]
    }
    assert_eq!(positions(&kept(distinct)), vec![0, 1]);
}

#[test]
fn migration_drops_trailing_context_when_rollback_arrives_before_next_turn() {
    fn items() -> Vec<RolloutItem> {
        vec![
            response_item("user", "keep question", true),
            response_item("user", "remove question", true),
            response_item(
                "user",
                "<turn_aborted>remove this context too</turn_aborted>",
                false,
            ),
            rolled_back(1),
            user_message("replacement question"),
        ]
    }
    assert_eq!(positions(&kept(items)), vec![0, 4]);
}

#[test]
fn migration_coalesces_response_first_user_message_rollback_boundary() {
    fn items() -> Vec<RolloutItem> {
        vec![
            response_item("user", "remove question", true),
            user_message("remove question"),
            rolled_back(1),
            user_message("replacement question"),
        ]
    }
    assert_eq!(positions(&kept(items)), vec![3]);
}

#[test]
fn migration_does_not_coalesce_distinct_adjacent_user_records() {
    fn items() -> Vec<RolloutItem> {
        vec![
            response_item("user", "copied parent question", true),
            user_message("child question"),
            rolled_back(1),
            user_message("replacement question"),
        ]
    }
    assert_eq!(positions(&kept(items)), vec![0, 3]);
}

fn context_item(role: &str, text: &str) -> RolloutItem {
    let mut item = response(role, text, false);
    item.is_pre_turn_context_update = true;
    RolloutItem::ResponseItem(ResponseItemEnvelope { item, metadata: None })
}

#[test]
fn migration_rolls_back_response_and_inter_agent_user_boundaries() {
    fn responses() -> Vec<RolloutItem> {
        vec![
            response_item("user", "remove response boundary", true),
            rolled_back(1),
            user_message("replacement question"),
        ]
    }
    assert_eq!(positions(&kept(responses)), vec![2]);
    fn communication() -> Vec<RolloutItem> {
        vec![
            RolloutItem::InterAgentCommunication {
                payload: "remove communication boundary".to_owned(),
            },
            rolled_back(1),
            user_message("replacement question"),
        ]
    }
    assert_eq!(positions(&kept(communication)), vec![2]);
    fn contextual() -> Vec<RolloutItem> {
        vec![
            response_item("user", "keep first boundary", true),
            context_item(
                "developer",
                "<managed_developer_instructions>context only</managed_developer_instructions>",
            ),
            context_item(
                "developer",
                "<permissions instructions>context only</permissions instructions>",
            ),
            context_item("user", "<environment_context>context only</environment_context>"),
            response_item("user", "remove real user boundary", true),
            rolled_back(1),
            user_message("replacement question"),
        ]
    }
    assert_eq!(positions(&kept(contextual)), vec![0, 6]);
}

#[test]
fn migration_rolls_back_inter_agent_metadata_with_its_delivery() {
    fn items() -> Vec<RolloutItem> {
        let mut delivery = response("assistant", "remove delivery", true);
        delivery.body = ResponseBody::AgentMessage;
        vec![
            RolloutItem::InterAgentCommunicationMetadata { trigger_turn: true },
            RolloutItem::ResponseItem(ResponseItemEnvelope { item: delivery, metadata: None }),
            rolled_back(1),
            user_message("replacement question"),
        ]
    }
    assert_eq!(positions(&kept(items)), vec![3]);
}

#[test]
fn migration_keeps_late_completions_for_surviving_turns_across_rollback() {
    fn items() -> Vec<RolloutItem> {
        vec![
            started("old"),
            user_message("old question"),
            started("remove"),
            user_message("remove question"),
            completed("old"),
            item_completed("old", "call-old"),
            item_completed("old", "reason-old"),
            item_completed("remove", "call-remove"),
            completed("remove"),
            rolled_back(1),
            started("replacement"),
            user_message("replacement question"),
            completed("replacement"),
        ]
    }
    assert_eq!(positions(&kept(items)), vec![0, 1, 4, 5, 6, 10, 11, 12]);
}

#[test]
fn late_completions_follow_the_turn_they_name() {
    fn items() -> Vec<RolloutItem> {
        vec![
            started("keep"),
            user_message("keep question"),
            completed("keep"),
            started("remove"),
            user_message("remove question"),
            item_completed("keep", "late kept"),
            item_completed("remove", "late removed"),
            completed("remove"),
            rolled_back(1),
            item_completed("keep", "later kept"),
            item_completed("remove", "later removed"),
        ]
    }
    assert_eq!(positions(&kept(items)), vec![0, 1, 2, 5, 9]);
}

#[test]
fn rollbacks_of_nothing_remove_nothing() {
    fn items() -> Vec<RolloutItem> {
        vec![user_message("a"), rolled_back(0), user_message("b")]
    }
    assert_eq!(positions(&kept(items)), vec![0, 2]);
}

#[test]
fn session_metadata_survives_every_rollback() {
    fn items() -> Vec<RolloutItem> {
        vec![
            RolloutItem::SessionMeta(SessionMeta {
                id: ThreadId::from_u128(1),
                history_mode: ThreadHistoryMode::Legacy,
                history_base: None,
                subagent_history_start_ordinal: None,
                source: SessionSource::Other { label: "cli".to_owned() },
                thread_source: None,
                payload: "{}".to_owned(),
            }),
            user_message("a"),
            rolled_back(5),
        ]
    }
    assert_eq!(positions(&kept(items)), vec![0]);
}

#[test]
fn rollbacks_tell_what_they_removed() {
    let mut planner = planner(vec![
        started("a"),
        user_message("one"),
        completed("a"),
        started("b"),
        response_item("user", "two", true),
        user_message("two"),
    ]);
    let cut = planner
        .observe(&line(rolled_back(1)))
        .expect("roll back")
        .expect("something was removed");
    assert_eq!(cut.removed_turns, vec!["b".to_owned()]);
    assert_eq!(cut.first_removed_message_id, Some("msg_two".to_owned()));
    assert!(planner.observe(&line(rolled_back(0))).expect("roll back").is_none());
}

#[test]
fn rollbacks_across_checkpoints_rewrite_their_history() {
    let items = || {
        vec![
            user_message("before"),
            checkpoint(Some(vec!["before"])),
            rolled_back(1),
        ]
    };
    let plan = planner(items()).finish(ModelReplay {
        selected_compaction: Some(1),
        empty_replacement_history_compaction: None,
    });
    assert_eq!(plan.compaction_resolution(1), CompactionResolution::Strict);
    let planned = plan.apply(1, line(items().remove(1))).expect("planned");
    let PlannedRecord::Materialize { line, needs_history, needs_guardian } = planned else {
        panic!("the checkpoint has to be rewritten");
    };
    assert!(!needs_history);
    assert!(!needs_guardian);
    let line = plan.materialize(1, line, Ok(None), Ok(None)).expect("materialize");
    match plan.rewrite(1, line).expect("rewrite") {
        RewrittenRecord::DropTurns { line, num_turns } => {
            assert_eq!(num_turns, 1);
            match line.item {
                RolloutItem::Compacted(item) => assert_eq!(item.mcp_resource_origins, None),
                _ => panic!("expected a checkpoint"),
            }
        }
        RewrittenRecord::Done { .. } => panic!("a turn has to be dropped"),
    }
}

#[test]
fn rollbacks_across_checkpoints_without_history_fail_closed() {
    let mut planner = planner(vec![user_message("before"), checkpoint(None)]);
    let error = planner.observe(&line(rolled_back(1))).expect_err("no history to cut");
    assert_eq!(
        error.to_text(),
        "thread-store internal error: rollout migration failed: legacy rollback crosses a compaction without replacement history"
    );
}

#[test]
fn empty_replay_anchors_are_written_without_history() {
    let items = || vec![user_message("before"), checkpoint(Some(vec!["before"])), rolled_back(1)];
    let plan = planner(items()).finish(ModelReplay {
        selected_compaction: Some(1),
        empty_replacement_history_compaction: Some(1),
    });
    let planned = plan.apply(1, line(items().remove(1))).expect("planned");
    let PlannedRecord::Materialize { line, .. } = planned else {
        panic!("the checkpoint has to be rewritten");
    };
    match plan.rewrite(1, line).expect("rewrite") {
        RewrittenRecord::Done { line } => match line.item {
            RolloutItem::Compacted(item) => {
                assert_eq!(item.replacement_history, Some(Vec::new()));
            }
            _ => panic!("expected a checkpoint"),
        },
        RewrittenRecord::DropTurns { .. } => panic!("the anchor is empty"),
    }
}

#[test]
fn guardian_histories_are_cut_at_the_removed_message() {
    let mut history = vec![
        response("user", "one", true),
        response("assistant", "answer", false),
        response("user", "two", true),
        response("assistant", "later", false),
    ];
    truncate_guardian_history(&mut history, 1, &Some("msg_two".to_owned()));
    let left: Vec<_> = history.iter().map(|item| item.payload.as_str()).collect();
    assert_eq!(left, vec!["one", "answer"]);
}

#[test]
fn plans_must_cover_the_whole_replay() {
    let short = plan(vec![user_message("a")]);
    assert!(short.apply(1, line(user_message("b"))).is_err());
    let mut replay = CanonicalReplay::new(Some(short), "2025-01-03T12:00:00Z");
    assert!(replay.check_end().is_err());
    assert!(matches!(
        replay.take_line(line(user_message("a"))),
        Ok(ReplayStep::Planned { .. })
    ));
    assert!(replay.check_end().is_ok());
    assert!(replay.take_line(line(user_message("b"))).is_err());
}

#[test]
fn user_responses_are_matched_by_their_whole_content() {
    let text = |text: &str| vec![ContentItem::InputText { text: text.to_owned() }];
    assert!(user_response_matches_event(&text("hello"), &user_event("hello")));
    assert!(!user_response_matches_event(&text("hello"), &user_event("hello there")));
    let mut with_image = text("hello");
    with_image.push(ContentItem::InputImage { image_url: "data:1".to_owned() });
    assert!(!user_response_matches_event(&with_image, &user_event("hello")));
    let mut event = user_event("hello");
    event.images = Some(vec!["data:1".to_owned()]);
    assert!(user_response_matches_event(&with_image, &event));
}

#[test]
fn selected_checkpoints_must_resolve() {
    let items = || vec![user_message("before"), checkpoint(None)];
    let plan = planner(items()).finish(ModelReplay {
        selected_compaction: Some(1),
        empty_replacement_history_compaction: None,
    });
    let planned = plan.apply(1, line(items().remove(1))).expect("planned");
    let PlannedRecord::Materialize { line, needs_history, .. } = planned else {
        panic!("the checkpoint is the replay base");
    };
    assert!(needs_history);
    let error = plan
        .materialize(1, line, Err(vec!["a".to_owned(), "b".to_owned()]), Ok(None))
        .expect_err("unresolved");
    assert_eq!(
        error.to_text(),
        "thread-store internal error: rollout migration failed: compacted history references could not be resolved during rollback replay: a, b"
    );
}
