use rollout_migration::canonical_output::write_resolution;
use rollout_migration::canonical_output::EncodedItem;
use rollout_migration::canonicalizer::LegacyRolloutCanonicalizer;
use rollout_migration::error::ThreadId;
use rollout_migration::error::ThreadStoreError;
use rollout_migration::item_ids::collect_response_item_ids;
use rollout_migration::item_ids::no_item_ids;
use rollout_migration::occurrence_ids::MigrationOccurrenceIds;
use rollout_migration::occurrence_ids::ResolvedHistory;
use rollout_migration::occurrence_ids::MIGRATION_OCCURRENCE_NAMESPACE;
use rollout_migration::rollout::CompactedHistoryEntry;
use rollout_migration::rollout::CompactedItem;
use rollout_migration::rollout::CompactionResolution;
use rollout_migration::rollout::ContentItem;
use rollout_migration::rollout::GuardianHistory;
use rollout_migration::rollout::ItemMetadata;
use rollout_migration::rollout::ResponseBody;
use rollout_migration::rollout::ResponseItem;
use rollout_migration::rollout::ResponseItemEnvelope;
use rollout_migration::rollout::RolloutItem;

const TIMESTAMP: &str = "2025-01-03T12:00:00Z";

fn message(id: Option<&str>, text: &str) -> ResponseItem {
    ResponseItem {
        id: id.map(str::to_owned),
        id_prefix: Some("msg".to_owned()),
        body: ResponseBody::Message {
            role: "user".to_owned(),
            content: vec![ContentItem::InputText { text: text.to_owned() }],
        },
        turn_id: None,
        counts_as_boundary: true,
        is_pre_turn_context_update: false,
        hook_prompt: None,
        payload: format!("{{\"role\":\"user\",\"text\":\"{text}\"}}"),
    }
}

fn envelope(id: Option<&str>, text: &str) -> ResponseItemEnvelope {
    ResponseItemEnvelope { item: message(id, text), metadata: None }
}

fn response(id: Option<&str>, text: &str) -> RolloutItem {
    RolloutItem::ResponseItem(envelope(id, text))
}

fn checkpoint(history: Vec<ResponseItemEnvelope>) -> RolloutItem {
    RolloutItem::Compacted(CompactedItem {
        replacement_history: Some(history),
        replacement_history_entries: None,
        guardian_history: None,
        retained_context: None,
        mcp_resource_origins: None,
        payload: "{}".to_owned(),
    })
}

fn generated(rollout_id: ThreadId, coordinate: &str) -> String {
    let name = format!("{}:{coordinate}", rollout_id.to_text());
    let suffix = uuid::Uuid::new_v5(
        &uuid::Uuid::from_u128(MIGRATION_OCCURRENCE_NAMESPACE),
        name.as_bytes(),
    );
    format!("msg_{suffix}")
}

fn id_of(item: &RolloutItem) -> Option<String> {
    match item {
        RolloutItem::ResponseItem(envelope) => envelope.item.id.clone(),
        _ => panic!("expected a response item"),
    }
}

fn checkpoint_ids(item: &RolloutItem) -> Vec<Option<String>> {
    match item {
        RolloutItem::Compacted(compacted) => compacted
            .replacement_history
            .as_ref()
            .map(|history| history.iter().map(|entry| entry.item.id.clone()).collect())
            .unwrap_or_default(),
        _ => panic!("expected a checkpoint"),
    }
}

fn text(error: &ThreadStoreError) -> String {
    error.to_text()
}

#[test]
fn reserved_deterministic_id_collision_fails_closed() {
    let rollout_id = ThreadId::from_u128(7);
    let reserved_id = generated(rollout_id, "ordinal:0:top");
    let mut reserved = no_item_ids();
    collect_response_item_ids(&response(Some(&reserved_id), "taken"), &mut reserved);
    let mut occurrence_ids = MigrationOccurrenceIds::new(rollout_id, reserved);
    let item = response(None, "collision");

    let error = occurrence_ids
        .prepare_item(item, ResolvedHistory::Nothing, 0)
        .err()
        .expect("reserved synthetic ID must block migration");

    assert!(text(&error).contains(reserved_id.as_str()));
}

#[test]
fn items_without_ids_get_ids_from_their_place() {
    let rollout_id = ThreadId::from_u128(7);
    let mut ids = MigrationOccurrenceIds::new(rollout_id, no_item_ids());
    let (first, preparation) = ids
        .prepare_item(response(None, "same"), ResolvedHistory::Nothing, 3)
        .expect("prepare first");
    ids.finish_item(preparation, true);
    let (second, preparation) = ids
        .prepare_item(response(None, "same"), ResolvedHistory::Nothing, 4)
        .expect("prepare second");
    ids.finish_item(preparation, true);

    assert_eq!(id_of(&first), Some(generated(rollout_id, "ordinal:3:top")));
    assert_eq!(id_of(&second), Some(generated(rollout_id, "ordinal:4:top")));
    assert_ne!(id_of(&first), id_of(&second));
}

#[test]
fn ids_are_the_same_for_copies_of_one_rollout_and_differ_between_rollouts() {
    let mut seen = Vec::new();
    for rollout in [7u128, 7, 8] {
        let mut ids = MigrationOccurrenceIds::new(ThreadId::from_u128(rollout), no_item_ids());
        let (item, _) = ids
            .prepare_item(response(None, "same"), ResolvedHistory::Nothing, 0)
            .expect("prepare");
        seen.push(id_of(&item));
    }
    assert_eq!(seen[0], seen[1]);
    assert_ne!(seen[0], seen[2]);
}

#[test]
fn empty_ids_count_as_none_and_items_without_prefix_get_none() {
    let rollout_id = ThreadId::from_u128(7);
    let mut ids = MigrationOccurrenceIds::new(rollout_id, no_item_ids());
    let (item, _) = ids
        .prepare_item(response(Some(""), "empty"), ResolvedHistory::Nothing, 0)
        .expect("prepare");
    assert_eq!(id_of(&item), Some(generated(rollout_id, "ordinal:0:top")));

    let mut bare = message(None, "bare");
    bare.id_prefix = None;
    let (item, _) = ids
        .prepare_item(
            RolloutItem::ResponseItem(ResponseItemEnvelope { item: bare, metadata: None }),
            ResolvedHistory::Nothing,
            1,
        )
        .expect("prepare");
    assert_eq!(id_of(&item), None);
}

#[test]
fn checkpoint_copies_take_the_ids_of_the_occurrences_they_stand_for() {
    let rollout_id = ThreadId::from_u128(7);
    let mut ids = MigrationOccurrenceIds::new(rollout_id, no_item_ids());
    for ordinal in 0..2u64 {
        let (_, preparation) = ids
            .prepare_item(response(None, "again"), ResolvedHistory::Nothing, ordinal)
            .expect("prepare source");
        ids.finish_item(preparation, true);
    }
    let entries = || vec![envelope(None, "again"), envelope(None, "again"), envelope(None, "new")];
    let (item, preparation) = ids
        .prepare_item(
            checkpoint(entries()),
            ResolvedHistory::History { items: entries() },
            2,
        )
        .expect("prepare checkpoint");
    ids.finish_item(preparation, true);

    assert_eq!(
        checkpoint_ids(&item),
        vec![
            Some(generated(rollout_id, "ordinal:0:top")),
            Some(generated(rollout_id, "ordinal:1:top")),
            Some(generated(rollout_id, "ordinal:2:checkpoint-entry:2")),
        ]
    );

    // Afterwards the entries of the checkpoint are the occurrences that a later one can copy.
    let (later, _) = ids
        .prepare_item(
            checkpoint(vec![envelope(None, "new")]),
            ResolvedHistory::History { items: vec![envelope(None, "new")] },
            3,
        )
        .expect("prepare later checkpoint");
    assert_eq!(
        checkpoint_ids(&later),
        vec![Some(generated(rollout_id, "ordinal:2:checkpoint-entry:2"))]
    );
}

#[test]
fn checkpoints_take_back_the_explicit_id_that_they_lost() {
    let mut ids = MigrationOccurrenceIds::new(ThreadId::from_u128(7), no_item_ids());
    let text = "checkpoint lost only its ID";
    let (item, preparation) = ids
        .prepare_item(
            response(Some("explicit-occurrence"), text),
            ResolvedHistory::Nothing,
            0,
        )
        .expect("prepare source");
    assert_eq!(id_of(&item).as_deref(), Some("explicit-occurrence"));
    ids.finish_item(preparation, true);
    let (item, _) = ids
        .prepare_item(
            checkpoint(vec![envelope(None, text)]),
            ResolvedHistory::History { items: vec![envelope(None, text)] },
            1,
        )
        .expect("prepare checkpoint");
    assert_eq!(checkpoint_ids(&item), vec![Some("explicit-occurrence".to_owned())]);
}

#[test]
fn the_first_checkpoint_that_carries_an_item_names_it_for_later_ones() {
    let rollout_id = ThreadId::from_u128(7);
    let mut ids = MigrationOccurrenceIds::new(rollout_id, no_item_ids());
    let carrier = "data:image/png;base64,checkpoint-first-carrier";
    for ordinal in 0..2u64 {
        let (item, preparation) = ids
            .prepare_item(
                checkpoint(vec![envelope(None, carrier)]),
                ResolvedHistory::History { items: vec![envelope(None, carrier)] },
                ordinal,
            )
            .expect("prepare checkpoint");
        assert_eq!(
            checkpoint_ids(&item),
            vec![Some(generated(rollout_id, "ordinal:0:checkpoint-entry:0"))]
        );
        ids.finish_item(preparation, true);
    }
}

#[test]
fn items_behind_a_checkpoint_are_no_source_for_it() {
    let rollout_id = ThreadId::from_u128(7);
    let mut ids = MigrationOccurrenceIds::new(rollout_id, no_item_ids());
    let (item, preparation) = ids
        .prepare_item(
            checkpoint(vec![envelope(None, "later")]),
            ResolvedHistory::History { items: vec![envelope(None, "later")] },
            0,
        )
        .expect("prepare checkpoint");
    ids.finish_item(preparation, true);
    let (later, _) = ids
        .prepare_item(response(None, "later"), ResolvedHistory::Nothing, 1)
        .expect("prepare item");
    assert_eq!(
        checkpoint_ids(&item),
        vec![Some(generated(rollout_id, "ordinal:0:checkpoint-entry:0"))]
    );
    assert_eq!(id_of(&later), Some(generated(rollout_id, "ordinal:1:top")));
}

#[test]
fn metadata_tells_otherwise_equal_occurrences_apart() {
    let rollout_id = ThreadId::from_u128(7);
    let mut ids = MigrationOccurrenceIds::new(rollout_id, no_item_ids());
    let with_metadata = || ResponseItemEnvelope {
        item: message(None, "same"),
        metadata: Some(ItemMetadata { user_input_order: Some(1), payload: "{\"order\":1}".to_owned() }),
    };
    let (_, preparation) = ids
        .prepare_item(response(None, "same"), ResolvedHistory::Nothing, 0)
        .expect("prepare");
    ids.finish_item(preparation, true);
    let (item, _) = ids
        .prepare_item(
            checkpoint(vec![with_metadata()]),
            ResolvedHistory::History { items: vec![with_metadata()] },
            1,
        )
        .expect("prepare checkpoint");
    assert_eq!(
        checkpoint_ids(&item),
        vec![Some(generated(rollout_id, "ordinal:1:checkpoint-entry:0"))]
    );
}

#[test]
fn the_order_of_user_input_tells_otherwise_equal_occurrences_apart() {
    let rollout_id = ThreadId::from_u128(7);
    let ordered = |order: Option<u64>| ResponseItemEnvelope {
        item: message(None, "same"),
        metadata: Some(ItemMetadata { user_input_order: order, payload: "{}".to_owned() }),
    };
    for (copied, source) in [(Some(1), 0), (Some(2), 1), (None, 1)] {
        let mut ids = MigrationOccurrenceIds::new(rollout_id, no_item_ids());
        let (_, preparation) = ids
            .prepare_item(RolloutItem::ResponseItem(ordered(Some(1))), ResolvedHistory::Nothing, 0)
            .expect("prepare");
        ids.finish_item(preparation, true);
        let (item, _) = ids
            .prepare_item(
                checkpoint(vec![ordered(copied)]),
                ResolvedHistory::History { items: vec![ordered(copied)] },
                1,
            )
            .expect("prepare checkpoint");
        let coordinate = if source == 0 {
            "ordinal:0:top"
        } else {
            "ordinal:1:checkpoint-entry:0"
        };
        assert_eq!(checkpoint_ids(&item), vec![Some(generated(rollout_id, coordinate))]);
    }
}

#[test]
fn unresolved_checkpoints_forget_what_they_could_have_copied() {
    let rollout_id = ThreadId::from_u128(7);
    let mut ids = MigrationOccurrenceIds::new(rollout_id, no_item_ids());
    let (_, preparation) = ids
        .prepare_item(response(None, "old"), ResolvedHistory::Nothing, 0)
        .expect("prepare");
    ids.finish_item(preparation, true);
    let (_, preparation) = ids
        .prepare_item(checkpoint(Vec::new()), ResolvedHistory::Unresolved, 1)
        .expect("prepare unresolved");
    ids.finish_item(preparation, false);
    let (item, _) = ids
        .prepare_item(
            checkpoint(vec![envelope(None, "old")]),
            ResolvedHistory::History { items: vec![envelope(None, "old")] },
            2,
        )
        .expect("prepare checkpoint");
    assert_eq!(
        checkpoint_ids(&item),
        vec![Some(generated(rollout_id, "ordinal:2:checkpoint-entry:0"))]
    );
}

#[test]
fn carried_history_ids_are_collected() {
    let mut ids = no_item_ids();
    collect_response_item_ids(&response(Some("msg_a"), "a"), &mut ids);
    collect_response_item_ids(&response(Some(""), "b"), &mut ids);
    collect_response_item_ids(
        &RolloutItem::Compacted(CompactedItem {
            replacement_history: Some(vec![envelope(Some("msg_h"), "h")]),
            replacement_history_entries: Some(vec![
                CompactedHistoryEntry::Inline { item: message(Some("msg_i"), "i"), metadata: None },
                CompactedHistoryEntry::Reference { item_id: "msg_r".to_owned() },
                CompactedHistoryEntry::ReferenceV2 {
                    item_id: "msg_v".to_owned(),
                    payload: "{}".to_owned(),
                },
            ]),
            guardian_history: Some(GuardianHistory {
                items: vec![message(Some("msg_g"), "g")],
                entries: None,
            }),
            retained_context: None,
            mcp_resource_origins: None,
            payload: "{}".to_owned(),
        }),
        &mut ids,
    );
    for id in ["msg_a", "msg_h", "msg_i", "msg_r", "msg_v"] {
        assert!(ids.contains(id), "{id} is missing");
    }
    assert!(!ids.contains("msg_g"));
    assert!(!ids.contains(""));
}

fn writer() -> LegacyRolloutCanonicalizer {
    LegacyRolloutCanonicalizer::new(
        ThreadId::from_u128(1),
        ThreadId::from_u128(1),
        no_item_ids(),
    )
}

#[test]
fn written_records_are_numbered_and_counted() {
    let mut writer = writer();
    for (index, length) in [10u64, 20].into_iter().enumerate() {
        let prepared = writer
            .begin_write(response(Some("msg_a"), "a"), ResolvedHistory::Nothing)
            .expect("begin");
        let ready = writer
            .finish_write(
                TIMESTAMP,
                prepared.preparation,
                prepared.is_history_checkpoint,
                CompactionResolution::InferSelected,
                EncodedItem::Encoded { item: prepared.item },
            )
            .expect("finish");
        assert_eq!(ready.line.ordinal, Some(index as u64));
        assert_eq!(ready.line.timestamp, TIMESTAMP);
        assert!(!ready.index_sources);
        writer.commit_write(length).expect("commit");
    }
    assert_eq!(writer.next_ordinal(), 2);
    assert_eq!(writer.output_byte_offset(), 30);
}

#[test]
fn unresolved_strict_checkpoint_fails_closed() {
    let mut writer = writer();
    let prepared = writer
        .begin_write(checkpoint(Vec::new()), ResolvedHistory::Unresolved)
        .expect("begin");
    assert!(prepared.is_history_checkpoint);
    let error = writer
        .finish_write(
            TIMESTAMP,
            prepared.preparation,
            prepared.is_history_checkpoint,
            CompactionResolution::Strict,
            EncodedItem::Missing { item: prepared.item, missing: vec!["msg_x".to_owned()] },
        )
        .expect_err("unresolved strict checkpoint");
    assert!(text(&error).contains("msg_x"));
}

#[test]
fn unresolved_inferred_checkpoint_is_superseded_by_a_newer_valid_one() {
    let mut writer = writer();
    let prepared = writer
        .begin_write(checkpoint(Vec::new()), ResolvedHistory::Unresolved)
        .expect("begin");
    let ready = writer
        .finish_write(
            TIMESTAMP,
            prepared.preparation,
            true,
            CompactionResolution::InferSelected,
            EncodedItem::Missing { item: prepared.item, missing: vec!["msg_x".to_owned()] },
        )
        .expect("provisional checkpoint");
    assert!(ready.index_sources);
    writer.commit_write(5).expect("commit");
    let prepared = writer
        .begin_write(
            checkpoint(Vec::new()),
            ResolvedHistory::History { items: Vec::new() },
        )
        .expect("begin newer");
    writer
        .finish_write(
            TIMESTAMP,
            prepared.preparation,
            true,
            CompactionResolution::InferSelected,
            EncodedItem::Encoded { item: prepared.item },
        )
        .expect("newer checkpoint");
    let effects = writer.finish(TIMESTAMP);
    assert!(effects.failure.is_none());
}

#[test]
fn unresolved_selected_checkpoint_is_reported_at_the_end() {
    let mut writer = writer();
    let prepared = writer
        .begin_write(checkpoint(Vec::new()), ResolvedHistory::Unresolved)
        .expect("begin");
    writer
        .finish_write(
            TIMESTAMP,
            prepared.preparation,
            true,
            CompactionResolution::InferSelected,
            EncodedItem::Missing { item: prepared.item, missing: vec!["msg_x".to_owned()] },
        )
        .expect("provisional checkpoint");
    let effects = writer.finish(TIMESTAMP);
    let error = effects.failure.expect("the selected checkpoint stays unresolved");
    assert!(text(&error).contains("msg_x"));
}

#[test]
fn only_checkpoints_are_resolved_as_planned() {
    assert_eq!(
        write_resolution(&checkpoint(Vec::new()), CompactionResolution::Strict),
        CompactionResolution::Strict
    );
    assert_eq!(
        write_resolution(&response(None, "a"), CompactionResolution::Strict),
        CompactionResolution::InferSelected
    );
}
