//! Live recorders: locks, resumption, writes, shutdown and replayed context.

use rollout_migration::error::ThreadId;
use rollout_migration::error::ThreadStoreError;
use rollout_migration::live_actions::rollout_path;
use rollout_migration::live_actions::LiveRecorder;
use rollout_migration::live_actions::WriterAction;
use rollout_migration::live_actions::WriterReply;
use rollout_migration::live_actions::WriterStep;
use rollout_migration::live_write::retain_persisted;
use rollout_migration::live_write::AppendItem;
use rollout_migration::live_write::PersistedUnder;
use rollout_migration::live_write::RolloutWriteOp;
use rollout_migration::live_write::WriteAndProject;
use rollout_migration::model_context::insert_head;
use rollout_migration::model_context::oldest_first;
use rollout_migration::model_context::ContextAction;
use rollout_migration::model_context::ContextProblem;
use rollout_migration::model_context::ContextReply;
use rollout_migration::model_context::ContextScan;
use rollout_migration::model_context::ContextStep;
use rollout_migration::model_context::LoadForFork;
use rollout_migration::model_context::LoadModelContext;
use rollout_migration::model_context::ResolvedRollout;
use rollout_migration::paths::RolloutPath;
use rollout_migration::replay::supplied_head;
use rollout_migration::replay::supplied_history_matches_current;
use rollout_migration::replay::take_comparison;
use rollout_migration::replay::ReplayHead;
use rollout_migration::replay::ReplayItem;
use rollout_migration::resume::CreateThread;
use rollout_migration::resume::ResumeRequest;
use rollout_migration::resume::ResumeThread;
use rollout_migration::rollout::HistoryPosition;
use rollout_migration::rollout::RolloutItem;
use rollout_migration::rollout::SessionMeta;
use rollout_migration::rollout::SessionSource;
use rollout_migration::rollout::ThreadHistoryMode;
use rollout_migration::shutdown::DiscardThread;
use rollout_migration::shutdown::ShutdownThread;
use rollout_migration::writer_lock::names_writer_lock;
use rollout_migration::writer_lock::AcquireLifecycleLock;
use rollout_migration::writer_lock::AcquireWriterLock;
use rollout_migration::writer_lock::LifecycleLockMode;
use rollout_migration::writer_lock::LockAction;
use rollout_migration::writer_lock::LockReply;
use rollout_migration::writer_lock::LockStep;
use rollout_migration::writer_lock::ReleaseWriterLock;
use rollout_migration::writer_lock::WriterLockCoordinator;

fn path(text: &str) -> RolloutPath {
    RolloutPath::new(text.to_owned())
}

fn id(value: u128) -> ThreadId {
    ThreadId::from_u128(value)
}

fn conflict(message: &str) -> ThreadStoreError {
    ThreadStoreError::Conflict { message: message.to_owned() }
}

fn lock<M>(
    begun: LockStep<M>,
    advance: fn(M, LockReply) -> LockStep<M>,
    replies: Vec<LockReply>,
) -> (Vec<LockAction>, Result<(), ThreadStoreError>) {
    let mut step = begun;
    let mut actions = Vec::new();
    let mut replies = replies.into_iter();
    loop {
        match step {
            LockStep::Ask(machine, action) => {
                actions.push(action);
                step = advance(machine, replies.next().expect("a reply is missing"));
            }
            LockStep::End(result) => return (actions, result.map_err(|problem| problem.to_error())),
        }
    }
}

fn held() -> Vec<LockReply> {
    vec![LockReply::Done, LockReply::Done, LockReply::Done]
}

#[test]
fn writer_locks_are_taken_under_the_coordination_lock() {
    let coordinator = WriterLockCoordinator::new(&path("/home"));
    assert_eq!(coordinator.directory, path("/home/thread-writer-locks"));
    assert!(!coordinator.cleanup_attempted);
    let mut replies = held();
    replies.extend([LockReply::Answer(true), LockReply::Done, LockReply::Answer(true)]);
    let (actions, result) =
        lock(coordinator.acquire(id(1)).begin(), AcquireWriterLock::advance, replies);
    assert!(result.is_ok());
    let own = path(&format!("/home/thread-writer-locks/{}.lock", id(1).to_text()));
    let shared = path("/home/thread-writer-locks/.coordination.lock");
    assert_eq!(
        actions,
        vec![
            LockAction::CreateDirectory { path: path("/home/thread-writer-locks") },
            LockAction::Open { path: shared.clone() },
            LockAction::Lock { path: shared, mode: LifecycleLockMode::Exclusive },
            LockAction::MarkCleanupAttempted,
            LockAction::Open { path: own.clone() },
            LockAction::TryLock { path: own },
        ]
    );
}

#[test]
fn busy_threads_are_refused() {
    let coordinator = WriterLockCoordinator::new(&path("/home"));
    let mut replies = held();
    replies.extend([LockReply::Answer(true), LockReply::Done, LockReply::Answer(false)]);
    let (_, result) =
        lock(coordinator.acquire(id(1)).begin(), AcquireWriterLock::advance, replies);
    assert_eq!(
        result.expect_err("busy"),
        conflict(&format!("thread {} already has an active writer", id(1).to_text()))
    );
}

#[test]
fn lock_failures_name_their_file() {
    let coordinator = WriterLockCoordinator::new(&path("/home"));
    let (_, result) = lock(
        coordinator.acquire(id(1)).begin(),
        AcquireWriterLock::advance,
        vec![LockReply::Failed("denied".to_owned())],
    );
    assert_eq!(
        result.expect_err("no directory").to_text(),
        "thread-store internal error: failed to create thread writer lock directory /home/thread-writer-locks: denied"
    );
    let (_, result) = lock(
        coordinator.acquire_lifecycle(id(1), LifecycleLockMode::Shared).begin(),
        AcquireLifecycleLock::advance,
        vec![LockReply::Done, LockReply::Done, LockReply::Failed("interrupted".to_owned())],
    );
    assert!(result
        .expect_err("no lock")
        .to_text()
        .contains("failed to acquire thread lifecycle lock /home/thread-writer-locks/"));
}

#[test]
fn only_free_writer_locks_are_removed_as_stale() {
    let mut coordinator = WriterLockCoordinator::new(&path("/home"));
    assert!(!coordinator.mark_cleanup_attempted());
    assert!(coordinator.mark_cleanup_attempted());
    let free = format!("{}.lock", id(2).to_text());
    let busy = format!("{}.lock", id(3).to_text());
    let lifecycle = format!("{}.lifecycle.lock", id(4).to_text());
    let mut replies = held();
    replies.extend([
        LockReply::Answer(false),
        LockReply::Done,
        LockReply::Entry(Some(".coordination.lock".to_owned())),
        LockReply::Entry(Some(lifecycle.clone())),
        LockReply::Entry(None),
        LockReply::Entry(Some(free.clone())),
        LockReply::Done,
        LockReply::Answer(true),
        LockReply::Done,
        LockReply::NotFound,
        LockReply::Entry(Some(busy)),
        LockReply::Done,
        LockReply::Answer(false),
        LockReply::NoMore,
        LockReply::Done,
        LockReply::Answer(true),
    ]);
    let (actions, result) =
        lock(coordinator.acquire(id(1)).begin(), AcquireWriterLock::advance, replies);
    assert!(result.is_ok());
    let removed: Vec<_> = actions
        .iter()
        .filter_map(|action| match action {
            LockAction::Remove { path } => Some(path.clone()),
            _ => None,
        })
        .collect();
    assert_eq!(removed, vec![path(&format!("/home/thread-writer-locks/{free}"))]);
    assert!(names_writer_lock(&free));
    assert!(!names_writer_lock(&lifecycle));
    assert!(!names_writer_lock(".coordination.lock"));
}

#[test]
fn writer_locks_are_closed_and_removed_on_release() {
    let coordinator = WriterLockCoordinator::new(&path("/home"));
    let mut replies = held();
    replies.extend([LockReply::Done, LockReply::NotFound]);
    let (actions, result) =
        lock(coordinator.release(id(1)).begin(), ReleaseWriterLock::advance, replies);
    assert!(result.is_ok());
    assert!(matches!(actions[3], LockAction::Close { .. }));
    assert!(matches!(actions[4], LockAction::Remove { .. }));
}

fn write<M>(
    begun: WriterStep<M>,
    advance: fn(M, WriterReply) -> WriterStep<M>,
    replies: Vec<WriterReply>,
) -> (Vec<WriterAction>, Result<(), ThreadStoreError>) {
    let mut step = begun;
    let mut actions = Vec::new();
    let mut replies = replies.into_iter();
    loop {
        match step {
            WriterStep::Ask(machine, action) => {
                actions.push(action);
                match replies.next() {
                    Some(reply) => step = advance(machine, reply),
                    None => panic!("no reply for {:?}", actions.last()),
                }
            }
            WriterStep::End(result) => {
                assert!(replies.next().is_none(), "a reply is left");
                return (actions, result.map_err(|problem| problem.to_error()));
            }
        }
    }
}

fn recorder(history_mode: ThreadHistoryMode) -> WriterReply {
    WriterReply::Recorder(Some(LiveRecorder {
        rollout_path: path("/r.jsonl"),
        rollout_id: id(7),
        history_mode,
    }))
}

fn item(json: &str, legacy: bool, references: bool) -> AppendItem {
    AppendItem {
        persisted: PersistedUnder { legacy, paginated: references, references },
        json: json.to_owned(),
    }
}

#[test]
fn appends_write_only_what_is_kept_and_flush_before_they_project() {
    let append = RolloutWriteOp::AppendItems(vec![
        item("1", true, true),
        item("2", true, false),
        item("3", false, true),
    ]);
    let (actions, result) = write(
        WriteAndProject::new(id(1), append).begin(),
        WriteAndProject::advance,
        vec![
            WriterReply::Done,
            recorder(ThreadHistoryMode::PaginatedRefsV1),
            WriterReply::Done,
            WriterReply::Done,
            WriterReply::Done,
            WriterReply::Done,
            WriterReply::Failed("the index is away".to_owned()),
        ],
    );
    assert!(result.is_ok());
    assert_eq!(
        actions[2..],
        [
            WriterAction::EnsureWritable { thread_id: id(1), path: path("/r.jsonl") },
            WriterAction::Record { items: vec!["1".to_owned(), "3".to_owned()] },
            WriterAction::Flush,
            WriterAction::EnsureWritable { thread_id: id(1), path: path("/r.jsonl") },
            WriterAction::Materialize { rollout_id: id(7), path: path("/r.jsonl") },
        ]
    );
    assert_eq!(
        retain_persisted(&vec![item("1", true, false)], ThreadHistoryMode::Legacy),
        vec!["1".to_owned()]
    );
}

#[test]
fn appends_of_nothing_write_nothing() {
    let append = RolloutWriteOp::AppendItems(vec![item("1", false, true)]);
    let (actions, result) = write(
        WriteAndProject::new(id(1), append).begin(),
        WriteAndProject::advance,
        vec![WriterReply::Done, recorder(ThreadHistoryMode::Legacy)],
    );
    assert!(result.is_ok());
    assert_eq!(actions.len(), 2);
}

#[test]
fn writes_need_a_live_recorder() {
    let (_, result) = write(
        WriteAndProject::new(id(1), RolloutWriteOp::Flush).begin(),
        WriteAndProject::advance,
        vec![WriterReply::Done, WriterReply::Recorder(None)],
    );
    assert_eq!(result, Err(ThreadStoreError::ThreadNotFound { thread_id: id(1) }));
    assert!(rollout_path(id(1), None).is_err());
}

#[test]
fn legacy_writes_are_not_projected_and_persisting_selects_the_rollout() {
    let (actions, result) = write(
        WriteAndProject::new(id(1), RolloutWriteOp::Persist).begin(),
        WriteAndProject::advance,
        vec![
            WriterReply::Done,
            recorder(ThreadHistoryMode::Legacy),
            WriterReply::Done,
            WriterReply::Path(Some(path("/r.jsonl"))),
            WriterReply::Path(Some(path("/old.jsonl"))),
            WriterReply::Failed("ignored".to_owned()),
        ],
    );
    assert!(result.is_ok());
    assert_eq!(
        actions[2..],
        [
            WriterAction::Persist,
            WriterAction::ExistingPath { path: path("/r.jsonl") },
            WriterAction::GetSelected { thread_id: id(1) },
            WriterAction::UpdateSelected { thread_id: id(1), path: path("/r.jsonl") },
        ]
    );
}

#[test]
fn failed_writes_are_reported_and_not_projected() {
    let (actions, result) = write(
        WriteAndProject::new(id(1), RolloutWriteOp::Flush).begin(),
        WriteAndProject::advance,
        vec![
            WriterReply::Done,
            recorder(ThreadHistoryMode::Paginated),
            WriterReply::Failed("disk full".to_owned()),
        ],
    );
    assert_eq!(result, Err(ThreadStoreError::Internal { message: "disk full".to_owned() }));
    assert!(!actions.iter().any(|action| matches!(action, WriterAction::Materialize { .. })));
}

#[test]
fn shutdowns_keep_pending_metadata_of_existing_rollouts() {
    let run = |exists: WriterReply, more: Vec<WriterReply>| {
        let mut replies = vec![
            WriterReply::Done,
            WriterReply::Done,
            recorder(ThreadHistoryMode::Legacy),
            WriterReply::Done,
            WriterReply::Path(None),
            exists,
            WriterReply::Answer(true),
            WriterReply::Done,
        ];
        replies.extend(more);
        write(ShutdownThread::new(id(1)).begin(), ShutdownThread::advance, replies)
    };
    let (actions, result) = run(WriterReply::Answer(true), Vec::new());
    assert!(result.is_ok());
    assert!(!actions.contains(&WriterAction::TakePendingMetadata));
    let (actions, _) = run(WriterReply::Failed("unknown".to_owned()), Vec::new());
    assert!(!actions.contains(&WriterAction::TakePendingMetadata));
    let (actions, _) =
        run(WriterReply::Answer(false), vec![WriterReply::Answer(true), WriterReply::Done]);
    assert!(actions.contains(&WriterAction::RemovePendingMetadata { thread_id: id(1) }));
}

#[test]
fn shutdowns_report_a_generation_that_is_not_writable() {
    let (actions, result) = write(
        ShutdownThread::new(id(1)).begin(),
        ShutdownThread::advance,
        vec![
            WriterReply::Done,
            WriterReply::Done,
            recorder(ThreadHistoryMode::PaginatedRefsV1),
            WriterReply::Done,
            WriterReply::Done,
            WriterReply::Rejected(conflict("diverged")),
            WriterReply::Path(None),
            WriterReply::Answer(true),
            WriterReply::Answer(true),
            WriterReply::Done,
        ],
    );
    assert_eq!(result, Err(conflict("diverged")));
    assert!(!actions.iter().any(|action| matches!(action, WriterAction::Materialize { .. })));
}

#[test]
fn discarded_threads_lose_their_recorder_and_their_pending_metadata() {
    let (actions, result) = write(
        DiscardThread::new(id(1)).begin(),
        DiscardThread::advance,
        vec![
            WriterReply::Done,
            WriterReply::Done,
            WriterReply::Answer(true),
            WriterReply::Done,
            WriterReply::Answer(true),
        ],
    );
    assert!(result.is_ok());
    assert_eq!(actions.len(), 5);
    let (_, result) = write(
        DiscardThread::new(id(1)).begin(),
        DiscardThread::advance,
        vec![
            WriterReply::Done,
            WriterReply::Done,
            WriterReply::Answer(false),
            WriterReply::Answer(false),
        ],
    );
    assert_eq!(result, Err(ThreadStoreError::ThreadNotFound { thread_id: id(1) }));
}

#[test]
fn created_threads_are_their_own_rollout() {
    let (actions, result) = write(
        CreateThread::new(id(1), ThreadHistoryMode::PaginatedRefsV1).begin(),
        CreateThread::advance,
        vec![
            WriterReply::Done,
            WriterReply::Done,
            WriterReply::Done,
            WriterReply::Done,
            WriterReply::Done,
        ],
    );
    assert!(result.is_ok());
    assert_eq!(
        actions[4],
        WriterAction::InsertRecorder {
            thread_id: id(1),
            rollout_id: id(1),
            history_mode: ThreadHistoryMode::PaginatedRefsV1,
        }
    );
    let (_, result) = write(
        CreateThread::new(id(1), ThreadHistoryMode::Legacy).begin(),
        CreateThread::advance,
        vec![WriterReply::Done, WriterReply::Rejected(conflict("live"))],
    );
    assert_eq!(result, Err(conflict("live")));
}

fn replay(head: Option<ReplayHead>, json: &str) -> ReplayItem {
    ReplayItem { head, json: json.to_owned() }
}

fn head(history_mode: ThreadHistoryMode) -> ReplayHead {
    ReplayHead { id: id(1), history_mode }
}

fn request(history: Option<Vec<ReplayItem>>, rollout_path: Option<RolloutPath>) -> ResumeRequest {
    ResumeRequest {
        thread_id: id(1),
        rollout_path,
        history,
        include_archived: false,
        cwd: Some(path("/work")),
        model_provider: "test".to_owned(),
        generate_memories: true,
    }
}

fn resume(
    request: ResumeRequest,
    mode: ThreadHistoryMode,
    more: Vec<WriterReply>,
) -> (Vec<WriterAction>, Result<(), ThreadStoreError>) {
    let mut replies = vec![
        WriterReply::Done,
        WriterReply::Done,
        WriterReply::Done,
        WriterReply::Path(Some(path("/r.jsonl"))),
        WriterReply::Metadata(head(mode)),
    ];
    replies.extend(more);
    write(ResumeThread::new(request).begin(), ResumeThread::advance, replies)
}

#[test]
fn threads_are_resumed_with_their_current_history() {
    let history = || {
        Some(vec![
            replay(Some(head(ThreadHistoryMode::PaginatedRefsV1)), "{\"a\":1,\"b\":2}"),
            replay(None, "[1]"),
        ])
    };
    let (actions, result) = resume(
        request(history(), None),
        ThreadHistoryMode::PaginatedRefsV1,
        vec![
            WriterReply::Done,
            WriterReply::RolloutId(id(7)),
            WriterReply::Items(2),
            WriterReply::Item("{\"b\":2,\"a\":1}".to_owned()),
            WriterReply::Item("[1]".to_owned()),
            WriterReply::Done,
            WriterReply::Done,
        ],
    );
    assert!(result.is_ok());
    assert!(matches!(actions[5], WriterAction::EnsureWritable { .. }));
    assert_eq!(actions[8], WriterAction::EncodeItem { index: 0 });
    assert_eq!(actions[9], WriterAction::EncodeItem { index: 1 });
    assert_eq!(
        actions[10],
        WriterAction::OpenRecorder {
            path: path("/r.jsonl"),
            cwd: path("/work"),
            model_provider: "test".to_owned(),
            generate_memories: true,
        }
    );
    assert_eq!(
        actions[11],
        WriterAction::InsertRecorder {
            thread_id: id(1),
            rollout_id: id(7),
            history_mode: ThreadHistoryMode::PaginatedRefsV1,
        }
    );

    let (_, result) = resume(
        request(history(), None),
        ThreadHistoryMode::PaginatedRefsV1,
        vec![
            WriterReply::Done,
            WriterReply::RolloutId(id(7)),
            WriterReply::Items(1),
            WriterReply::Answer(false),
        ],
    );
    assert_eq!(
        result.expect_err("stale"),
        conflict(&format!(
            "supplied replay for thread {} is stale (2 items versus 1 in the current model context); reload before resuming",
            id(1).to_text()
        ))
    );
}

#[test]
fn replays_that_differ_are_matched_with_the_rollout() {
    let history = || {
        Some(vec![
            replay(Some(head(ThreadHistoryMode::Paginated)), "{}"),
            replay(None, "[1]"),
            replay(None, "[2]"),
        ])
    };
    let (actions, result) = resume(
        request(history(), None),
        ThreadHistoryMode::Paginated,
        vec![
            WriterReply::RolloutId(id(7)),
            WriterReply::Items(3),
            WriterReply::Item("{}".to_owned()),
            WriterReply::Item("[3]".to_owned()),
            WriterReply::Answer(true),
            WriterReply::Done,
            WriterReply::Done,
        ],
    );
    assert!(result.is_ok());
    assert_eq!(actions[9], WriterAction::MatchFile { path: path("/r.jsonl") });

    let (_, result) = resume(
        request(history(), None),
        ThreadHistoryMode::Paginated,
        vec![
            WriterReply::RolloutId(id(7)),
            WriterReply::Items(3),
            WriterReply::Item("{}".to_owned()),
            WriterReply::Failed("unknown item".to_owned()),
        ],
    );
    assert_eq!(
        result.expect_err("the item cannot be compared"),
        ThreadStoreError::Internal {
            message: format!(
                "failed to compare canonical replay item 1 for thread {}: unknown item",
                id(1).to_text()
            ),
        }
    );
}

#[test]
fn stale_heads_are_refused() {
    let history = Some(vec![replay(Some(head(ThreadHistoryMode::Legacy)), "{}")]);
    let (_, result) = resume(
        request(history, None),
        ThreadHistoryMode::Paginated,
        vec![WriterReply::RolloutId(id(7))],
    );
    let text = id(1).to_text();
    assert_eq!(
        result.expect_err("stale"),
        conflict(&format!(
            "supplied replay for thread {text} is stale (id {text}, mode legacy); canonical head uses id {text}, mode paginated; reload before resuming"
        ))
    );
    let (_, result) = resume(
        request(Some(vec![replay(None, "{}")]), None),
        ThreadHistoryMode::Legacy,
        vec![WriterReply::RolloutId(id(7))],
    );
    assert!(result.expect_err("no head").to_text().contains("has no canonical session metadata"));
}

#[test]
fn resumption_needs_a_rollout_of_the_thread_and_a_working_directory() {
    let mut without_cwd = request(None, None);
    without_cwd.cwd = None;
    let (_, result) =
        resume(without_cwd, ThreadHistoryMode::Legacy, vec![WriterReply::RolloutId(id(7))]);
    assert_eq!(
        result,
        Err(ThreadStoreError::InvalidRequest {
            message: "local thread store requires a cwd".to_owned(),
        })
    );
    let (_, result) = write(
        ResumeThread::new(request(None, None)).begin(),
        ResumeThread::advance,
        vec![
            WriterReply::Done,
            WriterReply::Done,
            WriterReply::Done,
            WriterReply::Path(Some(path("/r.jsonl"))),
            WriterReply::Metadata(ReplayHead {
                id: id(2),
                history_mode: ThreadHistoryMode::Legacy,
            }),
        ],
    );
    assert_eq!(
        result,
        Err(conflict(&format!(
            "rollout /r.jsonl now belongs to thread {}, expected {}",
            id(2).to_text(),
            id(1).to_text()
        )))
    );
    let (_, result) = write(
        ResumeThread::new(request(None, None)).begin(),
        ResumeThread::advance,
        vec![WriterReply::Done, WriterReply::Done, WriterReply::Done, WriterReply::Path(None)],
    );
    assert!(result.expect_err("no path").to_text().contains("does not have a rollout path"));
}

#[test]
fn superseded_rollouts_are_refused() {
    let asked = || request(None, Some(path("/asked.jsonl")));
    let run = |more: Vec<WriterReply>| {
        let mut replies = vec![
            WriterReply::Done,
            WriterReply::Done,
            WriterReply::Done,
            WriterReply::Path(Some(path("/asked.jsonl"))),
        ];
        replies.extend(more);
        write(ResumeThread::new(asked()).begin(), ResumeThread::advance, replies).1
    };
    let selected = || {
        vec![
            WriterReply::Path(Some(path("/selected.jsonl"))),
            WriterReply::Path(Some(path("/selected.jsonl"))),
            WriterReply::Metadata(head(ThreadHistoryMode::Legacy)),
        ]
    };
    let mut other = selected();
    other.extend([WriterReply::Path(Some(path("/asked.jsonl"))), WriterReply::Answer(false)]);
    assert_eq!(
        run(other),
        Err(conflict(&format!(
            "requested rollout for thread {} is no longer selected (/asked.jsonl); current rollout is /selected.jsonl; reload before resuming",
            id(1).to_text()
        )))
    );
    let mut gone = selected();
    gone.push(WriterReply::Path(None));
    assert!(run(gone).expect_err("gone").to_text().contains("disappeared before resume"));
    let mut changed = selected();
    changed.extend([
        WriterReply::Path(Some(path("/asked.jsonl"))),
        WriterReply::Failed("raced".to_owned()),
    ]);
    assert!(run(changed).expect_err("changed").to_text().contains("changed while resuming"));
    // Index data that is missing, unreadable or about another thread refuses nothing.
    for stale in [
        vec![WriterReply::Path(None)],
        vec![WriterReply::Path(Some(path("/s"))), WriterReply::Path(None)],
        vec![
            WriterReply::Path(Some(path("/s"))),
            WriterReply::Path(Some(path("/s"))),
            WriterReply::Failed("malformed".to_owned()),
        ],
    ] {
        let mut replies = stale;
        replies.extend([
            WriterReply::Metadata(head(ThreadHistoryMode::Legacy)),
            WriterReply::RolloutId(id(1)),
            WriterReply::Done,
            WriterReply::Done,
        ]);
        assert!(run(replies).is_ok());
    }
}

#[test]
fn replays_are_compared_by_value() {
    let supplied = vec![replay(None, "{\"a\":1,\"b\":[true]}")];
    assert_eq!(
        supplied_history_matches_current(id(1), &supplied, &vec!["{\"b\":[true],\"a\":1}".to_owned()]),
        Ok(true)
    );
    assert_eq!(
        supplied_history_matches_current(id(1), &supplied, &vec!["{\"a\":2}".to_owned()]),
        Ok(false)
    );
    assert_eq!(supplied_history_matches_current(id(1), &supplied, &Vec::new()), Ok(false));
    for (left, right, same) in [
        ("{\"a\":1,\"b\":2}", "{\"a\":1,\"b\":2}", true),
        ("{\"a\":1,\"b\":2}", " {\"b\": 2, \"a\": 1} ", true),
        ("0.0", "-0.0", true),
        ("1", "1.0", false),
        ("[1,2]", "[2,1]", false),
    ] {
        for (supplied, current) in [(left, right), (right, left)] {
            assert_eq!(
                supplied_history_matches_current(
                    id(1),
                    &vec![replay(None, supplied)],
                    &vec![current.to_owned()],
                ),
                Ok(same),
                "{supplied} {current}"
            );
        }
    }
    let error = supplied_history_matches_current(id(1), &supplied, &vec!["{".to_owned()])
        .expect_err("not JSON");
    assert!(error.to_text().contains(&format!(
        "failed to compare canonical replay item 0 for thread {}",
        id(1).to_text()
    )));
    assert!(take_comparison(id(1), 3, Err((true, "bad".to_owned())))
        .expect_err("bad")
        .to_text()
        .contains("failed to compare supplied replay item 3"));
    assert_eq!(supplied_head(&supplied), None);
}

fn meta(value: u128, mode: ThreadHistoryMode) -> SessionMeta {
    SessionMeta {
        id: id(value),
        history_mode: mode,
        history_base: None,
        subagent_history_start_ordinal: None,
        source: SessionSource::Other { label: "cli".to_owned() },
        thread_source: None,
        payload: "{}".to_owned(),
    }
}

fn context(text: &str) -> RolloutItem {
    RolloutItem::TurnContext { payload: text.to_owned() }
}

fn names(items: &[RolloutItem]) -> Vec<String> {
    items
        .iter()
        .map(|item| match item {
            RolloutItem::TurnContext { payload } => payload.clone(),
            RolloutItem::SessionMeta(meta) => format!("head {}", meta.id.value),
            _ => "other".to_owned(),
        })
        .collect()
}

/// Reads a lineage whose segments are oldest first and whose records are newest first. The bounded
/// context is complete with the given item.
fn scan(
    lineage: Vec<Vec<Option<RolloutItem>>>,
    complete_with: Option<&str>,
) -> Result<Vec<String>, ThreadStoreError> {
    let mut step = ContextScan::new(meta(1, ThreadHistoryMode::Paginated), lineage.len()).begin();
    let mut offered = Vec::new();
    let mut at = (0usize, 0usize);
    loop {
        match step {
            ContextStep::Ask(scan, action) => {
                let reply = match action {
                    ContextAction::OpenSegment { index } => {
                        at = (index, 0);
                        ContextReply::Done
                    }
                    ContextAction::NextRecord => match lineage[at.0].get(at.1) {
                        None => ContextReply::NoMore,
                        Some(record) => {
                            at.1 += 1;
                            ContextReply::Record(match record {
                                None => None,
                                Some(RolloutItem::SessionMeta(head)) => {
                                    Some(RolloutItem::SessionMeta(meta(
                                        head.id.value,
                                        ThreadHistoryMode::Paginated,
                                    )))
                                }
                                Some(RolloutItem::TurnContext { payload }) => Some(context(payload)),
                                Some(_) => panic!("not in this test"),
                            })
                        }
                    },
                    ContextAction::Offer { item } => {
                        let complete = matches!(
                            &item,
                            RolloutItem::TurnContext { payload } if Some(payload.as_str()) == complete_with
                        );
                        offered.push(item);
                        ContextReply::Answer(complete)
                    }
                    ContextAction::FinishBounded { head } => {
                        assert_eq!(head.id, id(1));
                        let mut items: Vec<_> = std::mem::take(&mut offered);
                        items.reverse();
                        ContextReply::Items(items)
                    }
                    _ => panic!("not asked by a scan"),
                };
                step = scan.advance(reply);
            }
            ContextStep::End(result) => {
                return result
                    .map(|items| names(&items))
                    .map_err(|problem| problem.to_error());
            }
        }
    }
}

fn lineage() -> Vec<Vec<Option<RolloutItem>>> {
    let head = |value| Some(RolloutItem::SessionMeta(meta(value, ThreadHistoryMode::Paginated)));
    vec![
        vec![Some(context("b")), Some(context("a")), head(2), Some(context("copied"))],
        vec![Some(context("d")), None, Some(context("c")), head(1)],
    ]
}

#[test]
fn bounded_contexts_stop_at_their_cutoff() {
    assert_eq!(
        scan(lineage(), Some("b")).expect("bounded"),
        vec!["head 1", "b", "c", "d"]
    );
}

#[test]
fn unbounded_contexts_are_read_in_full() {
    assert_eq!(
        scan(lineage(), None).expect("full"),
        vec!["head 1", "a", "b", "c", "d"]
    );
    assert_eq!(scan(Vec::new(), None).expect("empty"), vec!["head 1"]);
}

#[test]
fn scans_that_are_lost_are_reported() {
    let problem = ContextProblem::ScanLost { error: "task panicked".to_owned() };
    assert_eq!(
        problem.to_error(),
        ThreadStoreError::Internal {
            message: "failed to join model context scan: task panicked".to_owned(),
        }
    );
}

#[test]
fn contexts_begin_with_one_head() {
    let head = || meta(1, ThreadHistoryMode::Paginated);
    let once = insert_head(vec![context("a")], head());
    assert_eq!(names(&once), vec!["head 1", "a"]);
    assert_eq!(names(&insert_head(once, head())), vec!["head 1", "a"]);
    assert_eq!(
        names(&oldest_first(vec![context("b"), context("a")], head())),
        vec!["head 1", "a", "b"]
    );
}

fn load(
    begun: ContextStep<LoadModelContext>,
    replies: Vec<ContextReply>,
) -> (Vec<ContextAction>, Result<Vec<String>, ThreadStoreError>) {
    let mut step = begun;
    let mut actions = Vec::new();
    let mut replies = replies.into_iter();
    loop {
        match step {
            ContextStep::Ask(machine, action) => {
                actions.push(action);
                step = machine.advance(replies.next().expect("a reply is missing"));
            }
            ContextStep::End(result) => {
                let result = result
                    .map(|items| names(&items))
                    .map_err(|problem| problem.to_error());
                return (actions, result);
            }
        }
    }
}

fn resolved(name: &str) -> ResolvedRollout {
    ResolvedRollout { rollout_id: id(7), path: path(name) }
}

#[test]
fn contexts_are_scanned_or_loaded_by_the_shape_of_the_rollout() {
    let begin = |name: &str| {
        LoadModelContext::new(id(1)).load_latest_model_context_from_rollout(resolved(name))
    };
    let (actions, result) = load(begin("/r.jsonl"), vec![
        ContextReply::Head(meta(1, ThreadHistoryMode::Paginated)),
        ContextReply::Lineage { segments: 0 },
    ]);
    assert_eq!(result.expect("scanned"), vec!["head 1"]);
    assert_eq!(
        actions[1],
        ContextAction::ResolveLineage {
            thread_id: id(1),
            rollout_id: id(7),
            path: path("/r.jsonl"),
        }
    );
    for (name, mode) in [
        ("/r.jsonl.zst", ThreadHistoryMode::Paginated),
        ("/r.jsonl", ThreadHistoryMode::Legacy),
    ] {
        let (actions, result) = load(begin(name), vec![
            ContextReply::Head(meta(1, mode)),
            ContextReply::Items(vec![context("all")]),
        ]);
        assert_eq!(result.expect("loaded"), vec!["all"]);
        assert_eq!(actions[1], ContextAction::LoadHistory { path: path(name) });
    }
}

#[test]
fn contexts_of_unknown_or_other_threads_are_refused() {
    let (actions, result) = load(
        LoadModelContext::new(id(1)).load_latest_model_context(true),
        vec![ContextReply::Resolved(None)],
    );
    assert_eq!(
        actions[0],
        ContextAction::ResolveCurrent { thread_id: id(1), include_archived: true }
    );
    assert_eq!(
        result,
        Err(ThreadStoreError::InvalidRequest {
            message: format!("no rollout found for thread id {}", id(1).to_text()),
        })
    );
    let (_, result) = load(
        LoadModelContext::new(id(1)).load_latest_model_context(false),
        vec![
            ContextReply::Resolved(Some(resolved("/r.jsonl"))),
            ContextReply::Head(meta(2, ThreadHistoryMode::Legacy)),
        ],
    );
    assert_eq!(
        result,
        Err(ThreadStoreError::InvalidRequest {
            message: format!(
                "rollout at /r.jsonl belongs to thread {}, not {}",
                id(2).to_text(),
                id(1).to_text()
            ),
        })
    );
}

#[test]
fn failed_scans_are_reported() {
    let ContextStep::Ask(scan, _) =
        ContextScan::new(meta(1, ThreadHistoryMode::Paginated), 1).begin()
    else {
        panic!("a scan begins with a segment");
    };
    match scan.advance(ContextReply::Failed("truncated".to_owned())) {
        ContextStep::End(Err(problem)) => assert_eq!(
            problem.to_error().to_text(),
            "thread-store internal error: failed to scan paginated model context lineage: truncated"
        ),
        _ => panic!("the scan has failed"),
    }
}

#[test]
fn forks_start_with_what_they_inherit() {
    match LoadForFork::load_for_fork(None, None) {
        ContextStep::End(Err(problem)) => assert_eq!(
            problem.to_error().to_text(),
            "thread-store internal error: fork lineage has no source segment"
        ),
        _ => panic!("there is nothing to read from"),
    }
    let ContextStep::Ask(fork, ContextAction::ReadHead { .. }) =
        LoadForFork::load_for_fork(Some(path("/r.jsonl")), None)
    else {
        panic!("a fork begins with a head");
    };
    match fork.advance(ContextReply::Head(meta(1, ThreadHistoryMode::Paginated))) {
        ContextStep::End(Ok(items)) => assert_eq!(names(&items), vec!["head 1"]),
        _ => panic!("without a base there is nothing but the head"),
    }
    let base = HistoryPosition { thread_id: id(1), end_ordinal_exclusive: 2, end_byte_offset: 9 };
    let ContextStep::Ask(fork, _) = LoadForFork::load_for_fork(Some(path("/r.jsonl")), Some(base))
    else {
        panic!("a fork begins with a head");
    };
    let ContextStep::Ask(fork, action) =
        fork.advance(ContextReply::Head(meta(1, ThreadHistoryMode::Paginated)))
    else {
        panic!("a fork with a base reads on");
    };
    assert_eq!(action, ContextAction::TruncateLineage { base });
    match fork.advance(ContextReply::Lineage { segments: 0 }) {
        ContextStep::End(Ok(items)) => assert_eq!(names(&items), vec!["head 1"]),
        _ => panic!("an empty lineage has nothing but the head"),
    }
}
