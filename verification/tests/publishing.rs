//! Publication, retention and retirement against a disk that is kept in memory.

use rollout_migration::deletion::PrepareThreadDelete;
use rollout_migration::deletion::RemoveThreadArtifacts;
use rollout_migration::disk::sync_parent_directory;
use rollout_migration::disk::DiskAction;
use rollout_migration::disk::DiskReply;
use rollout_migration::disk::Progress;
use rollout_migration::error::ThreadId;
use rollout_migration::error::ThreadStoreError;
use rollout_migration::generation::EnsureWritable;
use rollout_migration::generation::NeedsReconciliation;
use rollout_migration::generation::VerifySource;
use rollout_migration::inspection::RolloutInspection;
use rollout_migration::migrate_path::preserved_candidate;
use rollout_migration::migrate_path::MigratePath;
use rollout_migration::migrate_path::PathAction;
use rollout_migration::migrate_path::PathReply;
use rollout_migration::migrate_path::PathStep;
use rollout_migration::paths::migration_journal_path;
use rollout_migration::paths::retained_migration_recovery_path;
use rollout_migration::paths::RolloutPath;
use rollout_migration::publish::JournalPaths;
use rollout_migration::publish::JournalWrite;
use rollout_migration::publish::PreserveSource;
use rollout_migration::publish::PublishRollout;
use rollout_migration::recovery::find_journal_conflict;
use rollout_migration::recovery::read_migration_journal_recovery;
use rollout_migration::recovery::JournalConflict;
use rollout_migration::recovery::MigrationRecoveryHandle;
use rollout_migration::recovery::PreservedSourceFingerprint;
use rollout_migration::refusals::DiskProblem;
use rollout_migration::report::RolloutMigrationFailureReason;
use rollout_migration::report::RolloutMigrationMode;
use rollout_migration::report::RolloutMigrationOutcome;
use rollout_migration::report::RolloutMigrationStatus;
use rollout_migration::retention::RemoveAlias;
use rollout_migration::retention::RetainRecovery;
use rollout_migration::retirement::RetireSource;
use rollout_migration::rollout::SessionMeta;
use rollout_migration::rollout::SessionSource;
use rollout_migration::rollout::ThreadHistoryMode;
use std::collections::BTreeMap;

#[derive(Clone)]
enum Content {
    Bytes(Vec<u8>),
    Journal(MigrationRecoveryHandle),
}

struct MemoryDisk {
    names: BTreeMap<String, usize>,
    files: Vec<(Content, i64)>,
    clock: i64,
    owner: ThreadId,
    refuse_validation: Option<String>,
}

fn path(text: &str) -> RolloutPath {
    RolloutPath::new(text.to_owned())
}

const ROLLOUT: &str = "/home/rollout.jsonl";
const STAGED: &str = "/home/.rollout.jsonl.paginated.tmp";
const PRESERVED: &str = "/home/.rollout.jsonl.legacy-before-pagination";
const PENDING: &str = "/home/thread.pending";
const RETAINED: &str = "/home/thread.retained";

impl MemoryDisk {
    fn new() -> Self {
        MemoryDisk {
            names: BTreeMap::new(),
            files: Vec::new(),
            clock: 0,
            owner: ThreadId::from_u128(1),
            refuse_validation: None,
        }
    }

    fn write(&mut self, name: &str, content: Content) {
        self.clock += 1;
        self.files.push((content, self.clock));
        self.names.insert(name.to_owned(), self.files.len() - 1);
    }

    fn write_bytes(&mut self, name: &str, bytes: &[u8]) {
        self.write(name, Content::Bytes(bytes.to_vec()));
    }

    fn open(&self, name: &str) -> usize {
        self.names[name]
    }

    fn append(&mut self, file: usize, more: &[u8]) {
        self.clock += 1;
        match &mut self.files[file].0 {
            Content::Bytes(bytes) => bytes.extend_from_slice(more),
            Content::Journal(_) => panic!("a journal is not appended to"),
        }
        self.files[file].1 = self.clock;
    }

    fn has(&self, name: &str) -> bool {
        self.names.contains_key(name)
    }

    fn read(&self, name: &str) -> Vec<u8> {
        match &self.files[self.names[name]].0 {
            Content::Bytes(bytes) => bytes.clone(),
            Content::Journal(_) => panic!("{name} is a journal"),
        }
    }

    fn journal(&self, name: &str) -> Option<MigrationRecoveryHandle> {
        let file = self.names.get(name)?;
        match &self.files[*file].0 {
            Content::Journal(recovery) => Some(recovery.clone()),
            Content::Bytes(_) => None,
        }
    }

    fn fingerprint(&self, name: &str) -> Option<PreservedSourceFingerprint> {
        let file = self.names.get(name)?;
        let (content, modified) = &self.files[*file];
        let size = match content {
            Content::Bytes(bytes) => bytes.len() as u64,
            Content::Journal(_) => 0,
        };
        PreservedSourceFingerprint::from_metadata(size, *modified as u128)
    }

    fn perform(&mut self, action: DiskAction) -> DiskReply {
        match action {
            DiskAction::Exists { path } => DiskReply::Answer(self.has(&path.text)),
            DiskAction::HardLink { from, to } => {
                if self.has(&to.text) {
                    return DiskReply::AlreadyExists;
                }
                match self.names.get(&from.text) {
                    Some(file) => {
                        let file = *file;
                        self.names.insert(to.text, file);
                        DiskReply::Done
                    }
                    None => DiskReply::Failed("not found".to_owned()),
                }
            }
            DiskAction::SameFile { left, right } => {
                match (self.names.get(&left.text), self.names.get(&right.text)) {
                    (Some(a), Some(b)) => DiskReply::Answer(a == b),
                    _ => DiskReply::Failed("not found".to_owned()),
                }
            }
            DiskAction::Fingerprint { path } => match self.fingerprint(&path.text) {
                Some(print) => DiskReply::Fingerprint(print),
                None => DiskReply::Failed("not found".to_owned()),
            },
            DiskAction::ReadJournal { path } => DiskReply::Journal(self.journal(&path.text)),
            DiskAction::CreateDirectories { .. } => DiskReply::Done,
            DiskAction::WriteJournalFile { path, recovery } => {
                self.write(&path.text, Content::Journal(recovery));
                DiskReply::Done
            }
            DiskAction::Rename { from, to } => match self.names.remove(&from.text) {
                Some(file) => {
                    self.names.insert(to.text, file);
                    DiskReply::Done
                }
                None => DiskReply::Failed("not found".to_owned()),
            },
            DiskAction::RemoveFile { path } => match self.names.remove(&path.text) {
                Some(_) => DiskReply::Done,
                None => DiskReply::Failed("not found".to_owned()),
            },
            DiskAction::SyncParent { .. } => DiskReply::Done,
            DiskAction::Validate { .. } => match &self.refuse_validation {
                None => DiskReply::Done,
                Some(message) => {
                    DiskReply::Rejected(ThreadStoreError::Conflict { message: message.clone() })
                }
            },
            DiskAction::SourceThread { .. } => DiskReply::Thread(self.owner),
        }
    }

    fn run<M, T>(
        &mut self,
        begun: Progress<M, T>,
        advance: fn(M, DiskReply) -> Progress<M, T>,
    ) -> Result<T, ThreadStoreError> {
        let mut progress = begun;
        loop {
            match progress {
                Progress::Ask(machine, action) => {
                    let reply = self.perform(action);
                    progress = advance(machine, reply);
                }
                Progress::End(result) => return result.map_err(DiskProblem::to_error),
            }
        }
    }

    fn preserve(&mut self) -> Result<(), ThreadStoreError> {
        let begun = PreserveSource::begin(&path(ROLLOUT), &path(PRESERVED));
        self.run(begun, PreserveSource::advance)
    }

    fn publish(
        &mut self,
        expected: PreservedSourceFingerprint,
    ) -> Result<MigrationRecoveryHandle, ThreadStoreError> {
        let machine = PublishRollout::new(
            &path(ROLLOUT),
            &path(ROLLOUT),
            &path(STAGED),
            &path(PRESERVED),
            &path(PENDING),
            expected,
        );
        self.run(machine.begin(), PublishRollout::advance)
    }

    fn retain(&mut self) -> Result<Option<RolloutPath>, ThreadStoreError> {
        let machine = RetainRecovery::new(&path(PENDING));
        self.run(machine.begin(), RetainRecovery::advance)
    }

    fn retire(&mut self) -> Result<Option<RolloutPath>, ThreadStoreError> {
        let machine = RetireSource::new(&path(ROLLOUT), &path(RETAINED));
        self.run(machine.begin(), RetireSource::advance)
    }

    fn write_journal(
        &mut self,
        name: &str,
        recovery: &MigrationRecoveryHandle,
    ) -> Result<(), ThreadStoreError> {
        let begun = JournalWrite::begin(&JournalPaths::new(&path(name)), recovery);
        self.run(begun, JournalWrite::advance)
    }
}

fn ready_to_publish() -> (MemoryDisk, PreservedSourceFingerprint) {
    let mut disk = MemoryDisk::new();
    disk.write_bytes(ROLLOUT, b"legacy\n");
    disk.write_bytes(STAGED, b"paginated\n");
    let expected = disk.fingerprint(ROLLOUT).expect("fingerprint legacy source");
    (disk, expected)
}

fn is_conflict(error: &ThreadStoreError) -> bool {
    matches!(error, ThreadStoreError::Conflict { .. })
}

#[test]
fn append_between_final_validation_and_preservation_blocks_publication() {
    let (mut disk, validated) = ready_to_publish();
    let writer = disk.open(ROLLOUT);
    disk.append(writer, b"raced append\n");

    let error = disk
        .publish(validated)
        .expect_err("late pre-preservation append must block publication");

    assert!(is_conflict(&error));
    assert_eq!(disk.read(ROLLOUT), b"legacy\nraced append\n");
    assert_eq!(disk.read(PRESERVED), b"legacy\nraced append\n");
    assert_eq!(disk.read(STAGED), b"paginated\n");
}

#[test]
fn already_open_writer_appends_to_preserved_inode_after_publish() {
    let (mut disk, expected) = ready_to_publish();
    let old_writer = disk.open(ROLLOUT);

    disk.publish(expected).expect("publish with open legacy writer");
    disk.append(old_writer, b"late old-inode append\n");

    assert_eq!(disk.read(ROLLOUT), b"paginated\n");
    assert_eq!(disk.read(PRESERVED), b"legacy\nlate old-inode append\n");
}

#[test]
fn unchanged_preserved_source_retires_after_explicit_second_phase() {
    let (mut disk, expected) = ready_to_publish();

    disk.publish(expected).expect("publish rollout");
    let retained = disk
        .retain()
        .expect("retain recovery record")
        .expect("new recovery record");
    assert_eq!(retained.text, RETAINED);

    assert_eq!(disk.retire().expect("retire unchanged source"), Some(path(PRESERVED)));
    assert!(!disk.has(PRESERVED));
    assert!(!disk.has(RETAINED));
}

#[test]
fn late_old_handle_append_refuses_retirement_and_keeps_recovery() {
    let (mut disk, expected) = ready_to_publish();
    let old_writer = disk.open(ROLLOUT);

    disk.publish(expected).expect("publish rollout");
    disk.retain()
        .expect("retain recovery record")
        .expect("new recovery record");
    disk.append(old_writer, b"late bytes\n");

    let error = disk.retire().expect_err("late bytes must refuse retirement");
    assert!(is_conflict(&error));
    assert!(disk.has(PRESERVED));
    assert!(disk.has(RETAINED));
    assert_eq!(disk.read(PRESERVED), b"legacy\nlate bytes\n");
}

#[test]
fn pre_publish_crash_retry_reuses_one_deterministic_preserved_link() {
    let mut disk = MemoryDisk::new();
    disk.write_bytes(ROLLOUT, b"legacy\n");

    disk.preserve().expect("establish first preservation link");
    // Simulate restart after preservation but before publication.
    disk.preserve().expect("reuse preservation link");

    assert_eq!(disk.open(ROLLOUT), disk.open(PRESERVED));
    assert_eq!(disk.names.len(), 2);
}

#[test]
fn distinct_existing_recovery_file_fails_closed() {
    let mut disk = MemoryDisk::new();
    disk.write_bytes(ROLLOUT, b"current legacy\n");
    disk.write_bytes(PRESERVED, b"older preserved bytes\n");

    let error = disk
        .preserve()
        .expect_err("distinct recovery file must block publication");

    assert!(is_conflict(&error));
    assert_eq!(disk.read(ROLLOUT), b"current legacy\n");
    assert_eq!(disk.read(PRESERVED), b"older preserved bytes\n");
}

#[test]
fn recovery_journal_round_trips_one_stable_handle() {
    let mut disk = MemoryDisk::new();
    let recovery = MigrationRecoveryHandle::new(path(ROLLOUT), path(PRESERVED));

    disk.write_journal(PENDING, &recovery).expect("write recovery journal");
    disk.write_journal(PENDING, &recovery).expect("reuse recovery journal");

    assert_eq!(disk.journal(PENDING), Some(recovery));
    assert!(!disk.has("/home/.thread.pending.tmp"));
}

#[test]
fn publication_records_where_the_source_is_before_it_replaces_it() {
    let (mut disk, expected) = ready_to_publish();
    let recovery = disk.publish(expected).expect("publish");
    assert_eq!(recovery.rollout_path, path(ROLLOUT));
    assert_eq!(recovery.preserved_source_path, path(PRESERVED));
    assert_eq!(recovery.publication_fingerprint, Some(expected));
    assert_eq!(disk.journal(PENDING), Some(recovery));
    assert!(!disk.has(STAGED));
}

#[test]
fn every_interrupted_publication_leaves_the_source_recoverable() {
    for stop in 0..20usize {
        let (mut disk, expected) = ready_to_publish();
        let legacy = disk.open(ROLLOUT);
        let machine = PublishRollout::new(
            &path(ROLLOUT),
            &path(ROLLOUT),
            &path(STAGED),
            &path(PRESERVED),
            &path(PENDING),
            expected,
        );
        let mut progress = machine.begin();
        for _ in 0..stop {
            progress = match progress {
                Progress::Ask(machine, action) => machine.advance(disk.perform(action)),
                ended => ended,
            };
            let visible = disk.names.get(ROLLOUT) == Some(&legacy);
            let kept = disk.names.get(PRESERVED) == Some(&legacy)
                && disk
                    .journal(PENDING)
                    .is_some_and(|record| record.publication_fingerprint == Some(expected));
            assert!(visible || kept, "the source is lost after {stop} steps");
        }
    }
}

#[test]
fn publishing_under_another_name_needs_that_name_to_be_free() {
    let (mut disk, expected) = ready_to_publish();
    disk.write_bytes("/home/plain.jsonl", b"other\n");
    let machine = PublishRollout::new(
        &path(ROLLOUT),
        &path("/home/plain.jsonl"),
        &path(STAGED),
        &path(PRESERVED),
        &path(PENDING),
        expected,
    );
    let error = disk
        .run(machine.begin(), PublishRollout::advance)
        .expect_err("the target exists");
    assert!(is_conflict(&error));
    assert_eq!(disk.read("/home/plain.jsonl"), b"other\n");
}

#[test]
fn retiring_without_a_record_does_nothing() {
    let mut disk = MemoryDisk::new();
    disk.write_bytes(ROLLOUT, b"paginated\n");
    assert_eq!(disk.retire().expect("nothing to retire"), None);
}

#[test]
fn retiring_is_refused_while_the_legacy_source_is_still_visible() {
    let (mut disk, expected) = ready_to_publish();
    disk.preserve().expect("preserve");
    let recovery = MigrationRecoveryHandle::new(path(ROLLOUT), path(PRESERVED))
        .with_publication_fingerprint(expected);
    disk.write_journal(RETAINED, &recovery).expect("write record");
    let error = disk.retire().expect_err("the visible rollout is the source itself");
    assert!(is_conflict(&error));
    assert!(disk.has(PRESERVED));
}

#[test]
fn interrupted_retirement_can_be_repeated() {
    let (mut disk, expected) = ready_to_publish();
    disk.publish(expected).expect("publish");
    disk.retain().expect("retain").expect("record");
    let recovery = disk.journal(RETAINED).expect("record").begin_retirement();
    disk.write(RETAINED, Content::Journal(recovery));
    disk.names.remove(PRESERVED);
    assert_eq!(disk.retire().expect("finish retirement"), Some(path(PRESERVED)));
    assert!(!disk.has(RETAINED));
}

#[test]
fn conflicting_journals_are_told_apart() {
    let print = PreservedSourceFingerprint::from_metadata(7, 1).expect("fingerprint");
    let other = PreservedSourceFingerprint::from_metadata(8, 1).expect("fingerprint");
    let base = || MigrationRecoveryHandle::new(path(ROLLOUT), path(PRESERVED));
    let published = || base().with_publication_fingerprint(print);
    assert_eq!(find_journal_conflict(&base(), &base()), None);
    assert_eq!(find_journal_conflict(&base(), &published()), None);
    assert_eq!(
        find_journal_conflict(
            &base(),
            &MigrationRecoveryHandle::new(path("/home/other.jsonl"), path(PRESERVED)),
        ),
        Some(JournalConflict::OtherSource)
    );
    assert_eq!(
        find_journal_conflict(&published(), &base()),
        Some(JournalConflict::FingerprintCleared)
    );
    assert_eq!(
        find_journal_conflict(&published(), &base().with_publication_fingerprint(other)),
        Some(JournalConflict::FingerprintChanged)
    );
    assert_eq!(
        find_journal_conflict(&published().mark_split_generation(), &published()),
        Some(JournalConflict::SplitMarkerCleared)
    );
    assert_eq!(
        find_journal_conflict(&published().begin_retirement(), &published()),
        Some(JournalConflict::RetirementInProgress)
    );
}

#[test]
fn fingerprints_need_a_time_that_fits() {
    assert!(PreservedSourceFingerprint::from_metadata(1, i64::MAX as u128).is_some());
    assert!(PreservedSourceFingerprint::from_metadata(1, i64::MAX as u128 + 1).is_none());
}

#[test]
fn aliases_are_removed_only_while_the_source_is_visible_under_its_own_name() {
    let mut disk = MemoryDisk::new();
    disk.write_bytes(ROLLOUT, b"legacy\n");
    disk.preserve().expect("preserve");
    let begun = RemoveAlias::begin(&path(ROLLOUT), &path(PRESERVED));
    disk.run(begun, RemoveAlias::advance).expect("remove alias");
    assert!(!disk.has(PRESERVED));
    assert!(disk.has(ROLLOUT));

    disk.write_bytes(PRESERVED, b"something else\n");
    let begun = RemoveAlias::begin(&path(ROLLOUT), &path(PRESERVED));
    let error = disk.run(begun, RemoveAlias::advance).expect_err("another file");
    assert!(is_conflict(&error));
    assert!(disk.has(PRESERVED));
}

fn home() -> RolloutPath {
    path("/home")
}

fn published_thread() -> (MemoryDisk, ThreadId, usize) {
    let (mut disk, expected) = ready_to_publish();
    let thread_id = ThreadId::from_u128(1);
    let legacy = disk.open(ROLLOUT);
    disk.publish(expected).expect("publish");
    let record = disk.journal(PENDING).expect("record");
    disk.names.remove(PENDING);
    disk.write(
        &retained_migration_recovery_path(&home(), thread_id).text,
        Content::Journal(record),
    );
    (disk, thread_id, legacy)
}

#[test]
fn writable_generations_pass_and_changed_sources_are_marked_for_good() {
    let (mut disk, thread_id, legacy) = published_thread();
    let check = EnsureWritable::new(&home(), thread_id, &path(ROLLOUT));
    disk.run(check.begin(), EnsureWritable::advance).expect("writable");

    disk.append(legacy, b"late\n");
    let check = EnsureWritable::new(&home(), thread_id, &path(ROLLOUT));
    let error = disk
        .run(check.begin(), EnsureWritable::advance)
        .expect_err("the source has changed");
    assert!(is_conflict(&error));
    let record = disk
        .journal(&retained_migration_recovery_path(&home(), thread_id).text)
        .expect("record");
    assert!(record.split_generation_detected);

    let check = EnsureWritable::new(&home(), thread_id, &path(ROLLOUT));
    let error = disk
        .run(check.begin(), EnsureWritable::advance)
        .expect_err("the marker stays");
    assert!(is_conflict(&error));
}

/// A run over the published rollout that may not convert, recover or clean up anything.
fn run_again(disk: &mut MemoryDisk, thread_id: ThreadId) -> RolloutMigrationOutcome {
    let pending = migration_journal_path(&home(), thread_id);
    let retained = retained_migration_recovery_path(&home(), thread_id);
    let mut step =
        MigratePath::new(RolloutMigrationMode::Apply, vec![thread_id], path(ROLLOUT)).begin();
    loop {
        match step {
            PathStep::Ask(machine, action) => {
                let reply = match action {
                    PathAction::Inspect { .. } => PathReply::Inspected(Ok(RolloutInspection {
                        metadata: SessionMeta {
                            id: thread_id,
                            history_mode: ThreadHistoryMode::PaginatedRefsV1,
                            history_base: None,
                            subagent_history_start_ordinal: None,
                            source: SessionSource::Other { label: "cli".to_owned() },
                            thread_source: None,
                            payload: "{}".to_owned(),
                        },
                        bytes_processed: 10,
                    })),
                    PathAction::PendingExists { .. } => PathReply::Answer(disk.has(&pending.text)),
                    PathAction::RetainedExists { .. } => {
                        PathReply::Answer(disk.has(&retained.text))
                    }
                    PathAction::VerifyRetained { thread_id, selected } => {
                        let begun =
                            VerifySource::begin(thread_id, &JournalPaths::new(&retained), &selected);
                        match disk.run(begun, VerifySource::advance) {
                            Ok(()) => PathReply::Done,
                            Err(error) => PathReply::Rejected(error),
                        }
                    }
                    PathAction::FindPreserved { path } => PathReply::Found(
                        preserved_candidate(&path).filter(|found| disk.has(&found.text)),
                    ),
                    PathAction::Account { .. }
                    | PathAction::Lock { .. }
                    | PathAction::Unlock
                    | PathAction::PromoteName { .. } => PathReply::Done,
                    action => panic!("the rollout is migrated: {action:?}"),
                };
                step = machine.advance(reply);
            }
            PathStep::End(result) => {
                return result.expect("no error").expect("an outcome").to_outcome(10);
            }
        }
    }
}

#[test]
fn late_preserved_append_is_marked_and_later_migration_refuses_both_generations() {
    let (mut disk, thread_id, legacy) = published_thread();
    let retained_path = retained_migration_recovery_path(&home(), thread_id).text;
    let published_before = disk.read(ROLLOUT);
    let mut preserved_after_append = disk.read(PRESERVED);
    let unmarked = disk.journal(&retained_path).expect("record");

    disk.append(legacy, b"late append from pre-migration writer\n");
    preserved_after_append.extend_from_slice(b"late append from pre-migration writer\n");
    assert_eq!(disk.read(PRESERVED), preserved_after_append);
    assert_eq!(disk.read(ROLLOUT), published_before);

    let detected = run_again(&mut disk, thread_id);
    assert_eq!(detected.status, RolloutMigrationStatus::Failed);
    assert_eq!(
        detected.failure_reason,
        Some(RolloutMigrationFailureReason::RecoveryStateConflict)
    );
    assert!(detected.message.as_deref().is_some_and(|message| {
        message.contains("older writer changed the preserved legacy generation")
            && message.contains("both generations were preserved")
    }));
    let marked = disk.journal(&retained_path).expect("record");
    assert!(marked.split_generation_detected);
    assert!(!marked.retirement_started);
    assert_eq!(marked, unmarked.mark_split_generation());
    assert_eq!(disk.read(ROLLOUT), published_before);
    assert_eq!(disk.read(PRESERVED), preserved_after_append);

    let refused = run_again(&mut disk, thread_id);
    assert_eq!(refused.status, RolloutMigrationStatus::Failed);
    assert_eq!(
        refused.failure_reason,
        Some(RolloutMigrationFailureReason::RecoveryStateConflict)
    );
    assert!(refused.message.as_deref().is_some_and(|message| {
        message.contains("legacy and paginated generations have diverged")
            && message.contains("both were preserved for explicit reconciliation")
    }));
    assert_eq!(disk.read(ROLLOUT), published_before);
    assert_eq!(disk.read(PRESERVED), preserved_after_append);
    assert_eq!(disk.journal(&retained_path), Some(marked));
}

#[test]
fn migrating_again_changes_nothing() {
    let (mut disk, thread_id, _) = published_thread();
    let names = disk.names.clone();
    let files = disk.files.len();
    let again = run_again(&mut disk, thread_id);
    assert_eq!(again.status, RolloutMigrationStatus::AlreadyPaginated);
    assert_eq!(again.rollout_path, path(ROLLOUT));
    assert_eq!(again.preserved_source_path, Some(path(PRESERVED)));
    assert_eq!(again.message, None);
    assert_eq!(disk.names, names);
    assert_eq!(disk.files.len(), files);
}

#[test]
fn journals_are_written_only_forward() {
    let mut disk = MemoryDisk::new();
    let print = PreservedSourceFingerprint::from_metadata(7, 1).expect("fingerprint");
    let base = || MigrationRecoveryHandle::new(path(ROLLOUT), path(PRESERVED));
    let published = || base().with_publication_fingerprint(print);
    for record in [base(), published(), published().mark_split_generation()] {
        disk.write_journal(RETAINED, &record).expect("forward");
        assert_eq!(disk.journal(RETAINED), Some(record));
    }
    let marked = disk.journal(RETAINED);
    for record in [
        base(),
        published(),
        published().begin_retirement(),
        published().mark_split_generation().begin_retirement(),
        MigrationRecoveryHandle::new(path("/home/other.jsonl"), path(PRESERVED)),
    ] {
        let error = disk.write_journal(RETAINED, &record).expect_err("back");
        assert!(is_conflict(&error));
        assert_eq!(disk.journal(RETAINED), marked);
    }
}

#[test]
fn pending_publications_are_not_writable() {
    let (mut disk, thread_id, _) = published_thread();
    let record = disk
        .journal(&retained_migration_recovery_path(&home(), thread_id).text)
        .expect("record");
    disk.write(
        &migration_journal_path(&home(), thread_id).text,
        Content::Journal(record),
    );
    let check = EnsureWritable::new(&home(), thread_id, &path(ROLLOUT));
    let error = disk
        .run(check.begin(), EnsureWritable::advance)
        .expect_err("the publication is pending");
    assert!(is_conflict(&error));
}

#[test]
fn changed_sources_need_reconciliation() {
    let (mut disk, thread_id, legacy) = published_thread();
    let check = NeedsReconciliation::new(&home(), thread_id, &path(ROLLOUT));
    assert!(!disk.run(check.begin(), NeedsReconciliation::advance).expect("look"));
    disk.append(legacy, b"late\n");
    let check = NeedsReconciliation::new(&home(), thread_id, &path(ROLLOUT));
    assert!(disk.run(check.begin(), NeedsReconciliation::advance).expect("look"));
}

#[test]
fn deleting_a_thread_removes_its_source_and_its_record() {
    let (mut disk, thread_id, _) = published_thread();
    let prepare = PrepareThreadDelete::new(&home(), thread_id);
    let prepared = disk
        .run(prepare.begin(), PrepareThreadDelete::advance)
        .expect("prepare");
    assert!(prepared.recovery.is_some());
    let begun = RemoveThreadArtifacts::begin(prepared);
    assert!(disk.run(begun, RemoveThreadArtifacts::advance).expect("remove"));
    assert!(!disk.has(PRESERVED));
    assert!(!disk.has(&retained_migration_recovery_path(&home(), thread_id).text));
    assert!(disk.has(ROLLOUT));
}

#[test]
fn deleting_a_thread_removes_a_source_that_a_late_writer_has_changed() {
    let (mut disk, thread_id, legacy) = published_thread();
    let retained = retained_migration_recovery_path(&home(), thread_id).text;
    disk.append(legacy, b"late\n");
    let prepare = PrepareThreadDelete::new(&home(), thread_id);
    let prepared = disk
        .run(prepare.begin(), PrepareThreadDelete::advance)
        .expect("prepare");
    let begun = RemoveThreadArtifacts::begin(prepared);
    assert!(disk.run(begun, RemoveThreadArtifacts::advance).expect("remove"));
    assert!(!disk.has(PRESERVED));
    assert!(!disk.has(&retained));
}

#[test]
fn deleting_a_thread_removes_split_generations() {
    let (mut disk, thread_id, legacy) = published_thread();
    let retained = retained_migration_recovery_path(&home(), thread_id).text;
    disk.append(legacy, b"late\n");
    let check = EnsureWritable::new(&home(), thread_id, &path(ROLLOUT));
    disk.run(check.begin(), EnsureWritable::advance)
        .expect_err("the generations have split");
    assert!(disk.journal(&retained).expect("record").split_generation_detected);
    let prepare = PrepareThreadDelete::new(&home(), thread_id);
    let prepared = disk
        .run(prepare.begin(), PrepareThreadDelete::advance)
        .expect("prepare");
    let begun = RemoveThreadArtifacts::begin(prepared);
    assert!(disk.run(begun, RemoveThreadArtifacts::advance).expect("remove"));
    assert!(!disk.has(PRESERVED));
    assert!(!disk.has(&retained));
    assert!(disk.has(ROLLOUT));
}

#[test]
fn deleting_split_generations_can_be_retried_without_the_source() {
    let (mut disk, thread_id, _) = published_thread();
    let retained = retained_migration_recovery_path(&home(), thread_id).text;
    let record = disk.journal(&retained).expect("record").mark_split_generation();
    disk.write(&retained, Content::Journal(record));
    disk.names.remove(PRESERVED);
    let prepare = PrepareThreadDelete::new(&home(), thread_id);
    let prepared = disk
        .run(prepare.begin(), PrepareThreadDelete::advance)
        .expect("prepare");
    let begun = RemoveThreadArtifacts::begin(prepared);
    assert!(disk.run(begun, RemoveThreadArtifacts::advance).expect("remove"));
    assert!(!disk.has(&retained));
}

#[test]
fn deleting_is_refused_where_an_unmarked_source_is_missing() {
    let (mut disk, thread_id, _) = published_thread();
    disk.names.remove(PRESERVED);
    let prepare = PrepareThreadDelete::new(&home(), thread_id);
    let error = disk
        .run(prepare.begin(), PrepareThreadDelete::advance)
        .expect_err("the source is missing");
    assert!(is_conflict(&error));
}

#[test]
fn deleting_is_refused_where_the_source_belongs_to_another_thread() {
    let (mut disk, thread_id, _) = published_thread();
    let prepare = PrepareThreadDelete::new(&home(), thread_id);
    let prepared = disk
        .run(prepare.begin(), PrepareThreadDelete::advance)
        .expect("prepare");
    disk.owner = ThreadId::from_u128(2);
    let begun = RemoveThreadArtifacts::begin(prepared);
    let error = disk
        .run(begun, RemoveThreadArtifacts::advance)
        .expect_err("another owner");
    assert!(is_conflict(&error));
    assert!(disk.has(PRESERVED));
}

#[test]
fn deleting_a_thread_without_migration_removes_nothing() {
    let mut disk = MemoryDisk::new();
    let prepare = PrepareThreadDelete::new(&home(), ThreadId::from_u128(5));
    let prepared = disk
        .run(prepare.begin(), PrepareThreadDelete::advance)
        .expect("prepare");
    assert!(prepared.recovery.is_none());
    let begun = RemoveThreadArtifacts::begin(prepared);
    assert!(!disk.run(begun, RemoveThreadArtifacts::advance).expect("remove"));
}

#[test]
fn deleting_is_refused_while_a_publication_is_pending() {
    let mut disk = MemoryDisk::new();
    let thread_id = ThreadId::from_u128(5);
    let recovery = MigrationRecoveryHandle::new(path(ROLLOUT), path(PRESERVED));
    disk.write(
        &migration_journal_path(&home(), thread_id).text,
        Content::Journal(recovery),
    );
    let prepare = PrepareThreadDelete::new(&home(), thread_id);
    let error = disk
        .run(prepare.begin(), PrepareThreadDelete::advance)
        .expect_err("pending");
    assert!(is_conflict(&error));
}

#[test]
fn refused_validation_stops_a_check() {
    let (mut disk, thread_id, _) = published_thread();
    disk.refuse_validation = Some("foreign".to_owned());
    let check = EnsureWritable::new(&home(), thread_id, &path(ROLLOUT));
    let error = disk
        .run(check.begin(), EnsureWritable::advance)
        .expect_err("the record is not valid");
    assert_eq!(error, ThreadStoreError::Conflict { message: "foreign".to_owned() });
}

#[test]
fn directories_are_synced_through_their_parent() {
    assert_eq!(sync_parent_directory(&path("/home/a")).expect("parent"), path("/home"));
    let error = sync_parent_directory(&path("/")).expect_err("the root has no parent");
    assert_eq!(
        error.to_text(),
        "thread-store internal error: rollout migration failed: rollout path has no parent directory"
    );
}

#[test]
fn blank_journals_hold_no_record() {
    let record =
        || Ok(MigrationRecoveryHandle::new(path("/r.jsonl"), path("/.r.jsonl.legacy")));
    assert_eq!(read_migration_journal_recovery(&None, record()), Ok(None));
    assert_eq!(read_migration_journal_recovery(&Some(Vec::new()), record()), Ok(None));
    assert_eq!(read_migration_journal_recovery(&Some(b" \t\r\n\x0c".to_vec()), record()), Ok(None));
    assert_eq!(
        read_migration_journal_recovery(&Some(b"{}\n".to_vec()), record()),
        Ok(Some(MigrationRecoveryHandle::new(path("/r.jsonl"), path("/.r.jsonl.legacy"))))
    );
    assert_eq!(
        read_migration_journal_recovery(&Some(b"\x0b".to_vec()), Err("not JSON".to_owned())),
        Err(ThreadStoreError::Internal {
            message: "rollout migration failed: not JSON".to_owned(),
        })
    );
}
