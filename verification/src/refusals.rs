//! Why the store refuses to go on, and the words it uses.

use crate::error::migration_error;
use crate::error::migration_failure;
use crate::error::recovery_conflict;
use crate::error::recovery_refusal;
use crate::error::ErrorView;
use crate::error::ThreadId;
use crate::error::ThreadStoreError;
use crate::paths::RolloutPath;
use crate::recovery::JournalConflict;
use crate::text::concat2;
use crate::text::concat3;
use crate::text::concat4;
use crate::text::decimal;
use crate::text::decimal_text;
use vstd::prelude::*;

verus! {

/// Why an operation on the disk is refused, where a path tells the rest.
#[derive(Clone, Copy, Debug, PartialEq, Eq, Structural)]
pub enum Refusal {
    TargetExists,
    DifferentFilePreserved,
    ChangedWhileLinking,
    DifferentAliasPreserved,
    ChangedBeforePinning,
    Journal(JournalConflict),
    RetainedRecordConflicts,
    SplitGeneration,
    NoFingerprint,
    SourceDisappeared,
    LegacyStillVisible,
    ChangedAfterPublication,
    ChangedWhileRetiring,
}

impl Refusal {
    /// The words of the refusal.
    pub open spec fn words(self) -> Seq<char> {
        match self {
            Refusal::TargetExists => "plain rollout publication target already exists"@,
            Refusal::DifferentFilePreserved => {
                "rollout migration recovery path already preserves a different file"@
            },
            Refusal::ChangedWhileLinking => {
                "rollout changed while its recovery hard link was being established"@
            },
            Refusal::DifferentAliasPreserved => {
                "unpublished migration recovery path preserves a different inode"@
            },
            Refusal::ChangedBeforePinning => {
                "rollout changed before its recovery inode was pinned; close older Codex processes and retry"@
            },
            Refusal::Journal(JournalConflict::OtherSource) => {
                "rollout migration journal already names a different recovery path"@
            },
            Refusal::Journal(JournalConflict::RetirementInProgress) => {
                "rollout migration recovery source retirement is already in progress"@
            },
            Refusal::Journal(JournalConflict::SplitMarkerCleared) => {
                "rollout migration split-generation marker cannot be cleared implicitly"@
            },
            Refusal::Journal(JournalConflict::FingerprintCleared) => {
                "rollout migration publication fingerprint cannot be cleared"@
            },
            Refusal::Journal(JournalConflict::SplitRetirement) => {
                "split rollout generations cannot enter automatic retirement"@
            },
            Refusal::Journal(JournalConflict::FingerprintChanged) => {
                "rollout migration publication fingerprint changed"@
            },
            Refusal::RetainedRecordConflicts => {
                "retained rollout migration recovery record conflicts with pending publication"@
            },
            Refusal::SplitGeneration => {
                "preserved rollout source belongs to a split generation and cannot be retired before reconciliation"@
            },
            Refusal::NoFingerprint => {
                "preserved rollout source has no publication fingerprint and cannot be retired automatically"@
            },
            Refusal::SourceDisappeared => {
                "preserved rollout source disappeared before verified retirement"@
            },
            Refusal::LegacyStillVisible => {
                "visible rollout still names the legacy inode; publication is not complete"@
            },
            Refusal::ChangedAfterPublication => {
                "preserved rollout source changed after publication; reconcile late writer bytes before retirement"@
            },
            Refusal::ChangedWhileRetiring => {
                "preserved rollout source changed while retirement was starting; reconcile late writer bytes"@
            },
        }
    }

    /// The words of the refusal.
    pub fn as_str(&self) -> (r: &'static str)
        ensures
            r@ == self.words(),
    {
        match self {
            Refusal::TargetExists => "plain rollout publication target already exists",
            Refusal::DifferentFilePreserved => {
                "rollout migration recovery path already preserves a different file"
            },
            Refusal::ChangedWhileLinking => {
                "rollout changed while its recovery hard link was being established"
            },
            Refusal::DifferentAliasPreserved => {
                "unpublished migration recovery path preserves a different inode"
            },
            Refusal::ChangedBeforePinning => {
                "rollout changed before its recovery inode was pinned; close older Codex processes and retry"
            },
            Refusal::Journal(JournalConflict::OtherSource) => {
                "rollout migration journal already names a different recovery path"
            },
            Refusal::Journal(JournalConflict::RetirementInProgress) => {
                "rollout migration recovery source retirement is already in progress"
            },
            Refusal::Journal(JournalConflict::SplitMarkerCleared) => {
                "rollout migration split-generation marker cannot be cleared implicitly"
            },
            Refusal::Journal(JournalConflict::FingerprintCleared) => {
                "rollout migration publication fingerprint cannot be cleared"
            },
            Refusal::Journal(JournalConflict::SplitRetirement) => {
                "split rollout generations cannot enter automatic retirement"
            },
            Refusal::Journal(JournalConflict::FingerprintChanged) => {
                "rollout migration publication fingerprint changed"
            },
            Refusal::RetainedRecordConflicts => {
                "retained rollout migration recovery record conflicts with pending publication"
            },
            Refusal::SplitGeneration => {
                "preserved rollout source belongs to a split generation and cannot be retired before reconciliation"
            },
            Refusal::NoFingerprint => {
                "preserved rollout source has no publication fingerprint and cannot be retired automatically"
            },
            Refusal::SourceDisappeared => {
                "preserved rollout source disappeared before verified retirement"
            },
            Refusal::LegacyStillVisible => {
                "visible rollout still names the legacy inode; publication is not complete"
            },
            Refusal::ChangedAfterPublication => {
                "preserved rollout source changed after publication; reconcile late writer bytes before retirement"
            },
            Refusal::ChangedWhileRetiring => {
                "preserved rollout source changed while retirement was starting; reconcile late writer bytes"
            },
        }
    }
}

/// Why a recovery record cannot be followed.
#[allow(inconsistent_fields)]
#[derive(Debug, PartialEq, Eq)]
pub enum RecoveryRefusal {
    Diverged { path: RolloutPath },
    RetirementIncomplete,
    NoPublicationFingerprint,
    ChangedByOlderWriter { path: RolloutPath },
    PublicationPending,
    ForeignJournal { path: RolloutPath },
    JournalOutside { path: RolloutPath },
    UnsupportedVersion { version: u8 },
    RetiringAndSplit,
    NotNormalized { path: RolloutPath },
    WithoutParent { path: RolloutPath },
    PathOutside { path: RolloutPath },
    OtherTarget { path: RolloutPath },
    OtherGeneration { path: RolloutPath },
    SelectedNotPaginated { path: RolloutPath },
    OtherPreserved { path: RolloutPath },
    PreservedBelongsTo { owner: ThreadId, path: RolloutPath },
    PublishedBelongsTo { owner: ThreadId, path: RolloutPath },
}

impl RecoveryRefusal {
    /// The words of the refusal.
    pub open spec fn words(self) -> Seq<char> {
        match self {
            RecoveryRefusal::Diverged { path } => "legacy and paginated generations have diverged; both were preserved for explicit reconciliation ("@ + path@ + ")"@,
            RecoveryRefusal::RetirementIncomplete => "preserved source retirement is incomplete; finish recovery before writing"@,
            RecoveryRefusal::NoPublicationFingerprint => "journal has no publication fingerprint"@,
            RecoveryRefusal::ChangedByOlderWriter { path } => "an older writer changed the preserved legacy generation after paginated cutover; both generations were preserved for explicit reconciliation ("@ + path@ + ")"@,
            RecoveryRefusal::PublicationPending => "publication recovery is still pending; finish recovery before resuming or writing"@,
            RecoveryRefusal::ForeignJournal { path } => "journal is outside this Codex home or names another thread: "@ + path@,
            RecoveryRefusal::JournalOutside { path } => "journal resolves outside this Codex home: "@ + path@,
            RecoveryRefusal::UnsupportedVersion { version } => "journal uses unsupported version "@ + decimal(version as nat),
            RecoveryRefusal::RetiringAndSplit => "journal simultaneously records retirement and a split generation"@,
            RecoveryRefusal::NotNormalized { path } => "journal path is not a normalized absolute path: "@ + path@,
            RecoveryRefusal::WithoutParent { path } => "journal path has no parent: "@ + path@,
            RecoveryRefusal::PathOutside { path } => "journal path resolves outside this Codex home: "@ + path@,
            RecoveryRefusal::OtherTarget { path } => "journal names a non-deterministic publication target: "@ + path@,
            RecoveryRefusal::OtherGeneration { path } => "journal publication target does not match the selected rollout generation: "@ + path@,
            RecoveryRefusal::SelectedNotPaginated { path } => "selected rollout is not this thread's paginated_refs_v1 generation: "@ + path@,
            RecoveryRefusal::OtherPreserved { path } => "journal names a non-deterministic preserved source: "@ + path@,
            RecoveryRefusal::PreservedBelongsTo { owner, path } => "preserved source belongs to "@ + owner.text() + ": "@ + path@,
            RecoveryRefusal::PublishedBelongsTo { owner, path } => "published rollout belongs to "@ + owner.text() + ": "@ + path@,
        }
    }

    /// The words of the refusal.
    pub fn to_text(&self) -> (r: String)
        ensures
            r@ == self.words(),
    {
        match self {
            RecoveryRefusal::Diverged { path } => concat3("legacy and paginated generations have diverged; both were preserved for explicit reconciliation (", path.text.as_str(), ")"),
            RecoveryRefusal::RetirementIncomplete => "preserved source retirement is incomplete; finish recovery before writing".to_owned(),
            RecoveryRefusal::NoPublicationFingerprint => "journal has no publication fingerprint".to_owned(),
            RecoveryRefusal::ChangedByOlderWriter { path } => concat3("an older writer changed the preserved legacy generation after paginated cutover; both generations were preserved for explicit reconciliation (", path.text.as_str(), ")"),
            RecoveryRefusal::PublicationPending => "publication recovery is still pending; finish recovery before resuming or writing".to_owned(),
            RecoveryRefusal::ForeignJournal { path } => concat2("journal is outside this Codex home or names another thread: ", path.text.as_str()),
            RecoveryRefusal::JournalOutside { path } => concat2("journal resolves outside this Codex home: ", path.text.as_str()),
            RecoveryRefusal::UnsupportedVersion { version } => concat2("journal uses unsupported version ", decimal_text(*version as u64).as_str()),
            RecoveryRefusal::RetiringAndSplit => "journal simultaneously records retirement and a split generation".to_owned(),
            RecoveryRefusal::NotNormalized { path } => concat2("journal path is not a normalized absolute path: ", path.text.as_str()),
            RecoveryRefusal::WithoutParent { path } => concat2("journal path has no parent: ", path.text.as_str()),
            RecoveryRefusal::PathOutside { path } => concat2("journal path resolves outside this Codex home: ", path.text.as_str()),
            RecoveryRefusal::OtherTarget { path } => concat2("journal names a non-deterministic publication target: ", path.text.as_str()),
            RecoveryRefusal::OtherGeneration { path } => concat2("journal publication target does not match the selected rollout generation: ", path.text.as_str()),
            RecoveryRefusal::SelectedNotPaginated { path } => concat2("selected rollout is not this thread's paginated_refs_v1 generation: ", path.text.as_str()),
            RecoveryRefusal::OtherPreserved { path } => concat2("journal names a non-deterministic preserved source: ", path.text.as_str()),
            RecoveryRefusal::PreservedBelongsTo { owner, path } => concat4("preserved source belongs to ", owner.to_text().as_str(), ": ", path.text.as_str()),
            RecoveryRefusal::PublishedBelongsTo { owner, path } => concat4("published rollout belongs to ", owner.to_text().as_str(), ": ", path.text.as_str()),
        }
    }
}

/// Why the migration artifacts of a thread cannot be deleted.
#[allow(inconsistent_fields)]
#[derive(Debug, PartialEq, Eq)]
pub enum DeletionRefusal {
    PendingMigration,
    IncompleteUpdate,
    SourceMissing { path: RolloutPath },
    StateChanged,
    JournalChanged,
    RecoveryChanged,
    OwnerChanged { path: RolloutPath },
}

impl DeletionRefusal {
    /// The words of the refusal.
    pub open spec fn words(self) -> Seq<char> {
        match self {
            DeletionRefusal::PendingMigration => " has a pending rollout migration; recover or clean up that migration before deleting the thread"@,
            DeletionRefusal::IncompleteUpdate => " has an incomplete retained rollout recovery update; recover it before deleting the thread"@,
            DeletionRefusal::SourceMissing { path } => " retained rollout recovery source is missing before deletion: "@ + path@,
            DeletionRefusal::StateChanged => " migration state changed while hard-delete was being prepared"@,
            DeletionRefusal::JournalChanged => " retained migration journal changed while hard-delete was being prepared"@,
            DeletionRefusal::RecoveryChanged => " retained migration recovery changed while hard-delete was being prepared"@,
            DeletionRefusal::OwnerChanged { path } => " retained rollout recovery source changed ownership before deletion: "@ + path@,
        }
    }

    /// The words of the refusal.
    pub fn to_text(&self) -> (r: String)
        ensures
            r@ == self.words(),
    {
        match self {
            DeletionRefusal::PendingMigration => " has a pending rollout migration; recover or clean up that migration before deleting the thread".to_owned(),
            DeletionRefusal::IncompleteUpdate => " has an incomplete retained rollout recovery update; recover it before deleting the thread".to_owned(),
            DeletionRefusal::SourceMissing { path } => concat2(" retained rollout recovery source is missing before deletion: ", path.text.as_str()),
            DeletionRefusal::StateChanged => " migration state changed while hard-delete was being prepared".to_owned(),
            DeletionRefusal::JournalChanged => " retained migration journal changed while hard-delete was being prepared".to_owned(),
            DeletionRefusal::RecoveryChanged => " retained migration recovery changed while hard-delete was being prepared".to_owned(),
            DeletionRefusal::OwnerChanged { path } => concat2(" retained rollout recovery source changed ownership before deletion: ", path.text.as_str()),
        }
    }
}

/// Why an operation on the disk did not succeed.
#[allow(inconsistent_fields)]
#[derive(Debug, PartialEq, Eq)]
pub enum DiskProblem {
    /// The disk failed with a message.
    Io(String),
    /// The journal has no parent directory.
    JournalWithoutParent,
    /// The journal has no file name.
    JournalWithoutName,
    /// The rollout has no file name.
    RolloutWithoutName,
    /// The journal is not a pending journal.
    NotPending,
    /// The retained record is empty.
    RetainedEmpty,
    /// The reply does not answer what was asked.
    UnexpectedReply,
    /// What stands on the disk forbids the operation.
    Refused { refusal: Refusal, path: RolloutPath },
    /// A recovery record cannot be followed.
    Recovery { thread_id: ThreadId, refusal: RecoveryRefusal },
    /// A thread cannot be deleted yet.
    Deletion { thread_id: ThreadId, refusal: DeletionRefusal },
    /// Another operation was refused or failed.
    Rejected(ThreadStoreError),
}

/// The error that a problem is reported as.
pub open spec fn problem_view(problem: DiskProblem) -> ErrorView {
    match problem {
        DiskProblem::Io(message) => migration_failure(message@),
        DiskProblem::JournalWithoutParent => migration_failure(
            "rollout migration journal has no parent directory"@,
        ),
        DiskProblem::JournalWithoutName => migration_failure(
            "rollout migration journal has no valid filename"@,
        ),
        DiskProblem::RolloutWithoutName => migration_failure(
            "rollout path has no valid filename"@,
        ),
        DiskProblem::NotPending => migration_failure(
            "rollout migration journal is not a pending journal"@,
        ),
        DiskProblem::RetainedEmpty => migration_failure(
            "retained rollout migration recovery journal is empty"@,
        ),
        DiskProblem::UnexpectedReply => migration_failure(
            "the reply does not answer the action"@,
        ),
        DiskProblem::Refused { refusal, path } => ErrorView::Conflict(
            refusal.words() + ": "@ + path@,
        ),
        DiskProblem::Recovery { thread_id, refusal } => recovery_refusal(
            thread_id,
            refusal.words(),
        ),
        DiskProblem::Deletion { thread_id, refusal } => ErrorView::Conflict(
            "thread "@ + thread_id.text() + refusal.words(),
        ),
        DiskProblem::Rejected(error) => error@,
    }
}

impl DiskProblem {
    /// The error that the problem is reported as.
    pub fn to_error(self) -> (r: ThreadStoreError)
        ensures
            r@ == problem_view(self),
    {
        match self {
            DiskProblem::Io(message) => migration_error(message.as_str()),
            DiskProblem::JournalWithoutParent => {
                migration_error("rollout migration journal has no parent directory")
            },
            DiskProblem::JournalWithoutName => {
                migration_error("rollout migration journal has no valid filename")
            },
            DiskProblem::RolloutWithoutName => migration_error("rollout path has no valid filename"),
            DiskProblem::NotPending => {
                migration_error("rollout migration journal is not a pending journal")
            },
            DiskProblem::RetainedEmpty => {
                migration_error("retained rollout migration recovery journal is empty")
            },
            DiskProblem::UnexpectedReply => migration_error("the reply does not answer the action"),
            DiskProblem::Refused { refusal, path } => ThreadStoreError::Conflict {
                message: concat3(refusal.as_str(), ": ", path.text.as_str()),
            },
            DiskProblem::Recovery { thread_id, refusal } => recovery_conflict(
                thread_id,
                refusal.to_text().as_str(),
            ),
            DiskProblem::Deletion { thread_id, refusal } => ThreadStoreError::Conflict {
                message: concat3(
                    "thread ",
                    thread_id.to_text().as_str(),
                    refusal.to_text().as_str(),
                ),
            },
            DiskProblem::Rejected(error) => error,
        }
    }
}

} // verus!
