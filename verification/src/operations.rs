//! What a migration asks of the store: operations on the disk, the index and the locks, each of
//! which has a result of its own.

use crate::error::migration_error;
use crate::error::migration_failure;
use crate::error::ErrorView;
use crate::error::ThreadId;
use crate::error::ThreadStoreError;
use crate::error::ThreadStoreResult;
use crate::paths::compressed_staged_rollout_path;
use crate::paths::decompressed_staged_rollout_path;
use crate::paths::file_name_of;
use crate::paths::rewritten_staged_rollout_path;
use crate::paths::sibling;
use crate::paths::staged_of;
use crate::paths::staged_rollout_path;
use crate::paths::RolloutPath;
use crate::recovery::MigrationRecoveryHandle;
use crate::recovery::PreservedSourceFingerprint;
use crate::report::RolloutMigrationFailure;
use crate::rollout::ThreadHistoryMode;
use crate::text::concat2;
use crate::text::concat3;
use vstd::prelude::*;

verus! {

/// A temporary file that a migration keeps beside a rollout.
#[derive(Clone, Copy, Debug, PartialEq, Eq, Structural)]
pub enum Artifact {
    /// The replacement that is being built.
    Staged,
    /// The replacement whose head is being rewritten.
    Rewritten,
    /// A compressed replacement.
    CompressedStaged,
    /// A compressed source while it is read.
    Decompressed,
}

/// A file: one with a path of its own, or a temporary file beside a rollout.
#[derive(Debug, PartialEq, Eq)]
pub enum FileRef {
    Path(RolloutPath),
    Beside { rollout_path: RolloutPath, artifact: Artifact },
}

/// The path of a temporary file beside a rollout that has a file name.
pub open spec fn artifact_of(rollout_path: Seq<char>, artifact: Artifact) -> Seq<char> {
    let staged = staged_of(rollout_path, "paginated"@);
    match artifact {
        Artifact::Staged => staged,
        Artifact::Rewritten => sibling(staged, file_name_of(staged)->0 + ".head.tmp"@),
        Artifact::CompressedStaged => staged_of(rollout_path, "paginated.zst"@),
        Artifact::Decompressed => staged_of(rollout_path, "decompressed"@),
    }
}

impl FileRef {
    /// The path of the file, where it has one.
    pub fn resolve(&self) -> (r: ThreadStoreResult<RolloutPath>)
        ensures
            match *self {
                FileRef::Path(path) => r is Ok && r->Ok_0 == path,
                FileRef::Beside { rollout_path, artifact } => {
                    &&& file_name_of(rollout_path@) is None ==> r is Err && r->Err_0@
                        == migration_failure("rollout path has no valid filename"@)
                    &&& file_name_of(rollout_path@) is Some ==> {
                        &&& r is Ok ==> r->Ok_0@ == artifact_of(rollout_path@, artifact)
                        &&& artifact != Artifact::Rewritten ==> r is Ok
                        &&& r is Err <==> artifact == Artifact::Rewritten && file_name_of(
                            staged_of(rollout_path@, "paginated"@),
                        ) is None
                        &&& r is Err ==> r->Err_0@ == migration_failure(
                            "staged rollout path has no valid filename"@,
                        )
                    }
                },
            },
    {
        match self {
            FileRef::Path(path) => Ok(path.clone()),
            FileRef::Beside { rollout_path, artifact } => match artifact {
                Artifact::Staged => staged_rollout_path(rollout_path),
                Artifact::CompressedStaged => compressed_staged_rollout_path(rollout_path),
                Artifact::Decompressed => decompressed_staged_rollout_path(rollout_path),
                Artifact::Rewritten => match staged_rollout_path(rollout_path) {
                    Ok(staged) => rewritten_staged_rollout_path(&staged),
                    Err(error) => Err(error),
                },
            },
        }
    }
}

/// How the source is turned into a staged rollout.
#[derive(Clone, Copy, Debug, PartialEq, Eq, Structural)]
pub enum ConversionKind {
    /// Canonical history, with a rollback plan where the source needs one.
    Canonical,
    /// The bounded context of a subagent.
    BoundedSubagent,
    /// The upgrade of a rollout that is already paginated.
    PaginatedUpgrade,
}

/// An operation that a migration asks for.
#[allow(inconsistent_fields)]
#[derive(Debug, PartialEq, Eq)]
pub enum StoreAction {
    /// What does the index know of a thread?
    GetThread { thread_id: ThreadId },
    /// Let the index point to another rollout, where it still points to the expected one.
    ReplaceRolloutPath { thread_id: ThreadId, expected: RolloutPath, published: RolloutPath },
    /// Let the index know that a thread is paginated, under a name where one is given.
    MarkPaginated { thread_id: ThreadId, mode: ThreadHistoryMode, name: Option<String> },
    /// Forget the indexed history of a thread.
    DeleteProjection { thread_id: ThreadId },
    /// Index the history in a file.
    Project { thread_id: ThreadId, file: FileRef },
    /// How far has the history of a thread been indexed?
    ProjectionState { thread_id: ThreadId },
    /// Does a path exist?
    Exists { path: RolloutPath },
    /// How long is a file?
    FileLength { file: FileRef },
    /// What are the fingerprint and the size of a source?
    SourceMetadata { path: RolloutPath },
    /// Which thread does a rollout belong to, and how is it stored?
    ReadMetadata { path: RolloutPath },
    /// What record does a journal hold?
    ReadJournal { path: RolloutPath },
    /// Write a record into a journal.
    WriteJournal { path: RolloutPath, recovery: MigrationRecoveryHandle },
    /// Can a record be followed?
    Validate {
        thread_id: ThreadId,
        journal_path: RolloutPath,
        recovery: MigrationRecoveryHandle,
        selected: Option<RolloutPath>,
        require_publication_fingerprint: bool,
    },
    /// Is the preserved source unchanged?
    VerifyUnchanged { thread_id: ThreadId, journal_path: RolloutPath, selected: RolloutPath },
    /// Remove a file where it exists.
    RemoveIfPresent { file: FileRef },
    /// Make the directory that holds a path durable.
    SyncParent { path: RolloutPath },
    /// Move a pending journal into the retained record.
    Retain { journal_path: RolloutPath },
    /// Remove the second name of a source that was not published.
    RemoveAlias { rollout_path: RolloutPath, preserved_source_path: RolloutPath },
    /// Remove a journal.
    RemoveJournal { path: RolloutPath },
    /// Decompress a rollout into the temporary file beside it.
    Decompress { rollout_path: RolloutPath },
    /// Find the metadata with which canonical history begins.
    FindHead { file: FileRef },
    /// Collect the identifiers that a source already uses.
    ScanItemIds { file: FileRef },
    /// Find the bounded context of a subagent, where it has one.
    SelectContext { file: FileRef },
    /// Turn a source into the staged rollout.
    Convert { file: FileRef, kind: ConversionKind },
    /// Record in the staged rollout where the history of the subagent itself begins.
    RewriteBoundary { boundary: u64 },
    /// Make the staged rollout durable.
    SyncStaged,
    /// Count processed bytes.
    Account { bytes: u64 },
    /// Publish the staged rollout.
    Publish {
        rollout_path: RolloutPath,
        published_rollout_path: RolloutPath,
        preserved_source_path: RolloutPath,
        journal_path: RolloutPath,
        expected_source_fingerprint: PreservedSourceFingerprint,
    },
    /// Finish a migration whose rollout is published.
    FinishPublished {
        thread_id: ThreadId,
        source_rollout_path: RolloutPath,
        published_rollout_path: RolloutPath,
        journal_path: RolloutPath,
    },
}

/// What the index knows of a thread.
#[derive(Debug, PartialEq, Eq)]
pub struct ThreadRow {
    pub rollout_path: RolloutPath,
    pub history_mode: ThreadHistoryMode,
    pub name: Option<String>,
    /// The title of the thread, where it says more than its first message does.
    pub distinct_title: Option<String>,
}

/// A rollout that has been migrated.
#[derive(Debug, PartialEq, Eq)]
pub struct PublishedMigration {
    pub rollout_path: RolloutPath,
    pub preserved_source_path: RolloutPath,
}

/// What an operation comes to.
#[derive(Debug, PartialEq, Eq)]
pub enum StoreReply {
    Done,
    Answer(bool),
    Thread(Option<ThreadRow>),
    Projection(Option<(u64, u64)>),
    Length(u64),
    Source { fingerprint: PreservedSourceFingerprint, size: u64 },
    Metadata { id: ThreadId, history_mode: ThreadHistoryMode },
    Journal(Option<MigrationRecoveryHandle>),
    /// The staged rollout is written up to this ordinal.
    Converted { next_ordinal: u64 },
    /// The operation failed for a reason that a report names.
    Classified(RolloutMigrationFailure),
    /// The operation failed or was refused.
    Rejected(ThreadStoreError),
    /// The disk or the index failed with a message.
    Failed(String),
}

/// Why an operation did not succeed.
#[allow(inconsistent_fields)]
#[derive(Debug, PartialEq, Eq)]
pub enum StoreProblem {
    /// Another operation failed or was refused.
    Rejected(ThreadStoreError),
    /// The disk or the index failed with a message.
    Failed(String),
    /// The index does not know the thread.
    MissingMetadata { thread_id: ThreadId },
    /// The index points to another rollout than expected.
    PathChanged { path: RolloutPath },
    /// The preserved source of a published rollout is gone.
    SourceMissing { path: RolloutPath },
    /// The visible rollout does not use references.
    NotPaginated { path: RolloutPath },
    /// The file name of a rollout names no rollout.
    WithoutRolloutId { path: RolloutPath },
    /// The rollout has no file name.
    RolloutWithoutName,
    /// The index has no history for the staged rollout.
    NoProjection,
    /// The index does not cover the staged rollout.
    IncompleteProjection,
    /// The source changed while its replacement was being built.
    ChangedWhileStaging,
    /// The reply does not answer what was asked.
    UnexpectedReply,
}

/// The error that a problem is reported as.
pub open spec fn store_problem_view(problem: StoreProblem) -> ErrorView {
    match problem {
        StoreProblem::Rejected(error) => error@,
        StoreProblem::Failed(message) => migration_failure(message@),
        StoreProblem::MissingMetadata { thread_id } => migration_failure(
            "thread "@ + thread_id.text() + " is missing its SQLite metadata"@,
        ),
        StoreProblem::PathChanged { path } => ErrorView::Conflict(
            "thread rollout path changed while publishing plain reference history: "@ + path@,
        ),
        StoreProblem::SourceMissing { path } => ErrorView::Conflict(
            "published rollout is missing its preserved legacy recovery source: "@ + path@,
        ),
        StoreProblem::NotPaginated { path } => ErrorView::Conflict(
            "pending migration does not point to a visible paginated_refs_v1 rollout: "@ + path@,
        ),
        StoreProblem::WithoutRolloutId { path } => migration_failure(
            "rollout filename does not contain a physical rollout ID: "@ + path@,
        ),
        StoreProblem::RolloutWithoutName => migration_failure(
            "rollout path has no valid filename"@,
        ),
        StoreProblem::NoProjection => migration_failure(
            "completed rollout has no SQLite projection"@,
        ),
        StoreProblem::IncompleteProjection => migration_failure(
            "SQLite projection does not cover the complete staged rollout"@,
        ),
        StoreProblem::ChangedWhileStaging => ErrorView::Conflict(
            "rollout changed while migration was staging it; close older Codex processes and retry"@,
        ),
        StoreProblem::UnexpectedReply => migration_failure(
            "the reply does not answer the action"@,
        ),
    }
}

impl StoreProblem {
    /// The error that the problem is reported as.
    pub fn to_error(self) -> (r: ThreadStoreError)
        ensures
            r@ == store_problem_view(self),
    {
        match self {
            StoreProblem::Rejected(error) => error,
            StoreProblem::Failed(message) => migration_error(message.as_str()),
            StoreProblem::MissingMetadata { thread_id } => migration_error(
                concat3(
                    "thread ",
                    thread_id.to_text().as_str(),
                    " is missing its SQLite metadata",
                ).as_str(),
            ),
            StoreProblem::PathChanged { path } => ThreadStoreError::Conflict {
                message: concat2(
                    "thread rollout path changed while publishing plain reference history: ",
                    path.text.as_str(),
                ),
            },
            StoreProblem::SourceMissing { path } => ThreadStoreError::Conflict {
                message: concat2(
                    "published rollout is missing its preserved legacy recovery source: ",
                    path.text.as_str(),
                ),
            },
            StoreProblem::NotPaginated { path } => ThreadStoreError::Conflict {
                message: concat2(
                    "pending migration does not point to a visible paginated_refs_v1 rollout: ",
                    path.text.as_str(),
                ),
            },
            StoreProblem::WithoutRolloutId { path } => migration_error(
                concat2(
                    "rollout filename does not contain a physical rollout ID: ",
                    path.text.as_str(),
                ).as_str(),
            ),
            StoreProblem::RolloutWithoutName => {
                migration_error("rollout path has no valid filename")
            },
            StoreProblem::NoProjection => {
                migration_error("completed rollout has no SQLite projection")
            },
            StoreProblem::IncompleteProjection => migration_error(
                "SQLite projection does not cover the complete staged rollout",
            ),
            StoreProblem::ChangedWhileStaging => ThreadStoreError::Conflict {
                message:
                    "rollout changed while migration was staging it; close older Codex processes and retry"
                    .to_owned(),
            },
            StoreProblem::UnexpectedReply => {
                migration_error("the reply does not answer the action")
            },
        }
    }
}

/// Where an operation stands: it asks for another operation, or it has ended.
#[derive(Debug)]
pub enum Step<M, T> {
    Ask(M, StoreAction),
    End(Result<T, StoreProblem>),
}

/// The problem that a reply stands for, where it does not carry the operation on.
pub open spec fn store_reply_problem(reply: StoreReply) -> StoreProblem {
    match reply {
        StoreReply::Rejected(error) => StoreProblem::Rejected(error),
        StoreReply::Failed(message) => StoreProblem::Failed(message),
        _ => StoreProblem::UnexpectedReply,
    }
}

/// The problem that a reply stands for, where it does not carry the operation on.
pub fn store_problem_of(reply: StoreReply) -> (r: StoreProblem)
    ensures
        r == store_reply_problem(reply),
{
    match reply {
        StoreReply::Rejected(error) => StoreProblem::Rejected(error),
        StoreReply::Failed(message) => StoreProblem::Failed(message),
        _ => StoreProblem::UnexpectedReply,
    }
}

} // verus!
