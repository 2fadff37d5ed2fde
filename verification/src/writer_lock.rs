//! Locks that keep the writers of a thread apart, also across processes.
//!
//! A writer lock is a file per thread. It is opened, tried and removed only while the coordination
//! lock is held, so that no party waits on a file that another has just removed. Lifecycle locks
//! are files of their own that stay on disk.

use crate::error::ErrorView;
use crate::error::spelled_thread_id;
use crate::error::ThreadId;
use crate::error::ThreadStoreError;
use crate::paths::child;
use crate::paths::RolloutPath;
use crate::text::concat2;
use crate::text::concat3;
use crate::text::concat4;
use crate::text::strip_suffix;
use crate::text::text_ends_with;
use vstd::prelude::*;

verus! {

/// Hands out the writer locks and the lifecycle locks of threads.
#[derive(Debug)]
pub struct WriterLockCoordinator {
    pub directory: RolloutPath,
    pub cleanup_attempted: bool,
}

/// Where the locks stand below the home directory.
pub open spec fn lock_directory(home: Seq<char>) -> Seq<char> {
    child(home, "thread-writer-locks"@)
}

/// The file that coordinates all writer locks.
pub open spec fn coordination_lock_of(directory: Seq<char>) -> Seq<char> {
    child(directory, ".coordination.lock"@)
}

/// The writer lock of a thread.
pub open spec fn writer_lock_of(directory: Seq<char>, thread_id: ThreadId) -> Seq<char> {
    child(directory, thread_id.text() + ".lock"@)
}

/// The lifecycle lock of a thread.
pub open spec fn lifecycle_lock_of(directory: Seq<char>, thread_id: ThreadId) -> Seq<char> {
    child(directory, thread_id.text() + ".lifecycle.lock"@)
}

/// Whether a file name is that of a writer lock: a thread and `.lock`, but no lifecycle lock.
pub open spec fn is_writer_lock_name(name: Seq<char>) -> bool {
    &&& !".lifecycle.lock"@.is_suffix_of(name)
    &&& ".lock"@.is_suffix_of(name)
    &&& spelled_thread_id(name.take(name.len() - ".lock"@.len())) is Some
}

/// Whether a file name is that of a writer lock.
pub fn names_writer_lock(name: &str) -> (r: bool)
    ensures
        r == is_writer_lock_name(name@),
{
    if text_ends_with(name, ".lifecycle.lock") {
        return false;
    }
    match strip_suffix(name, ".lock") {
        None => false,
        Some(thread_id) => ThreadId::from_string(thread_id.as_str()).is_some(),
    }
}

/// How a lifecycle lock is held.
#[derive(Clone, Copy, Debug, PartialEq, Eq, Structural)]
pub enum LifecycleLockMode {
    /// Together with others, while a fork prepares and records its child.
    Shared,
    /// Alone, while references are looked for and a thread is deleted.
    Exclusive,
}

/// An operation on lock files.
#[allow(inconsistent_fields)]
#[derive(Debug, PartialEq, Eq)]
pub enum LockAction {
    /// Make a directory, with all that hold it.
    CreateDirectory { path: RolloutPath },
    /// Open a lock file, and make it where it is missing.
    Open { path: RolloutPath },
    /// Open a lock file that exists.
    OpenExisting { path: RolloutPath },
    /// Wait for a lock on an open file.
    Lock { path: RolloutPath, mode: LifecycleLockMode },
    /// Take a lock on an open file, where nobody holds it.
    TryLock { path: RolloutPath },
    /// Close a file, which gives up its lock.
    Close { path: RolloutPath },
    /// Remove a file.
    Remove { path: RolloutPath },
    /// Note that stale locks have been looked for. Had they been before?
    MarkCleanupAttempted,
    /// Begin to list a directory.
    List { path: RolloutPath },
    /// The next entry of the directory.
    NextEntry,
}

/// What an operation on lock files comes to.
#[derive(Debug, PartialEq, Eq)]
pub enum LockReply {
    Done,
    /// The lock was taken, or is held by somebody else; or the answer to a question.
    Answer(bool),
    /// An entry, with its name where that is text.
    Entry(Option<String>),
    /// There are no more entries.
    NoMore,
    NotFound,
    Failed(String),
}

/// Why a lock was not taken.
#[allow(inconsistent_fields)]
#[derive(Debug, PartialEq, Eq)]
pub enum LockProblem {
    Directory { path: RolloutPath, error: String },
    OpenCoordination { path: RolloutPath, error: String },
    TakeCoordination { path: RolloutPath, error: String },
    OpenWriter { path: RolloutPath, error: String },
    TakeWriter { path: RolloutPath, error: String },
    Busy { thread_id: ThreadId },
    OpenLifecycle { path: RolloutPath, error: String },
    TakeLifecycle { path: RolloutPath, error: String },
    /// The reply does not answer what was asked.
    UnexpectedReply,
}

/// The text of a failed operation on a lock file.
pub open spec fn lock_failure(what: Seq<char>, path: Seq<char>, error: Seq<char>) -> ErrorView {
    ErrorView::Internal(what + path + ": "@ + error)
}

/// The error that a problem is reported as.
pub open spec fn lock_problem_view(problem: LockProblem) -> ErrorView {
    match problem {
        LockProblem::Directory { path, error } => lock_failure(
            "failed to create thread writer lock directory "@,
            path@,
            error@,
        ),
        LockProblem::OpenCoordination { path, error } => lock_failure(
            "failed to open thread writer coordination lock "@,
            path@,
            error@,
        ),
        LockProblem::TakeCoordination { path, error } => lock_failure(
            "failed to acquire thread writer coordination lock "@,
            path@,
            error@,
        ),
        LockProblem::OpenWriter { path, error } => lock_failure(
            "failed to open thread writer lock "@,
            path@,
            error@,
        ),
        LockProblem::TakeWriter { path, error } => lock_failure(
            "failed to acquire thread writer lock "@,
            path@,
            error@,
        ),
        LockProblem::Busy { thread_id } => ErrorView::Conflict(
            "thread "@ + thread_id.text() + " already has an active writer"@,
        ),
        LockProblem::OpenLifecycle { path, error } => lock_failure(
            "failed to open thread lifecycle lock "@,
            path@,
            error@,
        ),
        LockProblem::TakeLifecycle { path, error } => lock_failure(
            "failed to acquire thread lifecycle lock "@,
            path@,
            error@,
        ),
        LockProblem::UnexpectedReply => ErrorView::Internal(
            "the reply does not answer the action"@,
        ),
    }
}

fn lock_error(what: &str, path: &RolloutPath, error: &str) -> (r: ThreadStoreError)
    ensures
        r@ == lock_failure(what@, path@, error@),
{
    ThreadStoreError::Internal { message: concat4(what, path.text.as_str(), ": ", error) }
}

impl LockProblem {
    /// The error that the problem is reported as.
    pub fn to_error(self) -> (r: ThreadStoreError)
        ensures
            r@ == lock_problem_view(self),
    {
        match self {
            LockProblem::Directory { path, error } => lock_error(
                "failed to create thread writer lock directory ",
                &path,
                error.as_str(),
            ),
            LockProblem::OpenCoordination { path, error } => lock_error(
                "failed to open thread writer coordination lock ",
                &path,
                error.as_str(),
            ),
            LockProblem::TakeCoordination { path, error } => lock_error(
                "failed to acquire thread writer coordination lock ",
                &path,
                error.as_str(),
            ),
            LockProblem::OpenWriter { path, error } => lock_error(
                "failed to open thread writer lock ",
                &path,
                error.as_str(),
            ),
            LockProblem::TakeWriter { path, error } => lock_error(
                "failed to acquire thread writer lock ",
                &path,
                error.as_str(),
            ),
            LockProblem::Busy { thread_id } => ThreadStoreError::Conflict {
                message: concat3(
                    "thread ",
                    thread_id.to_text().as_str(),
                    " already has an active writer",
                ),
            },
            LockProblem::OpenLifecycle { path, error } => lock_error(
                "failed to open thread lifecycle lock ",
                &path,
                error.as_str(),
            ),
            LockProblem::TakeLifecycle { path, error } => lock_error(
                "failed to acquire thread lifecycle lock ",
                &path,
                error.as_str(),
            ),
            LockProblem::UnexpectedReply => ThreadStoreError::Internal {
                message: "the reply does not answer the action".to_owned(),
            },
        }
    }
}

/// Where an operation on locks stands: it asks for something, or it has ended.
#[derive(Debug)]
pub enum LockStep<M> {
    Ask(M, LockAction),
    End(Result<(), LockProblem>),
}

impl WriterLockCoordinator {
    /// The coordinator of the locks below a home directory.
    pub fn new(codex_home: &RolloutPath) -> (r: Self)
        ensures
            r.directory@ == lock_directory(codex_home@),
            !r.cleanup_attempted,
    {
        WriterLockCoordinator {
            directory: codex_home.join("thread-writer-locks"),
            cleanup_attempted: false,
        }
    }

    /// Notes that stale locks have been looked for, and tells whether they had been before.
    pub fn mark_cleanup_attempted(&mut self) -> (r: bool)
        ensures
            r == old(self).cleanup_attempted,
            final(self).cleanup_attempted,
            final(self).directory == old(self).directory,
    {
        let before: bool = self.cleanup_attempted;
        self.cleanup_attempted = true;
        before
    }

    /// The file that coordinates all writer locks.
    pub fn coordination_lock_path(&self) -> (r: RolloutPath)
        ensures
            r@ == coordination_lock_of(self.directory@),
    {
        self.directory.join(".coordination.lock")
    }

    /// The writer lock of a thread.
    pub fn writer_lock_path(&self, thread_id: ThreadId) -> (r: RolloutPath)
        ensures
            r@ == writer_lock_of(self.directory@, thread_id),
    {
        self.directory.join(concat2(thread_id.to_text().as_str(), ".lock").as_str())
    }

    /// The lifecycle lock of a thread.
    pub fn lifecycle_lock_path(&self, thread_id: ThreadId) -> (r: RolloutPath)
        ensures
            r@ == lifecycle_lock_of(self.directory@, thread_id),
    {
        self.directory.join(concat2(thread_id.to_text().as_str(), ".lifecycle.lock").as_str())
    }

    /// The taking of the writer lock of a thread.
    pub fn acquire(&self, thread_id: ThreadId) -> (r: AcquireWriterLock)
        ensures
            r.thread_id == thread_id,
            r.files.directory == self.directory,
            r.files.coordination@ == coordination_lock_of(self.directory@),
            r.path@ == writer_lock_of(self.directory@, thread_id),
    {
        AcquireWriterLock {
            thread_id,
            files: self.coordination(),
            path: self.writer_lock_path(thread_id),
            stage: AcquireStage::Coordinating(CoordinationStage::Creating),
        }
    }

    /// The giving up of the writer lock of a thread.
    pub fn release(&self, thread_id: ThreadId) -> (r: ReleaseWriterLock)
        ensures
            r.files.directory == self.directory,
            r.files.coordination@ == coordination_lock_of(self.directory@),
            r.path@ == writer_lock_of(self.directory@, thread_id),
    {
        ReleaseWriterLock {
            files: self.coordination(),
            path: self.writer_lock_path(thread_id),
            stage: ReleaseStage::Coordinating(CoordinationStage::Creating),
        }
    }

    /// The taking of the lifecycle lock of a thread.
    pub fn acquire_lifecycle(&self, thread_id: ThreadId, mode: LifecycleLockMode) -> (r:
        AcquireLifecycleLock)
        ensures
            r.directory == self.directory,
            r.path@ == lifecycle_lock_of(self.directory@, thread_id),
            r.mode == mode,
    {
        AcquireLifecycleLock {
            directory: self.directory.clone(),
            path: self.lifecycle_lock_path(thread_id),
            mode,
            stage: CoordinationStage::Creating,
        }
    }

    fn coordination(&self) -> (r: CoordinationFiles)
        ensures
            r.directory == self.directory,
            r.coordination@ == coordination_lock_of(self.directory@),
    {
        CoordinationFiles {
            directory: self.directory.clone(),
            coordination: self.coordination_lock_path(),
        }
    }
}

/// The directory of the locks, and the file that coordinates them.
#[derive(Debug)]
pub struct CoordinationFiles {
    pub directory: RolloutPath,
    pub coordination: RolloutPath,
}

/// The steps towards a lock that is waited for.
#[derive(Clone, Copy, Debug, PartialEq, Eq, Structural)]
pub enum CoordinationStage {
    Creating,
    Opening,
    Locking,
}

/// Where the wait for the coordination lock goes from a reply: on to another step, to the lock
/// itself, or to a problem.
pub enum Coordinated {
    Step(CoordinationStage, LockAction),
    Held,
    Problem(LockProblem),
}

impl CoordinationFiles {
    /// Where the wait for the coordination lock goes from a reply.
    pub open spec fn next(self, stage: CoordinationStage, reply: LockReply) -> Coordinated {
        match (stage, reply) {
            (CoordinationStage::Creating, LockReply::Done) => Coordinated::Step(
                CoordinationStage::Opening,
                LockAction::Open { path: self.coordination },
            ),
            (CoordinationStage::Creating, LockReply::Failed(error)) => Coordinated::Problem(
                LockProblem::Directory { path: self.directory, error },
            ),
            (CoordinationStage::Opening, LockReply::Done) => Coordinated::Step(
                CoordinationStage::Locking,
                LockAction::Lock { path: self.coordination, mode: LifecycleLockMode::Exclusive },
            ),
            (CoordinationStage::Opening, LockReply::Failed(error)) => Coordinated::Problem(
                LockProblem::OpenCoordination { path: self.coordination, error },
            ),
            (CoordinationStage::Locking, LockReply::Done) => Coordinated::Held,
            (CoordinationStage::Locking, LockReply::Failed(error)) => Coordinated::Problem(
                LockProblem::TakeCoordination { path: self.coordination, error },
            ),
            _ => Coordinated::Problem(LockProblem::UnexpectedReply),
        }
    }

    fn advance(&self, stage: CoordinationStage, reply: LockReply) -> (r: Coordinated)
        ensures
            r == self.next(stage, reply),
    {
        match (stage, reply) {
            (CoordinationStage::Creating, LockReply::Done) => Coordinated::Step(
                CoordinationStage::Opening,
                LockAction::Open { path: self.coordination.clone() },
            ),
            (CoordinationStage::Creating, LockReply::Failed(error)) => Coordinated::Problem(
                LockProblem::Directory { path: self.directory.clone(), error },
            ),
            (CoordinationStage::Opening, LockReply::Done) => Coordinated::Step(
                CoordinationStage::Locking,
                LockAction::Lock {
                    path: self.coordination.clone(),
                    mode: LifecycleLockMode::Exclusive,
                },
            ),
            (CoordinationStage::Opening, LockReply::Failed(error)) => Coordinated::Problem(
                LockProblem::OpenCoordination { path: self.coordination.clone(), error },
            ),
            (CoordinationStage::Locking, LockReply::Done) => Coordinated::Held,
            (CoordinationStage::Locking, LockReply::Failed(error)) => Coordinated::Problem(
                LockProblem::TakeCoordination { path: self.coordination.clone(), error },
            ),
            _ => Coordinated::Problem(LockProblem::UnexpectedReply),
        }
    }
}

/// The taking of the writer lock of a thread. The coordination lock is given up at its end.
#[derive(Debug)]
pub struct AcquireWriterLock {
    pub thread_id: ThreadId,
    pub files: CoordinationFiles,
    pub path: RolloutPath,
    pub stage: AcquireStage,
}

/// The steps of taking a writer lock.
#[allow(inconsistent_fields)]
#[derive(Debug)]
pub enum AcquireStage {
    Coordinating(CoordinationStage),
    Marking,
    Listing,
    Entering,
    OpeningStale { path: RolloutPath },
    TryingStale { path: RolloutPath },
    ClosingStale { path: RolloutPath },
    RemovingStale,
    Opening,
    Trying,
}

impl AcquireWriterLock {
    pub open spec fn ask(self, stage: AcquireStage, action: LockAction) -> LockStep<
        AcquireWriterLock,
    > {
        LockStep::Ask(AcquireWriterLock { stage, ..self }, action)
    }

    pub open spec fn opening(self) -> LockStep<AcquireWriterLock> {
        self.ask(AcquireStage::Opening, LockAction::Open { path: self.path })
    }

    pub open spec fn entering(self) -> LockStep<AcquireWriterLock> {
        self.ask(AcquireStage::Entering, LockAction::NextEntry)
    }

    /// The taking, before anything has been asked.
    pub open spec fn begun(self) -> LockStep<AcquireWriterLock> {
        self.ask(
            AcquireStage::Coordinating(CoordinationStage::Creating),
            LockAction::CreateDirectory { path: self.files.directory },
        )
    }

    /// Whether a step stands for an entry of the lock directory: an entry that is the writer lock
    /// of some thread is opened, and any other is passed over.
    pub open spec fn entered(self, name: Option<String>, step: LockStep<AcquireWriterLock>) -> bool {
        if name is Some && is_writer_lock_name(name->0@) {
            &&& step is Ask
            &&& step->Ask_0.stage is OpeningStale
            &&& step->Ask_0.stage->OpeningStale_path@ == child(self.files.directory@, name->0@)
            &&& step == self.ask(
                step->Ask_0.stage,
                LockAction::OpenExisting { path: step->Ask_0.stage->OpeningStale_path },
            )
        } else {
            step == self.entering()
        }
    }

    /// Where the taking goes from a reply, but for the entries of the lock directory.
    pub open spec fn next(self, reply: LockReply) -> LockStep<AcquireWriterLock> {
        match (self.stage, reply) {
            (AcquireStage::Coordinating(stage), reply) => match self.files.next(stage, reply) {
                Coordinated::Step(stage, action) => self.ask(
                    AcquireStage::Coordinating(stage),
                    action,
                ),
                Coordinated::Held => self.ask(
                    AcquireStage::Marking,
                    LockAction::MarkCleanupAttempted,
                ),
                Coordinated::Problem(problem) => LockStep::End(Err(problem)),
            },
            (AcquireStage::Marking, LockReply::Answer(attempted)) => if attempted {
                self.opening()
            } else {
                self.ask(AcquireStage::Listing, LockAction::List { path: self.files.directory })
            },
            (AcquireStage::Listing, LockReply::Done) => self.entering(),
            (AcquireStage::Listing, _) => self.opening(),
            (AcquireStage::Entering, _) => self.opening(),
            (AcquireStage::OpeningStale { path }, LockReply::Done) => self.ask(
                AcquireStage::TryingStale { path },
                LockAction::TryLock { path },
            ),
            (AcquireStage::OpeningStale { .. }, _) => self.entering(),
            (AcquireStage::TryingStale { path }, LockReply::Answer(true)) => self.ask(
                AcquireStage::ClosingStale { path },
                LockAction::Close { path },
            ),
            (AcquireStage::TryingStale { .. }, _) => self.entering(),
            (AcquireStage::ClosingStale { path }, _) => self.ask(
                AcquireStage::RemovingStale,
                LockAction::Remove { path },
            ),
            (AcquireStage::RemovingStale, _) => self.entering(),
            (AcquireStage::Opening, LockReply::Done) => self.ask(
                AcquireStage::Trying,
                LockAction::TryLock { path: self.path },
            ),
            (AcquireStage::Opening, LockReply::Failed(error)) => LockStep::End(
                Err(LockProblem::OpenWriter { path: self.path, error }),
            ),
            (AcquireStage::Trying, LockReply::Answer(true)) => LockStep::End(Ok(())),
            (AcquireStage::Trying, LockReply::Answer(false)) => LockStep::End(
                Err(LockProblem::Busy { thread_id: self.thread_id }),
            ),
            (AcquireStage::Trying, LockReply::Failed(error)) => LockStep::End(
                Err(LockProblem::TakeWriter { path: self.path, error }),
            ),
            _ => LockStep::End(Err(LockProblem::UnexpectedReply)),
        }
    }

    /// Whether the taking may go from a reply to a step.
    pub open spec fn steps_to(self, reply: LockReply, step: LockStep<AcquireWriterLock>) -> bool {
        if self.stage is Entering && reply is Entry {
            self.entered(reply->Entry_0, step)
        } else {
            step == self.next(reply)
        }
    }

    /// Begins with the directory of the locks.
    pub fn begin(self) -> (r: LockStep<AcquireWriterLock>)
        ensures
            r == self.begun(),
    {
        let path: RolloutPath = self.files.directory.clone();
        self.go(
            AcquireStage::Coordinating(CoordinationStage::Creating),
            LockAction::CreateDirectory { path },
        )
    }

    fn go(self, stage: AcquireStage, action: LockAction) -> (r: LockStep<AcquireWriterLock>)
        ensures
            r == self.ask(stage, action),
    {
        LockStep::Ask(AcquireWriterLock { stage, ..self }, action)
    }

    fn open(self) -> (r: LockStep<AcquireWriterLock>)
        ensures
            r == self.opening(),
    {
        let path: RolloutPath = self.path.clone();
        self.go(AcquireStage::Opening, LockAction::Open { path })
    }

    fn enter(self) -> (r: LockStep<AcquireWriterLock>)
        ensures
            r == self.entering(),
    {
        self.go(AcquireStage::Entering, LockAction::NextEntry)
    }

    fn take_entry(self, name: Option<String>) -> (r: LockStep<AcquireWriterLock>)
        ensures
            self.entered(name, r),
    {
        match &name {
            Some(text) => {
                if names_writer_lock(text.as_str()) {
                    let path: RolloutPath = self.files.directory.join(text.as_str());
                    let opened: RolloutPath = path.clone();
                    return self.go(
                        AcquireStage::OpeningStale { path },
                        LockAction::OpenExisting { path: opened },
                    );
                }
            },
            None => {},
        }
        self.enter()
    }

    /// Carries the taking on from a reply.
    #[verifier::rlimit(30)]
    pub fn advance(self, reply: LockReply) -> (r: LockStep<AcquireWriterLock>)
        ensures
            self.steps_to(reply, r),
    {
        let AcquireWriterLock { thread_id, files, path, stage } = self;
        let this = AcquireWriterLock { thread_id, files, path, stage: AcquireStage::Marking };
        match (stage, reply) {
            (AcquireStage::Coordinating(stage), reply) => match this.files.advance(stage, reply) {
                Coordinated::Step(stage, action) => this.go(
                    AcquireStage::Coordinating(stage),
                    action,
                ),
                Coordinated::Held => this.go(
                    AcquireStage::Marking,
                    LockAction::MarkCleanupAttempted,
                ),
                Coordinated::Problem(problem) => LockStep::End(Err(problem)),
            },
            (AcquireStage::Marking, LockReply::Answer(attempted)) => {
                if attempted {
                    this.open()
                } else {
                    let directory: RolloutPath = this.files.directory.clone();
                    this.go(AcquireStage::Listing, LockAction::List { path: directory })
                }
            },
            (AcquireStage::Listing, LockReply::Done) => this.enter(),
            (AcquireStage::Listing, _) => this.open(),
            (AcquireStage::Entering, LockReply::Entry(name)) => this.take_entry(name),
            (AcquireStage::Entering, _) => this.open(),
            (AcquireStage::OpeningStale { path }, LockReply::Done) => {
                let tried: RolloutPath = path.clone();
                this.go(AcquireStage::TryingStale { path }, LockAction::TryLock { path: tried })
            },
            (AcquireStage::OpeningStale { .. }, _) => this.enter(),
            (AcquireStage::TryingStale { path }, LockReply::Answer(true)) => {
                let closed: RolloutPath = path.clone();
                this.go(AcquireStage::ClosingStale { path }, LockAction::Close { path: closed })
            },
            (AcquireStage::TryingStale { .. }, _) => this.enter(),
            (AcquireStage::ClosingStale { path }, _) => this.go(
                AcquireStage::RemovingStale,
                LockAction::Remove { path },
            ),
            (AcquireStage::RemovingStale, _) => this.enter(),
            (AcquireStage::Opening, LockReply::Done) => {
                let tried: RolloutPath = this.path.clone();
                this.go(AcquireStage::Trying, LockAction::TryLock { path: tried })
            },
            (AcquireStage::Opening, LockReply::Failed(error)) => LockStep::End(
                Err(LockProblem::OpenWriter { path: this.path, error }),
            ),
            (AcquireStage::Trying, LockReply::Answer(true)) => LockStep::End(Ok(())),
            (AcquireStage::Trying, LockReply::Answer(false)) => LockStep::End(
                Err(LockProblem::Busy { thread_id }),
            ),
            (AcquireStage::Trying, LockReply::Failed(error)) => LockStep::End(
                Err(LockProblem::TakeWriter { path: this.path, error }),
            ),
            _ => LockStep::End(Err(LockProblem::UnexpectedReply)),
        }
    }
}

/// The giving up of a writer lock. The coordination lock is given up at its end.
#[derive(Debug)]
pub struct ReleaseWriterLock {
    pub files: CoordinationFiles,
    pub path: RolloutPath,
    pub stage: ReleaseStage,
}

/// The steps of giving up a writer lock.
#[derive(Clone, Copy, Debug, PartialEq, Eq, Structural)]
pub enum ReleaseStage {
    Coordinating(CoordinationStage),
    Closing,
    Removing,
}

impl ReleaseWriterLock {
    pub open spec fn ask(self, stage: ReleaseStage, action: LockAction) -> LockStep<
        ReleaseWriterLock,
    > {
        LockStep::Ask(ReleaseWriterLock { stage, ..self }, action)
    }

    /// The giving up, before anything has been asked.
    pub open spec fn begun(self) -> LockStep<ReleaseWriterLock> {
        self.ask(
            ReleaseStage::Coordinating(CoordinationStage::Creating),
            LockAction::CreateDirectory { path: self.files.directory },
        )
    }

    /// Where the giving up goes from a reply. The lock is closed before its file is removed.
    pub open spec fn next(self, reply: LockReply) -> LockStep<ReleaseWriterLock> {
        match self.stage {
            ReleaseStage::Coordinating(stage) => match self.files.next(stage, reply) {
                Coordinated::Step(stage, action) => self.ask(
                    ReleaseStage::Coordinating(stage),
                    action,
                ),
                Coordinated::Held => self.ask(
                    ReleaseStage::Closing,
                    LockAction::Close { path: self.path },
                ),
                Coordinated::Problem(problem) => LockStep::End(Err(problem)),
            },
            ReleaseStage::Closing => self.ask(
                ReleaseStage::Removing,
                LockAction::Remove { path: self.path },
            ),
            ReleaseStage::Removing => LockStep::End(Ok(())),
        }
    }

    /// Begins with the directory of the locks.
    pub fn begin(self) -> (r: LockStep<ReleaseWriterLock>)
        ensures
            r == self.begun(),
    {
        let path: RolloutPath = self.files.directory.clone();
        self.go(
            ReleaseStage::Coordinating(CoordinationStage::Creating),
            LockAction::CreateDirectory { path },
        )
    }

    fn go(self, stage: ReleaseStage, action: LockAction) -> (r: LockStep<ReleaseWriterLock>)
        ensures
            r == self.ask(stage, action),
    {
        LockStep::Ask(ReleaseWriterLock { stage, ..self }, action)
    }

    /// Carries the giving up on from a reply.
    pub fn advance(self, reply: LockReply) -> (r: LockStep<ReleaseWriterLock>)
        ensures
            r == self.next(reply),
    {
        match self.stage {
            ReleaseStage::Coordinating(stage) => match self.files.advance(stage, reply) {
                Coordinated::Step(stage, action) => self.go(
                    ReleaseStage::Coordinating(stage),
                    action,
                ),
                Coordinated::Held => {
                    let path: RolloutPath = self.path.clone();
                    self.go(ReleaseStage::Closing, LockAction::Close { path })
                },
                Coordinated::Problem(problem) => LockStep::End(Err(problem)),
            },
            ReleaseStage::Closing => {
                let path: RolloutPath = self.path.clone();
                self.go(ReleaseStage::Removing, LockAction::Remove { path })
            },
            ReleaseStage::Removing => LockStep::End(Ok(())),
        }
    }
}

/// The taking of a lifecycle lock.
#[derive(Debug)]
pub struct AcquireLifecycleLock {
    pub directory: RolloutPath,
    pub path: RolloutPath,
    pub mode: LifecycleLockMode,
    pub stage: CoordinationStage,
}

impl AcquireLifecycleLock {
    pub open spec fn ask(self, stage: CoordinationStage, action: LockAction) -> LockStep<
        AcquireLifecycleLock,
    > {
        LockStep::Ask(AcquireLifecycleLock { stage, ..self }, action)
    }

    /// The taking, before anything has been asked.
    pub open spec fn begun(self) -> LockStep<AcquireLifecycleLock> {
        self.ask(
            CoordinationStage::Creating,
            LockAction::CreateDirectory { path: self.directory },
        )
    }

    /// Where the taking goes from a reply.
    pub open spec fn next(self, reply: LockReply) -> LockStep<AcquireLifecycleLock> {
        match (self.stage, reply) {
            (CoordinationStage::Creating, LockReply::Done) => self.ask(
                CoordinationStage::Opening,
                LockAction::Open { path: self.path },
            ),
            (CoordinationStage::Creating, LockReply::Failed(error)) => LockStep::End(
                Err(LockProblem::Directory { path: self.directory, error }),
            ),
            (CoordinationStage::Opening, LockReply::Done) => self.ask(
                CoordinationStage::Locking,
                LockAction::Lock { path: self.path, mode: self.mode },
            ),
            (CoordinationStage::Opening, LockReply::Failed(error)) => LockStep::End(
                Err(LockProblem::OpenLifecycle { path: self.path, error }),
            ),
            (CoordinationStage::Locking, LockReply::Done) => LockStep::End(Ok(())),
            (CoordinationStage::Locking, LockReply::Failed(error)) => LockStep::End(
                Err(LockProblem::TakeLifecycle { path: self.path, error }),
            ),
            _ => LockStep::End(Err(LockProblem::UnexpectedReply)),
        }
    }

    /// Begins with the directory of the locks.
    pub fn begin(self) -> (r: LockStep<AcquireLifecycleLock>)
        ensures
            r == self.begun(),
    {
        let path: RolloutPath = self.directory.clone();
        self.go(CoordinationStage::Creating, LockAction::CreateDirectory { path })
    }

    fn go(self, stage: CoordinationStage, action: LockAction) -> (r: LockStep<
        AcquireLifecycleLock,
    >)
        ensures
            r == self.ask(stage, action),
    {
        LockStep::Ask(AcquireLifecycleLock { stage, ..self }, action)
    }

    /// Carries the taking on from a reply.
    pub fn advance(self, reply: LockReply) -> (r: LockStep<AcquireLifecycleLock>)
        ensures
            r == self.next(reply),
    {
        match (self.stage, reply) {
            (CoordinationStage::Creating, LockReply::Done) => {
                let path: RolloutPath = self.path.clone();
                self.go(CoordinationStage::Opening, LockAction::Open { path })
            },
            (CoordinationStage::Creating, LockReply::Failed(error)) => LockStep::End(
                Err(LockProblem::Directory { path: self.directory, error }),
            ),
            (CoordinationStage::Opening, LockReply::Done) => {
                let path: RolloutPath = self.path.clone();
                let mode: LifecycleLockMode = self.mode;
                self.go(CoordinationStage::Locking, LockAction::Lock { path, mode })
            },
            (CoordinationStage::Opening, LockReply::Failed(error)) => LockStep::End(
                Err(LockProblem::OpenLifecycle { path: self.path, error }),
            ),
            (CoordinationStage::Locking, LockReply::Done) => LockStep::End(Ok(())),
            (CoordinationStage::Locking, LockReply::Failed(error)) => LockStep::End(
                Err(LockProblem::TakeLifecycle { path: self.path, error }),
            ),
            _ => LockStep::End(Err(LockProblem::UnexpectedReply)),
        }
    }
}

/// The path of a lock file that an action opens, tries or removes, where it does so.
pub open spec fn touched_lock(action: LockAction) -> Option<RolloutPath> {
    match action {
        LockAction::Open { path } => Some(path),
        LockAction::OpenExisting { path } => Some(path),
        LockAction::TryLock { path } => Some(path),
        LockAction::Remove { path } => Some(path),
        _ => None,
    }
}

/// Whether a path is that of the writer lock of some thread, by its name.
pub open spec fn is_writer_lock_path(directory: Seq<char>, path: Seq<char>) -> bool {
    exists|name: Seq<char>| #[trigger] is_writer_lock_name(name) && path == child(directory, name)
}

/// Whether a stage knows only paths of writer locks.
pub open spec fn stale_paths_are_writer_locks(m: AcquireWriterLock) -> bool {
    match m.stage {
        AcquireStage::OpeningStale { path } => is_writer_lock_path(m.files.directory@, path@),
        AcquireStage::TryingStale { path } => is_writer_lock_path(m.files.directory@, path@),
        AcquireStage::ClosingStale { path } => is_writer_lock_path(m.files.directory@, path@),
        _ => true,
    }
}

/// A writer lock is opened, tried and removed only once the coordination lock is held: until then
/// no lock file but that of the coordination is touched, and once it is held nothing is closed
/// before the end but a stale lock.
pub proof fn writer_locks_are_touched_only_under_coordination(
    m: AcquireWriterLock,
    reply: LockReply,
    step: LockStep<AcquireWriterLock>,
)
    requires
        m.steps_to(reply, step),
    ensures
        step matches LockStep::Ask(next, action) ==> {
            &&& next.files == m.files && next.path == m.path && next.thread_id == m.thread_id
            &&& m.stage is Coordinating ==> touched_lock(action) is None || touched_lock(action)
                == Some(m.files.coordination)
            &&& next.stage !is Coordinating ==> m.stage !is Coordinating || (m.stage
                == AcquireStage::Coordinating(CoordinationStage::Locking) && reply is Done)
            &&& m.stage !is Coordinating ==> next.stage !is Coordinating
            &&& action is Close ==> m.stage == (AcquireStage::TryingStale {
                path: action->Close_path,
            })
        },
{
}

/// The writer lock of a thread is handed out only where nobody else held it, and is refused as
/// busy only where somebody did.
pub proof fn writer_locks_are_exclusive(m: AcquireWriterLock, reply: LockReply)
    ensures
        m.stage is Trying ==> {
            &&& m.next(reply) == LockStep::<AcquireWriterLock>::End(Ok(())) <==> reply
                == LockReply::Answer(true)
            &&& m.next(reply) == LockStep::<AcquireWriterLock>::End(
                Err(LockProblem::Busy { thread_id: m.thread_id }),
            ) <==> reply == LockReply::Answer(false)
        },
        m.next(reply) == LockStep::<AcquireWriterLock>::End(Ok(())) ==> m.stage is Trying,
{
}

/// Cleaning up removes only writer locks, and only those that nobody holds.
pub proof fn only_free_writer_locks_are_cleaned_up(
    m: AcquireWriterLock,
    reply: LockReply,
    step: LockStep<AcquireWriterLock>,
)
    requires
        stale_paths_are_writer_locks(m),
        m.steps_to(reply, step),
    ensures
        step matches LockStep::Ask(next, action) ==> {
            &&& stale_paths_are_writer_locks(next)
            &&& action matches LockAction::Remove { path } ==> {
                &&& m.stage == (AcquireStage::ClosingStale { path })
                &&& is_writer_lock_path(m.files.directory@, path@)
            }
            &&& next.stage is ClosingStale ==> {
                &&& m.stage == (AcquireStage::TryingStale {
                    path: next.stage->ClosingStale_path,
                })
                &&& reply == LockReply::Answer(true)
            }
        },
{
    if m.stage is Entering && reply is Entry {
        let name = reply->Entry_0;
        if name is Some && is_writer_lock_name(name->0@) {
            assert(is_writer_lock_path(m.files.directory@, child(m.files.directory@, name->0@)));
        }
    }
}

/// A lifecycle lock is never taken for a writer lock, so cleaning up leaves it in place.
pub proof fn lifecycle_locks_are_left_in_place(thread_id: ThreadId)
    ensures
        !is_writer_lock_name(thread_id.text() + ".lifecycle.lock"@),
{
    let name = thread_id.text() + ".lifecycle.lock"@;
    assert(name.skip(thread_id.text().len() as int) =~= ".lifecycle.lock"@);
    assert(".lifecycle.lock"@.is_suffix_of(name));
}

/// A writer lock is closed before its file is removed, and both happen under the coordination
/// lock.
pub proof fn writer_locks_are_closed_before_they_are_removed(
    m: ReleaseWriterLock,
    reply: LockReply,
)
    ensures
        m.next(reply) matches LockStep::Ask(next, action) ==> {
            &&& next.files == m.files && next.path == m.path
            &&& action is Remove ==> m.stage == ReleaseStage::Closing && action
                == (LockAction::Remove { path: m.path })
            &&& next.stage == ReleaseStage::Closing ==> {
                &&& m.stage == ReleaseStage::Coordinating(CoordinationStage::Locking)
                &&& reply is Done
                &&& action == (LockAction::Close { path: m.path })
            }
        },
{
}

} // verus!
