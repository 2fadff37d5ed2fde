//! What is done with lock files, in which order, and what keeps a lock from being taken.

use crate::error::spelled_thread_id;
use crate::error::ErrorView;
use crate::error::ThreadId;
use crate::paths::child;
use crate::paths::RolloutPath;
use crate::writer_lock::coordination_lock_of;
use crate::writer_lock::is_writer_lock_name;
use crate::writer_lock::lifecycle_lock_of;
use crate::writer_lock::lock_directory;
use crate::writer_lock::lock_problem_view;
use crate::writer_lock::writer_lock_of;
use crate::writer_lock::AcquireLifecycleLock;
use crate::writer_lock::AcquireStage;
use crate::writer_lock::AcquireWriterLock;
use crate::writer_lock::CoordinationStage;
use crate::writer_lock::LifecycleLockMode;
use crate::writer_lock::LockAction;
use crate::writer_lock::LockProblem;
use crate::writer_lock::LockReply;
use crate::writer_lock::LockStep;
use crate::writer_lock::ReleaseStage;
use crate::writer_lock::ReleaseWriterLock;
use vstd::prelude::*;

verus! {

/// A writer lock is taken under the coordination lock: the directory is made, the coordination file
/// opened and locked alone, and only then is it noted that stale locks are looked for.
pub proof fn writer_locks_begin_with_coordination(m: AcquireWriterLock, error: String)
    requires
        m.stage == AcquireStage::Coordinating(CoordinationStage::Creating),
    ensures
        ({
            let made = m.next(LockReply::Done);
            let opened = made->Ask_0.next(LockReply::Done);
            let held = opened->Ask_0.next(LockReply::Done);
            let fails = |problem: LockProblem| LockStep::<AcquireWriterLock>::End(Err(problem));
            &&& m.begun() == LockStep::Ask(
                m,
                LockAction::CreateDirectory { path: m.files.directory },
            )
            &&& made is Ask && made->Ask_1 == (LockAction::Open { path: m.files.coordination })
            &&& opened is Ask && opened->Ask_1 == (LockAction::Lock {
                path: m.files.coordination,
                mode: LifecycleLockMode::Exclusive,
            })
            &&& held is Ask && held->Ask_1 == LockAction::MarkCleanupAttempted
            &&& held->Ask_0.stage is Marking
            &&& m.next(LockReply::Failed(error)) == fails(
                LockProblem::Directory { path: m.files.directory, error },
            )
            &&& made->Ask_0.next(LockReply::Failed(error)) == fails(
                LockProblem::OpenCoordination { path: m.files.coordination, error },
            )
            &&& opened->Ask_0.next(LockReply::Failed(error)) == fails(
                LockProblem::TakeCoordination { path: m.files.coordination, error },
            )
        }),
{
}

/// Stale locks are looked for once: where they had been before, the lock of the thread is opened right
/// away; else the directory is listed, entry by entry, and the lock is opened at its end.
pub proof fn stale_locks_are_looked_for_once(m: AcquireWriterLock, error: String)
    ensures
        m.stage is Marking ==> {
            let again = m.next(LockReply::Answer(true));
            let first = m.next(LockReply::Answer(false));
            &&& again is Ask && again->Ask_1 == (LockAction::Open { path: m.path })
            &&& again->Ask_0.stage is Opening
            &&& first is Ask && first->Ask_1 == (LockAction::List { path: m.files.directory })
            &&& first->Ask_0.stage is Listing
        },
        m.stage is Listing ==> {
            let listed = m.next(LockReply::Done);
            let unlisted = m.next(LockReply::Failed(error));
            &&& listed is Ask && listed->Ask_1 == LockAction::NextEntry
            &&& listed->Ask_0.stage is Entering
            &&& unlisted is Ask && unlisted->Ask_1 == (LockAction::Open { path: m.path })
        },
        m.stage is Entering ==> {
            let ended = m.next(LockReply::NoMore);
            &&& ended is Ask && ended->Ask_1 == (LockAction::Open { path: m.path })
            &&& ended->Ask_0.stage is Opening
        },
{
}

/// Of the entries, the writer locks of threads are opened where they still exist; a lock that can be
/// taken is closed and removed; one that is held, and every other entry, is passed over.
pub proof fn free_stale_locks_are_removed(
    m: AcquireWriterLock,
    path: RolloutPath,
    name: Option<String>,
    reply: LockReply,
    step: LockStep<AcquireWriterLock>,
)
    ensures
        m.stage == (AcquireStage::OpeningStale { path }) ==> {
            let opened = m.next(LockReply::Done);
            let gone = m.next(LockReply::NotFound);
            &&& opened is Ask && opened->Ask_1 == (LockAction::TryLock { path })
            &&& opened->Ask_0.stage == (AcquireStage::TryingStale { path })
            &&& gone is Ask && gone->Ask_1 == LockAction::NextEntry
        },
        m.stage == (AcquireStage::TryingStale { path }) ==> {
            let free = m.next(LockReply::Answer(true));
            let busy = m.next(LockReply::Answer(false));
            &&& free is Ask && free->Ask_1 == (LockAction::Close { path })
            &&& free->Ask_0.next(reply) is Ask
            &&& free->Ask_0.next(reply)->Ask_1 == (LockAction::Remove { path })
            &&& free->Ask_0.next(reply)->Ask_0.next(reply) is Ask
            &&& free->Ask_0.next(reply)->Ask_0.next(reply)->Ask_1 == LockAction::NextEntry
            &&& busy is Ask && busy->Ask_1 == LockAction::NextEntry
        },
        m.stage is Entering && m.steps_to(LockReply::Entry(name), step) ==> {
            &&& step is Ask
            &&& name is Some && is_writer_lock_name(name->0@) ==> step->Ask_1 is OpenExisting
                && step->Ask_1->OpenExisting_path@ == child(m.files.directory@, name->0@)
                && step->Ask_0.stage == (AcquireStage::OpeningStale {
                path: step->Ask_1->OpenExisting_path,
            })
            &&& name is None || !is_writer_lock_name(name->0@) ==> step->Ask_1
                == LockAction::NextEntry && step->Ask_0.stage is Entering
        },
{
}

/// The lock of the thread is opened and tried. Where nobody held it, it is taken; where somebody did,
/// the thread is busy.
pub proof fn writer_locks_are_taken_where_they_are_free(m: AcquireWriterLock, error: String)
    requires
        m.stage is Opening,
    ensures
        ({
            let opened = m.next(LockReply::Done);
            &&& opened is Ask && opened->Ask_1 == (LockAction::TryLock { path: m.path })
            &&& opened->Ask_0.next(LockReply::Answer(true)) == LockStep::<AcquireWriterLock>::End(
                Ok(()),
            )
            &&& opened->Ask_0.next(LockReply::Answer(false)) == LockStep::<AcquireWriterLock>::End(
                Err(LockProblem::Busy { thread_id: m.thread_id }),
            )
            &&& opened->Ask_0.next(LockReply::Failed(error)) == LockStep::<AcquireWriterLock>::End(
                Err(LockProblem::TakeWriter { path: m.path, error }),
            )
            &&& m.next(LockReply::Failed(error)) == LockStep::<AcquireWriterLock>::End(
                Err(LockProblem::OpenWriter { path: m.path, error }),
            )
        }),
{
}

/// A writer lock is given up under the coordination lock: its file is closed, then removed, and
/// whatever that comes to the lock is given up.
pub proof fn writer_locks_are_given_up_under_coordination(m: ReleaseWriterLock, reply: LockReply, error: String)
    requires
        m.stage == ReleaseStage::Coordinating(CoordinationStage::Creating),
    ensures
        ({
            let made = m.next(LockReply::Done);
            let opened = made->Ask_0.next(LockReply::Done);
            let held = opened->Ask_0.next(LockReply::Done);
            let closed = held->Ask_0.next(reply);
            &&& m.begun() == LockStep::Ask(
                m,
                LockAction::CreateDirectory { path: m.files.directory },
            )
            &&& made is Ask && made->Ask_1 == (LockAction::Open { path: m.files.coordination })
            &&& opened is Ask && opened->Ask_1 == (LockAction::Lock {
                path: m.files.coordination,
                mode: LifecycleLockMode::Exclusive,
            })
            &&& held is Ask && held->Ask_1 == (LockAction::Close { path: m.path })
            &&& closed is Ask && closed->Ask_1 == (LockAction::Remove { path: m.path })
            &&& closed->Ask_0.next(reply) == LockStep::<ReleaseWriterLock>::End(Ok(()))
            &&& m.next(LockReply::Failed(error)) == LockStep::<ReleaseWriterLock>::End(
                Err(LockProblem::Directory { path: m.files.directory, error }),
            )
        }),
{
}

/// A lifecycle lock is opened and then waited for, in the mode that was asked for.
pub proof fn lifecycle_locks_are_waited_for_in_their_mode(m: AcquireLifecycleLock, error: String)
    requires
        m.stage == CoordinationStage::Creating,
    ensures
        ({
            let made = m.next(LockReply::Done);
            let opened = made->Ask_0.next(LockReply::Done);
            let fails = |problem: LockProblem| LockStep::<AcquireLifecycleLock>::End(Err(problem));
            &&& m.begun() == LockStep::Ask(m, LockAction::CreateDirectory { path: m.directory })
            &&& made is Ask && made->Ask_1 == (LockAction::Open { path: m.path })
            &&& opened is Ask && opened->Ask_1 == (LockAction::Lock { path: m.path, mode: m.mode })
            &&& opened->Ask_0.next(LockReply::Done) == LockStep::<AcquireLifecycleLock>::End(Ok(()))
            &&& m.next(LockReply::Failed(error)) == fails(
                LockProblem::Directory { path: m.directory, error },
            )
            &&& made->Ask_0.next(LockReply::Failed(error)) == fails(
                LockProblem::OpenLifecycle { path: m.path, error },
            )
            &&& opened->Ask_0.next(LockReply::Failed(error)) == fails(
                LockProblem::TakeLifecycle { path: m.path, error },
            )
        }),
{
}

/// Where the locks stand: below the home directory, one file per thread and kind.
pub proof fn locks_stand_below_the_home_directory(home: Seq<char>, thread_id: ThreadId)
    requires
        home.len() > 0,
        home.last() != '/',
    ensures
        ({
            let directory = home + "/thread-writer-locks"@;
            &&& lock_directory(home) == directory
            &&& coordination_lock_of(directory) == directory + "/.coordination.lock"@
            &&& writer_lock_of(directory, thread_id) == directory + "/"@ + thread_id.text()
                + ".lock"@
            &&& lifecycle_lock_of(directory, thread_id) == directory + "/"@ + thread_id.text()
                + ".lifecycle.lock"@
        }),
{
    let directory = home + "/thread-writer-locks"@;
    reveal_strlit("/");
    reveal_strlit("thread-writer-locks");
    reveal_strlit("/thread-writer-locks");
    reveal_strlit(".coordination.lock");
    reveal_strlit("/.coordination.lock");
    assert(directory.last() == 's');
    assert(lock_directory(home) =~= directory);
    assert(coordination_lock_of(directory) =~= directory + "/.coordination.lock"@);
    assert(writer_lock_of(directory, thread_id) =~= directory + "/"@ + thread_id.text()
        + ".lock"@);
    assert(lifecycle_lock_of(directory, thread_id) =~= directory + "/"@ + thread_id.text()
        + ".lifecycle.lock"@);
}

/// A thread whose writer lock is held is a conflict; every other problem with a lock is an internal
/// error that names the file.
pub proof fn busy_threads_are_conflicts(thread_id: ThreadId, path: RolloutPath, error: String)
    ensures
        lock_problem_view(LockProblem::Busy { thread_id }) == ErrorView::Conflict(
            "thread "@ + thread_id.text() + " already has an active writer"@,
        ),
        lock_problem_view(LockProblem::Directory { path, error }) == ErrorView::Internal(
            "failed to create thread writer lock directory "@ + path@ + ": "@ + error@,
        ),
        lock_problem_view(LockProblem::OpenCoordination { path, error }) == ErrorView::Internal(
            "failed to open thread writer coordination lock "@ + path@ + ": "@ + error@,
        ),
        lock_problem_view(LockProblem::TakeCoordination { path, error }) == ErrorView::Internal(
            "failed to acquire thread writer coordination lock "@ + path@ + ": "@ + error@,
        ),
        lock_problem_view(LockProblem::OpenWriter { path, error }) == ErrorView::Internal(
            "failed to open thread writer lock "@ + path@ + ": "@ + error@,
        ),
        lock_problem_view(LockProblem::TakeWriter { path, error }) == ErrorView::Internal(
            "failed to acquire thread writer lock "@ + path@ + ": "@ + error@,
        ),
        lock_problem_view(LockProblem::OpenLifecycle { path, error }) == ErrorView::Internal(
            "failed to open thread lifecycle lock "@ + path@ + ": "@ + error@,
        ),
        lock_problem_view(LockProblem::TakeLifecycle { path, error }) == ErrorView::Internal(
            "failed to acquire thread lifecycle lock "@ + path@ + ": "@ + error@,
        ),
        lock_problem_view(LockProblem::UnexpectedReply) is Internal,
{
}

/// The name of a writer lock is that of a thread followed by `.lock`; nothing else is one.
pub proof fn writer_lock_names_name_a_thread(stem: Seq<char>)
    ensures
        is_writer_lock_name(stem + ".lock"@) == (spelled_thread_id(stem) is Some
            && !".lifecycle.lock"@.is_suffix_of(stem + ".lock"@)),
{
    let name = stem + ".lock"@;
    assert(name.take(name.len() - ".lock"@.len()) =~= stem);
    assert(name.skip(stem.len() as int) =~= ".lock"@);
    assert(".lock"@.is_suffix_of(name));
}

/// Whatever step a taking may go to, an answer to the lock of the thread decides it: a free lock ends
/// it well, a held one as busy, and a failure is told with the file. The other replies lead to the
/// one step that goes with them, but for an entry of the directory.
pub proof fn takings_step_as_they_are_answered(
    m: AcquireWriterLock,
    path: RolloutPath,
    reply: LockReply,
    error: String,
    step: LockStep<AcquireWriterLock>,
)
    requires
        m.steps_to(reply, step),
    ensures
        m.stage is Trying && reply == LockReply::Answer(true) ==> step == LockStep::<
            AcquireWriterLock,
        >::End(Ok(())),
        m.stage is Trying && reply == LockReply::Answer(false) ==> step == LockStep::<
            AcquireWriterLock,
        >::End(Err(LockProblem::Busy { thread_id: m.thread_id })),
        m.stage is Trying && reply == LockReply::Failed(error) ==> step == LockStep::<
            AcquireWriterLock,
        >::End(Err(LockProblem::TakeWriter { path: m.path, error })),
        m.stage is Opening && reply is Done ==> step is Ask && step->Ask_1 == (LockAction::TryLock {
            path: m.path,
        }) && step->Ask_0 == (AcquireWriterLock { stage: AcquireStage::Trying, ..m }),
        m.stage is Entering && reply is NoMore ==> step is Ask && step->Ask_1 == (LockAction::Open {
            path: m.path,
        }) && step->Ask_0 == (AcquireWriterLock { stage: AcquireStage::Opening, ..m }),
        m.stage == (AcquireStage::TryingStale { path }) && reply == LockReply::Answer(true) ==> step
            is Ask && step->Ask_1 == (LockAction::Close { path }),
        m.stage == (AcquireStage::TryingStale { path }) && reply != LockReply::Answer(true) ==> step
            is Ask && step->Ask_1 == LockAction::NextEntry,
        m.stage !is Entering ==> step == m.next(reply),
{
}

} // verus!
