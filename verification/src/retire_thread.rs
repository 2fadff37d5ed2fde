//! The release of the preserved source of one thread, once no older writer is left.

use crate::error::ThreadId;
use crate::error::ThreadStoreError;
use crate::operations::StoreProblem;
use crate::paths::RolloutPath;
use crate::recovery::MigrationRecoveryHandle;
use crate::report::retirement_refused_outcome;
use crate::report::PreservedSourceRetirementOutcome;
use crate::report::PreservedSourceRetirementReport;
use crate::report::PreservedSourceRetirementStatus;
use crate::rollout::ThreadHistoryMode;
use crate::text::concat2;
use crate::text::concat3;
use vstd::prelude::*;

verus! {

/// Something that is asked before a preserved source is released.
#[allow(inconsistent_fields)]
#[derive(Debug, PartialEq, Eq)]
pub enum RetireAction {
    /// What does the retained record of a thread hold?
    ReadRetained { thread_id: ThreadId },
    /// Can a retained record be followed, given the rollout that is selected?
    Validate {
        thread_id: ThreadId,
        recovery: MigrationRecoveryHandle,
        selected: Option<RolloutPath>,
    },
    /// Does a path exist?
    Exists { path: RolloutPath },
    /// Where is a rollout now that is not where it was?
    FindCurrent { path: RolloutPath },
    /// Take the live writer lock and the writer lock of a thread.
    Lock { thread_id: ThreadId },
    /// Which thread does a rollout belong to, and how is it stored?
    ReadMetadata { path: RolloutPath },
    /// Release the preserved source of a retained record.
    Retire { thread_id: ThreadId, current: RolloutPath },
}

/// What was found or done.
#[derive(Debug, PartialEq, Eq)]
pub enum RetireReply {
    Done,
    Answer(bool),
    Record(Option<MigrationRecoveryHandle>),
    Found(Option<RolloutPath>),
    Metadata { id: ThreadId, history_mode: ThreadHistoryMode },
    Retired(Option<RolloutPath>),
    Rejected(ThreadStoreError),
    Failed(String),
}

/// Why a preserved source is not released.
#[derive(Debug, PartialEq, Eq)]
pub enum RetirementRefusal {
    /// The rollout that took the place of the source is gone.
    MissingRollout,
    /// Another party got in the way.
    Given(String),
    /// The head of the rollout could not be read.
    Unreadable(String),
    /// The rollout is that of another thread.
    OtherThread,
    /// The rollout does not use references.
    NotGated(ThreadHistoryMode),
    /// The retained record cannot be followed.
    Invalid(ThreadStoreError),
}

impl RetirementRefusal {
    /// The words of the refusal.
    pub open spec fn words(self) -> Seq<char> {
        match self {
            RetirementRefusal::MissingRollout => {
                "current rollout is missing; preserved source was not retired"@
            },
            RetirementRefusal::Given(message) => message@,
            RetirementRefusal::Unreadable(error) => {
                "current rollout could not be validated: "@ + error@
            },
            RetirementRefusal::OtherThread => "current rollout belongs to a different thread"@,
            RetirementRefusal::NotGated(mode) => {
                "current rollout is not gated paginated_refs_v1 (found "@ + mode.name() + ")"@
            },
            RetirementRefusal::Invalid(error) => error@.printed(),
        }
    }

    /// The words of the refusal.
    pub fn to_text(self) -> (r: String)
        ensures
            r@ == self.words(),
    {
        match self {
            RetirementRefusal::MissingRollout => {
                "current rollout is missing; preserved source was not retired".to_owned()
            },
            RetirementRefusal::Given(message) => message,
            RetirementRefusal::Unreadable(error) => concat2(
                "current rollout could not be validated: ",
                error.as_str(),
            ),
            RetirementRefusal::OtherThread => {
                "current rollout belongs to a different thread".to_owned()
            },
            RetirementRefusal::NotGated(mode) => concat3(
                "current rollout is not gated paginated_refs_v1 (found ",
                mode.as_str(),
                ")",
            ),
            RetirementRefusal::Invalid(error) => error.to_text(),
        }
    }
}

/// What became of a preserved source.
#[derive(Debug, PartialEq, Eq)]
pub struct RetirementVerdict {
    pub thread_id: ThreadId,
    pub rollout_path: RolloutPath,
    pub preserved_source_path: RolloutPath,
    /// Why the source was not released, where it was not.
    pub refusal: Option<RetirementRefusal>,
}

/// Whether a receipt reports a verdict.
pub open spec fn reports_retirement(
    outcome: PreservedSourceRetirementOutcome,
    it: RetirementVerdict,
) -> bool {
    &&& outcome.thread_id == it.thread_id
    &&& outcome.rollout_path == it.rollout_path
    &&& outcome.preserved_source_path == it.preserved_source_path
    &&& outcome.message is Some
    &&& match it.refusal {
        None => {
            &&& outcome.status == PreservedSourceRetirementStatus::Retired
            &&& outcome.message->0@ == "preserved legacy source retired after confirmed quiescence"@
        },
        Some(refusal) => {
            &&& outcome.status == PreservedSourceRetirementStatus::Refused
            &&& outcome.message->0@ == refusal.words()
        },
    }
}

impl RetirementVerdict {
    /// The receipt for the operator.
    pub fn to_outcome(self) -> (r: PreservedSourceRetirementOutcome)
        ensures
            reports_retirement(r, self),
    {
        let RetirementVerdict { thread_id, rollout_path, preserved_source_path, refusal } = self;
        match refusal {
            None => PreservedSourceRetirementOutcome {
                thread_id,
                rollout_path,
                preserved_source_path,
                status: PreservedSourceRetirementStatus::Retired,
                message: Some(
                    "preserved legacy source retired after confirmed quiescence".to_owned(),
                ),
            },
            Some(refusal) => retirement_refused_outcome(
                thread_id,
                rollout_path,
                preserved_source_path,
                refusal.to_text(),
            ),
        }
    }
}

impl PreservedSourceRetirementReport {
    /// Adds the receipt of one thread, where there is anything to report of it.
    pub fn take_verdict(&mut self, verdict: Option<RetirementVerdict>)
        ensures
            match verdict {
                Some(verdict) => {
                    &&& final(self).outcomes@.len() == old(self).outcomes@.len() + 1
                    &&& final(self).outcomes@.drop_last() == old(self).outcomes@
                    &&& reports_retirement(final(self).outcomes@.last(), verdict)
                },
                None => final(self).outcomes@ == old(self).outcomes@,
            },
    {
        if let Some(verdict) = verdict {
            let ghost before = self.outcomes@;
            self.outcomes.push(verdict.to_outcome());
            assert(self.outcomes@.drop_last() =~= before);
        }
    }
}

/// A retained record, with the rollout that took the place of its source.
#[derive(Debug)]
pub struct Retained {
    pub recovery: MigrationRecoveryHandle,
    pub current: RolloutPath,
}

/// The release of the preserved source of one thread.
#[derive(Debug)]
pub struct RetireThread {
    pub thread_id: ThreadId,
    pub stage: RetireThreadStage,
}

/// The steps of the release.
#[derive(Debug)]
pub enum RetireThreadStage {
    Reading,
    Validating(MigrationRecoveryHandle),
    CheckingPublished(MigrationRecoveryHandle),
    FindingPublished(MigrationRecoveryHandle),
    Locking(Retained),
    CheckingCurrent(Retained),
    FindingCurrent(Retained),
    ReadingHead(Retained),
    Revalidating(Retained),
    Retiring(Retained),
}

/// Where the release stands. It ends with what became of the source, or with nothing where there
/// is no retained record or no source to release.
#[derive(Debug)]
pub enum RetireStep {
    Ask(RetireThread, RetireAction),
    End(Result<Option<RetirementVerdict>, StoreProblem>),
}

/// The problem that a reply stands for, where it does not carry the release on.
pub open spec fn retire_reply_problem(reply: RetireReply) -> StoreProblem {
    match reply {
        RetireReply::Rejected(error) => StoreProblem::Rejected(error),
        RetireReply::Failed(message) => StoreProblem::Failed(message),
        _ => StoreProblem::UnexpectedReply,
    }
}

fn retire_problem_of(reply: RetireReply) -> (r: StoreProblem)
    ensures
        r == retire_reply_problem(reply),
{
    match reply {
        RetireReply::Rejected(error) => StoreProblem::Rejected(error),
        RetireReply::Failed(message) => StoreProblem::Failed(message),
        _ => StoreProblem::UnexpectedReply,
    }
}

/// Where a record says that the rollout stands that took the place of the source.
pub open spec fn recorded_rollout(recovery: MigrationRecoveryHandle) -> RolloutPath {
    match recovery.published_rollout_path {
        Some(path) => path,
        None => recovery.rollout_path,
    }
}

impl RetireThread {
    pub open spec fn ask(self, stage: RetireThreadStage, action: RetireAction) -> RetireStep {
        RetireStep::Ask(RetireThread { stage, ..self }, action)
    }

    /// The release comes to nothing, for a reason.
    pub open spec fn refused(
        self,
        rollout_path: RolloutPath,
        recovery: MigrationRecoveryHandle,
        refusal: RetirementRefusal,
    ) -> RetireStep {
        RetireStep::End(
            Ok(
                Some(
                    RetirementVerdict {
                        thread_id: self.thread_id,
                        rollout_path,
                        preserved_source_path: recovery.preserved_source_path,
                        refusal: Some(refusal),
                    },
                ),
            ),
        )
    }

    pub open spec fn locking(self, recovery: MigrationRecoveryHandle, current: RolloutPath) ->
        RetireStep {
        self.ask(
            RetireThreadStage::Locking(Retained { recovery, current }),
            RetireAction::Lock { thread_id: self.thread_id },
        )
    }

    pub open spec fn reading_head(self, retained: Retained) -> RetireStep {
        self.ask(
            RetireThreadStage::ReadingHead(retained),
            RetireAction::ReadMetadata { path: retained.current },
        )
    }

    /// The release, before anything has been asked.
    pub open spec fn begun(self) -> RetireStep {
        self.ask(
            RetireThreadStage::Reading,
            RetireAction::ReadRetained { thread_id: self.thread_id },
        )
    }

    /// What a readable head calls for.
    pub open spec fn head_read(
        self,
        retained: Retained,
        id: ThreadId,
        history_mode: ThreadHistoryMode,
    ) -> RetireStep {
        if id != self.thread_id {
            self.refused(retained.current, retained.recovery, RetirementRefusal::OtherThread)
        } else if history_mode != ThreadHistoryMode::PaginatedRefsV1 {
            self.refused(
                retained.current,
                retained.recovery,
                RetirementRefusal::NotGated(history_mode),
            )
        } else {
            self.ask(
                RetireThreadStage::Revalidating(retained),
                RetireAction::Validate {
                    thread_id: self.thread_id,
                    recovery: retained.recovery,
                    selected: Some(retained.current),
                },
            )
        }
    }

    /// Where the release goes from a reply.
    pub open spec fn next(self, reply: RetireReply) -> RetireStep {
        match (self.stage, reply) {
            (RetireThreadStage::Reading, RetireReply::Record(None)) => RetireStep::End(Ok(None)),
            (RetireThreadStage::Reading, RetireReply::Record(Some(recovery))) => self.ask(
                RetireThreadStage::Validating(recovery),
                RetireAction::Validate { thread_id: self.thread_id, recovery, selected: None },
            ),
            (RetireThreadStage::Validating(recovery), RetireReply::Done) => self.ask(
                RetireThreadStage::CheckingPublished(recovery),
                RetireAction::Exists { path: recorded_rollout(recovery) },
            ),
            (RetireThreadStage::CheckingPublished(recovery), RetireReply::Answer(exists)) => {
                if exists {
                    self.locking(recovery, recorded_rollout(recovery))
                } else {
                    self.ask(
                        RetireThreadStage::FindingPublished(recovery),
                        RetireAction::FindCurrent { path: recorded_rollout(recovery) },
                    )
                }
            },
            (RetireThreadStage::FindingPublished(recovery), RetireReply::Found(Some(path))) => {
                self.locking(recovery, path)
            },
            (RetireThreadStage::FindingPublished(recovery), RetireReply::Found(None)) => {
                self.refused(recovery.rollout_path, recovery, RetirementRefusal::MissingRollout)
            },
            (RetireThreadStage::Locking(retained), RetireReply::Done) => self.ask(
                RetireThreadStage::CheckingCurrent(retained),
                RetireAction::Exists { path: retained.current },
            ),
            (
                RetireThreadStage::Locking(retained),
                RetireReply::Rejected(ThreadStoreError::Conflict { message }),
            ) => self.refused(
                retained.current,
                retained.recovery,
                RetirementRefusal::Given(message),
            ),
            (RetireThreadStage::CheckingCurrent(retained), RetireReply::Answer(exists)) => {
                if exists {
                    self.reading_head(retained)
                } else {
                    self.ask(
                        RetireThreadStage::FindingCurrent(retained),
                        RetireAction::FindCurrent { path: retained.current },
                    )
                }
            },
            (RetireThreadStage::FindingCurrent(retained), RetireReply::Found(Some(path))) => {
                self.reading_head(Retained { recovery: retained.recovery, current: path })
            },
            (RetireThreadStage::FindingCurrent(retained), RetireReply::Found(None)) => {
                self.reading_head(retained)
            },
            (
                RetireThreadStage::ReadingHead(retained),
                RetireReply::Metadata { id, history_mode },
            ) => self.head_read(retained, id, history_mode),
            (RetireThreadStage::ReadingHead(retained), RetireReply::Failed(error)) => self.refused(
                retained.current,
                retained.recovery,
                RetirementRefusal::Unreadable(error),
            ),
            (RetireThreadStage::Revalidating(retained), RetireReply::Done) => self.ask(
                RetireThreadStage::Retiring(retained),
                RetireAction::Retire { thread_id: self.thread_id, current: retained.current },
            ),
            (RetireThreadStage::Revalidating(retained), RetireReply::Rejected(error)) => {
                self.refused(
                    retained.current,
                    retained.recovery,
                    RetirementRefusal::Invalid(error),
                )
            },
            (RetireThreadStage::Retiring(retained), RetireReply::Retired(Some(path))) => {
                RetireStep::End(
                    Ok(
                        Some(
                            RetirementVerdict {
                                thread_id: self.thread_id,
                                rollout_path: retained.current,
                                preserved_source_path: path,
                                refusal: None,
                            },
                        ),
                    ),
                )
            },
            (RetireThreadStage::Retiring(_), RetireReply::Retired(None)) => RetireStep::End(
                Ok(None),
            ),
            (
                RetireThreadStage::Retiring(retained),
                RetireReply::Rejected(ThreadStoreError::Conflict { message }),
            ) => self.refused(
                retained.current,
                retained.recovery,
                RetirementRefusal::Given(message),
            ),
            (_, reply) => RetireStep::End(Err(retire_reply_problem(reply))),
        }
    }
}

impl RetireThread {
    /// The release of the preserved source of a thread.
    pub fn new(thread_id: ThreadId) -> (r: RetireThread)
        ensures
            r.thread_id == thread_id,
            r.stage is Reading,
    {
        RetireThread { thread_id, stage: RetireThreadStage::Reading }
    }

    /// Begins by reading the retained record.
    pub fn begin(self) -> (r: RetireStep)
        ensures
            r == self.begun(),
    {
        let thread_id: ThreadId = self.thread_id;
        self.go(RetireThreadStage::Reading, RetireAction::ReadRetained { thread_id })
    }

    fn go(self, stage: RetireThreadStage, action: RetireAction) -> (r: RetireStep)
        ensures
            r == self.ask(stage, action),
    {
        RetireStep::Ask(RetireThread { thread_id: self.thread_id, stage }, action)
    }

    fn refuse(
        self,
        rollout_path: RolloutPath,
        recovery: MigrationRecoveryHandle,
        refusal: RetirementRefusal,
    ) -> (r: RetireStep)
        ensures
            r == self.refused(rollout_path, recovery, refusal),
    {
        RetireStep::End(
            Ok(
                Some(
                    RetirementVerdict {
                        thread_id: self.thread_id,
                        rollout_path,
                        preserved_source_path: recovery.preserved_source_path,
                        refusal: Some(refusal),
                    },
                ),
            ),
        )
    }

    fn lock(self, recovery: MigrationRecoveryHandle, current: RolloutPath) -> (r: RetireStep)
        ensures
            r == self.locking(recovery, current),
    {
        let thread_id: ThreadId = self.thread_id;
        self.go(
            RetireThreadStage::Locking(Retained { recovery, current }),
            RetireAction::Lock { thread_id },
        )
    }

    fn read_head(self, retained: Retained) -> (r: RetireStep)
        ensures
            r == self.reading_head(retained),
    {
        let path: RolloutPath = retained.current.clone();
        self.go(RetireThreadStage::ReadingHead(retained), RetireAction::ReadMetadata { path })
    }

    fn take_head(self, retained: Retained, id: ThreadId, history_mode: ThreadHistoryMode) -> (r:
        RetireStep)
        ensures
            r == self.head_read(retained, id, history_mode),
    {
        if id != self.thread_id {
            return self.refuse(
                retained.current,
                retained.recovery,
                RetirementRefusal::OtherThread,
            );
        }
        if history_mode != ThreadHistoryMode::PaginatedRefsV1 {
            return self.refuse(
                retained.current,
                retained.recovery,
                RetirementRefusal::NotGated(history_mode),
            );
        }
        let action = RetireAction::Validate {
            thread_id: self.thread_id,
            recovery: retained.recovery.clone(),
            selected: Some(retained.current.clone()),
        };
        self.go(RetireThreadStage::Revalidating(retained), action)
    }

    /// Carries the release on from a reply.
    #[verifier::rlimit(30)]
    pub fn advance(self, reply: RetireReply) -> (r: RetireStep)
        ensures
            r == self.next(reply),
    {
        let RetireThread { thread_id, stage } = self;
        let this = RetireThread { thread_id, stage: RetireThreadStage::Reading };
        match (stage, reply) {
            (RetireThreadStage::Reading, RetireReply::Record(None)) => RetireStep::End(Ok(None)),
            (RetireThreadStage::Reading, RetireReply::Record(Some(recovery))) => {
                let action = RetireAction::Validate {
                    thread_id,
                    recovery: recovery.clone(),
                    selected: None,
                };
                this.go(RetireThreadStage::Validating(recovery), action)
            },
            (RetireThreadStage::Validating(recovery), RetireReply::Done) => {
                let path: RolloutPath = rollout_of(&recovery);
                this.go(
                    RetireThreadStage::CheckingPublished(recovery),
                    RetireAction::Exists { path },
                )
            },
            (RetireThreadStage::CheckingPublished(recovery), RetireReply::Answer(exists)) => {
                let path: RolloutPath = rollout_of(&recovery);
                if exists {
                    this.lock(recovery, path)
                } else {
                    this.go(
                        RetireThreadStage::FindingPublished(recovery),
                        RetireAction::FindCurrent { path },
                    )
                }
            },
            (RetireThreadStage::FindingPublished(recovery), RetireReply::Found(Some(path))) => {
                this.lock(recovery, path)
            },
            (RetireThreadStage::FindingPublished(recovery), RetireReply::Found(None)) => {
                let path: RolloutPath = recovery.rollout_path.clone();
                this.refuse(path, recovery, RetirementRefusal::MissingRollout)
            },
            (RetireThreadStage::Locking(retained), RetireReply::Done) => {
                let path: RolloutPath = retained.current.clone();
                this.go(
                    RetireThreadStage::CheckingCurrent(retained),
                    RetireAction::Exists { path },
                )
            },
            (
                RetireThreadStage::Locking(retained),
                RetireReply::Rejected(ThreadStoreError::Conflict { message }),
            ) => this.refuse(
                retained.current,
                retained.recovery,
                RetirementRefusal::Given(message),
            ),
            (RetireThreadStage::CheckingCurrent(retained), RetireReply::Answer(exists)) => {
                if exists {
                    this.read_head(retained)
                } else {
                    let path: RolloutPath = retained.current.clone();
                    this.go(
                        RetireThreadStage::FindingCurrent(retained),
                        RetireAction::FindCurrent { path },
                    )
                }
            },
            (RetireThreadStage::FindingCurrent(retained), RetireReply::Found(Some(path))) => {
                this.read_head(Retained { recovery: retained.recovery, current: path })
            },
            (RetireThreadStage::FindingCurrent(retained), RetireReply::Found(None)) => {
                this.read_head(retained)
            },
            (
                RetireThreadStage::ReadingHead(retained),
                RetireReply::Metadata { id, history_mode },
            ) => this.take_head(retained, id, history_mode),
            (RetireThreadStage::ReadingHead(retained), RetireReply::Failed(error)) => this.refuse(
                retained.current,
                retained.recovery,
                RetirementRefusal::Unreadable(error),
            ),
            (RetireThreadStage::Revalidating(retained), RetireReply::Done) => {
                let current: RolloutPath = retained.current.clone();
                this.go(
                    RetireThreadStage::Retiring(retained),
                    RetireAction::Retire { thread_id, current },
                )
            },
            (RetireThreadStage::Revalidating(retained), RetireReply::Rejected(error)) => {
                this.refuse(
                    retained.current,
                    retained.recovery,
                    RetirementRefusal::Invalid(error),
                )
            },
            (RetireThreadStage::Retiring(retained), RetireReply::Retired(Some(path))) => {
                RetireStep::End(
                    Ok(
                        Some(
                            RetirementVerdict {
                                thread_id,
                                rollout_path: retained.current,
                                preserved_source_path: path,
                                refusal: None,
                            },
                        ),
                    ),
                )
            },
            (RetireThreadStage::Retiring(_), RetireReply::Retired(None)) => RetireStep::End(
                Ok(None),
            ),
            (
                RetireThreadStage::Retiring(retained),
                RetireReply::Rejected(ThreadStoreError::Conflict { message }),
            ) => this.refuse(
                retained.current,
                retained.recovery,
                RetirementRefusal::Given(message),
            ),
            (_, reply) => RetireStep::End(Err(retire_problem_of(reply))),
        }
    }
}

fn rollout_of(recovery: &MigrationRecoveryHandle) -> (r: RolloutPath)
    ensures
        r == recorded_rollout(*recovery),
{
    match &recovery.published_rollout_path {
        Some(path) => path.clone(),
        None => recovery.rollout_path.clone(),
    }
}

/// The locks of a thread are held in these steps.
pub open spec fn holds_locks(stage: RetireThreadStage) -> bool {
    match stage {
        RetireThreadStage::CheckingCurrent(_) => true,
        RetireThreadStage::FindingCurrent(_) => true,
        RetireThreadStage::ReadingHead(_) => true,
        RetireThreadStage::Revalidating(_) => true,
        RetireThreadStage::Retiring(_) => true,
        _ => false,
    }
}

/// A preserved source is released only under the locks of its thread, and only behind a rollout
/// whose head was read under these locks, belongs to the thread and uses references, and with
/// which the retained record was validated. The rollout that was validated is the one that is
/// named when the source is released.
pub proof fn sources_are_released_only_behind_gated_rollouts(m: RetireThread, reply: RetireReply)
    ensures
        m.next(reply) matches RetireStep::Ask(next, action) ==> {
            &&& next.thread_id == m.thread_id
            &&& action is Retire ==> {
                &&& m.stage is Revalidating && reply is Done
                &&& action->Retire_thread_id == m.thread_id
                &&& action->Retire_current == m.stage->Revalidating_0.current
            }
            &&& next.stage is Revalidating ==> {
                &&& m.stage is ReadingHead
                &&& reply == (RetireReply::Metadata {
                    id: m.thread_id,
                    history_mode: ThreadHistoryMode::PaginatedRefsV1,
                })
                &&& next.stage->Revalidating_0 == m.stage->ReadingHead_0
                &&& action is Validate && action->selected == Some(
                    next.stage->Revalidating_0.current,
                )
            }
            &&& holds_locks(next.stage) ==> holds_locks(m.stage) || (m.stage is Locking
                && reply is Done)
        },
{
}

/// A thread is reported as retired only where its source was released.
pub proof fn only_released_sources_are_reported_as_retired(m: RetireThread, reply: RetireReply)
    ensures
        m.next(reply) matches RetireStep::End(Ok(Some(verdict))) ==> {
            &&& verdict.thread_id == m.thread_id
            &&& verdict.refusal is None ==> m.stage is Retiring && reply == RetireReply::Retired(
                Some(verdict.preserved_source_path),
            )
        },
{
}

} // verus!
