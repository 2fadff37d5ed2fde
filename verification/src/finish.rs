//! Finishing a migration whose rollout is published: the index follows, the thread keeps its name,
//! the source goes where it stands under another name, and the record is retained.

use crate::error::ThreadId;
use crate::operations::store_problem_of;
use crate::operations::store_reply_problem;
use crate::operations::FileRef;
use crate::operations::Step;
use crate::operations::StoreAction;
use crate::operations::StoreProblem;
use crate::operations::StoreReply;
use crate::operations::ThreadRow;
use crate::paths::file_name_of;
use crate::paths::plain_path;
use crate::paths::same_rollout_filename;
use crate::paths::RolloutPath;
use crate::rollout::copy_name;
use crate::rollout::ThreadHistoryMode;
use crate::text::is_blank;
use crate::text::is_blank_text;
use vstd::prelude::*;

verus! {

/// Gives a migrated thread the name that it had before.
#[derive(Debug)]
pub struct PromoteName {
    /// Whether there is an index.
    pub has_state_db: bool,
    pub thread_id: ThreadId,
    pub target_history_mode: ThreadHistoryMode,
    /// The name of the thread in the legacy list of names.
    pub legacy_name: Option<String>,
    pub marking: bool,
}

/// Whether a thread is already paginated under a name of its own.
pub open spec fn keeps_its_name(row: ThreadRow, target: ThreadHistoryMode) -> bool {
    &&& row.history_mode.paginated()
    &&& target.paginated()
    &&& row.name is Some
    &&& !is_blank_text(row.name->0@)
}

/// The name that a thread is promoted under: its title where that says something of its own, or
/// the name in the legacy list, unless that is blank.
pub open spec fn promoted_name(row: ThreadRow, legacy_name: Option<String>) -> Option<String> {
    let name = if row.distinct_title is Some {
        row.distinct_title
    } else {
        legacy_name
    };
    if name is Some && is_blank_text(name->0@) {
        None
    } else {
        name
    }
}

impl PromoteName {
    /// Where the operation begins.
    pub open spec fn begun(self) -> Step<PromoteName, ()> {
        if self.has_state_db {
            Step::Ask(
                PromoteName { marking: false, ..self },
                StoreAction::GetThread { thread_id: self.thread_id },
            )
        } else {
            Step::End(Ok(()))
        }
    }

    /// Where the operation goes from a reply.
    pub open spec fn next(self, reply: StoreReply) -> Step<PromoteName, ()> {
        match (self.marking, reply) {
            (false, StoreReply::Thread(None)) => Step::End(
                Err(StoreProblem::MissingMetadata { thread_id: self.thread_id }),
            ),
            (false, StoreReply::Thread(Some(row))) => if keeps_its_name(
                row,
                self.target_history_mode,
            ) {
                Step::End(Ok(()))
            } else {
                Step::Ask(
                    PromoteName { marking: true, ..self },
                    StoreAction::MarkPaginated {
                        thread_id: self.thread_id,
                        mode: self.target_history_mode,
                        name: promoted_name(row, self.legacy_name),
                    },
                )
            },
            (true, StoreReply::Answer(true)) => Step::End(Ok(())),
            (true, StoreReply::Answer(false)) => Step::End(
                Err(StoreProblem::MissingMetadata { thread_id: self.thread_id }),
            ),
            (_, reply) => Step::End(Err(store_reply_problem(reply))),
        }
    }

    /// Begins the operation.
    pub fn begin(self) -> (r: Step<PromoteName, ()>)
        ensures
            r == self.begun(),
    {
        if self.has_state_db {
            let action = StoreAction::GetThread { thread_id: self.thread_id };
            Step::Ask(PromoteName { marking: false, ..self }, action)
        } else {
            Step::End(Ok(()))
        }
    }

    /// Carries the operation on from a reply.
    pub fn advance(self, reply: StoreReply) -> (r: Step<PromoteName, ()>)
        ensures
            r == self.next(reply),
    {
        match (self.marking, reply) {
            (false, StoreReply::Thread(None)) => Step::End(
                Err(StoreProblem::MissingMetadata { thread_id: self.thread_id }),
            ),
            (false, StoreReply::Thread(Some(row))) => {
                let named: bool = match &row.name {
                    Some(name) => !is_blank(name.as_str()),
                    None => false,
                };
                if row.history_mode.is_paginated() && self.target_history_mode.is_paginated()
                    && named {
                    return Step::End(Ok(()));
                }
                let candidate: Option<String> = match row.distinct_title {
                    Some(title) => Some(title),
                    None => copy_name(&self.legacy_name),
                };
                let name: Option<String> = match candidate {
                    Some(text) => {
                        if is_blank(text.as_str()) {
                            None
                        } else {
                            Some(text)
                        }
                    },
                    None => None,
                };
                let action = StoreAction::MarkPaginated {
                    thread_id: self.thread_id,
                    mode: self.target_history_mode,
                    name,
                };
                Step::Ask(PromoteName { marking: true, ..self }, action)
            },
            (true, StoreReply::Answer(true)) => Step::End(Ok(())),
            (true, StoreReply::Answer(false)) => Step::End(
                Err(StoreProblem::MissingMetadata { thread_id: self.thread_id }),
            ),
            (_, reply) => Step::End(Err(store_problem_of(reply))),
        }
    }
}

/// Finishes a migration whose rollout is published.
#[derive(Debug)]
pub struct FinishPublished {
    /// Whether there is an index.
    pub has_state_db: bool,
    pub thread_id: ThreadId,
    pub source_rollout_path: RolloutPath,
    pub published_rollout_path: RolloutPath,
    pub journal_path: RolloutPath,
    pub legacy_name: Option<String>,
    pub stage: FinishStage,
}

/// The steps of finishing.
#[derive(Debug)]
pub enum FinishStage {
    Getting,
    CheckingCurrent { current: RolloutPath },
    Replacing { current: RolloutPath },
    Promoting(PromoteName),
    RemovingSource,
    SyncingSource,
    Retaining,
}

impl FinishPublished {
    pub open spec fn at(self, stage: FinishStage) -> FinishPublished {
        FinishPublished { stage, ..self }
    }

    /// Whether the rollout was published under another name than that of its source.
    pub open spec fn renames(self) -> bool {
        self.source_rollout_path@ != self.published_rollout_path@
    }

    pub open spec fn promotion(self) -> PromoteName {
        PromoteName {
            has_state_db: self.has_state_db,
            thread_id: self.thread_id,
            target_history_mode: ThreadHistoryMode::PaginatedRefsV1,
            legacy_name: self.legacy_name,
            marking: false,
        }
    }

    pub open spec fn replacing(self, current: RolloutPath) -> Step<FinishPublished, ()> {
        Step::Ask(
            self.at(FinishStage::Replacing { current }),
            StoreAction::ReplaceRolloutPath {
                thread_id: self.thread_id,
                expected: current,
                published: self.published_rollout_path,
            },
        )
    }

    pub open spec fn retaining(self) -> Step<FinishPublished, ()> {
        Step::Ask(
            self.at(FinishStage::Retaining),
            StoreAction::Retain { journal_path: self.journal_path },
        )
    }

    pub open spec fn promoting(self, step: Step<PromoteName, ()>) -> Step<FinishPublished, ()> {
        match step {
            Step::Ask(sub, action) => Step::Ask(self.at(FinishStage::Promoting(sub)), action),
            Step::End(Ok(_)) => if self.renames() {
                Step::Ask(
                    self.at(FinishStage::RemovingSource),
                    StoreAction::RemoveIfPresent { file: FileRef::Path(self.source_rollout_path) },
                )
            } else {
                self.retaining()
            },
            Step::End(Err(problem)) => Step::End(Err(problem)),
        }
    }

    /// Where the operation begins.
    pub open spec fn begun(self) -> Step<FinishPublished, ()> {
        if self.renames() && self.has_state_db {
            Step::Ask(
                self.at(FinishStage::Getting),
                StoreAction::GetThread { thread_id: self.thread_id },
            )
        } else {
            self.promoting(self.promotion().begun())
        }
    }

    /// Where the operation goes from a reply.
    pub open spec fn next(self, reply: StoreReply) -> Step<FinishPublished, ()> {
        match (self.stage, reply) {
            (FinishStage::Getting, StoreReply::Thread(None)) => Step::End(
                Err(StoreProblem::MissingMetadata { thread_id: self.thread_id }),
            ),
            (FinishStage::Getting, StoreReply::Thread(Some(row))) => if row.rollout_path@
                == self.published_rollout_path@ {
                self.promoting(self.promotion().begun())
            } else if row.rollout_path@ == self.source_rollout_path@ {
                self.replacing(row.rollout_path)
            } else {
                Step::Ask(
                    self.at(FinishStage::CheckingCurrent { current: row.rollout_path }),
                    StoreAction::Exists { path: row.rollout_path },
                )
            },
            (FinishStage::CheckingCurrent { current }, StoreReply::Answer(exists)) => if !exists
                && file_name_of(plain_path(current@)) == file_name_of(
                plain_path(self.source_rollout_path@),
            ) {
                self.replacing(current)
            } else {
                Step::End(Err(StoreProblem::PathChanged { path: current }))
            },
            (FinishStage::Replacing { .. }, StoreReply::Answer(true)) => self.promoting(
                self.promotion().begun(),
            ),
            (FinishStage::Replacing { current }, StoreReply::Answer(false)) => Step::End(
                Err(StoreProblem::PathChanged { path: current }),
            ),
            (FinishStage::Promoting(sub), reply) => self.promoting(sub.next(reply)),
            (FinishStage::RemovingSource, StoreReply::Done) => Step::Ask(
                self.at(FinishStage::SyncingSource),
                StoreAction::SyncParent { path: self.source_rollout_path },
            ),
            (FinishStage::SyncingSource, StoreReply::Done) => self.retaining(),
            (FinishStage::Retaining, StoreReply::Done) => Step::End(Ok(())),
            (_, reply) => Step::End(Err(store_reply_problem(reply))),
        }
    }

    fn promotion_of(&self) -> (r: PromoteName)
        ensures
            r == self.promotion(),
    {
        PromoteName {
            has_state_db: self.has_state_db,
            thread_id: self.thread_id,
            target_history_mode: ThreadHistoryMode::PaginatedRefsV1,
            legacy_name: copy_name(&self.legacy_name),
            marking: false,
        }
    }

    fn replace(self, current: RolloutPath) -> (r: Step<FinishPublished, ()>)
        ensures
            r == self.replacing(current),
    {
        let action = StoreAction::ReplaceRolloutPath {
            thread_id: self.thread_id,
            expected: current.clone(),
            published: self.published_rollout_path.clone(),
        };
        Step::Ask(FinishPublished { stage: FinishStage::Replacing { current }, ..self }, action)
    }

    fn retain(self) -> (r: Step<FinishPublished, ()>)
        ensures
            r == self.retaining(),
    {
        let action = StoreAction::Retain { journal_path: self.journal_path.clone() };
        Step::Ask(FinishPublished { stage: FinishStage::Retaining, ..self }, action)
    }

    fn promote(self, step: Step<PromoteName, ()>) -> (r: Step<FinishPublished, ()>)
        ensures
            r == self.promoting(step),
    {
        match step {
            Step::Ask(sub, action) => Step::Ask(
                FinishPublished { stage: FinishStage::Promoting(sub), ..self },
                action,
            ),
            Step::End(Ok(_)) => {
                if self.source_rollout_path.same(&self.published_rollout_path) {
                    return self.retain();
                }
                let action = StoreAction::RemoveIfPresent {
                    file: FileRef::Path(self.source_rollout_path.clone()),
                };
                Step::Ask(FinishPublished { stage: FinishStage::RemovingSource, ..self }, action)
            },
            Step::End(Err(problem)) => Step::End(Err(problem)),
        }
    }

    /// Begins the operation.
    pub fn begin(self) -> (r: Step<FinishPublished, ()>)
        ensures
            r == self.begun(),
    {
        if !self.source_rollout_path.same(&self.published_rollout_path) && self.has_state_db {
            let action = StoreAction::GetThread { thread_id: self.thread_id };
            return Step::Ask(FinishPublished { stage: FinishStage::Getting, ..self }, action);
        }
        let sub = self.promotion_of().begin();
        self.promote(sub)
    }

    /// Carries the operation on from a reply.
    pub fn advance(self, reply: StoreReply) -> (r: Step<FinishPublished, ()>)
        ensures
            r == self.next(reply),
    {
        let FinishPublished {
            has_state_db,
            thread_id,
            source_rollout_path,
            published_rollout_path,
            journal_path,
            legacy_name,
            stage,
        } = self;
        let this = FinishPublished {
            has_state_db,
            thread_id,
            source_rollout_path,
            published_rollout_path,
            journal_path,
            legacy_name,
            stage: FinishStage::Getting,
        };
        match (stage, reply) {
            (FinishStage::Getting, StoreReply::Thread(None)) => Step::End(
                Err(StoreProblem::MissingMetadata { thread_id }),
            ),
            (FinishStage::Getting, StoreReply::Thread(Some(row))) => {
                let current: RolloutPath = row.rollout_path;
                if current.same(&this.published_rollout_path) {
                    let sub = this.promotion_of().begin();
                    return this.promote(sub);
                }
                if current.same(&this.source_rollout_path) {
                    return this.replace(current);
                }
                let action = StoreAction::Exists { path: current.clone() };
                Step::Ask(
                    FinishPublished { stage: FinishStage::CheckingCurrent { current }, ..this },
                    action,
                )
            },
            (FinishStage::CheckingCurrent { current }, StoreReply::Answer(exists)) => {
                if !exists && same_rollout_filename(&current, &this.source_rollout_path) {
                    this.replace(current)
                } else {
                    Step::End(Err(StoreProblem::PathChanged { path: current }))
                }
            },
            (FinishStage::Replacing { .. }, StoreReply::Answer(true)) => {
                let sub = this.promotion_of().begin();
                this.promote(sub)
            },
            (FinishStage::Replacing { current }, StoreReply::Answer(false)) => Step::End(
                Err(StoreProblem::PathChanged { path: current }),
            ),
            (FinishStage::Promoting(sub), reply) => this.promote(sub.advance(reply)),
            (FinishStage::RemovingSource, StoreReply::Done) => {
                let action = StoreAction::SyncParent { path: this.source_rollout_path.clone() };
                Step::Ask(FinishPublished { stage: FinishStage::SyncingSource, ..this }, action)
            },
            (FinishStage::SyncingSource, StoreReply::Done) => this.retain(),
            (FinishStage::Retaining, StoreReply::Done) => Step::End(Ok(())),
            (_, reply) => Step::End(Err(store_problem_of(reply))),
        }
    }
}

/// A paginated thread keeps the name that it has, no thread is given a blank name, and a thread
/// that was promoted under a name is not promoted again.
pub proof fn given_names_are_kept(m: PromoteName, row: ThreadRow, again: ThreadRow)
    requires
        !m.marking,
    ensures
        keeps_its_name(row, m.target_history_mode) ==> m.next(StoreReply::Thread(Some(row)))
            == Step::<PromoteName, ()>::End(Ok(())),
        !keeps_its_name(row, m.target_history_mode) ==> m.next(StoreReply::Thread(Some(row)))
            == Step::<PromoteName, ()>::Ask(
            PromoteName { marking: true, ..m },
            StoreAction::MarkPaginated {
                thread_id: m.thread_id,
                mode: m.target_history_mode,
                name: promoted_name(row, m.legacy_name),
            },
        ),
        promoted_name(row, m.legacy_name) is Some ==> !is_blank_text(
            promoted_name(row, m.legacy_name)->0@,
        ),
        m.target_history_mode.paginated() && again.history_mode == m.target_history_mode
            && again.name is Some && again.name == promoted_name(row, m.legacy_name) ==> m.next(
            StoreReply::Thread(Some(again)),
        ) == Step::<PromoteName, ()>::End(Ok(())),
{
}

/// The index is led to the published rollout only from the source, or from a place that is gone
/// and was that of the same rollout; and the source is removed only where the rollout was
/// published under another name, once the thread has its name.
pub proof fn the_index_follows_its_own_rollout(m: FinishPublished, reply: StoreReply)
    ensures
        m.next(reply) matches Step::Ask(
            _,
            StoreAction::ReplaceRolloutPath { thread_id, expected, published },
        ) ==> {
            &&& thread_id == m.thread_id && published == m.published_rollout_path
            &&& expected@ == m.source_rollout_path@ || {
                &&& m.stage == FinishStage::CheckingCurrent { current: expected }
                &&& reply == StoreReply::Answer(false)
                &&& file_name_of(plain_path(expected@)) == file_name_of(
                    plain_path(m.source_rollout_path@),
                )
            }
        },
        m.next(reply) matches Step::Ask(_, StoreAction::RemoveIfPresent { file }) ==> {
            &&& m.renames() && file == FileRef::Path(m.source_rollout_path)
            &&& m.stage is Promoting || !m.has_state_db || m.stage is Getting || m.stage
                is Replacing
        },
        m.next(reply) matches Step::End(Ok(_)) ==> m.stage is Retaining && reply is Done,
{
}

} // verus!
