//! Whether a recovery record can be followed.
//!
//! A record is durable input and no authority: one that was copied with a home directory must
//! never reach back into the home it came from. So every path in it has to be the one that follows
//! for this migration, inside the rollout directories of this home, and owned by the expected
//! thread.

use crate::error::ThreadId;
use crate::error::ThreadStoreError;
use crate::paths::file_name_of;
use crate::paths::is_inside;
use crate::paths::is_normalized_absolute;
use crate::paths::journal_directory;
use crate::paths::migration_journal_path;
use crate::paths::parent_of;
use crate::paths::pending_journal_of;
use crate::paths::plain_path;
use crate::paths::plain_rollout_path;
use crate::paths::preserved_legacy_rollout_path;
use crate::paths::preserved_of;
use crate::paths::retained_journal_of;
use crate::paths::retained_migration_recovery_path;
use crate::paths::same_rollout_filename;
use crate::paths::RolloutPath;
use crate::recovery::MigrationRecoveryHandle;
use crate::recovery::MIGRATION_JOURNAL_VERSION;
use crate::refusals::DiskProblem;
use crate::refusals::RecoveryRefusal;
use crate::rollout::ThreadHistoryMode;
use vstd::prelude::*;

verus! {

/// A question that a validation asks.
#[allow(inconsistent_fields)]
#[derive(Debug, PartialEq, Eq)]
pub enum CheckAction {
    /// What is the canonical form of a path?
    Canonicalize { path: RolloutPath },
    /// What is the canonical form of the directory that holds a path?
    CanonicalizeParent { path: RolloutPath },
    /// Can a path be seen?
    Visible { path: RolloutPath },
    /// Does a path exist? Unlike above, this can fail.
    Exists { path: RolloutPath },
    /// Do two paths match once they are normalised?
    PathsMatch { left: RolloutPath, right: RolloutPath },
    /// Which thread does a rollout belong to, and how is it stored?
    ReadMetadata { path: RolloutPath },
    /// Which thread does the preserved source of a record belong to?
    SourceThread { recovery: MigrationRecoveryHandle },
}

/// An answer to a validation.
#[derive(Debug, PartialEq, Eq)]
pub enum CheckReply {
    Path(RolloutPath),
    Answer(bool),
    Metadata { id: ThreadId, history_mode: ThreadHistoryMode },
    Thread(ThreadId),
    NotFound(String),
    Rejected(ThreadStoreError),
    Failed(String),
}

/// Where a validation stands: it asks a question, or it has ended.
#[derive(Debug)]
pub enum Check<M> {
    Ask(M, CheckAction),
    End(Result<(), DiskProblem>),
}

/// The problem that an answer stands for, where it does not carry the validation on.
pub open spec fn check_problem(reply: CheckReply) -> DiskProblem {
    match reply {
        CheckReply::NotFound(message) => DiskProblem::Io(message),
        CheckReply::Failed(message) => DiskProblem::Io(message),
        CheckReply::Rejected(error) => DiskProblem::Rejected(error),
        _ => DiskProblem::UnexpectedReply,
    }
}

/// The problem that an answer stands for, where it does not carry the validation on.
pub fn problem_of_check(reply: CheckReply) -> (r: DiskProblem)
    ensures
        r == check_problem(reply),
{
    match reply {
        CheckReply::NotFound(message) => DiskProblem::Io(message),
        CheckReply::Failed(message) => DiskProblem::Io(message),
        CheckReply::Rejected(error) => DiskProblem::Rejected(error),
        _ => DiskProblem::UnexpectedReply,
    }
}

/// The directories that hold rollouts.
#[derive(Debug, PartialEq, Eq)]
pub struct RolloutRoots {
    pub sessions: RolloutPath,
    pub archived: RolloutPath,
}

impl Clone for RolloutRoots {
    fn clone(&self) -> (r: Self)
        ensures
            r == *self,
    {
        RolloutRoots { sessions: self.sessions.clone(), archived: self.archived.clone() }
    }
}

/// Tests that one path of a record stands inside the rollout directories of this home. The test
/// is made on canonical paths, so that a link cannot lead out of them.
#[derive(Debug)]
pub struct QualifyPath {
    pub thread_id: ThreadId,
    pub roots: RolloutRoots,
    pub path: RolloutPath,
    pub stage: QualifyStage,
}

/// The steps of the test.
#[derive(Debug)]
pub enum QualifyStage {
    Looking,
    Canonicalizing,
    ComparingSessions { target: RolloutPath },
    ComparingArchived { target: RolloutPath },
}

impl QualifyPath {
    pub open spec fn at(self, stage: QualifyStage) -> QualifyPath {
        QualifyPath { stage, ..self }
    }

    pub open spec fn refused(self, refusal: RecoveryRefusal) -> Check<QualifyPath> {
        Check::End(Err(DiskProblem::Recovery { thread_id: self.thread_id, refusal }))
    }

    pub open spec fn try_archived(self, target: RolloutPath) -> Check<QualifyPath> {
        Check::Ask(
            self.at(QualifyStage::ComparingArchived { target }),
            CheckAction::Canonicalize { path: self.roots.archived },
        )
    }

    /// Where the test begins.
    pub open spec fn begun(thread_id: ThreadId, roots: RolloutRoots, path: RolloutPath) -> Check<
        QualifyPath,
    > {
        if is_normalized_absolute(path@) {
            Check::Ask(
                QualifyPath { thread_id, roots, path, stage: QualifyStage::Looking },
                CheckAction::Visible { path },
            )
        } else {
            Check::End(
                Err(
                    DiskProblem::Recovery {
                        thread_id,
                        refusal: RecoveryRefusal::NotNormalized { path },
                    },
                ),
            )
        }
    }

    /// Where the test goes from an answer.
    pub open spec fn next(self, reply: CheckReply) -> Check<QualifyPath> {
        match (self.stage, reply) {
            (QualifyStage::Looking, CheckReply::Answer(visible)) => if visible {
                Check::Ask(
                    self.at(QualifyStage::Canonicalizing),
                    CheckAction::Canonicalize { path: self.path },
                )
            } else if parent_of(self.path@) is None {
                self.refused(RecoveryRefusal::WithoutParent { path: self.path })
            } else {
                Check::Ask(
                    self.at(QualifyStage::Canonicalizing),
                    CheckAction::CanonicalizeParent { path: self.path },
                )
            },
            (QualifyStage::Canonicalizing, CheckReply::Path(target)) => Check::Ask(
                self.at(QualifyStage::ComparingSessions { target }),
                CheckAction::Canonicalize { path: self.roots.sessions },
            ),
            (QualifyStage::ComparingSessions { target }, CheckReply::Path(root)) => if is_inside(
                target@,
                root@,
            ) {
                Check::End(Ok(()))
            } else {
                self.try_archived(target)
            },
            (QualifyStage::ComparingSessions { target }, CheckReply::NotFound(_)) => {
                self.try_archived(target)
            },
            (QualifyStage::ComparingArchived { target }, CheckReply::Path(root)) => if is_inside(
                target@,
                root@,
            ) {
                Check::End(Ok(()))
            } else {
                self.refused(RecoveryRefusal::PathOutside { path: self.path })
            },
            (QualifyStage::ComparingArchived { .. }, CheckReply::NotFound(_)) => self.refused(
                RecoveryRefusal::PathOutside { path: self.path },
            ),
            (_, reply) => Check::End(Err(check_problem(reply))),
        }
    }

    /// Begins the test.
    pub fn begin(thread_id: ThreadId, roots: &RolloutRoots, path: &RolloutPath) -> (r: Check<
        QualifyPath,
    >)
        ensures
            r == QualifyPath::begun(thread_id, *roots, *path),
    {
        if path.is_normalized() {
            Check::Ask(
                QualifyPath {
                    thread_id,
                    roots: roots.clone(),
                    path: path.clone(),
                    stage: QualifyStage::Looking,
                },
                CheckAction::Visible { path: path.clone() },
            )
        } else {
            Check::End(
                Err(
                    DiskProblem::Recovery {
                        thread_id,
                        refusal: RecoveryRefusal::NotNormalized { path: path.clone() },
                    },
                ),
            )
        }
    }

    fn refuse(thread_id: ThreadId, refusal: RecoveryRefusal) -> (r: Check<QualifyPath>)
        ensures
            r == Check::<QualifyPath>::End(Err(DiskProblem::Recovery { thread_id, refusal })),
    {
        Check::End(Err(DiskProblem::Recovery { thread_id, refusal }))
    }

    fn go_to_archived(self, target: RolloutPath) -> (r: Check<QualifyPath>)
        ensures
            r == self.try_archived(target),
    {
        let action = CheckAction::Canonicalize { path: self.roots.archived.clone() };
        Check::Ask(QualifyPath { stage: QualifyStage::ComparingArchived { target }, ..self }, action)
    }

    /// Carries the test on from an answer.
    pub fn advance(self, reply: CheckReply) -> (r: Check<QualifyPath>)
        ensures
            r == self.next(reply),
    {
        let QualifyPath { thread_id, roots, path, stage } = self;
        let this = QualifyPath { thread_id, roots, path, stage: QualifyStage::Looking };
        match (stage, reply) {
            (QualifyStage::Looking, CheckReply::Answer(visible)) => {
                if visible {
                    let action = CheckAction::Canonicalize { path: this.path.clone() };
                    return Check::Ask(
                        QualifyPath { stage: QualifyStage::Canonicalizing, ..this },
                        action,
                    );
                }
                if this.path.parent().is_none() {
                    return QualifyPath::refuse(
                        thread_id,
                        RecoveryRefusal::WithoutParent { path: this.path },
                    );
                }
                let action = CheckAction::CanonicalizeParent { path: this.path.clone() };
                Check::Ask(QualifyPath { stage: QualifyStage::Canonicalizing, ..this }, action)
            },
            (QualifyStage::Canonicalizing, CheckReply::Path(target)) => {
                let action = CheckAction::Canonicalize { path: this.roots.sessions.clone() };
                Check::Ask(
                    QualifyPath { stage: QualifyStage::ComparingSessions { target }, ..this },
                    action,
                )
            },
            (QualifyStage::ComparingSessions { target }, CheckReply::Path(root)) => {
                if target.starts_with(&root) {
                    Check::End(Ok(()))
                } else {
                    this.go_to_archived(target)
                }
            },
            (QualifyStage::ComparingSessions { target }, CheckReply::NotFound(_)) => {
                this.go_to_archived(target)
            },
            (QualifyStage::ComparingArchived { target }, CheckReply::Path(root)) => {
                if target.starts_with(&root) {
                    Check::End(Ok(()))
                } else {
                    QualifyPath::refuse(
                        thread_id,
                        RecoveryRefusal::PathOutside { path: this.path },
                    )
                }
            },
            (QualifyStage::ComparingArchived { .. }, CheckReply::NotFound(_)) => {
                QualifyPath::refuse(thread_id, RecoveryRefusal::PathOutside { path: this.path })
            },
            (_, reply) => Check::End(Err(problem_of_check(reply))),
        }
    }
}

/// Tests whether a recovery record can be followed.
#[derive(Debug)]
pub struct ValidateRecovery {
    pub home: RolloutPath,
    pub journal_root: RolloutPath,
    pub roots: RolloutRoots,
    pub thread_id: ThreadId,
    pub journal_path: RolloutPath,
    pub recovery: MigrationRecoveryHandle,
    pub selected: Option<RolloutPath>,
    pub require_publication_fingerprint: bool,
    pub stage: ValidateStage,
}

/// The steps of the validation.
#[derive(Debug)]
pub enum ValidateStage {
    CanonicalizingHome,
    CanonicalizingRoot { home: RolloutPath },
    CanonicalizingJournal { home: RolloutPath, root: RolloutPath },
    QualifyingRollout(QualifyPath),
    QualifyingPublished(QualifyPath),
    QualifyingSelected(QualifyPath),
    LookingForPublished,
    Matching { recorded_exists: bool },
    ReadingSelected,
    QualifyingPreserved(QualifyPath),
    CheckingPreserved,
    AskingOwner,
    CheckingPublished,
    ReadingPublished,
}

impl ValidateRecovery {
    /// The path under which the record says that the rollout was published.
    pub open spec fn published(self) -> RolloutPath {
        match self.recovery.published_rollout_path {
            Some(path) => path,
            None => self.recovery.rollout_path,
        }
    }

    pub open spec fn at(self, stage: ValidateStage) -> ValidateRecovery {
        ValidateRecovery { stage, ..self }
    }

    pub open spec fn refused(self, refusal: RecoveryRefusal) -> Check<ValidateRecovery> {
        Check::End(Err(DiskProblem::Recovery { thread_id: self.thread_id, refusal }))
    }

    pub open spec fn qualifying(self, path: RolloutPath) -> Check<QualifyPath> {
        QualifyPath::begun(self.thread_id, self.roots, path)
    }

    /// The record belongs to this home: what does it say?
    pub open spec fn reading_record(self) -> Check<ValidateRecovery> {
        if self.recovery.version != MIGRATION_JOURNAL_VERSION {
            self.refused(RecoveryRefusal::UnsupportedVersion { version: self.recovery.version })
        } else if self.recovery.retirement_started && self.recovery.split_generation_detected {
            self.refused(RecoveryRefusal::RetiringAndSplit)
        } else {
            self.rollout_qualified(self.qualifying(self.recovery.rollout_path))
        }
    }

    pub open spec fn rollout_qualified(self, check: Check<QualifyPath>) -> Check<
        ValidateRecovery,
    > {
        match check {
            Check::Ask(sub, action) => Check::Ask(
                self.at(ValidateStage::QualifyingRollout(sub)),
                action,
            ),
            Check::End(Ok(_)) => self.published_qualified(self.qualifying(self.published())),
            Check::End(Err(problem)) => Check::End(Err(problem)),
        }
    }

    pub open spec fn published_qualified(self, check: Check<QualifyPath>) -> Check<
        ValidateRecovery,
    > {
        match check {
            Check::Ask(sub, action) => Check::Ask(
                self.at(ValidateStage::QualifyingPublished(sub)),
                action,
            ),
            Check::End(Ok(_)) => if self.published()@ != plain_path(self.recovery.rollout_path@) {
                self.refused(RecoveryRefusal::OtherTarget { path: self.published() })
            } else {
                match self.selected {
                    Some(selected) => self.selected_qualified(self.qualifying(selected)),
                    None => self.checking_source(),
                }
            },
            Check::End(Err(problem)) => Check::End(Err(problem)),
        }
    }

    pub open spec fn selected_qualified(self, check: Check<QualifyPath>) -> Check<
        ValidateRecovery,
    > {
        match check {
            Check::Ask(sub, action) => Check::Ask(
                self.at(ValidateStage::QualifyingSelected(sub)),
                action,
            ),
            Check::End(Ok(_)) => Check::Ask(
                self.at(ValidateStage::LookingForPublished),
                CheckAction::Visible { path: self.published() },
            ),
            Check::End(Err(problem)) => Check::End(Err(problem)),
        }
    }

    /// Is the preserved source the one that follows from the rollout?
    pub open spec fn checking_source(self) -> Check<ValidateRecovery> {
        if file_name_of(self.recovery.rollout_path@) is None {
            Check::End(Err(DiskProblem::RolloutWithoutName))
        } else if self.recovery.preserved_source_path@ != preserved_of(
            self.recovery.rollout_path@,
        ) {
            self.refused(
                RecoveryRefusal::OtherPreserved { path: self.recovery.preserved_source_path },
            )
        } else {
            self.preserved_qualified(self.qualifying(self.recovery.preserved_source_path))
        }
    }

    pub open spec fn preserved_qualified(self, check: Check<QualifyPath>) -> Check<
        ValidateRecovery,
    > {
        match check {
            Check::Ask(sub, action) => Check::Ask(
                self.at(ValidateStage::QualifyingPreserved(sub)),
                action,
            ),
            Check::End(Ok(_)) => if self.require_publication_fingerprint
                && self.recovery.publication_fingerprint is None {
                self.refused(RecoveryRefusal::NoPublicationFingerprint)
            } else {
                Check::Ask(
                    self.at(ValidateStage::CheckingPreserved),
                    CheckAction::Exists { path: self.recovery.preserved_source_path },
                )
            },
            Check::End(Err(problem)) => Check::End(Err(problem)),
        }
    }

    pub open spec fn checking_published(self) -> Check<ValidateRecovery> {
        Check::Ask(
            self.at(ValidateStage::CheckingPublished),
            CheckAction::Exists { path: self.published() },
        )
    }

    /// Where the validation begins.
    pub open spec fn begun(self) -> Check<ValidateRecovery> {
        if self.journal_path@ != pending_journal_of(self.home@, self.thread_id)
            && self.journal_path@ != retained_journal_of(self.home@, self.thread_id) {
            self.refused(RecoveryRefusal::ForeignJournal { path: self.journal_path })
        } else {
            Check::Ask(
                self.at(ValidateStage::CanonicalizingHome),
                CheckAction::Canonicalize { path: self.home },
            )
        }
    }

    /// Where the validation goes from an answer.
    pub open spec fn next(self, reply: CheckReply) -> Check<ValidateRecovery> {
        match (self.stage, reply) {
            (ValidateStage::CanonicalizingHome, CheckReply::Path(home)) => Check::Ask(
                self.at(ValidateStage::CanonicalizingRoot { home }),
                CheckAction::Canonicalize { path: self.journal_root },
            ),
            (ValidateStage::CanonicalizingRoot { home }, CheckReply::Path(root)) => Check::Ask(
                self.at(ValidateStage::CanonicalizingJournal { home, root }),
                CheckAction::Canonicalize { path: self.journal_path },
            ),
            (
                ValidateStage::CanonicalizingJournal { home, root },
                CheckReply::Path(journal),
            ) => if is_inside(root@, home@) && is_inside(journal@, root@) {
                self.reading_record()
            } else {
                self.refused(RecoveryRefusal::JournalOutside { path: self.journal_path })
            },
            (ValidateStage::QualifyingRollout(sub), reply) => self.rollout_qualified(
                sub.next(reply),
            ),
            (ValidateStage::QualifyingPublished(sub), reply) => self.published_qualified(
                sub.next(reply),
            ),
            (ValidateStage::QualifyingSelected(sub), reply) => self.selected_qualified(
                sub.next(reply),
            ),
            (ValidateStage::LookingForPublished, CheckReply::Answer(recorded_exists)) => {
                match self.selected {
                    Some(selected) => Check::Ask(
                        self.at(ValidateStage::Matching { recorded_exists }),
                        CheckAction::PathsMatch { left: selected, right: self.published() },
                    ),
                    None => self.checking_source(),
                }
            },
            (ValidateStage::Matching { recorded_exists }, CheckReply::Answer(matches)) => {
                match self.selected {
                    Some(selected) => if !matches && (recorded_exists || file_name_of(
                        plain_path(selected@),
                    ) != file_name_of(plain_path(self.published()@))) {
                        self.refused(RecoveryRefusal::OtherGeneration { path: self.published() })
                    } else {
                        Check::Ask(
                            self.at(ValidateStage::ReadingSelected),
                            CheckAction::ReadMetadata { path: selected },
                        )
                    },
                    None => self.checking_source(),
                }
            },
            (
                ValidateStage::ReadingSelected,
                CheckReply::Metadata { id, history_mode },
            ) => match self.selected {
                Some(selected) => if id != self.thread_id || history_mode
                    != ThreadHistoryMode::PaginatedRefsV1 {
                    self.refused(RecoveryRefusal::SelectedNotPaginated { path: selected })
                } else {
                    self.checking_source()
                },
                None => self.checking_source(),
            },
            (ValidateStage::QualifyingPreserved(sub), reply) => self.preserved_qualified(
                sub.next(reply),
            ),
            (ValidateStage::CheckingPreserved, CheckReply::Answer(exists)) => if exists {
                Check::Ask(
                    self.at(ValidateStage::AskingOwner),
                    CheckAction::SourceThread { recovery: self.recovery },
                )
            } else {
                self.checking_published()
            },
            (ValidateStage::AskingOwner, CheckReply::Thread(owner)) => if owner
                == self.thread_id {
                self.checking_published()
            } else {
                self.refused(
                    RecoveryRefusal::PreservedBelongsTo {
                        owner,
                        path: self.recovery.preserved_source_path,
                    },
                )
            },
            (ValidateStage::CheckingPublished, CheckReply::Answer(exists)) => if exists {
                Check::Ask(
                    self.at(ValidateStage::ReadingPublished),
                    CheckAction::ReadMetadata { path: self.published() },
                )
            } else {
                Check::End(Ok(()))
            },
            (ValidateStage::ReadingPublished, CheckReply::Metadata { id, .. }) => if id
                == self.thread_id {
                Check::End(Ok(()))
            } else {
                self.refused(
                    RecoveryRefusal::PublishedBelongsTo { owner: id, path: self.published() },
                )
            },
            (_, reply) => Check::End(Err(check_problem(reply))),
        }
    }

    /// The validation of a record that was read from a journal. Where a published rollout has been
    /// selected, the record must be about that generation.
    pub fn new(
        home: &RolloutPath,
        roots: &RolloutRoots,
        thread_id: ThreadId,
        journal_path: &RolloutPath,
        recovery: &MigrationRecoveryHandle,
        selected: &Option<RolloutPath>,
        require_publication_fingerprint: bool,
    ) -> (r: ValidateRecovery)
        ensures
            r.home == *home,
            r.journal_root@ == journal_directory(home@),
            r.roots == *roots,
            r.thread_id == thread_id,
            r.journal_path == *journal_path,
            r.recovery == *recovery,
            r.selected == *selected,
            r.require_publication_fingerprint == require_publication_fingerprint,
            r.stage is CanonicalizingHome,
    {
        ValidateRecovery {
            home: home.clone(),
            journal_root: home.join("rollout-migrations"),
            roots: roots.clone(),
            thread_id,
            journal_path: journal_path.clone(),
            recovery: recovery.clone(),
            selected: crate::publish::copy_path(selected),
            require_publication_fingerprint,
            stage: ValidateStage::CanonicalizingHome,
        }
    }

    fn published_path(&self) -> (r: RolloutPath)
        ensures
            r == self.published(),
    {
        match &self.recovery.published_rollout_path {
            Some(path) => path.clone(),
            None => self.recovery.rollout_path.clone(),
        }
    }

    fn refuse(self, refusal: RecoveryRefusal) -> (r: Check<ValidateRecovery>)
        ensures
            r == self.refused(refusal),
    {
        Check::End(Err(DiskProblem::Recovery { thread_id: self.thread_id, refusal }))
    }

    /// Begins the validation.
    pub fn begin(self) -> (r: Check<ValidateRecovery>)
        ensures
            r == self.begun(),
    {
        let pending: RolloutPath = migration_journal_path(&self.home, self.thread_id);
        let retained: RolloutPath = retained_migration_recovery_path(&self.home, self.thread_id);
        if !self.journal_path.same(&pending) && !self.journal_path.same(&retained) {
            let path: RolloutPath = self.journal_path.clone();
            return self.refuse(RecoveryRefusal::ForeignJournal { path });
        }
        let action = CheckAction::Canonicalize { path: self.home.clone() };
        Check::Ask(ValidateRecovery { stage: ValidateStage::CanonicalizingHome, ..self }, action)
    }

    fn read_record(self) -> (r: Check<ValidateRecovery>)
        ensures
            r == self.reading_record(),
    {
        if self.recovery.version != MIGRATION_JOURNAL_VERSION {
            let version: u8 = self.recovery.version;
            return self.refuse(RecoveryRefusal::UnsupportedVersion { version });
        }
        if self.recovery.retirement_started && self.recovery.split_generation_detected {
            return self.refuse(RecoveryRefusal::RetiringAndSplit);
        }
        let sub = QualifyPath::begin(self.thread_id, &self.roots, &self.recovery.rollout_path);
        self.qualify_rollout(sub)
    }

    fn qualify_rollout(self, check: Check<QualifyPath>) -> (r: Check<ValidateRecovery>)
        ensures
            r == self.rollout_qualified(check),
    {
        match check {
            Check::Ask(sub, action) => Check::Ask(
                ValidateRecovery { stage: ValidateStage::QualifyingRollout(sub), ..self },
                action,
            ),
            Check::End(Ok(_)) => {
                let path: RolloutPath = self.published_path();
                let sub = QualifyPath::begin(self.thread_id, &self.roots, &path);
                self.qualify_published(sub)
            },
            Check::End(Err(problem)) => Check::End(Err(problem)),
        }
    }

    fn qualify_published(self, check: Check<QualifyPath>) -> (r: Check<ValidateRecovery>)
        ensures
            r == self.published_qualified(check),
    {
        match check {
            Check::Ask(sub, action) => Check::Ask(
                ValidateRecovery { stage: ValidateStage::QualifyingPublished(sub), ..self },
                action,
            ),
            Check::End(Ok(_)) => {
                let path: RolloutPath = self.published_path();
                if !path.same(&plain_rollout_path(&self.recovery.rollout_path)) {
                    return self.refuse(RecoveryRefusal::OtherTarget { path });
                }
                let sub = match &self.selected {
                    Some(selected) => QualifyPath::begin(self.thread_id, &self.roots, selected),
                    None => {
                        return self.check_source();
                    },
                };
                self.qualify_selected(sub)
            },
            Check::End(Err(problem)) => Check::End(Err(problem)),
        }
    }

    fn qualify_selected(self, check: Check<QualifyPath>) -> (r: Check<ValidateRecovery>)
        ensures
            r == self.selected_qualified(check),
    {
        match check {
            Check::Ask(sub, action) => Check::Ask(
                ValidateRecovery { stage: ValidateStage::QualifyingSelected(sub), ..self },
                action,
            ),
            Check::End(Ok(_)) => {
                let action = CheckAction::Visible { path: self.published_path() };
                Check::Ask(
                    ValidateRecovery { stage: ValidateStage::LookingForPublished, ..self },
                    action,
                )
            },
            Check::End(Err(problem)) => Check::End(Err(problem)),
        }
    }

    fn check_source(self) -> (r: Check<ValidateRecovery>)
        ensures
            r == self.checking_source(),
    {
        match preserved_legacy_rollout_path(&self.recovery.rollout_path) {
            Err(_) => {
                return Check::End(Err(DiskProblem::RolloutWithoutName));
            },
            Ok(expected) => {
                if !self.recovery.preserved_source_path.same(&expected) {
                    let path: RolloutPath = self.recovery.preserved_source_path.clone();
                    return self.refuse(RecoveryRefusal::OtherPreserved { path });
                }
            },
        }
        let sub = QualifyPath::begin(
            self.thread_id,
            &self.roots,
            &self.recovery.preserved_source_path,
        );
        self.qualify_preserved(sub)
    }

    fn qualify_preserved(self, check: Check<QualifyPath>) -> (r: Check<ValidateRecovery>)
        ensures
            r == self.preserved_qualified(check),
    {
        match check {
            Check::Ask(sub, action) => Check::Ask(
                ValidateRecovery { stage: ValidateStage::QualifyingPreserved(sub), ..self },
                action,
            ),
            Check::End(Ok(_)) => {
                if self.require_publication_fingerprint
                    && self.recovery.publication_fingerprint.is_none() {
                    return self.refuse(RecoveryRefusal::NoPublicationFingerprint);
                }
                let action = CheckAction::Exists {
                    path: self.recovery.preserved_source_path.clone(),
                };
                Check::Ask(
                    ValidateRecovery { stage: ValidateStage::CheckingPreserved, ..self },
                    action,
                )
            },
            Check::End(Err(problem)) => Check::End(Err(problem)),
        }
    }

    fn check_published(self) -> (r: Check<ValidateRecovery>)
        ensures
            r == self.checking_published(),
    {
        let action = CheckAction::Exists { path: self.published_path() };
        Check::Ask(ValidateRecovery { stage: ValidateStage::CheckingPublished, ..self }, action)
    }

    /// Carries the validation on from an answer.
    pub fn advance(self, reply: CheckReply) -> (r: Check<ValidateRecovery>)
        ensures
            r == self.next(reply),
    {
        let ValidateRecovery {
            home,
            journal_root,
            roots,
            thread_id,
            journal_path,
            recovery,
            selected,
            require_publication_fingerprint,
            stage,
        } = self;
        let this = ValidateRecovery {
            home,
            journal_root,
            roots,
            thread_id,
            journal_path,
            recovery,
            selected,
            require_publication_fingerprint,
            stage: ValidateStage::CanonicalizingHome,
        };
        match (stage, reply) {
            (ValidateStage::CanonicalizingHome, CheckReply::Path(home)) => {
                let action = CheckAction::Canonicalize { path: this.journal_root.clone() };
                Check::Ask(
                    ValidateRecovery { stage: ValidateStage::CanonicalizingRoot { home }, ..this },
                    action,
                )
            },
            (ValidateStage::CanonicalizingRoot { home }, CheckReply::Path(root)) => {
                let action = CheckAction::Canonicalize { path: this.journal_path.clone() };
                Check::Ask(
                    ValidateRecovery {
                        stage: ValidateStage::CanonicalizingJournal { home, root },
                        ..this
                    },
                    action,
                )
            },
            (
                ValidateStage::CanonicalizingJournal { home, root },
                CheckReply::Path(journal),
            ) => {
                if root.starts_with(&home) && journal.starts_with(&root) {
                    this.read_record()
                } else {
                    let path: RolloutPath = this.journal_path.clone();
                    this.refuse(RecoveryRefusal::JournalOutside { path })
                }
            },
            (ValidateStage::QualifyingRollout(sub), reply) => this.qualify_rollout(
                sub.advance(reply),
            ),
            (ValidateStage::QualifyingPublished(sub), reply) => this.qualify_published(
                sub.advance(reply),
            ),
            (ValidateStage::QualifyingSelected(sub), reply) => this.qualify_selected(
                sub.advance(reply),
            ),
            (ValidateStage::LookingForPublished, CheckReply::Answer(recorded_exists)) => {
                let action = match &this.selected {
                    Some(selected) => CheckAction::PathsMatch {
                        left: selected.clone(),
                        right: this.published_path(),
                    },
                    None => {
                        return this.check_source();
                    },
                };
                Check::Ask(
                    ValidateRecovery {
                        stage: ValidateStage::Matching { recorded_exists },
                        ..this
                    },
                    action,
                )
            },
            (ValidateStage::Matching { recorded_exists }, CheckReply::Answer(matches)) => {
                let selected: RolloutPath = match &this.selected {
                    Some(selected) => selected.clone(),
                    None => {
                        return this.check_source();
                    },
                };
                let published: RolloutPath = this.published_path();
                if !matches && (recorded_exists || !same_rollout_filename(&selected, &published)) {
                    return this.refuse(RecoveryRefusal::OtherGeneration { path: published });
                }
                Check::Ask(
                    ValidateRecovery { stage: ValidateStage::ReadingSelected, ..this },
                    CheckAction::ReadMetadata { path: selected },
                )
            },
            (ValidateStage::ReadingSelected, CheckReply::Metadata { id, history_mode }) => {
                let selected: RolloutPath = match &this.selected {
                    Some(selected) => selected.clone(),
                    None => {
                        return this.check_source();
                    },
                };
                if id != this.thread_id || history_mode != ThreadHistoryMode::PaginatedRefsV1 {
                    return this.refuse(RecoveryRefusal::SelectedNotPaginated { path: selected });
                }
                this.check_source()
            },
            (ValidateStage::QualifyingPreserved(sub), reply) => this.qualify_preserved(
                sub.advance(reply),
            ),
            (ValidateStage::CheckingPreserved, CheckReply::Answer(exists)) => {
                if !exists {
                    return this.check_published();
                }
                let action = CheckAction::SourceThread { recovery: this.recovery.clone() };
                Check::Ask(ValidateRecovery { stage: ValidateStage::AskingOwner, ..this }, action)
            },
            (ValidateStage::AskingOwner, CheckReply::Thread(owner)) => {
                if owner == this.thread_id {
                    return this.check_published();
                }
                let path: RolloutPath = this.recovery.preserved_source_path.clone();
                this.refuse(RecoveryRefusal::PreservedBelongsTo { owner, path })
            },
            (ValidateStage::CheckingPublished, CheckReply::Answer(exists)) => {
                if !exists {
                    return Check::End(Ok(()));
                }
                let action = CheckAction::ReadMetadata { path: this.published_path() };
                Check::Ask(
                    ValidateRecovery { stage: ValidateStage::ReadingPublished, ..this },
                    action,
                )
            },
            (ValidateStage::ReadingPublished, CheckReply::Metadata { id, .. }) => {
                if id == this.thread_id {
                    return Check::End(Ok(()));
                }
                let path: RolloutPath = this.published_path();
                this.refuse(RecoveryRefusal::PublishedBelongsTo { owner: id, path })
            },
            (_, reply) => Check::End(Err(problem_of_check(reply))),
        }
    }
}

/// Nothing that a record names is read before the record is known to belong to this home and its
/// paths are known to stand inside the rollout directories: metadata and the preserved source are
/// asked for only in the stages behind those tests, and only under paths that were tested.
pub proof fn records_are_qualified_before_they_are_followed(m: ValidateRecovery, reply: CheckReply)
    ensures
        m.next(reply) matches Check::Ask(_, CheckAction::ReadMetadata { .. }) ==> m.stage
            is Matching || m.stage is CheckingPublished,
        m.next(reply) matches Check::Ask(_, CheckAction::SourceThread { .. }) ==> m.stage
            is CheckingPreserved,
        m.begun() matches Check::Ask(_, action) ==> action is Canonicalize,
{
}

/// The part of a disk that a validation sees: which paths name something, and the canonical form of
/// every path that has one.
pub struct PathsOnDisk {
    pub visible: Set<Seq<char>>,
    pub canonical: Map<Seq<char>, Seq<char>>,
}

impl PathsOnDisk {
    /// Where a path leads to: its canonical form, or that of its parent where nothing stands
    /// under it yet.
    pub open spec fn target(self, path: Seq<char>) -> Seq<char> {
        if self.visible.contains(path) {
            self.canonical[path]
        } else {
            self.canonical[parent_of(path)->0]
        }
    }

    /// Whether a canonical path stands inside a directory, whatever links lead to the directory.
    pub open spec fn inside(self, target: Seq<char>, directory: Seq<char>) -> bool {
        self.canonical.dom().contains(directory) && is_inside(target, self.canonical[directory])
    }

    /// Whether a path is normalised and leads into one of the directories that hold rollouts.
    pub open spec fn leads_into(self, roots: RolloutRoots, path: Seq<char>) -> bool {
        &&& is_normalized_absolute(path)
        &&& self.inside(self.target(path), roots.sessions@) || self.inside(
            self.target(path),
            roots.archived@,
        )
    }

    /// Whether an answer about paths tells the truth.
    pub open spec fn answers(self, action: CheckAction, reply: CheckReply) -> bool {
        match (action, reply) {
            (CheckAction::Visible { path }, CheckReply::Answer(visible)) => visible
                == self.visible.contains(path@),
            (CheckAction::Canonicalize { path }, CheckReply::Path(found)) => {
                self.canonical.dom().contains(path@) && self.canonical[path@] == found@
            },
            (CheckAction::CanonicalizeParent { path }, CheckReply::Path(found)) => {
                self.canonical[parent_of(path@)->0] == found@
            },
            _ => true,
        }
    }
}

/// Whether the test of one path that has come some way fits the disk.
pub open spec fn qualification_fits(
    disk: PathsOnDisk,
    check: Check<QualifyPath>,
    roots: RolloutRoots,
    path: RolloutPath,
) -> bool {
    match check {
        Check::Ask(q, action) => {
            &&& q.roots == roots && q.path == path
            &&& is_normalized_absolute(path@)
            &&& match q.stage {
                QualifyStage::Looking => action == (CheckAction::Visible { path }),
                QualifyStage::Canonicalizing => action == if disk.visible.contains(path@) {
                    CheckAction::Canonicalize { path }
                } else {
                    CheckAction::CanonicalizeParent { path }
                },
                QualifyStage::ComparingSessions { target } => target@ == disk.target(path@)
                    && action == (CheckAction::Canonicalize { path: roots.sessions }),
                QualifyStage::ComparingArchived { target } => target@ == disk.target(path@)
                    && action == (CheckAction::Canonicalize { path: roots.archived }),
            }
        },
        Check::End(Ok(_)) => disk.leads_into(roots, path@),
        Check::End(Err(_)) => true,
    }
}

/// A path is accepted only where it leads into the rollout directories of this home.
pub proof fn accepted_paths_lead_into_the_rollout_directories(
    disk: PathsOnDisk,
    q: QualifyPath,
    action: CheckAction,
    reply: CheckReply,
)
    requires
        qualification_fits(disk, Check::Ask(q, action), q.roots, q.path),
        disk.answers(action, reply),
    ensures
        qualification_fits(disk, q.next(reply), q.roots, q.path),
{
}

/// Whether the journal of a validation is one of the two that its thread has in this home.
pub open spec fn journal_is_own(m: ValidateRecovery) -> bool {
    m.journal_path@ == pending_journal_of(m.home@, m.thread_id) || m.journal_path@
        == retained_journal_of(m.home@, m.thread_id)
}

/// Whether the journal leads into the journal directory, and that directory into the home.
pub open spec fn journal_lies_in_home(disk: PathsOnDisk, m: ValidateRecovery) -> bool {
    let canonical = disk.canonical;
    &&& canonical.dom().contains(m.home@)
    &&& canonical.dom().contains(m.journal_root@)
    &&& canonical.dom().contains(m.journal_path@)
    &&& is_inside(canonical[m.journal_root@], canonical[m.home@])
    &&& is_inside(canonical[m.journal_path@], canonical[m.journal_root@])
}

/// Whether a record can be followed, as far as the record and its paths go: it stands in a journal
/// of its thread in this home; it is of this version and does not claim both a retirement and a
/// split; its publication and its preserved source are those that follow from the rollout; these
/// paths, and the one that was selected, lead into the rollout directories; and it has the
/// fingerprint where one is required.
pub open spec fn record_is_sound(disk: PathsOnDisk, m: ValidateRecovery) -> bool {
    let recovery = m.recovery;
    &&& journal_is_own(m)
    &&& journal_lies_in_home(disk, m)
    &&& recovery.version == MIGRATION_JOURNAL_VERSION
    &&& !(recovery.retirement_started && recovery.split_generation_detected)
    &&& m.published()@ == plain_path(recovery.rollout_path@)
    &&& recovery.preserved_source_path@ == preserved_of(recovery.rollout_path@)
    &&& disk.leads_into(m.roots, recovery.rollout_path@)
    &&& disk.leads_into(m.roots, m.published()@)
    &&& m.selected matches Some(selected) ==> disk.leads_into(m.roots, selected@)
    &&& disk.leads_into(m.roots, recovery.preserved_source_path@)
    &&& m.require_publication_fingerprint ==> recovery.publication_fingerprint is Some
}

/// Whether a validation has tested what it has to test before a stage.
pub open spec fn record_holds(
    disk: PathsOnDisk,
    m: ValidateRecovery,
    action: CheckAction,
) -> bool {
    let recovery = m.recovery;
    let past_record = !(m.stage is CanonicalizingHome) && !(m.stage is CanonicalizingRoot) && !(
    m.stage is CanonicalizingJournal);
    let past_rollout = past_record && !(m.stage is QualifyingRollout);
    let past_target = past_rollout && !(m.stage is QualifyingPublished);
    let past_selected = past_target && !(m.stage is QualifyingSelected);
    let past_source = m.stage is QualifyingPreserved || past_fingerprint(m.stage);
    &&& journal_is_own(m)
    &&& past_record ==> {
        &&& journal_lies_in_home(disk, m)
        &&& recovery.version == MIGRATION_JOURNAL_VERSION
        &&& !(recovery.retirement_started && recovery.split_generation_detected)
    }
    &&& past_rollout ==> disk.leads_into(m.roots, recovery.rollout_path@)
    &&& past_target ==> {
        &&& disk.leads_into(m.roots, m.published()@)
        &&& m.published()@ == plain_path(recovery.rollout_path@)
    }
    &&& past_selected ==> (m.selected matches Some(selected) ==> disk.leads_into(
        m.roots,
        selected@,
    ))
    &&& past_source ==> recovery.preserved_source_path@ == preserved_of(recovery.rollout_path@)
    &&& past_fingerprint(m.stage) ==> record_is_sound(disk, m)
    &&& match m.stage {
        ValidateStage::CanonicalizingHome => action == (CheckAction::Canonicalize { path: m.home }),
        ValidateStage::CanonicalizingRoot { home } => {
            &&& action == (CheckAction::Canonicalize { path: m.journal_root })
            &&& disk.answers(CheckAction::Canonicalize { path: m.home }, CheckReply::Path(home))
        },
        ValidateStage::CanonicalizingJournal { home, root } => {
            &&& action == (CheckAction::Canonicalize { path: m.journal_path })
            &&& disk.answers(CheckAction::Canonicalize { path: m.home }, CheckReply::Path(home))
            &&& disk.answers(
                CheckAction::Canonicalize { path: m.journal_root },
                CheckReply::Path(root),
            )
        },
        ValidateStage::QualifyingRollout(sub) => qualification_fits(
            disk,
            Check::Ask(sub, action),
            m.roots,
            recovery.rollout_path,
        ),
        ValidateStage::QualifyingPublished(sub) => qualification_fits(
            disk,
            Check::Ask(sub, action),
            m.roots,
            m.published(),
        ),
        ValidateStage::QualifyingSelected(sub) => m.selected is Some && qualification_fits(
            disk,
            Check::Ask(sub, action),
            m.roots,
            m.selected->0,
        ),
        ValidateStage::QualifyingPreserved(sub) => qualification_fits(
            disk,
            Check::Ask(sub, action),
            m.roots,
            recovery.preserved_source_path,
        ),
        _ => true,
    }
}

/// Whether a stage stands behind the test for a fingerprint.
pub open spec fn past_fingerprint(stage: ValidateStage) -> bool {
    stage is CheckingPreserved || stage is AskingOwner || stage is CheckingPublished || stage
        is ReadingPublished
}

/// A validation begins only with a journal of its thread in this home.
pub proof fn validations_begin_with_their_own_journal(disk: PathsOnDisk, m: ValidateRecovery)
    ensures
        m.begun() matches Check::Ask(next, action) ==> record_holds(disk, next, action),
        m.begun() is Ask <==> journal_is_own(m),
{
}

/// A validation only moves on while the record holds what has been tested so far, and it succeeds
/// only where the record can be followed.
#[verifier::rlimit(40)]
pub proof fn validated_records_hold_together(
    disk: PathsOnDisk,
    m: ValidateRecovery,
    action: CheckAction,
    reply: CheckReply,
)
    requires
        record_holds(disk, m, action),
        disk.answers(action, reply),
    ensures
        m.next(reply) matches Check::Ask(next, asked) ==> {
            &&& record_holds(disk, next, asked)
            &&& next == m.at(next.stage)
        },
        m.next(reply) matches Check::End(Ok(_)) ==> record_is_sound(disk, m),
{
    match m.stage {
        ValidateStage::QualifyingRollout(sub) => {
            accepted_paths_lead_into_the_rollout_directories(disk, sub, action, reply);
        },
        ValidateStage::QualifyingPublished(sub) => {
            accepted_paths_lead_into_the_rollout_directories(disk, sub, action, reply);
        },
        ValidateStage::QualifyingSelected(sub) => {
            accepted_paths_lead_into_the_rollout_directories(disk, sub, action, reply);
        },
        ValidateStage::QualifyingPreserved(sub) => {
            accepted_paths_lead_into_the_rollout_directories(disk, sub, action, reply);
        },
        _ => {},
    }
}

} // verus!
