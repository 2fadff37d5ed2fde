//! The walk over the directories that hold rollouts and journals.

use crate::discovery::descends;
use crate::discovery::newest_first;
use crate::discovery::path_texts;
use crate::discovery::rollout_entry;
use crate::discovery::RolloutEntry;
use crate::error::migration_error;
use crate::error::migration_failure;
use crate::error::spelled_thread_id;
use crate::error::ErrorView;
use crate::error::ThreadId;
use crate::error::ThreadStoreError;
use crate::error::ThreadStoreResult;
use crate::paths::is_rollout_name;
use crate::paths::plain_path;
use crate::paths::plain_rollout_path;
use crate::paths::thread_id_from_journal_name;
use crate::paths::RolloutPath;
use vstd::prelude::*;

verus! {

/// What an entry of a directory is.
#[derive(Clone, Copy, Debug, PartialEq, Eq, Structural)]
pub enum EntryKind {
    Directory,
    File,
    Other,
}

/// An entry of a directory.
#[derive(Debug, PartialEq, Eq)]
pub struct DirectoryEntry {
    pub path: RolloutPath,
    /// The name of the entry, where that is text.
    pub name: Option<String>,
    pub kind: EntryKind,
}

/// Something that a walk asks.
#[derive(Debug, PartialEq, Eq)]
pub enum WalkAction {
    /// Begin to read a directory.
    ReadDirectory { path: RolloutPath },
    /// The next entry of the directory.
    NextEntry,
    /// Does a path exist?
    Exists { path: RolloutPath },
}

/// What a walk is told.
#[derive(Debug, PartialEq, Eq)]
pub enum WalkReply {
    Done,
    Answer(bool),
    Entry(DirectoryEntry),
    /// There are no more entries.
    NoMore,
    NotFound,
    Failed(String),
}

/// A walk for rollouts below a directory.
#[derive(Debug)]
pub struct FindRollouts {
    /// The directories that are still to be read, the next one last.
    pub directories: Vec<RolloutPath>,
    /// The rollouts that have been found.
    pub paths: Vec<RolloutPath>,
    pub stage: WalkStage,
}

/// The steps of a walk.
#[derive(Debug)]
pub enum WalkStage {
    Opening,
    Reading,
    /// A compressed rollout counts only where the plain one does not exist.
    Checking { compressed: RolloutPath },
}

/// A walk by its paths.
pub struct WalkView {
    pub directories: Seq<RolloutPath>,
    pub paths: Seq<RolloutPath>,
    pub stage: WalkStage,
}

impl View for FindRollouts {
    type V = WalkView;

    open spec fn view(&self) -> WalkView {
        WalkView { directories: self.directories@, paths: self.paths@, stage: self.stage }
    }
}

/// Where a walk stands: it asks something, or it has ended.
#[derive(Debug)]
pub enum WalkStep {
    Ask(FindRollouts, WalkAction),
    End(ThreadStoreResult<Vec<RolloutPath>>),
}

/// Where a walk is to stand: an action may name a path by its text alone, and the rollouts that
/// were found may come in any order.
pub enum WalkStepView {
    Open(WalkView, RolloutPath),
    Read(WalkView),
    Check(WalkView, Seq<char>),
    Found(Seq<RolloutPath>),
    Problem(ErrorView),
}

/// Whether a step of a walk is the one that is expected. The rollouts that were found come newest
/// first.
pub open spec fn is_walk_step(step: WalkStep, expected: WalkStepView) -> bool {
    match expected {
        WalkStepView::Open(v, path) => step matches WalkStep::Ask(m, action) && m@ == v && action
            == (WalkAction::ReadDirectory { path }),
        WalkStepView::Read(v) => step matches WalkStep::Ask(m, action) && m@ == v && action
            is NextEntry,
        WalkStepView::Check(v, plain) => step matches WalkStep::Ask(m, action) && m@ == v && action
            is Exists && action->Exists_path@ == plain,
        WalkStepView::Found(paths) => step matches WalkStep::End(Ok(found)) && descends(
            path_texts(found@),
        ) && found@.to_multiset() == paths.to_multiset(),
        WalkStepView::Problem(error) => step matches WalkStep::End(Err(problem)) && problem@
            == error,
    }
}

impl WalkView {
    /// The walk goes on with the directory that was found last.
    pub open spec fn opening(self) -> WalkStepView {
        if self.directories.len() == 0 {
            WalkStepView::Found(self.paths)
        } else {
            WalkStepView::Open(
                WalkView {
                    directories: self.directories.drop_last(),
                    stage: WalkStage::Opening,
                    ..self
                },
                self.directories.last(),
            )
        }
    }

    pub open spec fn reading(self) -> WalkStepView {
        WalkStepView::Read(WalkView { stage: WalkStage::Reading, ..self })
    }

    /// What an entry calls for.
    pub open spec fn entered(self, entry: DirectoryEntry) -> WalkStepView {
        if entry.kind == EntryKind::Directory {
            WalkView { directories: self.directories.push(entry.path), ..self }.reading()
        } else if entry.kind == EntryKind::Other || entry.name is None || !is_rollout_name(
            entry.name->0@,
        ) {
            self.reading()
        } else if ".jsonl.zst"@.is_suffix_of(entry.name->0@) {
            WalkStepView::Check(
                WalkView { stage: WalkStage::Checking { compressed: entry.path }, ..self },
                plain_path(entry.path@),
            )
        } else {
            WalkView { paths: self.paths.push(entry.path), ..self }.reading()
        }
    }

    /// Where the walk goes from a reply.
    pub open spec fn next(self, reply: WalkReply) -> WalkStepView {
        match (self.stage, reply) {
            (WalkStage::Opening, WalkReply::Done) => self.reading(),
            (WalkStage::Opening, WalkReply::NotFound) => self.opening(),
            (WalkStage::Reading, WalkReply::Entry(entry)) => self.entered(entry),
            (WalkStage::Reading, WalkReply::NoMore) => self.opening(),
            (WalkStage::Checking { compressed }, WalkReply::Answer(exists)) => if exists {
                self.reading()
            } else {
                WalkView { paths: self.paths.push(compressed), ..self }.reading()
            },
            (_, reply) => WalkStepView::Problem(walk_failure(reply)),
        }
    }
}

/// The error that a reply stands for, where it does not carry a walk on.
pub open spec fn walk_failure(reply: WalkReply) -> ErrorView {
    match reply {
        WalkReply::Failed(message) => migration_failure(message@),
        _ => migration_failure("the reply does not answer the action"@),
    }
}

fn walk_error(reply: WalkReply) -> (r: ThreadStoreError)
    ensures
        r@ == walk_failure(reply),
{
    match reply {
        WalkReply::Failed(message) => migration_error(message.as_str()),
        _ => migration_error("the reply does not answer the action"),
    }
}

impl FindRollouts {
    /// Begins with a directory.
    pub fn begin(root: RolloutPath) -> (r: WalkStep)
        ensures
            is_walk_step(
                r,
                (WalkView {
                    directories: seq![root],
                    paths: Seq::empty(),
                    stage: WalkStage::Opening,
                }).opening(),
            ),
    {
        let mut directories: Vec<RolloutPath> = Vec::new();
        directories.push(root);
        let walk = FindRollouts { directories, paths: Vec::new(), stage: WalkStage::Opening };
        assert(walk.directories@ =~= seq![root]);
        assert(walk.paths@ =~= Seq::<RolloutPath>::empty());
        walk.open()
    }

    fn open(self) -> (r: WalkStep)
        ensures
            is_walk_step(r, self@.opening()),
    {
        let mut directories: Vec<RolloutPath> = self.directories;
        let ghost before = directories@;
        match directories.pop() {
            None => WalkStep::End(Ok(newest_first(self.paths))),
            Some(path) => {
                assert(directories@ =~= before.drop_last());
                WalkStep::Ask(
                    FindRollouts { directories, paths: self.paths, stage: WalkStage::Opening },
                    WalkAction::ReadDirectory { path },
                )
            },
        }
    }

    fn read(self) -> (r: WalkStep)
        ensures
            is_walk_step(r, self@.reading()),
    {
        WalkStep::Ask(
            FindRollouts {
                directories: self.directories,
                paths: self.paths,
                stage: WalkStage::Reading,
            },
            WalkAction::NextEntry,
        )
    }

    fn enter(self, entry: DirectoryEntry) -> (r: WalkStep)
        ensures
            is_walk_step(r, self@.entered(entry)),
    {
        let mut this = self;
        let DirectoryEntry { path, name, kind } = entry;
        if kind == EntryKind::Directory {
            this.directories.push(path);
            return this.read();
        }
        if kind == EntryKind::Other {
            return this.read();
        }
        let found: RolloutEntry = match &name {
            Some(name) => rollout_entry(name.as_str()),
            None => RolloutEntry::Ignore,
        };
        match found {
            RolloutEntry::Ignore => this.read(),
            RolloutEntry::Take => {
                this.paths.push(path);
                this.read()
            },
            RolloutEntry::TakeUnlessPlainExists => {
                let plain: RolloutPath = plain_rollout_path(&path);
                WalkStep::Ask(
                    FindRollouts {
                        directories: this.directories,
                        paths: this.paths,
                        stage: WalkStage::Checking { compressed: path },
                    },
                    WalkAction::Exists { path: plain },
                )
            },
        }
    }

    /// Carries the walk on from a reply.
    pub fn advance(self, reply: WalkReply) -> (r: WalkStep)
        ensures
            is_walk_step(r, self@.next(reply)),
    {
        let FindRollouts { directories, paths, stage } = self;
        let mut this = FindRollouts { directories, paths, stage: WalkStage::Opening };
        match (stage, reply) {
            (WalkStage::Opening, WalkReply::Done) => this.read(),
            (WalkStage::Opening, WalkReply::NotFound) => this.open(),
            (WalkStage::Reading, WalkReply::Entry(entry)) => this.enter(entry),
            (WalkStage::Reading, WalkReply::NoMore) => this.open(),
            (WalkStage::Checking { compressed }, WalkReply::Answer(exists)) => {
                if !exists {
                    this.paths.push(compressed);
                }
                this.read()
            },
            (_, reply) => WalkStep::End(Err(walk_error(reply))),
        }
    }
}

/// The threads with a journal of some kind.
#[derive(Debug)]
pub struct JournalThreads {
    pub suffix: String,
    pub thread_ids: Vec<ThreadId>,
}

/// The thread whose journal an entry is, if it is one.
pub open spec fn journal_owner(kind: EntryKind, name: Option<Seq<char>>, suffix: Seq<char>) -> Option<
    ThreadId,
> {
    if kind == EntryKind::File && name is Some && suffix.is_suffix_of(name->0) {
        spelled_thread_id(name->0.take(name->0.len() - suffix.len()))
    } else {
        None
    }
}

impl JournalThreads {
    /// No thread so far, of those whose journals end with a suffix.
    pub fn new(suffix: &str) -> (r: JournalThreads)
        ensures
            r.suffix@ == suffix@,
            r.thread_ids@.len() == 0,
    {
        JournalThreads { suffix: suffix.to_owned(), thread_ids: Vec::new() }
    }

    /// Takes in an entry of the journal directory. A thread counts once.
    pub fn take_entry(&mut self, kind: EntryKind, name: &Option<String>)
        requires
            old(self).thread_ids@.no_duplicates(),
        ensures
            final(self).suffix == old(self).suffix,
            final(self).thread_ids@.no_duplicates(),
            final(self).thread_ids@ == match journal_owner(
                kind,
                crate::outside::opt_text(*name),
                old(self).suffix@,
            ) {
                Some(id) => if old(self).thread_ids@.contains(id) {
                    old(self).thread_ids@
                } else {
                    old(self).thread_ids@.push(id)
                },
                None => old(self).thread_ids@,
            },
    {
        if kind != EntryKind::File {
            return;
        }
        let found: Option<ThreadId> = match name {
            Some(name) => thread_id_from_journal_name(name.as_str(), self.suffix.as_str()),
            None => None,
        };
        if let Some(id) = found {
            let mut i: usize = 0;
            while i < self.thread_ids.len()
                invariant
                    i <= self.thread_ids@.len(),
                    forall|j: int| 0 <= j < i ==> #[trigger] self.thread_ids@[j] != id,
                    self.thread_ids@ == old(self).thread_ids@,
                    self.suffix == old(self).suffix,
                    old(self).thread_ids@.no_duplicates(),
                    journal_owner(kind, crate::outside::opt_text(*name), self.suffix@) == Some(id),
                decreases self.thread_ids.len() - i,
            {
                if self.thread_ids[i] == id {
                    assert(old(self).thread_ids@[i as int] == id);
                    return;
                }
                i += 1;
            }
            self.thread_ids.push(id);
        }
    }

    /// The threads that were found.
    pub fn finish(self) -> (r: Vec<ThreadId>)
        ensures
            r == self.thread_ids,
    {
        self.thread_ids
    }
}

/// A walk collects a file exactly where it is a rollout by its name and, compressed, has no plain
/// counterpart; it reads every directory that it meets, and gives nothing up that it has found.
pub proof fn walks_collect_exactly_the_rollouts(v: WalkView, entry: DirectoryEntry)
    requires
        v.stage is Reading,
    ensures
        ({
            let rollout = entry.kind == EntryKind::File && entry.name is Some && is_rollout_name(
                entry.name->0@,
            );
            let compressed = rollout && ".jsonl.zst"@.is_suffix_of(entry.name->0@);
            match v.next(WalkReply::Entry(entry)) {
                WalkStepView::Read(next) => {
                    &&& next.paths == if rollout && !compressed {
                        v.paths.push(entry.path)
                    } else {
                        v.paths
                    }
                    &&& next.directories == if entry.kind == EntryKind::Directory {
                        v.directories.push(entry.path)
                    } else {
                        v.directories
                    }
                    &&& !compressed
                },
                WalkStepView::Check(next, plain) => {
                    &&& compressed
                    &&& plain == plain_path(entry.path@)
                    &&& next.paths == v.paths && next.directories == v.directories
                    &&& next.next(WalkReply::Answer(true)) == v.reading()
                    &&& next.next(WalkReply::Answer(false)) == WalkView {
                        paths: v.paths.push(entry.path),
                        ..v
                    }.reading()
                },
                _ => false,
            }
        }),
{
}

} // verus!
