//! The model-visible context of a thread, as it is replayed on resume and on fork.
//!
//! Plain paginated rollouts are read from their end, newest record first. The reading stops where a
//! bounded context is complete. Where it never is, the whole lineage is read once more. Legacy and
//! compressed rollouts are read in full from their beginning.

use crate::error::ErrorView;
use crate::error::ThreadId;
use crate::error::ThreadStoreError;
use crate::paths::is_compressed;
use crate::paths::rollout_path_is_compressed;
use crate::paths::RolloutPath;
use crate::rollout::HistoryPosition;
use crate::rollout::RolloutItem;
use crate::rollout::SessionMeta;
use crate::text::concat2;
use crate::text::concat4;
use crate::text::concat5;
use vstd::prelude::*;

verus! {

/// A rollout that holds the current history of a thread.
#[derive(Debug, PartialEq, Eq)]
pub struct ResolvedRollout {
    pub rollout_id: ThreadId,
    pub path: RolloutPath,
}

/// Something that is asked while a context is loaded.
#[allow(inconsistent_fields)]
#[derive(Debug, PartialEq, Eq)]
pub enum ContextAction {
    /// Which rollout holds the current history of a thread?
    ResolveCurrent { thread_id: ThreadId, include_archived: bool },
    /// The head of a rollout.
    ReadHead { path: RolloutPath },
    /// The rollouts that make up the history of a thread, oldest first.
    ResolveLineage { thread_id: ThreadId, rollout_id: ThreadId, path: RolloutPath },
    /// The lineage up to a position.
    TruncateLineage { base: HistoryPosition },
    /// All items of a rollout.
    LoadHistory { path: RolloutPath },
    /// Read a segment of the lineage from its end.
    OpenSegment { index: usize },
    /// The next older record of the segment.
    NextRecord,
    /// Offer an item to the bounded context. Is the context complete?
    Offer { item: RolloutItem },
    /// The items of the bounded context, for a thread with a head.
    FinishBounded { head: SessionMeta },
}

/// What was found or done.
#[derive(Debug, PartialEq, Eq)]
pub enum ContextReply {
    Done,
    Answer(bool),
    Resolved(Option<ResolvedRollout>),
    Head(SessionMeta),
    Lineage { segments: usize },
    /// A record, with its item where it could be read.
    Record(Option<RolloutItem>),
    NoMore,
    Items(Vec<RolloutItem>),
    Rejected(ThreadStoreError),
    Failed(String),
}

/// Why a context cannot be loaded.
#[allow(inconsistent_fields)]
#[derive(Debug, PartialEq, Eq)]
pub enum ContextProblem {
    Rejected(ThreadStoreError),
    /// The lineage could not be read.
    ScanFailed { error: String },
    /// The reading of the lineage did not come back.
    ScanLost { error: String },
    /// The thread has no rollout.
    NotFound { thread_id: ThreadId },
    /// The head of a rollout could not be read.
    UnreadableHead { path: RolloutPath, error: String },
    /// The rollout is that of another thread.
    OtherThread { path: RolloutPath, found: ThreadId, thread_id: ThreadId },
    /// A fork has nothing to read from.
    NoSource,
    /// The reply does not answer what was asked.
    UnexpectedReply,
}

/// The error that a problem is reported as.
pub open spec fn context_problem_view(problem: ContextProblem) -> ErrorView {
    match problem {
        ContextProblem::Rejected(error) => error@,
        ContextProblem::ScanFailed { error } => ErrorView::Internal(
            "failed to scan paginated model context lineage: "@ + error@,
        ),
        ContextProblem::ScanLost { error } => ErrorView::Internal(
            "failed to join model context scan: "@ + error@,
        ),
        ContextProblem::NotFound { thread_id } => ErrorView::InvalidRequest(
            "no rollout found for thread id "@ + thread_id.text(),
        ),
        ContextProblem::UnreadableHead { path, error } => ErrorView::Internal(
            "failed to read session metadata "@ + path@ + ": "@ + error@,
        ),
        ContextProblem::OtherThread { path, found, thread_id } => ErrorView::InvalidRequest(
            "rollout at "@ + path@ + " belongs to thread "@ + found.text() + ", not "@
                + thread_id.text(),
        ),
        ContextProblem::NoSource => ErrorView::Internal("fork lineage has no source segment"@),
        ContextProblem::UnexpectedReply => ErrorView::Internal(
            "the reply does not answer the action"@,
        ),
    }
}

impl ContextProblem {
    /// The error that the problem is reported as.
    pub fn to_error(self) -> (r: ThreadStoreError)
        ensures
            r@ == context_problem_view(self),
    {
        match self {
            ContextProblem::Rejected(error) => error,
            ContextProblem::ScanFailed { error } => ThreadStoreError::Internal {
                message: concat2(
                    "failed to scan paginated model context lineage: ",
                    error.as_str(),
                ),
            },
            ContextProblem::ScanLost { error } => ThreadStoreError::Internal {
                message: concat2("failed to join model context scan: ", error.as_str()),
            },
            ContextProblem::NotFound { thread_id } => ThreadStoreError::InvalidRequest {
                message: concat2(
                    "no rollout found for thread id ",
                    thread_id.to_text().as_str(),
                ),
            },
            ContextProblem::UnreadableHead { path, error } => ThreadStoreError::Internal {
                message: concat4(
                    "failed to read session metadata ",
                    path.text.as_str(),
                    ": ",
                    error.as_str(),
                ),
            },
            ContextProblem::OtherThread { path, found, thread_id } => {
                let head: String = concat5(
                    "rollout at ",
                    path.text.as_str(),
                    " belongs to thread ",
                    found.to_text().as_str(),
                    ", not ",
                );
                ThreadStoreError::InvalidRequest {
                    message: concat2(head.as_str(), thread_id.to_text().as_str()),
                }
            },
            ContextProblem::NoSource => ThreadStoreError::Internal {
                message: "fork lineage has no source segment".to_owned(),
            },
            ContextProblem::UnexpectedReply => ThreadStoreError::Internal {
                message: "the reply does not answer the action".to_owned(),
            },
        }
    }
}

/// Where the loading of a context stands: it asks for something, or it has ended.
#[derive(Debug)]
pub enum ContextStep<M> {
    Ask(M, ContextAction),
    End(Result<Vec<RolloutItem>, ContextProblem>),
}

/// Where the loading of a context stands, by its items.
pub enum ContextStepView<V> {
    Ask(V, ContextAction),
    End(Result<Seq<RolloutItem>, ContextProblem>),
}

/// The problem that a reply stands for, where it does not carry the loading on.
pub open spec fn context_reply_problem(reply: ContextReply) -> ContextProblem {
    match reply {
        ContextReply::Rejected(error) => ContextProblem::Rejected(error),
        ContextReply::Failed(error) => ContextProblem::ScanFailed { error },
        _ => ContextProblem::UnexpectedReply,
    }
}

fn context_problem_of(reply: ContextReply) -> (r: ContextProblem)
    ensures
        r == context_reply_problem(reply),
{
    match reply {
        ContextReply::Rejected(error) => ContextProblem::Rejected(error),
        ContextReply::Failed(error) => ContextProblem::ScanFailed { error },
        _ => ContextProblem::UnexpectedReply,
    }
}

/// A context that begins with a head: where the items have none in front, it is put there.
pub open spec fn with_head(items: Seq<RolloutItem>, head: SessionMeta) -> Seq<RolloutItem> {
    if items.len() > 0 && items[0] is SessionMeta {
        items
    } else {
        seq![RolloutItem::SessionMeta(head)] + items
    }
}

/// A context that begins with a head.
pub fn insert_head(items: Vec<RolloutItem>, head: SessionMeta) -> (r: Vec<RolloutItem>)
    ensures
        r@ == with_head(items@, head),
{
    let headed: bool = items.len() > 0 && is_head(&items[0]);
    let mut out: Vec<RolloutItem> = items;
    if !headed {
        let ghost before = out@;
        out.insert(0, RolloutItem::SessionMeta(head));
        assert(out@ =~= seq![RolloutItem::SessionMeta(head)] + before);
    }
    out
}

fn is_head(item: &RolloutItem) -> (r: bool)
    ensures
        r == (item is SessionMeta),
{
    match item {
        RolloutItem::SessionMeta(_) => true,
        _ => false,
    }
}

/// The replay of items that were read newest first, behind a head.
pub open spec fn full_replay(newest_first: Seq<RolloutItem>, head: SessionMeta) -> Seq<
    RolloutItem,
> {
    seq![RolloutItem::SessionMeta(head)] + newest_first.reverse()
}

/// The replay of items that were read newest first, behind a head.
pub fn oldest_first(newest_first: Vec<RolloutItem>, head: SessionMeta) -> (r: Vec<RolloutItem>)
    ensures
        r@ == full_replay(newest_first@, head),
{
    let ghost all = newest_first@;
    let mut rest: Vec<RolloutItem> = newest_first;
    let mut out: Vec<RolloutItem> = Vec::new();
    out.push(RolloutItem::SessionMeta(head));
    while rest.len() > 0
        invariant
            rest@.len() <= all.len(),
            rest@ == all.take(rest@.len() as int),
            out@ == seq![RolloutItem::SessionMeta(head)] + all.skip(
                rest@.len() as int,
            ).reverse(),
        decreases rest@.len(),
    {
        let ghost before = rest@;
        match rest.pop() {
            Some(item) => {
                proof {
                    assert(item == all[before.len() - 1]);
                    assert(all.skip(before.len() - 1).reverse() =~= all.skip(
                        before.len() as int,
                    ).reverse().push(item));
                }
                out.push(item);
            },
            None => {},
        }
    }
    assert(all.skip(0) =~= all);
    out
}

/// The reading of a lineage of paginated rollouts.
#[derive(Debug)]
pub struct ContextScan {
    pub head: SessionMeta,
    pub segments: usize,
    pub stage: ScanStage,
}

/// The steps of reading a lineage: a segment is known by its position, oldest first.
#[allow(inconsistent_fields)]
#[derive(Debug)]
pub enum ScanStage {
    OpeningBounded { index: usize },
    ReadingBounded { index: usize },
    Offering { index: usize },
    Finishing,
    OpeningFull { index: usize, items: Vec<RolloutItem> },
    ReadingFull { index: usize, items: Vec<RolloutItem> },
}

/// A step by its items, which are those read so far, newest first.
#[allow(inconsistent_fields)]
pub enum ScanStageView {
    OpeningBounded { index: usize },
    ReadingBounded { index: usize },
    Offering { index: usize },
    Finishing,
    OpeningFull { index: usize, items: Seq<RolloutItem> },
    ReadingFull { index: usize, items: Seq<RolloutItem> },
}

/// The reading of a lineage by its items.
pub struct ScanView {
    pub head: SessionMeta,
    pub segments: usize,
    pub stage: ScanStageView,
}

impl View for ScanStage {
    type V = ScanStageView;

    open spec fn view(&self) -> ScanStageView {
        match *self {
            ScanStage::OpeningBounded { index } => ScanStageView::OpeningBounded { index },
            ScanStage::ReadingBounded { index } => ScanStageView::ReadingBounded { index },
            ScanStage::Offering { index } => ScanStageView::Offering { index },
            ScanStage::Finishing => ScanStageView::Finishing,
            ScanStage::OpeningFull { index, items } => ScanStageView::OpeningFull {
                index,
                items: items@,
            },
            ScanStage::ReadingFull { index, items } => ScanStageView::ReadingFull {
                index,
                items: items@,
            },
        }
    }
}

impl View for ContextScan {
    type V = ScanView;

    open spec fn view(&self) -> ScanView {
        ScanView { head: self.head, segments: self.segments, stage: self.stage@ }
    }
}

/// A step of the reading by its items.
pub open spec fn scan_step(step: ContextStep<ContextScan>) -> ContextStepView<ScanView> {
    match step {
        ContextStep::Ask(m, action) => ContextStepView::Ask(m@, action),
        ContextStep::End(Ok(items)) => ContextStepView::End(Ok(items@)),
        ContextStep::End(Err(problem)) => ContextStepView::End(Err(problem)),
    }
}

impl ScanView {
    pub open spec fn ask(self, stage: ScanStageView, action: ContextAction) -> ContextStepView<
        ScanView,
    > {
        ContextStepView::Ask(ScanView { stage, ..self }, action)
    }

    /// The full reading goes on with so many segments left.
    pub open spec fn full_from(self, left: nat, items: Seq<RolloutItem>) -> ContextStepView<
        ScanView,
    > {
        if left == 0 {
            ContextStepView::End(Ok(full_replay(items, self.head)))
        } else {
            let index = (left - 1) as usize;
            self.ask(
                ScanStageView::OpeningFull { index, items },
                ContextAction::OpenSegment { index },
            )
        }
    }

    /// The bounded reading goes on with so many segments left. Where none is left, the lineage is
    /// read once more, in full.
    pub open spec fn bounded_from(self, left: nat) -> ContextStepView<ScanView> {
        if left == 0 {
            self.full_from(self.segments as nat, Seq::empty())
        } else {
            let index = (left - 1) as usize;
            self.ask(
                ScanStageView::OpeningBounded { index },
                ContextAction::OpenSegment { index },
            )
        }
    }

    /// Where the reading goes from a reply.
    pub open spec fn next(self, reply: ContextReply) -> ContextStepView<ScanView> {
        match (self.stage, reply) {
            (ScanStageView::OpeningBounded { index }, ContextReply::Done) => self.ask(
                ScanStageView::ReadingBounded { index },
                ContextAction::NextRecord,
            ),
            (ScanStageView::ReadingBounded { index }, ContextReply::NoMore) => self.bounded_from(
                index as nat,
            ),
            (ScanStageView::ReadingBounded { index }, ContextReply::Record(None)) => self.ask(
                ScanStageView::ReadingBounded { index },
                ContextAction::NextRecord,
            ),
            (ScanStageView::ReadingBounded { index }, ContextReply::Record(Some(item))) => {
                if item is SessionMeta {
                    self.bounded_from(index as nat)
                } else {
                    self.ask(
                        ScanStageView::Offering { index },
                        ContextAction::Offer { item },
                    )
                }
            },
            (ScanStageView::Offering { index }, ContextReply::Answer(complete)) => if complete {
                self.ask(
                    ScanStageView::Finishing,
                    ContextAction::FinishBounded { head: self.head },
                )
            } else {
                self.ask(ScanStageView::ReadingBounded { index }, ContextAction::NextRecord)
            },
            (ScanStageView::Finishing, ContextReply::Items(items)) => ContextStepView::End(
                Ok(with_head(items@, self.head)),
            ),
            (ScanStageView::OpeningFull { index, items }, ContextReply::Done) => self.ask(
                ScanStageView::ReadingFull { index, items },
                ContextAction::NextRecord,
            ),
            (ScanStageView::ReadingFull { index, items }, ContextReply::NoMore) => self.full_from(
                index as nat,
                items,
            ),
            (ScanStageView::ReadingFull { index, items }, ContextReply::Record(None)) => self.ask(
                ScanStageView::ReadingFull { index, items },
                ContextAction::NextRecord,
            ),
            (ScanStageView::ReadingFull { index, items }, ContextReply::Record(Some(item))) => {
                if item is SessionMeta {
                    self.full_from(index as nat, items)
                } else {
                    self.ask(
                        ScanStageView::ReadingFull { index, items: items.push(item) },
                        ContextAction::NextRecord,
                    )
                }
            },
            (_, reply) => ContextStepView::End(Err(context_reply_problem(reply))),
        }
    }
}

impl ContextScan {
    /// The reading of a lineage of so many segments, for a thread with a head.
    pub fn new(head: SessionMeta, segments: usize) -> (r: ContextScan)
        ensures
            r.head == head,
            r.segments == segments,
            r.stage is Finishing,
    {
        ContextScan { head, segments, stage: ScanStage::Finishing }
    }

    fn go(self, stage: ScanStage, action: ContextAction) -> (r: ContextStep<ContextScan>)
        ensures
            scan_step(r) == self@.ask(stage@, action),
    {
        ContextStep::Ask(ContextScan { head: self.head, segments: self.segments, stage }, action)
    }

    fn read_full(self, left: usize, items: Vec<RolloutItem>) -> (r: ContextStep<ContextScan>)
        ensures
            scan_step(r) == self@.full_from(left as nat, items@),
    {
        if left == 0 {
            return ContextStep::End(Ok(oldest_first(items, self.head)));
        }
        let index: usize = left - 1;
        self.go(
            ScanStage::OpeningFull { index, items },
            ContextAction::OpenSegment { index },
        )
    }

    fn read_bounded(self, left: usize) -> (r: ContextStep<ContextScan>)
        ensures
            scan_step(r) == self@.bounded_from(left as nat),
    {
        if left == 0 {
            let segments: usize = self.segments;
            let none: Vec<RolloutItem> = Vec::new();
            assert(none@ =~= Seq::<RolloutItem>::empty());
            return self.read_full(segments, none);
        }
        let index: usize = left - 1;
        self.go(ScanStage::OpeningBounded { index }, ContextAction::OpenSegment { index })
    }

    /// Begins with the newest segment.
    pub fn begin(self) -> (r: ContextStep<ContextScan>)
        ensures
            scan_step(r) == self@.bounded_from(self.segments as nat),
    {
        let segments: usize = self.segments;
        self.read_bounded(segments)
    }

    /// Carries the reading on from a reply.
    #[verifier::rlimit(30)]
    pub fn advance(self, reply: ContextReply) -> (r: ContextStep<ContextScan>)
        ensures
            scan_step(r) == self@.next(reply),
    {
        let ContextScan { head, segments, stage } = self;
        let this = ContextScan { head, segments, stage: ScanStage::Finishing };
        match (stage, reply) {
            (ScanStage::OpeningBounded { index }, ContextReply::Done) => this.go(
                ScanStage::ReadingBounded { index },
                ContextAction::NextRecord,
            ),
            (ScanStage::ReadingBounded { index }, ContextReply::NoMore) => this.read_bounded(
                index,
            ),
            (ScanStage::ReadingBounded { index }, ContextReply::Record(None)) => this.go(
                ScanStage::ReadingBounded { index },
                ContextAction::NextRecord,
            ),
            (ScanStage::ReadingBounded { index }, ContextReply::Record(Some(item))) => {
                if is_head(&item) {
                    this.read_bounded(index)
                } else {
                    this.go(ScanStage::Offering { index }, ContextAction::Offer { item })
                }
            },
            (ScanStage::Offering { index }, ContextReply::Answer(complete)) => {
                if complete {
                    let head: SessionMeta = this.head.clone();
                    this.go(ScanStage::Finishing, ContextAction::FinishBounded { head })
                } else {
                    this.go(ScanStage::ReadingBounded { index }, ContextAction::NextRecord)
                }
            },
            (ScanStage::Finishing, ContextReply::Items(items)) => ContextStep::End(
                Ok(insert_head(items, this.head)),
            ),
            (ScanStage::OpeningFull { index, items }, ContextReply::Done) => this.go(
                ScanStage::ReadingFull { index, items },
                ContextAction::NextRecord,
            ),
            (ScanStage::ReadingFull { index, items }, ContextReply::NoMore) => this.read_full(
                index,
                items,
            ),
            (ScanStage::ReadingFull { index, items }, ContextReply::Record(None)) => this.go(
                ScanStage::ReadingFull { index, items },
                ContextAction::NextRecord,
            ),
            (ScanStage::ReadingFull { index, items }, ContextReply::Record(Some(item))) => {
                if is_head(&item) {
                    this.read_full(index, items)
                } else {
                    let mut items: Vec<RolloutItem> = items;
                    items.push(item);
                    this.go(ScanStage::ReadingFull { index, items }, ContextAction::NextRecord)
                }
            },
            (_, reply) => ContextStep::End(Err(context_problem_of(reply))),
        }
    }
}

/// The loading of the latest context of a thread.
#[derive(Debug)]
pub struct LoadModelContext {
    pub thread_id: ThreadId,
    pub stage: LoadStage,
}

/// The steps of loading a context.
#[derive(Debug)]
pub enum LoadStage {
    Resolving,
    ReadingHead(ResolvedRollout),
    ResolvingLineage(SessionMeta),
    Scanning(ContextScan),
    Loading,
}

/// A step of loading a context by its items.
pub enum LoadStageView {
    Resolving,
    ReadingHead(ResolvedRollout),
    ResolvingLineage(SessionMeta),
    Scanning(ScanView),
    Loading,
}

/// The loading of a context by its items.
pub struct LoadView {
    pub thread_id: ThreadId,
    pub stage: LoadStageView,
}

impl View for LoadModelContext {
    type V = LoadView;

    open spec fn view(&self) -> LoadView {
        LoadView {
            thread_id: self.thread_id,
            stage: match self.stage {
                LoadStage::Resolving => LoadStageView::Resolving,
                LoadStage::ReadingHead(rollout) => LoadStageView::ReadingHead(rollout),
                LoadStage::ResolvingLineage(head) => LoadStageView::ResolvingLineage(head),
                LoadStage::Scanning(scan) => LoadStageView::Scanning(scan@),
                LoadStage::Loading => LoadStageView::Loading,
            },
        }
    }
}

/// A step of the loading by its items.
pub open spec fn load_step(step: ContextStep<LoadModelContext>) -> ContextStepView<LoadView> {
    match step {
        ContextStep::Ask(m, action) => ContextStepView::Ask(m@, action),
        ContextStep::End(Ok(items)) => ContextStepView::End(Ok(items@)),
        ContextStep::End(Err(problem)) => ContextStepView::End(Err(problem)),
    }
}

impl LoadView {
    pub open spec fn ask(self, stage: LoadStageView, action: ContextAction) -> ContextStepView<
        LoadView,
    > {
        ContextStepView::Ask(LoadView { stage, ..self }, action)
    }

    /// The loading from a rollout that has been found.
    pub open spec fn from_rollout(self, rollout: ResolvedRollout) -> ContextStepView<LoadView> {
        self.ask(
            LoadStageView::ReadingHead(rollout),
            ContextAction::ReadHead { path: rollout.path },
        )
    }

    /// The reading of the lineage, as part of the loading.
    pub open spec fn scanning(self, step: ContextStepView<ScanView>) -> ContextStepView<LoadView> {
        match step {
            ContextStepView::Ask(scan, action) => self.ask(LoadStageView::Scanning(scan), action),
            ContextStepView::End(result) => ContextStepView::End(result),
        }
    }

    /// What the head of the rollout calls for.
    pub open spec fn head_read(self, rollout: ResolvedRollout, head: SessionMeta) ->
        ContextStepView<LoadView> {
        if head.id != self.thread_id {
            ContextStepView::End(
                Err(
                    ContextProblem::OtherThread {
                        path: rollout.path,
                        found: head.id,
                        thread_id: self.thread_id,
                    },
                ),
            )
        } else if head.history_mode.paginated() && !is_compressed(rollout.path@) {
            self.ask(
                LoadStageView::ResolvingLineage(head),
                ContextAction::ResolveLineage {
                    thread_id: self.thread_id,
                    rollout_id: rollout.rollout_id,
                    path: rollout.path,
                },
            )
        } else {
            self.ask(LoadStageView::Loading, ContextAction::LoadHistory { path: rollout.path })
        }
    }

    /// Where the loading goes from a reply.
    pub open spec fn next(self, reply: ContextReply) -> ContextStepView<LoadView> {
        match (self.stage, reply) {
            (LoadStageView::Resolving, ContextReply::Resolved(None)) => ContextStepView::End(
                Err(ContextProblem::NotFound { thread_id: self.thread_id }),
            ),
            (LoadStageView::Resolving, ContextReply::Resolved(Some(rollout))) => self.from_rollout(
                rollout,
            ),
            (LoadStageView::ReadingHead(rollout), ContextReply::Head(head)) => self.head_read(
                rollout,
                head,
            ),
            (LoadStageView::ReadingHead(rollout), ContextReply::Failed(error)) => {
                ContextStepView::End(
                    Err(ContextProblem::UnreadableHead { path: rollout.path, error }),
                )
            },
            (LoadStageView::ResolvingLineage(head), ContextReply::Lineage { segments }) => {
                self.scanning(
                    ScanView { head, segments, stage: ScanStageView::Finishing }.bounded_from(
                        segments as nat,
                    ),
                )
            },
            (LoadStageView::Scanning(scan), reply) => self.scanning(scan.next(reply)),
            (LoadStageView::Loading, ContextReply::Items(items)) => ContextStepView::End(
                Ok(items@),
            ),
            (_, reply) => ContextStepView::End(Err(context_reply_problem(reply))),
        }
    }
}

impl LoadModelContext {
    /// The loading of the latest context of a thread.
    pub fn new(thread_id: ThreadId) -> (r: LoadModelContext)
        ensures
            r.thread_id == thread_id,
            r.stage is Resolving,
    {
        LoadModelContext { thread_id, stage: LoadStage::Resolving }
    }

    fn go(self, stage: LoadStage, action: ContextAction) -> (r: ContextStep<LoadModelContext>)
        ensures
            load_step(r) == self@.ask(
                (LoadModelContext { thread_id: self.thread_id, stage })@.stage,
                action,
            ),
    {
        ContextStep::Ask(LoadModelContext { thread_id: self.thread_id, stage }, action)
    }

    /// Begins with the rollout that holds the current history.
    pub fn load_latest_model_context(self, include_archived: bool) -> (r: ContextStep<
        LoadModelContext,
    >)
        ensures
            load_step(r) == self@.ask(
                LoadStageView::Resolving,
                (ContextAction::ResolveCurrent { thread_id: self.thread_id, include_archived }),
            ),
    {
        let thread_id: ThreadId = self.thread_id;
        self.go(
            LoadStage::Resolving,
            ContextAction::ResolveCurrent { thread_id, include_archived },
        )
    }

    /// Begins with a rollout that is already known.
    pub fn load_latest_model_context_from_rollout(self, rollout: ResolvedRollout) -> (r:
        ContextStep<LoadModelContext>)
        ensures
            load_step(r) == self@.from_rollout(rollout),
    {
        let path: RolloutPath = rollout.path.clone();
        self.go(LoadStage::ReadingHead(rollout), ContextAction::ReadHead { path })
    }

    fn scan(self, step: ContextStep<ContextScan>) -> (r: ContextStep<LoadModelContext>)
        ensures
            load_step(r) == self@.scanning(scan_step(step)),
    {
        match step {
            ContextStep::Ask(scan, action) => self.go(LoadStage::Scanning(scan), action),
            ContextStep::End(result) => ContextStep::End(result),
        }
    }

    fn take_head(self, rollout: ResolvedRollout, head: SessionMeta) -> (r: ContextStep<
        LoadModelContext,
    >)
        ensures
            load_step(r) == self@.head_read(rollout, head),
    {
        let thread_id: ThreadId = self.thread_id;
        if head.id != thread_id {
            return ContextStep::End(
                Err(
                    ContextProblem::OtherThread {
                        path: rollout.path,
                        found: head.id,
                        thread_id,
                    },
                ),
            );
        }
        if head.history_mode.is_paginated() && !rollout_path_is_compressed(&rollout.path) {
            self.go(
                LoadStage::ResolvingLineage(head),
                ContextAction::ResolveLineage {
                    thread_id,
                    rollout_id: rollout.rollout_id,
                    path: rollout.path,
                },
            )
        } else {
            self.go(LoadStage::Loading, ContextAction::LoadHistory { path: rollout.path })
        }
    }

    /// Carries the loading on from a reply.
    #[verifier::rlimit(30)]
    pub fn advance(self, reply: ContextReply) -> (r: ContextStep<LoadModelContext>)
        ensures
            load_step(r) == self@.next(reply),
    {
        let LoadModelContext { thread_id, stage } = self;
        let this = LoadModelContext { thread_id, stage: LoadStage::Resolving };
        match (stage, reply) {
            (LoadStage::Resolving, ContextReply::Resolved(None)) => ContextStep::End(
                Err(ContextProblem::NotFound { thread_id }),
            ),
            (LoadStage::Resolving, ContextReply::Resolved(Some(rollout))) => {
                this.load_latest_model_context_from_rollout(rollout)
            },
            (LoadStage::ReadingHead(rollout), ContextReply::Head(head)) => this.take_head(
                rollout,
                head,
            ),
            (LoadStage::ReadingHead(rollout), ContextReply::Failed(error)) => ContextStep::End(
                Err(ContextProblem::UnreadableHead { path: rollout.path, error }),
            ),
            (LoadStage::ResolvingLineage(head), ContextReply::Lineage { segments }) => {
                let scan = ContextScan { head, segments, stage: ScanStage::Finishing };
                this.scan(scan.begin())
            },
            (LoadStage::Scanning(scan), reply) => this.scan(scan.advance(reply)),
            (LoadStage::Loading, ContextReply::Items(items)) => ContextStep::End(Ok(items)),
            (_, reply) => ContextStep::End(Err(context_problem_of(reply))),
        }
    }
}

/// The loading of the context that a fork starts with: what it inherits up to its base.
#[derive(Debug)]
pub struct LoadForFork {
    pub history_base: Option<HistoryPosition>,
    pub stage: ForkStage,
}

/// The steps of loading the context of a fork.
#[derive(Debug)]
pub enum ForkStage {
    ReadingHead(RolloutPath),
    Truncating(SessionMeta),
    Scanning(ContextScan),
}

/// A step of loading the context of a fork by its items.
pub enum ForkStageView {
    ReadingHead(RolloutPath),
    Truncating(SessionMeta),
    Scanning(ScanView),
}

/// The loading of the context of a fork by its items.
pub struct ForkView {
    pub history_base: Option<HistoryPosition>,
    pub stage: ForkStageView,
}

impl View for LoadForFork {
    type V = ForkView;

    open spec fn view(&self) -> ForkView {
        ForkView {
            history_base: self.history_base,
            stage: match self.stage {
                ForkStage::ReadingHead(path) => ForkStageView::ReadingHead(path),
                ForkStage::Truncating(head) => ForkStageView::Truncating(head),
                ForkStage::Scanning(scan) => ForkStageView::Scanning(scan@),
            },
        }
    }
}

/// A step of the loading by its items.
pub open spec fn fork_step(step: ContextStep<LoadForFork>) -> ContextStepView<ForkView> {
    match step {
        ContextStep::Ask(m, action) => ContextStepView::Ask(m@, action),
        ContextStep::End(Ok(items)) => ContextStepView::End(Ok(items@)),
        ContextStep::End(Err(problem)) => ContextStepView::End(Err(problem)),
    }
}

/// The loading of the context of a fork, before anything has been asked. The newest rollout of the
/// lineage is its source.
pub open spec fn fork_begun(
    source: Option<RolloutPath>,
    history_base: Option<HistoryPosition>,
) -> ContextStepView<ForkView> {
    match source {
        None => ContextStepView::End(Err(ContextProblem::NoSource)),
        Some(path) => ContextStepView::Ask(
            ForkView { history_base, stage: ForkStageView::ReadingHead(path) },
            ContextAction::ReadHead { path },
        ),
    }
}

impl ForkView {
    pub open spec fn ask(self, stage: ForkStageView, action: ContextAction) -> ContextStepView<
        ForkView,
    > {
        ContextStepView::Ask(ForkView { stage, ..self }, action)
    }

    /// The reading of the lineage, as part of the loading.
    pub open spec fn scanning(self, step: ContextStepView<ScanView>) -> ContextStepView<ForkView> {
        match step {
            ContextStepView::Ask(scan, action) => self.ask(ForkStageView::Scanning(scan), action),
            ContextStepView::End(result) => ContextStepView::End(result),
        }
    }

    /// Where the loading goes from a reply.
    pub open spec fn next(self, reply: ContextReply) -> ContextStepView<ForkView> {
        match (self.stage, reply) {
            (ForkStageView::ReadingHead(_), ContextReply::Head(head)) => match self.history_base {
                None => ContextStepView::End(Ok(seq![RolloutItem::SessionMeta(head)])),
                Some(base) => self.ask(
                    ForkStageView::Truncating(head),
                    ContextAction::TruncateLineage { base },
                ),
            },
            (ForkStageView::ReadingHead(path), ContextReply::Failed(error)) => {
                ContextStepView::End(Err(ContextProblem::UnreadableHead { path, error }))
            },
            (ForkStageView::Truncating(head), ContextReply::Lineage { segments }) => self.scanning(
                ScanView { head, segments, stage: ScanStageView::Finishing }.bounded_from(
                    segments as nat,
                ),
            ),
            (ForkStageView::Scanning(scan), reply) => self.scanning(scan.next(reply)),
            (_, reply) => ContextStepView::End(Err(context_reply_problem(reply))),
        }
    }
}

impl LoadForFork {
    fn go(self, stage: ForkStage, action: ContextAction) -> (r: ContextStep<LoadForFork>)
        ensures
            fork_step(r) == self@.ask(
                (LoadForFork { history_base: self.history_base, stage })@.stage,
                action,
            ),
    {
        ContextStep::Ask(LoadForFork { history_base: self.history_base, stage }, action)
    }

    /// Begins with the head of the source.
    pub fn load_for_fork(
        source: Option<RolloutPath>,
        history_base: Option<HistoryPosition>,
    ) -> (r: ContextStep<LoadForFork>)
        ensures
            fork_step(r) == fork_begun(source, history_base),
    {
        match source {
            None => ContextStep::End(Err(ContextProblem::NoSource)),
            Some(path) => {
                let read: RolloutPath = path.clone();
                ContextStep::Ask(
                    LoadForFork { history_base, stage: ForkStage::ReadingHead(path) },
                    ContextAction::ReadHead { path: read },
                )
            },
        }
    }

    /// Carries the loading on from a reply.
    pub fn advance(self, reply: ContextReply) -> (r: ContextStep<LoadForFork>)
        ensures
            fork_step(r) == self@.next(reply),
    {
        let LoadForFork { history_base, stage } = self;
        match (stage, reply) {
            (ForkStage::ReadingHead(path), ContextReply::Head(head)) => match history_base {
                None => {
                    let mut items: Vec<RolloutItem> = Vec::new();
                    items.push(RolloutItem::SessionMeta(head));
                    assert(items@ =~= seq![RolloutItem::SessionMeta(head)]);
                    ContextStep::End(Ok(items))
                },
                Some(base) => {
                    let this = LoadForFork { history_base, stage: ForkStage::ReadingHead(path) };
                    this.go(
                        ForkStage::Truncating(head),
                        ContextAction::TruncateLineage { base },
                    )
                },
            },
            (ForkStage::ReadingHead(path), ContextReply::Failed(error)) => ContextStep::End(
                Err(ContextProblem::UnreadableHead { path, error }),
            ),
            (ForkStage::Truncating(head), ContextReply::Lineage { segments }) => {
                let scan = ContextScan { head, segments, stage: ScanStage::Finishing };
                take_fork_scan(history_base, scan.begin())
            },
            (ForkStage::Scanning(scan), reply) => take_fork_scan(
                history_base,
                scan.advance(reply),
            ),
            (_, reply) => ContextStep::End(Err(context_problem_of(reply))),
        }
    }
}

fn take_fork_scan(
    history_base: Option<HistoryPosition>,
    step: ContextStep<ContextScan>,
) -> (r: ContextStep<LoadForFork>)
    ensures
        forall|stage: ForkStageView|
            fork_step(r) == #[trigger] (ForkView { history_base, stage }).scanning(
                scan_step(step),
            ),
{
    match step {
        ContextStep::Ask(scan, action) => ContextStep::Ask(
            LoadForFork { history_base, stage: ForkStage::Scanning(scan) },
            action,
        ),
        ContextStep::End(result) => ContextStep::End(result),
    }
}

} // verus!
