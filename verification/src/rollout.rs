//! Rollout records, as far as the migration looks into them.
//!
//! A field named `payload` holds the JSON text of everything that is carried through untouched.

use crate::error::ThreadId;
use crate::outside::opt_text;
use vstd::prelude::*;

verus! {

/// How the history of a thread is stored.
#[derive(Clone, Copy, Debug, PartialEq, Eq, Structural)]
pub enum ThreadHistoryMode {
    Legacy,
    Paginated,
    PaginatedRefsV1,
}

impl ThreadHistoryMode {
    /// Whether the history belongs to the paginated family.
    pub open spec fn paginated(self) -> bool {
        self == ThreadHistoryMode::Paginated || self == ThreadHistoryMode::PaginatedRefsV1
    }

    /// The name of the mode.
    pub open spec fn name(self) -> Seq<char> {
        match self {
            ThreadHistoryMode::Legacy => "legacy"@,
            ThreadHistoryMode::Paginated => "paginated"@,
            ThreadHistoryMode::PaginatedRefsV1 => "paginated_refs_v1"@,
        }
    }

    /// Whether the history belongs to the paginated family.
    pub fn is_paginated(&self) -> (r: bool)
        ensures
            r == self.paginated(),
    {
        *self == ThreadHistoryMode::Paginated || *self == ThreadHistoryMode::PaginatedRefsV1
    }

    /// The name of the mode.
    pub fn as_str(&self) -> (r: &'static str)
        ensures
            r@ == self.name(),
    {
        match self {
            ThreadHistoryMode::Legacy => "legacy",
            ThreadHistoryMode::Paginated => "paginated",
            ThreadHistoryMode::PaginatedRefsV1 => "paginated_refs_v1",
        }
    }
}

/// Where an inherited history ends in the rollout of an ancestor.
#[derive(Clone, Copy, Debug, PartialEq, Eq, Structural)]
pub struct HistoryPosition {
    pub thread_id: ThreadId,
    pub end_ordinal_exclusive: u64,
    pub end_byte_offset: u64,
}

/// What started a session.
#[derive(Debug, PartialEq, Eq)]
pub enum SessionSource {
    InternalMemoryConsolidation,
    SubAgentMemoryConsolidation,
    SubAgent { label: String },
    Other { label: String },
}

impl Clone for SessionSource {
    fn clone(&self) -> (r: Self)
        ensures
            r == *self,
    {
        match self {
            SessionSource::InternalMemoryConsolidation => {
                SessionSource::InternalMemoryConsolidation
            },
            SessionSource::SubAgentMemoryConsolidation => {
                SessionSource::SubAgentMemoryConsolidation
            },
            SessionSource::SubAgent { label } => SessionSource::SubAgent { label: label.clone() },
            SessionSource::Other { label } => SessionSource::Other { label: label.clone() },
        }
    }
}

/// What a thread is for, where that is recorded.
#[derive(Debug, PartialEq, Eq)]
pub enum ThreadSource {
    MemoryConsolidation,
    Subagent,
    Other { label: String },
}

impl Clone for ThreadSource {
    fn clone(&self) -> (r: Self)
        ensures
            r == *self,
    {
        match self {
            ThreadSource::MemoryConsolidation => ThreadSource::MemoryConsolidation,
            ThreadSource::Subagent => ThreadSource::Subagent,
            ThreadSource::Other { label } => ThreadSource::Other { label: label.clone() },
        }
    }
}

/// The head record of a rollout.
#[derive(Debug, PartialEq, Eq)]
pub struct SessionMeta {
    pub id: ThreadId,
    pub history_mode: ThreadHistoryMode,
    pub history_base: Option<HistoryPosition>,
    pub subagent_history_start_ordinal: Option<u64>,
    pub source: SessionSource,
    pub thread_source: Option<ThreadSource>,
    pub payload: String,
}

impl Clone for SessionMeta {
    fn clone(&self) -> (r: Self)
        ensures
            r == *self,
    {
        SessionMeta {
            id: self.id,
            history_mode: self.history_mode,
            history_base: self.history_base,
            subagent_history_start_ordinal: self.subagent_history_start_ordinal,
            source: self.source.clone(),
            thread_source: match &self.thread_source {
                Some(source) => Some(source.clone()),
                None => None,
            },
            payload: self.payload.clone(),
        }
    }
}

/// One part of a message.
#[derive(Clone, Debug, PartialEq, Eq)]
pub enum ContentItem {
    InputText { text: String },
    InputImage { image_url: String },
    InputAudio { audio_url: String },
    OutputText { text: String },
}

/// The shape of a response item, as far as the migration tells shapes apart.
#[derive(Clone, Debug, PartialEq, Eq)]
pub enum ResponseBody {
    Message { role: String, content: Vec<ContentItem> },
    AgentMessage,
    FunctionCall { call_id: String },
    /// An item of a kind that this store cannot represent.
    Other,
    /// Any other item.
    Plain,
}

/// One item of the model-visible conversation.
#[derive(Clone, Debug, PartialEq, Eq)]
pub struct ResponseItem {
    pub id: Option<String>,
    /// The prefix of identifiers for items of this kind, where such items carry one.
    pub id_prefix: Option<String>,
    pub body: ResponseBody,
    /// The turn that the item names, where it names one.
    pub turn_id: Option<String>,
    /// Whether the item is an instruction that rollback counts.
    pub counts_as_boundary: bool,
    /// Whether the item updates the context of the turn that follows it.
    pub is_pre_turn_context_update: bool,
    /// The hook prompt that a user message carries, where it carries one.
    pub hook_prompt: Option<String>,
    /// The whole item without its identifier: items whose payloads are equal differ in their
    /// identifiers at most.
    pub payload: String,
}

/// What is recorded about a response item beside the item.
#[derive(Clone, Debug, PartialEq, Eq)]
pub struct ItemMetadata {
    pub user_input_order: Option<u64>,
    /// The rest of the metadata.
    pub payload: String,
}

/// A response item with what is recorded about it.
#[derive(Clone, Debug, PartialEq, Eq)]
pub struct ResponseItemEnvelope {
    pub item: ResponseItem,
    pub metadata: Option<ItemMetadata>,
}

/// One entry of a checkpoint that shares items with older records.
#[derive(Clone, Debug, PartialEq, Eq)]
pub enum CompactedHistoryEntry {
    Inline { item: ResponseItem, metadata: Option<ItemMetadata> },
    Reference { item_id: String },
    ReferenceV2 { item_id: String, payload: String },
}

/// One entry of the context that a checkpoint retains.
#[derive(Clone, Debug, PartialEq, Eq)]
pub enum RetainedContextEntry {
    UserMessage { payload: String },
    Answer { turn_id: String, call_id: String, payload: String },
}

/// The context that a checkpoint retains, in order.
#[derive(Clone, Debug, PartialEq, Eq)]
pub struct RetainedContext {
    pub entries: Vec<RetainedContextEntry>,
}

/// The evidence that a checkpoint keeps for approvals.
#[derive(Clone, Debug, PartialEq, Eq)]
pub struct GuardianHistory {
    pub items: Vec<ResponseItem>,
    pub entries: Option<Vec<CompactedHistoryEntry>>,
}

/// A checkpoint that replaces older history.
#[derive(Clone, Debug, PartialEq, Eq)]
pub struct CompactedItem {
    pub replacement_history: Option<Vec<ResponseItemEnvelope>>,
    pub replacement_history_entries: Option<Vec<CompactedHistoryEntry>>,
    pub guardian_history: Option<GuardianHistory>,
    pub retained_context: Option<RetainedContext>,
    pub mcp_resource_origins: Option<String>,
    pub payload: String,
}

/// A turn item that replaces a legacy event. Without an identifier of its own it takes the next
/// one that the canonical history hands out.
#[derive(Clone, Debug, PartialEq, Eq)]
pub struct LegacyItemDraft {
    pub id: Option<String>,
    pub payload: String,
}

/// What a legacy event becomes in canonical history.
#[derive(Clone, Debug, PartialEq, Eq)]
pub enum LegacyConversion {
    /// The event stays an event; it is written where `persisted` holds.
    Event { persisted: bool },
    /// The event completes a turn item, in the named turn where it names one.
    Item { draft: LegacyItemDraft, turn_id: Option<String> },
    /// The event cannot be converted.
    Failed { error: String },
}

/// An event that is carried through or converted.
#[derive(Clone, Debug, PartialEq, Eq)]
pub struct LegacyEvent {
    pub conversion: LegacyConversion,
    pub payload: String,
}

/// The start of a turn.
#[derive(Clone, Debug, PartialEq, Eq)]
pub struct TurnStarted {
    pub turn_id: String,
    pub started_at: Option<i64>,
    pub payload: String,
}

/// The completion of a turn.
#[derive(Clone, Debug, PartialEq, Eq)]
pub struct TurnComplete {
    pub turn_id: String,
    pub completed_at: Option<i64>,
    pub payload: String,
}

/// The abortion of a turn.
#[derive(Clone, Debug, PartialEq, Eq)]
pub struct TurnAborted {
    pub turn_id: Option<String>,
    pub payload: String,
}

/// A message of the user.
#[derive(Clone, Debug, PartialEq, Eq)]
pub struct UserMessage {
    pub message: String,
    pub images: Option<Vec<String>>,
    pub audio: Option<Vec<String>>,
    pub local_images: Vec<String>,
    pub local_audio: Vec<String>,
    /// The turn item that the message becomes.
    pub draft: LegacyItemDraft,
    /// Why the message cannot become a turn item, where it cannot.
    pub conversion_error: Option<String>,
}

/// Reasoning of the agent, as it accumulates.
#[derive(Clone, Debug, PartialEq, Eq)]
pub struct ReasoningItem {
    pub id: String,
    pub summary_text: Vec<String>,
    pub raw_content: Vec<String>,
}

/// A completed item of a turn.
#[derive(Clone, Debug, PartialEq, Eq)]
pub enum TurnItem {
    Reasoning(ReasoningItem),
    HookPrompt { payload: String },
    UserMessage { id: String, payload: String },
    Converted { id: String, payload: String },
    /// An item that the source already holds in canonical form.
    Canonical { payload: String },
}

/// The completion of a turn item.
#[derive(Clone, Debug, PartialEq, Eq)]
pub struct ItemCompleted {
    pub thread_id: ThreadId,
    pub turn_id: String,
    pub item: TurnItem,
    pub started_at_ms: Option<i64>,
    pub completed_at_ms: i64,
}

/// An event of a session.
#[allow(inconsistent_fields)]
#[derive(Clone, Debug, PartialEq, Eq)]
pub enum EventMsg {
    ThreadRolledBack { num_turns: u32 },
    TurnStarted(TurnStarted),
    TurnComplete(TurnComplete),
    TurnAborted(TurnAborted),
    UserMessage(UserMessage),
    AgentReasoning { text: String },
    AgentReasoningRawContent { text: String },
    ItemCompleted(ItemCompleted),
    ExecCommandEnd { turn_id: String, event: LegacyEvent },
    PatchApplyEnd { turn_id: String, event: LegacyEvent },
    DynamicToolCallResponse { turn_id: String, event: LegacyEvent },
    EnteredReviewMode { turn_id: Option<String>, event: LegacyEvent },
    ExitedReviewMode { turn_id: Option<String>, event: LegacyEvent },
    Other { event: LegacyEvent },
}

/// A verified answer of the user to a call of the agent.
#[derive(Clone, Debug, PartialEq, Eq)]
pub struct VerifiedAnswer {
    pub turn_id: String,
    pub call_id: String,
    pub acceptance_order: Option<u64>,
    pub payload: String,
}

/// What one record of a rollout holds.
#[derive(Clone, Debug, PartialEq, Eq)]
pub enum RolloutItem {
    SessionMeta(SessionMeta),
    ResponseItem(ResponseItemEnvelope),
    InterAgentCommunication { payload: String },
    InterAgentCommunicationMetadata { trigger_turn: bool },
    Compacted(CompactedItem),
    TurnContext { payload: String },
    WorldState { payload: String },
    RealtimeItem { payload: String },
    SecurityRiskScore { payload: String },
    EventMsg(EventMsg),
    TokenUsageRecord { turn_id: String, payload: String },
    RetainedContext(VerifiedAnswer),
}

/// One record of a rollout.
#[derive(Clone, Debug, PartialEq, Eq)]
pub struct RolloutLine {
    pub timestamp: String,
    pub ordinal: Option<u64>,
    pub item: RolloutItem,
}

/// How one source checkpoint takes part in reference validation.
#[derive(Clone, Copy, Debug, PartialEq, Eq, Structural)]
pub enum CompactionResolution {
    /// No rollback plan is active. The newest history checkpoint is selected, so an unresolved
    /// checkpoint may be kept provisionally and superseded by a newer valid checkpoint.
    InferSelected,
    /// This checkpoint is the replay base or must be edited. Resolve it now.
    Strict,
    /// This checkpoint is kept for fidelity but is not the replay base. Re-encode it where that
    /// is possible; keep unresolved references where it is not.
    PreserveSuperseded,
}

/// Whether a record is a rollback marker.
pub open spec fn is_rollback_marker(item: RolloutItem) -> bool {
    item matches RolloutItem::EventMsg(EventMsg::ThreadRolledBack { .. })
}

/// Whether a checkpoint replaces history.
pub open spec fn replaces_history(item: CompactedItem) -> bool {
    item.replacement_history is Some || item.replacement_history_entries is Some
}

/// A copy of an optional name.
pub fn copy_name(name: &Option<String>) -> (r: Option<String>)
    ensures
        r == *name,
{
    match name {
        Some(text) => Some(text.clone()),
        None => None,
    }
}

/// Whether two optional names are the same.
pub fn same_name(a: &Option<String>, b: &Option<String>) -> (r: bool)
    ensures
        r == (opt_text(*a) == opt_text(*b)),
{
    match (a, b) {
        (Some(x), Some(y)) => *x == *y,
        (None, None) => true,
        _ => false,
    }
}

/// Whether a record is a rollback marker.
pub fn item_is_rollback_marker(item: &RolloutItem) -> (r: bool)
    ensures
        r == is_rollback_marker(*item),
{
    match item {
        RolloutItem::EventMsg(EventMsg::ThreadRolledBack { .. }) => true,
        _ => false,
    }
}

} // verus!
