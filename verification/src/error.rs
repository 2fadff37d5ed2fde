//! Errors of the thread store.

use crate::outside::hyphenated;
use crate::text::concat2;
use crate::text::concat4;
use vstd::prelude::*;

verus! {

/// A thread, or one physical rollout of a thread.
#[derive(Clone, Copy, Debug, PartialEq, Eq, Structural, Hash)]
pub struct ThreadId {
    pub value: u128,
}

impl ThreadId {
    /// The identifier as it stands in file names and messages.
    pub open spec fn text(self) -> Seq<char> {
        hyphenated(self.value)
    }

    /// The identifier with the given value.
    pub fn from_u128(value: u128) -> (r: Self)
        ensures
            r.value == value,
    {
        ThreadId { value }
    }

    /// The identifier that a text spells, if it spells one.
    pub fn from_string(text: &str) -> (r: Option<Self>)
        ensures
            r == spelled_thread_id(text@),
            forall|id: ThreadId| text@ == #[trigger] id.text() ==> r == Some(id),
    {
        match crate::outside::parse_uuid(text) {
            Some(value) => Some(ThreadId { value }),
            None => None,
        }
    }

    /// The identifier as it stands in file names and messages.
    pub fn to_text(&self) -> (r: String)
        ensures
            r@ == self.text(),
    {
        crate::outside::uuid_text(self.value)
    }
}

/// The thread that a text spells, if it spells one.
pub open spec fn spelled_thread_id(text: Seq<char>) -> Option<ThreadId> {
    match crate::outside::uuid_value(text) {
        Some(value) => Some(ThreadId { value }),
        None => None,
    }
}

/// Why the thread store refused or failed.
#[derive(Debug, PartialEq, Eq)]
pub enum ThreadStoreError {
    /// Nothing is known of the thread.
    ThreadNotFound { thread_id: ThreadId },
    /// The request cannot be served as it stands.
    InvalidRequest { message: String },
    /// Another party holds or has changed what the operation needs.
    Conflict { message: String },
    /// The operation failed.
    Internal { message: String },
}

/// An error by its kind and text.
pub enum ErrorView {
    ThreadNotFound(ThreadId),
    InvalidRequest(Seq<char>),
    Conflict(Seq<char>),
    Internal(Seq<char>),
}

impl View for ThreadStoreError {
    type V = ErrorView;

    open spec fn view(&self) -> ErrorView {
        match *self {
            ThreadStoreError::ThreadNotFound { thread_id } => ErrorView::ThreadNotFound(thread_id),
            ThreadStoreError::InvalidRequest { message } => ErrorView::InvalidRequest(message@),
            ThreadStoreError::Conflict { message } => ErrorView::Conflict(message@),
            ThreadStoreError::Internal { message } => ErrorView::Internal(message@),
        }
    }
}

impl ErrorView {
    /// The error as the store prints it.
    pub open spec fn printed(self) -> Seq<char> {
        match self {
            ErrorView::ThreadNotFound(id) => "thread "@ + id.text() + " not found"@,
            ErrorView::InvalidRequest(m) => "invalid thread-store request: "@ + m,
            ErrorView::Conflict(m) => "thread-store conflict: "@ + m,
            ErrorView::Internal(m) => "thread-store internal error: "@ + m,
        }
    }
}

/// The result of a thread store operation.
pub type ThreadStoreResult<T> = Result<T, ThreadStoreError>;

impl ThreadStoreError {
    /// The error as the store prints it.
    pub fn to_text(&self) -> (r: String)
        ensures
            r@ == self@.printed(),
    {
        match self {
            ThreadStoreError::ThreadNotFound { thread_id } => {
                crate::text::concat3("thread ", thread_id.to_text().as_str(), " not found")
            },
            ThreadStoreError::InvalidRequest { message } => concat2(
                "invalid thread-store request: ",
                message.as_str(),
            ),
            ThreadStoreError::Conflict { message } => concat2(
                "thread-store conflict: ",
                message.as_str(),
            ),
            ThreadStoreError::Internal { message } => concat2(
                "thread-store internal error: ",
                message.as_str(),
            ),
        }
    }
}

/// What a failed migration step reports.
pub open spec fn migration_failure(error: Seq<char>) -> ErrorView {
    ErrorView::Internal("rollout migration failed: "@ + error)
}

/// The error of a migration step that failed with the given message.
pub fn migration_error(error: &str) -> (r: ThreadStoreError)
    ensures
        r@ == migration_failure(error@),
{
    ThreadStoreError::Internal { message: concat2("rollout migration failed: ", error) }
}

/// The error of a file operation that failed with the given message.
pub fn thread_store_io_error(error: &str) -> (r: ThreadStoreError)
    ensures
        r@ == ErrorView::Internal(error@),
{
    ThreadStoreError::Internal { message: error.to_owned() }
}

/// What a refused recovery reports.
pub open spec fn recovery_refusal(thread_id: ThreadId, message: Seq<char>) -> ErrorView {
    ErrorView::Conflict(
        "thread "@ + thread_id.text() + " rollout migration recovery refused: "@ + message,
    )
}

/// The error of a recovery that is refused for the given reason.
pub fn recovery_conflict(thread_id: ThreadId, message: &str) -> (r: ThreadStoreError)
    ensures
        r@ == recovery_refusal(thread_id, message@),
{
    ThreadStoreError::Conflict {
        message: concat4(
            "thread ",
            thread_id.to_text().as_str(),
            " rollout migration recovery refused: ",
            message,
        ),
    }
}

} // verus!
