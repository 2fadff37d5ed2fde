//! Which thread a preserved source belongs to.

use crate::error::migration_error;
use crate::error::migration_failure;
use crate::error::spelled_thread_id;
use crate::error::ErrorView;
use crate::error::ThreadId;
use crate::error::ThreadStoreError;
use crate::error::ThreadStoreResult;
use crate::outside::json_text;
use crate::outside::json_text_at;
use crate::outside::opt_text;
use crate::paths::RolloutPath;
use crate::text::concat2;
use crate::text::is_blank;
use crate::text::is_blank_text;
use crate::text::same_text;
use vstd::prelude::*;

verus! {

/// What one record says about the owner of a source: nothing, the owner, or an error.
pub open spec fn header_owner(
    header: Result<(Option<Seq<char>>, Option<Seq<char>>), Seq<char>>,
) -> Option<Result<ThreadId, ErrorView>> {
    match header {
        Err(message) => Some(Err(migration_failure(message))),
        Ok((kind, id)) => if kind != Some("session_meta"@) {
            None
        } else if id is Some && spelled_thread_id(id->0) is Some {
            Some(Ok(spelled_thread_id(id->0)->0))
        } else {
            Some(Err(migration_failure("preserved rollout SessionMeta has no valid id"@)))
        },
    }
}

/// The header of a record: its two texts, or the message of the parser.
pub open spec fn header_at(
    kind: Result<Option<Seq<char>>, Seq<char>>,
    id: Result<Option<Seq<char>>, Seq<char>>,
) -> Result<(Option<Seq<char>>, Option<Seq<char>>), Seq<char>> {
    match (kind, id) {
        (Err(message), _) => Err(message),
        (_, Err(message)) => Err(message),
        (Ok(kind), Ok(id)) => Ok((kind, id)),
    }
}

/// What one line says about the owner of a source. A blank line says nothing.
pub open spec fn line_owner(line: Seq<char>) -> Option<Result<ThreadId, ErrorView>> {
    if is_blank_text(line) {
        None
    } else {
        header_owner(header_at(json_text(line, "/type"@), json_text(line, "/payload/id"@)))
    }
}

/// Whether an answer is the one that is expected.
pub open spec fn answers_owner(
    answer: Option<ThreadStoreResult<ThreadId>>,
    expected: Option<Result<ThreadId, ErrorView>>,
) -> bool {
    match (answer, expected) {
        (None, None) => true,
        (Some(Ok(thread)), Some(Ok(owner))) => thread == owner,
        (Some(Err(error)), Some(Err(view))) => error@ == view,
        _ => false,
    }
}

/// A header by its texts.
pub open spec fn header_view(
    header: Result<(Option<String>, Option<String>), String>,
) -> Result<(Option<Seq<char>>, Option<Seq<char>>), Seq<char>> {
    match header {
        Ok((kind, id)) => Ok((opt_text(kind), opt_text(id))),
        Err(message) => Err(message@),
    }
}

/// What the header of one record says about the owner of a source: the text under `type` and the
/// text under `payload` and `id`, or the message of the parser.
pub fn owner_in_header(header: Result<(Option<String>, Option<String>), String>) -> (r: Option<
    ThreadStoreResult<ThreadId>,
>)
    ensures
        answers_owner(r, header_owner(header_view(header))),
{
    let (kind, id) = match header {
        Err(message) => {
            return Some(Err(migration_error(message.as_str())));
        },
        Ok(found) => found,
    };
    match kind {
        None => {
            return None;
        },
        Some(kind) => {
            if !same_text(kind.as_str(), "session_meta") {
                return None;
            }
        },
    }
    if let Some(text) = id {
        if let Some(owner) = ThreadId::from_string(text.as_str()) {
            return Some(Ok(owner));
        }
    }
    Some(Err(migration_error("preserved rollout SessionMeta has no valid id")))
}

/// What one line of a preserved source says about its owner. The first line that says anything
/// decides.
pub fn preserved_source_thread_id(line: &str) -> (r: Option<ThreadStoreResult<ThreadId>>)
    ensures
        answers_owner(r, line_owner(line@)),
{
    if is_blank(line) {
        return None;
    }
    let header: Result<(Option<String>, Option<String>), String> = match (
        json_text_at(line, "/type"),
        json_text_at(line, "/payload/id"),
    ) {
        (Err(message), _) => Err(message),
        (_, Err(message)) => Err(message),
        (Ok(kind), Ok(id)) => Ok((kind, id)),
    };
    owner_in_header(header)
}

/// The error of a preserved source of which no line says whose it is.
pub fn preserved_source_without_owner(path: &RolloutPath) -> (r: ThreadStoreError)
    ensures
        r@ == migration_failure("preserved rollout has no SessionMeta: "@ + path@),
{
    migration_error(concat2("preserved rollout has no SessionMeta: ", path.text.as_str()).as_str())
}

} // verus!
