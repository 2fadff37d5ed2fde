//! Writing the records of canonical history: identifiers, references, ordinals and offsets.
//!
//! One record passes through three steps. `begin_write` gives it stable identifiers, the caller
//! encodes its references, `finish_write` decides what unresolved references mean and numbers the
//! record, the caller serialises it, and `commit_write` counts its bytes.

use crate::canonicalizer::LegacyRolloutCanonicalizer;
use crate::canonicalizer::OutputState;
use crate::error::migration_error;
use crate::error::migration_failure;
use crate::error::ThreadStoreResult;
use crate::occurrence_ids::collision;
use crate::occurrence_ids::is_history_checkpoint;
use crate::occurrence_ids::preparation_collision;
use crate::occurrence_ids::preparation_finished;
use crate::occurrence_ids::preparation_outcome;
use crate::occurrence_ids::OccurrencePreparation;
use crate::occurrence_ids::ResolvedHistory;
use crate::rollout::CompactionResolution;
use crate::rollout::RolloutItem;
use crate::rollout::RolloutLine;
use crate::text::concat2;
use crate::text::join_texts;
use crate::text::joined;
use crate::text::texts;
use vstd::prelude::*;

verus! {

/// A record with its identifiers, before its references are encoded.
#[derive(Debug)]
pub struct PreparedWrite {
    pub item: RolloutItem,
    pub preparation: OccurrencePreparation,
    pub is_history_checkpoint: bool,
}

/// What encoding the references of a record came to.
#[derive(Debug)]
pub enum EncodedItem {
    /// Every reference has a source.
    Encoded { item: RolloutItem },
    /// The named references have none; the record is as it was.
    Missing { item: RolloutItem, missing: Vec<String> },
}

/// A numbered record. Where `index_sources` holds, the inline values of the record stay available
/// as sources although its references are unresolved.
#[derive(Debug)]
pub struct ReadyWrite {
    pub line: RolloutLine,
    pub index_sources: bool,
}

/// How a record takes part in reference validation: only checkpoints are treated specially.
pub fn write_resolution(item: &RolloutItem, resolution: CompactionResolution) -> (r:
    CompactionResolution)
    ensures
        r == (if item is Compacted {
            resolution
        } else {
            CompactionResolution::InferSelected
        }),
{
    match item {
        RolloutItem::Compacted(_) => resolution,
        _ => CompactionResolution::InferSelected,
    }
}

/// Whether a record whose references are unresolved is still written: the newest checkpoint is
/// kept provisionally, and a superseded one is kept as it is.
pub open spec fn tolerates_missing(checkpoint: bool, resolution: CompactionResolution) -> bool {
    ||| checkpoint && resolution == CompactionResolution::InferSelected
    ||| resolution == CompactionResolution::PreserveSuperseded
}

/// The message of a record whose references must resolve and do not.
pub open spec fn unresolved_references(missing: Seq<Seq<char>>) -> Seq<char> {
    "compacted history references could not be resolved during migration canonicalization: "@
        + joined(missing, ", "@)
}

/// The references of the newest checkpoint that have no source, after a record.
pub open spec fn unresolved_after(
    before: Option<Seq<Seq<char>>>,
    checkpoint: bool,
    resolution: CompactionResolution,
    encoded: EncodedItem,
) -> Option<Seq<Seq<char>>> {
    if checkpoint && resolution == CompactionResolution::InferSelected {
        match encoded {
            EncodedItem::Encoded { .. } => None,
            EncodedItem::Missing { missing, .. } => Some(texts(missing@)),
        }
    } else {
        before
    }
}

/// The record that encoding gave.
pub open spec fn encoded_item(encoded: EncodedItem) -> RolloutItem {
    match encoded {
        EncodedItem::Encoded { item } => item,
        EncodedItem::Missing { item, .. } => item,
    }
}

impl LegacyRolloutCanonicalizer {
    /// Gives a record its stable identifiers. `resolved` is what the references of a checkpoint
    /// resolve to.
    pub fn begin_write(&mut self, item: RolloutItem, resolved: ResolvedHistory) -> (r:
        ThreadStoreResult<PreparedWrite>)
        requires
            old(self).occurrence_ids@.wf(),
        ensures
            ({
                let s = old(self).output().occurrences;
                let ordinal = old(self).output().next_ordinal;
                &&& r is Err == preparation_collision(s, item, resolved, ordinal) is Some
                &&& r is Err ==> r->Err_0@ == migration_failure(
                    collision(preparation_collision(s, item, resolved, ordinal)->0),
                )
                &&& r is Ok ==> {
                    &&& final(self).occurrence_ids@.wf()
                    &&& final(self).turns() == old(self).turns()
                    &&& final(self).output() == (OutputState {
                        occurrences: final(self).output().occurrences,
                        ..old(self).output()
                    })
                    &&& preparation_outcome(
                        s,
                        item,
                        resolved,
                        ordinal,
                        final(self).output().occurrences,
                        r->Ok_0.item,
                        r->Ok_0.preparation,
                    )
                    &&& r->Ok_0.is_history_checkpoint == is_history_checkpoint(item)
                }
            }),
    {
        let checkpoint: bool = match &item {
            RolloutItem::Compacted(compacted) => compacted.replacement_history.is_some()
                || compacted.replacement_history_entries.is_some(),
            _ => false,
        };
        match self.occurrence_ids.prepare_item(item, resolved, self.next_ordinal) {
            Ok((item, preparation)) => Ok(
                PreparedWrite { item, preparation, is_history_checkpoint: checkpoint },
            ),
            Err(error) => Err(error),
        }
    }

    /// Numbers a record once its references are encoded, or decides what it means that some have
    /// no source.
    pub fn finish_write(
        &mut self,
        timestamp: &str,
        preparation: OccurrencePreparation,
        is_history_checkpoint: bool,
        resolution: CompactionResolution,
        encoded: EncodedItem,
    ) -> (r: ThreadStoreResult<ReadyWrite>)
        requires
            old(self).occurrence_ids@.wf(),
        ensures
            final(self).occurrence_ids@.wf(),
            final(self).turns() == old(self).turns(),
            r is Err == (encoded is Missing && !tolerates_missing(
                is_history_checkpoint,
                resolution,
            )),
            r is Err ==> r->Err_0@ == migration_failure(
                unresolved_references(texts(encoded->missing@)),
            ),
            final(self).output() == (OutputState {
                occurrences: preparation_finished(
                    old(self).output().occurrences,
                    preparation,
                    encoded is Encoded,
                ),
                unresolved: unresolved_after(
                    old(self).output().unresolved,
                    is_history_checkpoint,
                    resolution,
                    encoded,
                ),
                ..old(self).output()
            }),
            r is Ok ==> {
                &&& r->Ok_0.line.timestamp@ == timestamp@
                &&& r->Ok_0.line.ordinal == Some(old(self).output().next_ordinal)
                &&& r->Ok_0.line.item == encoded_item(encoded)
                &&& r->Ok_0.index_sources == (encoded is Missing && is_history_checkpoint
                    && resolution == CompactionResolution::InferSelected)
            },
    {
        let success: bool = match &encoded {
            EncodedItem::Encoded { .. } => true,
            EncodedItem::Missing { .. } => false,
        };
        self.occurrence_ids.finish_item(preparation, success);
        let selects: bool = is_history_checkpoint && resolution
            == CompactionResolution::InferSelected;
        let (item, index_sources): (RolloutItem, bool) = match encoded {
            EncodedItem::Encoded { item } => {
                if selects {
                    self.unresolved_selected_compaction = None;
                }
                (item, false)
            },
            EncodedItem::Missing { item, missing } => {
                if selects {
                    self.unresolved_selected_compaction = Some(missing);
                    (item, true)
                } else if resolution == CompactionResolution::PreserveSuperseded {
                    (item, false)
                } else {
                    return Err(
                        migration_error(
                            concat2(
                                "compacted history references could not be resolved during migration canonicalization: ",
                                join_texts(&missing, ", ").as_str(),
                            ).as_str(),
                        ),
                    );
                }
            },
        };
        let line = RolloutLine {
            timestamp: timestamp.to_owned(),
            ordinal: Some(self.next_ordinal),
            item,
        };
        Ok(ReadyWrite { line, index_sources })
    }

    /// Counts a record of the given length and moves on to the next ordinal.
    pub fn commit_write(&mut self, byte_count: u64) -> (r: ThreadStoreResult<()>)
        ensures
            final(self).turns() == old(self).turns(),
            final(self).occurrence_ids@ == old(self).occurrence_ids@,
            ({
                let before = old(self).output();
                let error = if before.byte_offset + byte_count > u64::MAX {
                    Some("paginated rollout byte offset overflow"@)
                } else if before.bytes_written + byte_count > u64::MAX {
                    Some("paginated rollout byte count overflow"@)
                } else if before.next_ordinal == u64::MAX {
                    Some("paginated rollout ordinal overflow"@)
                } else {
                    None
                };
                &&& r is Err == error is Some
                &&& r is Err ==> r->Err_0@ == migration_failure(error->0)
                &&& r is Ok ==> final(self).output() == (OutputState {
                    next_ordinal: (before.next_ordinal + 1) as u64,
                    byte_offset: (before.byte_offset + byte_count) as u64,
                    bytes_written: (before.bytes_written + byte_count) as u64,
                    ..before
                })
            }),
    {
        match self.output_byte_offset.checked_add(byte_count) {
            Some(next) => {
                self.output_byte_offset = next;
            },
            None => {
                return Err(migration_error("paginated rollout byte offset overflow"));
            },
        }
        match self.bytes_written.checked_add(byte_count) {
            Some(next) => {
                self.bytes_written = next;
            },
            None => {
                return Err(migration_error("paginated rollout byte count overflow"));
            },
        }
        match self.next_ordinal.checked_add(1) {
            Some(next) => {
                self.next_ordinal = next;
            },
            None => {
                return Err(migration_error("paginated rollout ordinal overflow"));
            },
        }
        Ok(())
    }
}

} // verus!
