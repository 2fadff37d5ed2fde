//! The durable record of a migration: which legacy source it preserves, and how far it has come.

use crate::error::migration_error;
use crate::error::migration_failure;
use crate::error::ThreadStoreResult;
use crate::paths::RolloutPath;
use vstd::prelude::*;

verus! {

/// The version of the recovery records that this library writes and reads.
pub const MIGRATION_JOURNAL_VERSION: u8 = 1;

/// What tells an unchanged legacy source from a changed one: writers only append, so the size
/// catches what they do, and the time of the last change catches a rewrite of the same size.
#[derive(Clone, Copy, Debug, PartialEq, Eq, Structural)]
pub struct PreservedSourceFingerprint {
    pub size_bytes: u64,
    pub modified_at_ns: i64,
}

impl PreservedSourceFingerprint {
    /// The fingerprint of a file with the given size and time of its last change, in nanoseconds
    /// since 1970, where that time can be represented.
    pub fn from_metadata(size_bytes: u64, modified_at_ns: u128) -> (r: Option<Self>)
        ensures
            r is Some <==> modified_at_ns <= i64::MAX,
            r is Some ==> r->0.size_bytes == size_bytes && r->0.modified_at_ns == modified_at_ns,
    {
        if modified_at_ns > 0x7fff_ffff_ffff_ffff {
            return None;
        }
        Some(PreservedSourceFingerprint { size_bytes, modified_at_ns: modified_at_ns as i64 })
    }
}

/// The durable record of a migration, written before the conversion begins.
///
/// The preserved path follows from the rollout path and survives publication: it keeps the legacy
/// file alive, so that an older writer that has it open cannot append to a file without a name.
#[derive(Debug, PartialEq, Eq)]
pub struct MigrationRecoveryHandle {
    pub version: u8,
    pub rollout_path: RolloutPath,
    pub published_rollout_path: Option<RolloutPath>,
    pub preserved_source_path: RolloutPath,
    pub publication_fingerprint: Option<PreservedSourceFingerprint>,
    pub retirement_started: bool,
    /// Set when an older writer changes the preserved legacy generation after the paginated
    /// generation has become visible. From then on both are kept for an explicit reconciliation.
    pub split_generation_detected: bool,
}

/// A recovery record by the text of its paths.
#[verifier::ext_equal]
pub struct RecoveryView {
    pub version: u8,
    pub rollout_path: Seq<char>,
    pub published_rollout_path: Option<Seq<char>>,
    pub preserved_source_path: Seq<char>,
    pub publication_fingerprint: Option<PreservedSourceFingerprint>,
    pub retirement_started: bool,
    pub split_generation_detected: bool,
}

impl RecoveryView {
    /// The path under which the paginated rollout becomes visible.
    pub open spec fn published(self) -> Seq<char> {
        match self.published_rollout_path {
            Some(path) => path,
            None => self.rollout_path,
        }
    }

    /// Whether two records speak of the same source and the same publication.
    pub open spec fn same_source(self, other: RecoveryView) -> bool {
        &&& self.version == other.version
        &&& self.rollout_path == other.rollout_path
        &&& self.published_rollout_path == other.published_rollout_path
        &&& self.preserved_source_path == other.preserved_source_path
    }

    /// The record with the fingerprint that the source had at publication.
    pub open spec fn fingerprinted(self, fingerprint: PreservedSourceFingerprint) -> RecoveryView {
        RecoveryView { publication_fingerprint: Some(fingerprint), ..self }
    }

    /// The record of a source that is being retired.
    pub open spec fn retiring(self) -> RecoveryView {
        RecoveryView { retirement_started: true, ..self }
    }

    /// The record of generations that have diverged.
    pub open spec fn split(self) -> RecoveryView {
        RecoveryView { split_generation_detected: true, ..self }
    }
}

/// The text of an optional path.
pub open spec fn opt_path(path: Option<RolloutPath>) -> Option<Seq<char>> {
    match path {
        Some(p) => Some(p@),
        None => None,
    }
}

impl View for MigrationRecoveryHandle {
    type V = RecoveryView;

    open spec fn view(&self) -> RecoveryView {
        RecoveryView {
            version: self.version,
            rollout_path: self.rollout_path@,
            published_rollout_path: opt_path(self.published_rollout_path),
            preserved_source_path: self.preserved_source_path@,
            publication_fingerprint: self.publication_fingerprint,
            retirement_started: self.retirement_started,
            split_generation_detected: self.split_generation_detected,
        }
    }
}

impl Clone for MigrationRecoveryHandle {
    fn clone(&self) -> (r: Self)
        ensures
            r == *self,
    {
        MigrationRecoveryHandle {
            version: self.version,
            rollout_path: self.rollout_path.clone(),
            published_rollout_path: match &self.published_rollout_path {
                Some(path) => Some(path.clone()),
                None => None,
            },
            preserved_source_path: self.preserved_source_path.clone(),
            publication_fingerprint: self.publication_fingerprint,
            retirement_started: self.retirement_started,
            split_generation_detected: self.split_generation_detected,
        }
    }
}

/// A record that has just been made.
pub open spec fn fresh_recovery(
    rollout_path: Seq<char>,
    published_rollout_path: Seq<char>,
    preserved_source_path: Seq<char>,
) -> RecoveryView {
    RecoveryView {
        version: MIGRATION_JOURNAL_VERSION,
        rollout_path,
        published_rollout_path: if published_rollout_path == rollout_path {
            None
        } else {
            Some(published_rollout_path)
        },
        preserved_source_path,
        publication_fingerprint: None,
        retirement_started: false,
        split_generation_detected: false,
    }
}

/// Whether a flag is not set. A flag that is not set is left out of a written record.
pub fn is_false(value: &bool) -> (r: bool)
    ensures
        r == !*value,
{
    !*value
}

fn same_opt_path(a: &Option<RolloutPath>, b: &Option<RolloutPath>) -> (r: bool)
    ensures
        r == (opt_path(*a) == opt_path(*b)),
{
    match (a, b) {
        (Some(x), Some(y)) => x.same(y),
        (None, None) => true,
        _ => false,
    }
}

impl MigrationRecoveryHandle {
    /// The record of a migration that publishes under the name of the rollout itself.
    pub fn new(rollout_path: RolloutPath, preserved_source_path: RolloutPath) -> (r: Self)
        ensures
            r@ == fresh_recovery(rollout_path@, rollout_path@, preserved_source_path@),
    {
        MigrationRecoveryHandle {
            version: MIGRATION_JOURNAL_VERSION,
            rollout_path,
            published_rollout_path: None,
            preserved_source_path,
            publication_fingerprint: None,
            retirement_started: false,
            split_generation_detected: false,
        }
    }

    /// The record of a migration that publishes under the given name.
    pub fn new_with_published_path(
        rollout_path: RolloutPath,
        published_rollout_path: RolloutPath,
        preserved_source_path: RolloutPath,
    ) -> (r: Self)
        ensures
            r@ == fresh_recovery(rollout_path@, published_rollout_path@, preserved_source_path@),
    {
        let published: Option<RolloutPath> = if published_rollout_path.same(&rollout_path) {
            None
        } else {
            Some(published_rollout_path)
        };
        MigrationRecoveryHandle {
            version: MIGRATION_JOURNAL_VERSION,
            rollout_path,
            published_rollout_path: published,
            preserved_source_path,
            publication_fingerprint: None,
            retirement_started: false,
            split_generation_detected: false,
        }
    }

    /// The path under which the paginated rollout becomes visible.
    pub fn published_rollout_path(&self) -> (r: &RolloutPath)
        ensures
            r@ == self@.published(),
    {
        match &self.published_rollout_path {
            Some(path) => path,
            None => &self.rollout_path,
        }
    }

    /// The record with the fingerprint that the source had at publication.
    pub fn with_publication_fingerprint(self, fingerprint: PreservedSourceFingerprint) -> (r: Self)
        ensures
            r@ == self@.fingerprinted(fingerprint),
            r == (MigrationRecoveryHandle { publication_fingerprint: Some(fingerprint), ..self }),
    {
        let mut out = self;
        out.publication_fingerprint = Some(fingerprint);
        out
    }

    /// The record of a source that is being retired.
    pub fn begin_retirement(self) -> (r: Self)
        ensures
            r@ == self@.retiring(),
            r == (MigrationRecoveryHandle { retirement_started: true, ..self }),
    {
        let mut out = self;
        out.retirement_started = true;
        out
    }

    /// The record of generations that have diverged.
    pub fn mark_split_generation(self) -> (r: Self)
        ensures
            r@ == self@.split(),
            r == (MigrationRecoveryHandle { split_generation_detected: true, ..self }),
    {
        let mut out = self;
        out.split_generation_detected = true;
        out
    }

    /// Whether two records speak of the same source and the same publication.
    pub fn same_source_identity(&self, other: &Self) -> (r: bool)
        ensures
            r == self@.same_source(other@),
    {
        self.version == other.version && self.rollout_path.same(&other.rollout_path)
            && same_opt_path(&self.published_rollout_path, &other.published_rollout_path)
            && self.preserved_source_path.same(&other.preserved_source_path)
    }

    /// Whether two records are the same.
    pub fn same(&self, other: &Self) -> (r: bool)
        ensures
            r == (self@ == other@),
    {
        self.same_source_identity(other) && self.publication_fingerprint
            == other.publication_fingerprint && self.retirement_started == other.retirement_started
            && self.split_generation_detected == other.split_generation_detected
    }
}

/// Whether a byte is white space in ASCII.
pub open spec fn is_ascii_white_space(byte: u8) -> bool {
    byte == 0x20 || byte == 0x9 || byte == 0xa || byte == 0xc || byte == 0xd
}

/// Whether a journal holds nothing but white space.
pub open spec fn is_blank_journal(bytes: Seq<u8>) -> bool {
    forall|i: int| 0 <= i < bytes.len() ==> is_ascii_white_space(#[trigger] bytes[i])
}

/// The record in a journal: none where there is no journal or a blank one, and otherwise what its
/// contents hold, or the message of the parser.
pub fn read_migration_journal_recovery(
    bytes: &Option<Vec<u8>>,
    parsed: Result<MigrationRecoveryHandle, String>,
) -> (r: ThreadStoreResult<Option<MigrationRecoveryHandle>>)
    ensures
        bytes is None || is_blank_journal(bytes->0@) ==> r == Ok::<
            Option<MigrationRecoveryHandle>,
            crate::error::ThreadStoreError,
        >(None),
        bytes is Some && !is_blank_journal(bytes->0@) ==> match parsed {
            Ok(recovery) => r == Ok::<
                Option<MigrationRecoveryHandle>,
                crate::error::ThreadStoreError,
            >(Some(recovery)),
            Err(message) => r is Err && r->Err_0@ == migration_failure(message@),
        },
{
    let contents: &Vec<u8> = match bytes {
        Some(contents) => contents,
        None => {
            return Ok(None);
        },
    };
    let mut i: usize = 0;
    while i < contents.len()
        invariant
            i <= contents@.len(),
            *bytes == Some(*contents),
            forall|j: int| 0 <= j < i ==> is_ascii_white_space(#[trigger] contents@[j]),
        decreases contents.len() - i,
    {
        let byte: u8 = contents[i];
        if !(byte == 0x20 || byte == 0x9 || byte == 0xa || byte == 0xc || byte == 0xd) {
            assert(!is_ascii_white_space(contents@[i as int]));
            return match parsed {
                Ok(recovery) => Ok(Some(recovery)),
                Err(message) => Err(migration_error(message.as_str())),
            };
        }
        i += 1;
    }
    Ok(None)
}

/// Why a record on disk must not be replaced by another.
#[derive(Clone, Copy, Debug, PartialEq, Eq, Structural)]
pub enum JournalConflict {
    OtherSource,
    RetirementInProgress,
    SplitMarkerCleared,
    FingerprintCleared,
    SplitRetirement,
    FingerprintChanged,
}

/// Why a record must not be replaced by a different one, where it must not.
pub open spec fn journal_conflict(
    existing: RecoveryView,
    recovery: RecoveryView,
) -> Option<JournalConflict> {
    if !existing.same_source(recovery) {
        Some(JournalConflict::OtherSource)
    } else if existing.retirement_started && !recovery.retirement_started {
        Some(JournalConflict::RetirementInProgress)
    } else if existing.split_generation_detected && !recovery.split_generation_detected {
        Some(JournalConflict::SplitMarkerCleared)
    } else if existing.publication_fingerprint is Some && recovery.publication_fingerprint is None {
        Some(JournalConflict::FingerprintCleared)
    } else if recovery.retirement_started && recovery.split_generation_detected {
        Some(JournalConflict::SplitRetirement)
    } else if existing.publication_fingerprint is Some && existing.publication_fingerprint
        != recovery.publication_fingerprint {
        Some(JournalConflict::FingerprintChanged)
    } else {
        None
    }
}

/// Why a record must not be replaced by a different one, where it must not.
pub fn find_journal_conflict(
    existing: &MigrationRecoveryHandle,
    recovery: &MigrationRecoveryHandle,
) -> (r: Option<JournalConflict>)
    ensures
        r == journal_conflict(existing@, recovery@),
{
    if !existing.same_source_identity(recovery) {
        return Some(JournalConflict::OtherSource);
    }
    if existing.retirement_started && !recovery.retirement_started {
        return Some(JournalConflict::RetirementInProgress);
    }
    if existing.split_generation_detected && !recovery.split_generation_detected {
        return Some(JournalConflict::SplitMarkerCleared);
    }
    if existing.publication_fingerprint.is_some() && recovery.publication_fingerprint.is_none() {
        return Some(JournalConflict::FingerprintCleared);
    }
    if recovery.retirement_started && recovery.split_generation_detected {
        return Some(JournalConflict::SplitRetirement);
    }
    if existing.publication_fingerprint.is_some() && existing.publication_fingerprint
        != recovery.publication_fingerprint {
        return Some(JournalConflict::FingerprintChanged);
    }
    None
}

/// What a record has come to never goes back: a record that may replace another speaks of the same
/// source, keeps the fingerprint, and clears neither the mark of a retirement nor that of a split.
pub proof fn recovery_records_only_move_forward(existing: RecoveryView, recovery: RecoveryView)
    requires
        existing == recovery || journal_conflict(existing, recovery) is None,
    ensures
        existing.same_source(recovery),
        existing.publication_fingerprint is Some ==> recovery.publication_fingerprint
            == existing.publication_fingerprint,
        existing.retirement_started ==> recovery.retirement_started,
        existing.split_generation_detected ==> recovery.split_generation_detected,
{
}

/// A split generation is never retired automatically: a record with the mark of a split cannot
/// take on the mark of a retirement, nor the other way round.
pub proof fn split_generations_are_never_retired(existing: RecoveryView)
    ensures
        existing.split_generation_detected && !existing.retirement_started ==> journal_conflict(
            existing,
            existing.retiring(),
        ) is Some,
        existing.retirement_started && !existing.split_generation_detected ==> journal_conflict(
            existing,
            existing.split(),
        ) is Some,
{
}

} // verus!
