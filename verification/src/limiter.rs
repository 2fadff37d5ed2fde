//! How fast a migration may read and write.

use crate::error::ErrorView;
use crate::error::ThreadStoreError;
use crate::error::ThreadStoreResult;
use crate::record::PROJECTION_BATCH_BYTES;
use vstd::prelude::*;

verus! {

/// What to do before more bytes are processed.
#[derive(Clone, Copy, Debug, PartialEq, Eq, Structural)]
pub enum Pace {
    /// Go on.
    Continue,
    /// Let other work run.
    Yield,
    /// Wait until so many bytes are due at this rate since the migration began; where they already
    /// are, let other work run.
    WaitFor { bytes_processed: u64, bytes_per_second: u64 },
}

/// Counts processed bytes and says when to pause.
#[derive(Clone, Copy, Debug, PartialEq, Eq, Structural)]
pub struct RolloutMigrationRateLimiter {
    pub bytes_processed: u64,
    pub bytes_per_second: Option<u64>,
    pub bytes_since_yield: u64,
}

/// The sum of two counts, as far as it can be counted.
pub open spec fn counted_sum(a: u64, b: u64) -> u64 {
    if a + b > u64::MAX {
        u64::MAX
    } else {
        (a + b) as u64
    }
}

impl RolloutMigrationRateLimiter {
    /// Whether no more than a batch has passed without a pause.
    pub open spec fn wf(self) -> bool {
        &&& self.bytes_since_yield < PROJECTION_BATCH_BYTES
        &&& self.bytes_per_second is Some ==> self.bytes_per_second->0 > 0
    }

    /// A limiter with the given rate in MiB per second. Without a rate there is no limit.
    pub fn new(max_mib_per_second: Option<u64>) -> (r: ThreadStoreResult<Self>)
        ensures
            match max_mib_per_second {
                None => r is Ok && r->Ok_0.bytes_per_second is None,
                Some(rate) => {
                    &&& r is Ok <==> 0 < rate && rate * 1048576 <= u64::MAX
                    &&& r is Ok ==> r->Ok_0.bytes_per_second == Some((rate * 1048576) as u64)
                },
            },
            r is Ok ==> r->Ok_0.wf() && r->Ok_0.bytes_processed == 0 && r->Ok_0.bytes_since_yield
                == 0,
            r is Err ==> r->Err_0@ == ErrorView::InvalidRequest(
                "--max-mib-per-second must be a positive supported integer"@,
            ),
    {
        let bytes_per_second: Option<u64> = match max_mib_per_second {
            None => None,
            Some(rate) => {
                if rate == 0 || rate > 17592186044415 {
                    return Err(
                        ThreadStoreError::InvalidRequest {
                            message: "--max-mib-per-second must be a positive supported integer"
                                .to_owned(),
                        },
                    );
                }
                Some(rate * 1048576)
            },
        };
        Ok(
            RolloutMigrationRateLimiter {
                bytes_processed: 0,
                bytes_per_second,
                bytes_since_yield: 0,
            },
        )
    }

    /// Counts more processed bytes and says what to do before the next. There is a pause whenever
    /// a batch has passed since the last one.
    pub fn account(&mut self, bytes: u64) -> (r: Pace)
        requires
            old(self).wf(),
        ensures
            final(self).wf(),
            final(self).bytes_processed == counted_sum(old(self).bytes_processed, bytes),
            final(self).bytes_per_second == old(self).bytes_per_second,
            ({
                let since = counted_sum(old(self).bytes_since_yield, bytes);
                if since < PROJECTION_BATCH_BYTES {
                    r == Pace::Continue && final(self).bytes_since_yield == since
                } else {
                    &&& final(self).bytes_since_yield == 0
                    &&& r == match old(self).bytes_per_second {
                        None => Pace::Yield,
                        Some(rate) => Pace::WaitFor {
                            bytes_processed: final(self).bytes_processed,
                            bytes_per_second: rate,
                        },
                    }
                }
            }),
    {
        self.bytes_processed = self.bytes_processed.saturating_add(bytes);
        self.bytes_since_yield = self.bytes_since_yield.saturating_add(bytes);
        if self.bytes_since_yield < PROJECTION_BATCH_BYTES {
            return Pace::Continue;
        }
        self.bytes_since_yield = 0;
        match self.bytes_per_second {
            None => Pace::Yield,
            Some(bytes_per_second) => Pace::WaitFor {
                bytes_processed: self.bytes_processed,
                bytes_per_second,
            },
        }
    }

    /// How many bytes have been processed since an earlier count.
    pub fn processed_since(&self, before: u64) -> (r: u64)
        ensures
            r == if self.bytes_processed < before {
                0
            } else {
                self.bytes_processed - before
            },
    {
        self.bytes_processed.saturating_sub(before)
    }
}

} // verus!
