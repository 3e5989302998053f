use vstd::prelude::*;

use crate::identity::Identity;

verus! {

/// Milliseconds-since-epoch values are above this; seconds-since-epoch values
/// are not (for the next thirty thousand years).
pub const MILLISECOND_THRESHOLD: u64 = 1_000_000_000_000;

/// The configuration handed to vault creation or update. Creation needs all
/// six terms; an update changes only the terms that are given.
#[derive(Clone, Copy, Debug)]
pub struct InitOrUpdateVaultParam {
    /// Who is to hold authority over a new vault (the creator where absent).
    pub authority: Option<Identity>,
    pub yield_bps: Option<u16>,
    pub vault_capacity: Option<u64>,
    pub min_amount: Option<u64>,
    pub start_date: Option<u64>,
    pub end_date: Option<u64>,
    pub withdraw_timeframe: Option<u64>,
}

/// A timestamp in seconds, whether it was given in seconds or milliseconds.
pub open spec fn unix_time_of(time: u64) -> u64 {
    if time > MILLISECOND_THRESHOLD {
        (time / 1000) as u64
    } else {
        time
    }
}

impl InitOrUpdateVaultParam {
    /// All six terms are given.
    pub open spec fn is_complete(&self) -> bool {
        &&& self.yield_bps is Some
        &&& self.vault_capacity is Some
        &&& self.min_amount is Some
        &&& self.start_date is Some
        &&& self.end_date is Some
        &&& self.withdraw_timeframe is Some
    }

    /// Reads a timestamp as seconds: one above `MILLISECOND_THRESHOLD` is
    /// taken to be in milliseconds and divided down.
    pub fn to_unix_time(timestamp: Option<u64>) -> (r: Option<u64>)
        ensures
            r == match timestamp {
                Some(t) => Some(unix_time_of(t)),
                None => None,
            },
    {
        match timestamp {
            Some(time) => {
                if time > MILLISECOND_THRESHOLD {
                    Some(time / 1000)
                } else {
                    Some(time)
                }
            },
            None => None,
        }
    }
}

} // verus!
