//! The round schedule of a chain: one round every `period` seconds,
//! the first at the genesis time.

use vstd::prelude::*;

verus! {

/// The round that is current at `timestamp`. At the genesis time and
/// before it that is round 1; after it, one more for every full
/// period that has passed.
pub open spec fn round_at(genesis_time: u64, period: u64, timestamp: u64) -> int {
    if timestamp <= genesis_time {
        1
    } else {
        (timestamp - genesis_time) / (period as int) + 1
    }
}

/// The round after the one that is current at `timestamp`.
pub open spec fn next_round(genesis_time: u64, period: u64, timestamp: u64) -> int {
    round_at(genesis_time, period, timestamp) + 1
}

/// The round that is current at `timestamp` on a schedule that starts
/// at `genesis_time` with one round every `period` seconds.
pub fn round_at_time(genesis_time: u64, period: u64, timestamp: u64) -> (round: u64)
    requires
        period > 0,
        round_at(genesis_time, period, timestamp) <= u64::MAX,
    ensures
        round == round_at(genesis_time, period, timestamp),
{
    if timestamp <= genesis_time {
        return 1;
    }
    (timestamp - genesis_time) / period + 1
}

} // verus!
