//! When an upgrade of the rollup is active.
use op_alloy_genesis::RollupConfig;
use vstd::prelude::*;

verus! {

/// Whether an upgrade with the given activation time is active at a time.
pub open spec fn active_at(activation: Option<u64>, timestamp: int) -> bool {
    activation matches Some(time) && time <= timestamp
}

/// Whether an upgrade becomes active in the block at `timestamp`, whose parent is at
/// `parent_timestamp`.
pub open spec fn activates(
    activation: Option<u64>,
    parent_timestamp: int,
    timestamp: int,
) -> bool {
    active_at(activation, timestamp) && !active_at(activation, parent_timestamp)
}

/// Whether the L1 info of an L2 block at `timestamp` has the Ecotone form: Ecotone is active, and
/// not since this very moment.
pub open spec fn ecotone_info(config: RollupConfig, timestamp: int) -> bool {
    config.ecotone_time matches Some(time) && time < timestamp
}

} // verus!
