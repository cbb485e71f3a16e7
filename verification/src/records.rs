//! The facts that the chain supplies, as plain records.

use vstd::prelude::*;

verus! {

/// The core whose lease the agent keeps alive. Fixed for the agent's lifetime.
#[derive(Clone, Copy, Debug, PartialEq, Eq, Structural)]
pub struct RenewalTarget {
    pub core: u16,
}

/// The chain's announcement that `core` can be renewed for `price`, for the
/// sale cycle whose region starts at `begin`.
#[derive(Clone, Copy, Debug, PartialEq, Eq, Structural)]
pub struct RenewabilityEvent {
    pub core: u16,
    pub price: u128,
    pub begin: u32,
}

/// The sale cycle that the chain is in: where its region starts.
#[derive(Clone, Copy, Debug, PartialEq, Eq, Structural)]
pub struct SaleCycleInfo {
    pub region_begin: u32,
}

/// The broker's configuration: for how many blocks the holder of an ending
/// lease comes before the open market.
#[derive(Clone, Copy, Debug, PartialEq, Eq, Structural)]
pub struct BrokerConfig {
    pub interlude_length: u32,
}

/// What the paying account can spend.
#[derive(Clone, Copy, Debug, PartialEq, Eq, Structural)]
pub struct AccountSnapshot {
    pub free: u128,
}

/// What was read from the chain's state at one block. A record that the chain
/// does not hold is `None`, which is no fault.
#[derive(Clone, Copy, Debug, PartialEq, Eq, Structural)]
pub struct Readings {
    pub account: Option<AccountSnapshot>,
    pub sale: Option<SaleCycleInfo>,
}

/// One finalized block with everything the agent looks at: its number, the
/// renewability events it emitted, in order, and the state read at it.
#[derive(Clone, Debug)]
pub struct BlockRecord {
    pub number: u32,
    pub events: Vec<RenewabilityEvent>,
    pub readings: Readings,
}

} // verus!
