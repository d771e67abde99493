//! Event descriptors and their lowering to the kernel's event tuple.

pub mod bp;
pub mod dp;
pub mod hw;
pub mod raw;
pub mod sw;
pub mod tp;

use vstd::prelude::*;


verus! {

/// The six integers that select an event in `perf_event_attr`.
#[derive(Clone, Copy, Debug, PartialEq, Eq, Structural)]
pub struct EventConfig {
    pub ty: u32,
    pub config: u64,
    pub config1: u64,
    pub config2: u64,
    pub config3: u64,
    pub bp_type: u32,
}

/// An event, lowered.
#[derive(Clone, Copy, Debug, PartialEq, Eq, Structural)]
pub struct Event(pub EventConfig);

pub open spec fn tuple(ty: u32, config: u64, config1: u64, config2: u64, config3: u64, bp_type: u32) -> Event {
    Event(EventConfig { ty, config, config1, config2, config3, bp_type })
}

pub(crate) fn mk(ty: u32, config: u64, config1: u64, config2: u64, config3: u64, bp_type: u32) -> (r: Event)
    ensures
        r == tuple(ty, config, config1, config2, config3, bp_type),
{
    Event(EventConfig { ty, config, config1, config2, config3, bp_type })
}

} // verus!
