//! Raw PMU events.
use vstd::prelude::*;

use super::{mk, tuple, Event};
use crate::uapi as b;

verus! {

/// A raw PMU event.
#[derive(Clone, Copy, Debug, PartialEq, Eq, Structural)]
pub struct Raw {
    pub config: u64,
    pub config1: u64,
    pub config2: u64,
    pub config3: u64,
}

impl Raw {
    pub fn as_event(&self) -> (r: Event)
        ensures
            r == tuple(b::PERF_TYPE_RAW, self.config, self.config1, self.config2, self.config3, 0),
    {
        mk(b::PERF_TYPE_RAW, self.config, self.config1, self.config2, self.config3, 0)
    }
}

} // verus!
