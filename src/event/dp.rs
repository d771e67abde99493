//! Dynamic PMU events.
use vstd::prelude::*;

use super::{mk, tuple, Event};

verus! {

/// An event of a dynamic PMU (kprobe, uprobe, ...), by its PMU type.
#[derive(Clone, Copy, Debug, PartialEq, Eq, Structural)]
pub struct DynamicPmu {
    pub ty: u32,
    pub config: u64,
    pub config1: u64,
    pub config2: u64,
    pub config3: u64,
}

impl DynamicPmu {
    pub fn as_event(&self) -> (r: Event)
        ensures
            r == tuple(self.ty, self.config, self.config1, self.config2, self.config3, 0),
    {
        mk(self.ty, self.config, self.config1, self.config2, self.config3, 0)
    }
}

} // verus!
