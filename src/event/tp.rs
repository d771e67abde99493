//! Tracepoints.
use vstd::prelude::*;

use super::{mk, tuple, Event};
use crate::uapi as b;

verus! {

/// A tracepoint, by its id in tracefs.
#[derive(Clone, Copy, Debug, PartialEq, Eq, Structural)]
pub struct Tracepoint {
    pub id: u64,
}

impl Tracepoint {
    pub fn as_event(&self) -> (r: Event)
        ensures
            r == tuple(b::PERF_TYPE_TRACEPOINT, self.id, 0, 0, 0, 0),
    {
        mk(b::PERF_TYPE_TRACEPOINT, self.id, 0, 0, 0, 0)
    }
}

} // verus!
