//! Hardware events.
use vstd::prelude::*;

use super::{mk, tuple, Event};
use crate::uapi as b;

verus! {

/// Hardware events.
#[derive(Clone, Copy, Debug, PartialEq, Eq, Structural)]
pub enum Hardware {
    CpuCycle,
    BusCycle,
    RefCpuCycle,
    Cache(Type, Op, OpResult),
    CacheMiss,
    CacheAccess,
    BranchMiss,
    BranchInstr,
    BackendStalledCycle,
    FrontendStalledCycle,
    Instr,
}

/// The cache of a `Hardware::Cache` event.
#[derive(Clone, Copy, Debug, PartialEq, Eq, Structural)]
pub enum Type {
    L1d,
    L1i,
    Ll,
    Dtlb,
    Itlb,
    Bpu,
    Node,
}

#[derive(Clone, Copy, Debug, PartialEq, Eq, Structural)]
pub enum Op {
    Read,
    Write,
    Prefetch,
}

#[derive(Clone, Copy, Debug, PartialEq, Eq, Structural)]
pub enum OpResult {
    Miss,
    Access,
}

pub open spec fn cache_id(t: Type) -> u64 {
    match t {
        Type::L1d => b::PERF_COUNT_HW_CACHE_L1D,
        Type::L1i => b::PERF_COUNT_HW_CACHE_L1I,
        Type::Ll => b::PERF_COUNT_HW_CACHE_LL,
        Type::Dtlb => b::PERF_COUNT_HW_CACHE_DTLB,
        Type::Itlb => b::PERF_COUNT_HW_CACHE_ITLB,
        Type::Bpu => b::PERF_COUNT_HW_CACHE_BPU,
        Type::Node => b::PERF_COUNT_HW_CACHE_NODE,
    }
}

pub open spec fn cache_op(o: Op) -> u64 {
    match o {
        Op::Read => b::PERF_COUNT_HW_CACHE_OP_READ,
        Op::Write => b::PERF_COUNT_HW_CACHE_OP_WRITE,
        Op::Prefetch => b::PERF_COUNT_HW_CACHE_OP_PREFETCH,
    }
}

pub open spec fn cache_result(r: OpResult) -> u64 {
    match r {
        OpResult::Miss => b::PERF_COUNT_HW_CACHE_RESULT_MISS,
        OpResult::Access => b::PERF_COUNT_HW_CACHE_RESULT_ACCESS,
    }
}

impl Hardware {
    /// The event: a generic hardware event, or for a cache event the cache
    /// id, operation and result packed as `id | op << 8 | result << 16`.
    pub open spec fn spec_event(self) -> Event {
        match self {
            Hardware::Cache(t, o, r) => tuple(
                b::PERF_TYPE_HW_CACHE,
                (cache_id(t) + cache_op(o) * 0x100 + cache_result(r) * 0x10000) as u64,
                0,
                0,
                0,
                0,
            ),
            _ => tuple(
                b::PERF_TYPE_HARDWARE,
                match self {
                    Hardware::CpuCycle => b::PERF_COUNT_HW_CPU_CYCLES,
                    Hardware::BusCycle => b::PERF_COUNT_HW_BUS_CYCLES,
                    Hardware::RefCpuCycle => b::PERF_COUNT_HW_REF_CPU_CYCLES,
                    Hardware::CacheMiss => b::PERF_COUNT_HW_CACHE_MISSES,
                    Hardware::CacheAccess => b::PERF_COUNT_HW_CACHE_REFERENCES,
                    Hardware::BranchMiss => b::PERF_COUNT_HW_BRANCH_MISSES,
                    Hardware::BranchInstr => b::PERF_COUNT_HW_BRANCH_INSTRUCTIONS,
                    Hardware::BackendStalledCycle => b::PERF_COUNT_HW_STALLED_CYCLES_BACKEND,
                    Hardware::FrontendStalledCycle => b::PERF_COUNT_HW_STALLED_CYCLES_FRONTEND,
                    _ => b::PERF_COUNT_HW_INSTRUCTIONS,
                },
                0,
                0,
                0,
                0,
            ),
        }
    }

    pub fn as_event(&self) -> (r: Event)
        ensures
            r == self.spec_event(),
    {
        match self {
            Hardware::Cache(t, o, res) => {
                let id = match t {
                    Type::L1d => b::PERF_COUNT_HW_CACHE_L1D,
                    Type::L1i => b::PERF_COUNT_HW_CACHE_L1I,
                    Type::Ll => b::PERF_COUNT_HW_CACHE_LL,
                    Type::Dtlb => b::PERF_COUNT_HW_CACHE_DTLB,
                    Type::Itlb => b::PERF_COUNT_HW_CACHE_ITLB,
                    Type::Bpu => b::PERF_COUNT_HW_CACHE_BPU,
                    Type::Node => b::PERF_COUNT_HW_CACHE_NODE,
                };
                let op = match o {
                    Op::Read => b::PERF_COUNT_HW_CACHE_OP_READ,
                    Op::Write => b::PERF_COUNT_HW_CACHE_OP_WRITE,
                    Op::Prefetch => b::PERF_COUNT_HW_CACHE_OP_PREFETCH,
                };
                let result = match res {
                    OpResult::Miss => b::PERF_COUNT_HW_CACHE_RESULT_MISS,
                    OpResult::Access => b::PERF_COUNT_HW_CACHE_RESULT_ACCESS,
                };
                mk(b::PERF_TYPE_HW_CACHE, id + op * 0x100 + result * 0x10000, 0, 0, 0, 0)
            },
            _ => {
                let config = match self {
                    Hardware::CpuCycle => b::PERF_COUNT_HW_CPU_CYCLES,
                    Hardware::BusCycle => b::PERF_COUNT_HW_BUS_CYCLES,
                    Hardware::RefCpuCycle => b::PERF_COUNT_HW_REF_CPU_CYCLES,
                    Hardware::CacheMiss => b::PERF_COUNT_HW_CACHE_MISSES,
                    Hardware::CacheAccess => b::PERF_COUNT_HW_CACHE_REFERENCES,
                    Hardware::BranchMiss => b::PERF_COUNT_HW_BRANCH_MISSES,
                    Hardware::BranchInstr => b::PERF_COUNT_HW_BRANCH_INSTRUCTIONS,
                    Hardware::BackendStalledCycle => b::PERF_COUNT_HW_STALLED_CYCLES_BACKEND,
                    Hardware::FrontendStalledCycle => b::PERF_COUNT_HW_STALLED_CYCLES_FRONTEND,
                    _ => b::PERF_COUNT_HW_INSTRUCTIONS,
                };
                mk(b::PERF_TYPE_HARDWARE, config, 0, 0, 0, 0)
            },
        }
    }
}

} // verus!
