//! Which process (or cgroup) and CPU a counter watches.
use vstd::prelude::*;

use crate::uapi as b;

verus! {

/// Every process (in place of a `Proc`) or every CPU (in place of a `Cpu`).
#[derive(Clone, Copy, Debug)]
pub struct All;

/// A CPU by number.
#[derive(Clone, Copy, Debug)]
pub struct Cpu(pub u32);

impl Cpu {
    pub const ALL: All = All;
}

/// A process or thread by id; `Proc(0)` is the calling process.
#[derive(Clone, Copy, Debug)]
pub struct Proc(pub u32);

impl Proc {
    pub const ALL: All = All;

    /// The calling process.
    pub fn current() -> (r: Proc)
        ensures
            r.0 == 0,
    {
        Proc(0)
    }
}

/// The `pid`, `cpu` and flags handed to `perf_event_open`. A target is built
/// from one of the pairs that the kernel accepts: every process on every CPU,
/// and a cgroup on every CPU, cannot be built.
#[derive(Clone, Copy, Debug, PartialEq, Eq, Structural)]
pub struct Target {
    pub pid: i32,
    pub cpu: i32,
    pub flags: u64,
}

impl Target {
    /// A cgroup, by a descriptor of its cgroupfs directory, on one CPU.
    pub fn cgroup(fd: i32, cpu: Cpu) -> (r: Target)
        ensures
            r == (Target { pid: fd, cpu: cpu.0 as i32, flags: b::PERF_FLAG_PID_CGROUP }),
    {
        Target { pid: fd, cpu: cpu.0 as i32, flags: b::PERF_FLAG_PID_CGROUP }
    }
}

impl From<(Proc, Cpu)> for Target {
    fn from(t: (Proc, Cpu)) -> (r: Target) {
        Target { pid: (t.0).0 as i32, cpu: (t.1).0 as i32, flags: 0 }
    }
}

impl vstd::std_specs::convert::FromSpecImpl<(Proc, Cpu)> for Target {
    open spec fn obeys_from_spec() -> bool {
        true
    }

    open spec fn from_spec(t: (Proc, Cpu)) -> Target {
        Target { pid: (t.0).0 as i32, cpu: (t.1).0 as i32, flags: 0 }
    }
}

impl From<(Cpu, Proc)> for Target {
    fn from(t: (Cpu, Proc)) -> (r: Target) {
        Target { pid: (t.1).0 as i32, cpu: (t.0).0 as i32, flags: 0 }
    }
}

impl vstd::std_specs::convert::FromSpecImpl<(Cpu, Proc)> for Target {
    open spec fn obeys_from_spec() -> bool {
        true
    }

    open spec fn from_spec(t: (Cpu, Proc)) -> Target {
        Target { pid: (t.1).0 as i32, cpu: (t.0).0 as i32, flags: 0 }
    }
}

impl From<(Proc, All)> for Target {
    fn from(t: (Proc, All)) -> (r: Target) {
        Target { pid: (t.0).0 as i32, cpu: -1, flags: 0 }
    }
}

impl vstd::std_specs::convert::FromSpecImpl<(Proc, All)> for Target {
    open spec fn obeys_from_spec() -> bool {
        true
    }

    open spec fn from_spec(t: (Proc, All)) -> Target {
        Target { pid: (t.0).0 as i32, cpu: -1i32, flags: 0 }
    }
}

impl From<(All, Proc)> for Target {
    fn from(t: (All, Proc)) -> (r: Target) {
        Target { pid: (t.1).0 as i32, cpu: -1, flags: 0 }
    }
}

impl vstd::std_specs::convert::FromSpecImpl<(All, Proc)> for Target {
    open spec fn obeys_from_spec() -> bool {
        true
    }

    open spec fn from_spec(t: (All, Proc)) -> Target {
        Target { pid: (t.1).0 as i32, cpu: -1i32, flags: 0 }
    }
}

impl From<(Cpu, All)> for Target {
    fn from(t: (Cpu, All)) -> (r: Target) {
        Target { pid: -1, cpu: (t.0).0 as i32, flags: 0 }
    }
}

impl vstd::std_specs::convert::FromSpecImpl<(Cpu, All)> for Target {
    open spec fn obeys_from_spec() -> bool {
        true
    }

    open spec fn from_spec(t: (Cpu, All)) -> Target {
        Target { pid: -1i32, cpu: (t.0).0 as i32, flags: 0 }
    }
}

impl From<(All, Cpu)> for Target {
    fn from(t: (All, Cpu)) -> (r: Target) {
        Target { pid: -1, cpu: (t.1).0 as i32, flags: 0 }
    }
}

impl vstd::std_specs::convert::FromSpecImpl<(All, Cpu)> for Target {
    open spec fn obeys_from_spec() -> bool {
        true
    }

    open spec fn from_spec(t: (All, Cpu)) -> Target {
        Target { pid: -1i32, cpu: (t.1).0 as i32, flags: 0 }
    }
}

} // verus!
