//! Software events.
use vstd::prelude::*;

use super::{mk, tuple, Event};
use crate::error::Error;
use crate::uapi as b;
use crate::version::Version;

verus! {

/// Software events.
#[derive(Clone, Copy, Debug, PartialEq, Eq, Structural)]
pub enum Software {
    CpuClock,
    TaskClock,
    PageFault,
    MinorPageFault,
    MajorPageFault,
    EmuFault,
    AlignFault,
    CtxSwitch,
    /// Since `linux-5.13`.
    CgroupSwitch,
    Dummy,
    /// Since `linux-4.4`.
    BpfOutput,
    CpuMigration,
}

impl Software {
    pub open spec fn spec_config(self) -> u64 {
        match self {
            Software::CpuClock => b::PERF_COUNT_SW_CPU_CLOCK,
            Software::TaskClock => b::PERF_COUNT_SW_TASK_CLOCK,
            Software::PageFault => b::PERF_COUNT_SW_PAGE_FAULTS,
            Software::MinorPageFault => b::PERF_COUNT_SW_PAGE_FAULTS_MIN,
            Software::MajorPageFault => b::PERF_COUNT_SW_PAGE_FAULTS_MAJ,
            Software::EmuFault => b::PERF_COUNT_SW_EMULATION_FAULTS,
            Software::AlignFault => b::PERF_COUNT_SW_ALIGNMENT_FAULTS,
            Software::CtxSwitch => b::PERF_COUNT_SW_CONTEXT_SWITCHES,
            Software::CgroupSwitch => b::PERF_COUNT_SW_CGROUP_SWITCHES,
            Software::Dummy => b::PERF_COUNT_SW_DUMMY,
            Software::BpfOutput => b::PERF_COUNT_SW_BPF_OUTPUT,
            Software::CpuMigration => b::PERF_COUNT_SW_CPU_MIGRATIONS,
        }
    }

    pub open spec fn supported_by(self, v: Version) -> bool {
        match self {
            Software::CgroupSwitch => v.spec_at_least(5, 13),
            Software::BpfOutput => v.spec_at_least(4, 4),
            _ => true,
        }
    }

    pub fn as_event(&self, v: &Version) -> (r: Result<Event, Error>)
        ensures
            r is Err <==> !self.supported_by(*v),
            r is Err ==> r == Err::<Event, Error>(Error::Unsupported),
            r is Ok ==> r == Ok::<Event, Error>(
                tuple(b::PERF_TYPE_SOFTWARE, self.spec_config(), 0, 0, 0, 0),
            ),
    {
        let config = match self {
            Software::CpuClock => b::PERF_COUNT_SW_CPU_CLOCK,
            Software::TaskClock => b::PERF_COUNT_SW_TASK_CLOCK,
            Software::PageFault => b::PERF_COUNT_SW_PAGE_FAULTS,
            Software::MinorPageFault => b::PERF_COUNT_SW_PAGE_FAULTS_MIN,
            Software::MajorPageFault => b::PERF_COUNT_SW_PAGE_FAULTS_MAJ,
            Software::EmuFault => b::PERF_COUNT_SW_EMULATION_FAULTS,
            Software::AlignFault => b::PERF_COUNT_SW_ALIGNMENT_FAULTS,
            Software::CtxSwitch => b::PERF_COUNT_SW_CONTEXT_SWITCHES,
            Software::CgroupSwitch => {
                if !v.at_least(5, 13) {
                    return Err(Error::Unsupported);
                }
                b::PERF_COUNT_SW_CGROUP_SWITCHES
            },
            Software::Dummy => b::PERF_COUNT_SW_DUMMY,
            Software::BpfOutput => {
                if !v.at_least(4, 4) {
                    return Err(Error::Unsupported);
                }
                b::PERF_COUNT_SW_BPF_OUTPUT
            },
            Software::CpuMigration => b::PERF_COUNT_SW_CPU_MIGRATIONS,
        };
        Ok(mk(b::PERF_TYPE_SOFTWARE, config, 0, 0, 0, 0))
    }
}

} // verus!
