use perf_event_open::error::Error;
use perf_event_open::event::bp::{Breakpoint, Len, Type as BreakpointType};
use perf_event_open::event::dp::DynamicPmu;
use perf_event_open::event::hw::{Hardware, Op, OpResult, Type};
use perf_event_open::event::raw::Raw;
use perf_event_open::event::sw::Software;
use perf_event_open::event::tp::Tracepoint;
use perf_event_open::target::{All, Cpu, Proc, Target};
use perf_event_open::version::Version;

#[test]
fn hardware_events() {
    let e = Hardware::Instr.as_event().0;
    assert_eq!((e.ty, e.config), (0, 1));
    let e = Hardware::CpuCycle.as_event().0;
    assert_eq!((e.ty, e.config), (0, 0));
    let e = Hardware::Cache(Type::L1d, Op::Read, OpResult::Miss).as_event().0;
    assert_eq!((e.ty, e.config), (3, 0x10000));
    let e = Hardware::Cache(Type::Ll, Op::Prefetch, OpResult::Access).as_event().0;
    assert_eq!(e.config, 2 | (2 << 8));
}

#[test]
fn software_events_gated() {
    let e = Software::TaskClock.as_event(&Version::oldest()).unwrap().0;
    assert_eq!((e.ty, e.config), (1, 1));
    assert_eq!(
        Software::CgroupSwitch.as_event(&Version::new(5, 12)).err(),
        Some(Error::Unsupported)
    );
    let e = Software::CgroupSwitch.as_event(&Version::new(5, 13)).unwrap().0;
    assert_eq!(e.config, 11);
    assert_eq!(Software::BpfOutput.as_event(&Version::new(4, 3)).err(), Some(Error::Unsupported));
}

#[test]
fn breakpoint_lengths_gated() {
    let bp = Breakpoint { ty: BreakpointType::R(Len::_3), addr: 0x1000 };
    assert_eq!(bp.as_event(&Version::new(4, 9)).err(), Some(Error::Unsupported));
    let e = bp.as_event(&Version::new(4, 10)).unwrap().0;
    assert_eq!((e.ty, e.bp_type, e.config1, e.config2), (5, 1, 0x1000, 3));
    let bp = Breakpoint { ty: BreakpointType::Rw(Len::_8), addr: 8 };
    let e = bp.as_event(&Version::oldest()).unwrap().0;
    assert_eq!((e.bp_type, e.config2), (3, 8));
}

#[test]
fn other_events() {
    let e = Tracepoint { id: 42 }.as_event().0;
    assert_eq!((e.ty, e.config), (2, 42));
    let e = Raw { config: 1, config1: 2, config2: 3, config3: 4 }.as_event().0;
    assert_eq!((e.ty, e.config, e.config1, e.config2, e.config3), (4, 1, 2, 3, 4));
    let e = DynamicPmu { ty: 9, config: 1, config1: 2, config2: 3, config3: 0 }.as_event().0;
    assert_eq!((e.ty, e.config, e.bp_type), (9, 1, 0));
}

#[test]
fn targets() {
    let t = Target::from((Proc(5), Cpu::ALL));
    assert_eq!((t.pid, t.cpu, t.flags), (5, -1, 0));
    let t = Target::from((Cpu(2), Proc::current()));
    assert_eq!((t.pid, t.cpu), (0, 2));
    let t = Target::from((All, Cpu(1)));
    assert_eq!((t.pid, t.cpu), (-1, 1));
    let t = Target::cgroup(7, Cpu(3));
    assert_eq!((t.pid, t.cpu, t.flags), (7, 3, 4));
}

#[test]
fn versions_order() {
    assert_eq!(Version::new(5, 13).cmp(&Version::new(6, 0)), std::cmp::Ordering::Less);
    assert_eq!(Version::new(6, 1).cmp(&Version::new(6, 0)), std::cmp::Ordering::Greater);
    assert!(Version::new(6, 0).at_least(5, 13));
    assert!(!Version::new(5, 12).at_least(5, 13));
}
