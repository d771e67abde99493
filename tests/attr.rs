use perf_event_open::attr::{from, Attr};
use perf_event_open::config::{Clock, Lbr, Opts, SampleOn, StatFormat};
use perf_event_open::error::Error;
use perf_event_open::event::bp::{Breakpoint, Type as BreakpointType};
use perf_event_open::event::hw::Hardware;
use perf_event_open::sibling;
use perf_event_open::version::Version;

fn instr() -> perf_event_open::event::EventConfig {
    Hardware::Instr.as_event().0
}

#[test]
fn default_opts_assemble() {
    let attr = from(instr(), &Opts::default(), &Version::latest()).unwrap();
    assert_eq!(attr.ty, 0);
    assert_eq!(attr.config, 1);
    assert_eq!(attr.size, 136);
    // disabled (bit 0) and freq (bit 10)
    assert_eq!(attr.flags, 0x401);
    assert_eq!(attr.sample_type, 0);
    assert_eq!(attr.read_format, 0);
    assert_eq!(attr.sample_period_or_freq, 0);
}

#[test]
fn enabled_count_sampling_clears_bits() {
    let mut opts = Opts::default();
    opts.enable = true;
    opts.sample_on = SampleOn::Count(1_000_000);
    let attr = from(instr(), &opts, &Version::latest()).unwrap();
    assert_eq!(attr.flags, 0);
    assert_eq!(attr.sample_period_or_freq, 1_000_000);
}

#[test]
fn bitmasks_decode_back() {
    let mut opts = Opts::default();
    opts.stat_format = StatFormat { id: true, siblings: true, ..Default::default() };
    opts.sample_format.period = true;
    opts.record_id_format.time = true;
    opts.extra_record.comm = true;
    let attr = from(instr(), &opts, &Version::latest()).unwrap();
    assert_eq!(attr.read_format, 0x4 | 0x8);
    assert_eq!(attr.sample_type, 0x100 | 0x4);
    assert_eq!(attr.flags & 0x200, 0x200);
}

#[test]
fn lbr_without_flags_or_cycles() {
    let mut opts = Opts::default();
    opts.sample_format.lbr = Some(Lbr::default());
    let attr = from(instr(), &opts, &Version::latest()).unwrap();
    assert_eq!(attr.branch_sample_type, 0x4000 | 0x8000);
    assert_eq!(attr.sample_type, 0x800);
}

#[test]
fn lost_records_needs_linux_6_0() {
    let mut opts = Opts::default();
    opts.stat_format.lost_records = true;
    let old = from(instr(), &opts, &Version::new(5, 19));
    assert_eq!(old.err(), Some(Error::Unsupported));
    let attr = from(instr(), &opts, &Version::new(6, 0)).unwrap();
    assert_eq!(attr.read_format, 0x10);
}

#[test]
fn pause_aux_needs_linux_6_13() {
    let mut opts = Opts::default();
    opts.pause_aux = true;
    assert_eq!(from(instr(), &opts, &Version::new(6, 12)).err(), Some(Error::Unsupported));
    let attr = from(instr(), &opts, &Version::new(6, 13)).unwrap();
    assert_eq!(attr.aux_action, 1);
}

#[test]
fn binary_layout() {
    let mut opts = Opts::default();
    opts.timer = Some(Clock::Monotonic);
    let attr = from(instr(), &opts, &Version::latest()).unwrap();
    let bytes = attr.to_bytes();
    assert_eq!(bytes.len(), 136);
    assert_eq!(&bytes[0..4], &[0, 0, 0, 0]);
    assert_eq!(&bytes[4..8], &[136, 0, 0, 0]);
    assert_eq!(&bytes[8..16], &[1, 0, 0, 0, 0, 0, 0, 0]);
    // flags: disabled, freq, use_clockid (bit 25)
    assert_eq!(&bytes[40..48], &[0x01, 0x04, 0x00, 0x02, 0, 0, 0, 0]);
    // clockid
    assert_eq!(&bytes[92..96], &[1, 0, 0, 0]);
}

#[test]
fn sibling_takes_leader_clock() {
    let mut opts = Opts::default();
    opts.timer = Some(Clock::Monotonic);
    opts.stat_format.siblings = true;
    let leader: Attr = from(instr(), &opts, &Version::latest()).unwrap();
    let mut sopts = sibling::Opts::default();
    sopts.aux_output = true;
    sopts.on_sample.aux = Some(sibling::AuxTracer::Pause);
    let cycles = Hardware::CpuCycle.as_event().0;
    let attr = sibling::from(cycles, &sopts, &leader, &Version::latest()).unwrap();
    assert_eq!(attr.clockid, 1);
    assert_eq!(attr.flags & 0x2000000, 0x2000000);
    assert_eq!(attr.flags & 0x8000_0000, 0x8000_0000);
    assert_eq!(attr.aux_action, 2);
    assert_eq!(attr.read_format & 0x8, 0);
    assert_eq!(attr.config, 0);
}

#[test]
fn sibling_aux_output_needs_linux_5_4() {
    let leader = from(instr(), &Opts::default(), &Version::latest()).unwrap();
    let mut sopts = sibling::Opts::default();
    sopts.aux_output = true;
    let r = sibling::from(instr(), &sopts, &leader, &Version::new(5, 3));
    assert_eq!(r.err(), Some(Error::Unsupported));
}

#[test]
fn switch_to_changes_event_only() {
    let mut attr = from(instr(), &Opts::default(), &Version::latest()).unwrap();
    let before = attr;
    let bp = Breakpoint {
        ty: BreakpointType::X,
        addr: 0x4000,
    };
    attr.switch_to(bp.as_event(&Version::latest()).unwrap().0);
    assert_eq!(attr.ty, 5);
    assert_eq!(attr.bp_type, 4);
    assert_eq!(attr.config1, 0x4000);
    assert_eq!(attr.flags, before.flags);
    assert_eq!(attr.size, before.size);
}

#[test]
fn default_opts_on_every_kernel() {
    for v in [Version::oldest(), Version::new(5, 4), Version::latest()] {
        assert!(from(instr(), &Opts::default(), &v).is_ok());
    }
}
