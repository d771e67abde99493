//! The kernel attribute struct, its assembly from options, and its binary layout.
use vstd::prelude::*;

use crate::bytes::{le_bytes, push_le};
use crate::config::{
    flag, has_bit, CallChain, Clock, Inherit, Lbr, OnExecve, Opts, Repr, SampleFormat, SampleOn,
    UseBuildId, WakeUpOn,
};
use crate::error::Error;
use crate::event::EventConfig;
use crate::uapi as b;
use crate::version::Version;

verus! {

/// `perf_event_attr`, field by field. The two unions hold one value each,
/// which the `freq` and `watermark` bits of `flags` interpret; `flags` holds the
/// single-bit options and `precise_ip`; `aux_action` holds the aux action bits.
#[derive(Clone, Copy, Debug, PartialEq, Eq, Structural)]
pub struct Attr {
    pub ty: u32,
    pub size: u32,
    pub config: u64,
    pub sample_period_or_freq: u64,
    pub sample_type: u64,
    pub read_format: u64,
    pub flags: u64,
    pub wakeup_events_or_watermark: u32,
    pub bp_type: u32,
    pub config1: u64,
    pub config2: u64,
    pub branch_sample_type: u64,
    pub sample_regs_user: u64,
    pub sample_stack_user: u32,
    pub clockid: i32,
    pub sample_regs_intr: u64,
    pub aux_watermark: u32,
    pub sample_max_stack: u16,
    pub aux_sample_size: u32,
    pub aux_action: u32,
    pub sig_data: u64,
    pub config3: u64,
}

pub fn fl(on: bool, f: u64) -> (r: u64)
    ensures
        r == flag(on, f),
{
    if on {
        f
    } else {
        0
    }
}

pub open spec fn is_v(v: Version, major: usize, minor: usize) -> bool {
    v.spec_at_least(major, minor)
}

pub open spec fn lbr_supported(l: Lbr, v: Version) -> bool {
    (l.entry_format.counter ==> is_v(v, 6, 8)) && (l.entry_format.branch_priv ==> is_v(v, 6, 1))
}

pub open spec fn sample_format_supported(s: SampleFormat, v: Version) -> bool {
    &&& s.data_page_size ==> is_v(v, 5, 11)
    &&& s.code_page_size ==> is_v(v, 5, 11)
    &&& s.weight == Some(Repr::Vars) ==> is_v(v, 5, 12)
    &&& s.lbr is Some ==> lbr_supported(s.lbr->Some_0, v)
}

/// Whether every option that `e` and `o` use is known to kernel `v`.
pub open spec fn supported(e: EventConfig, o: Opts, v: Version) -> bool {
    &&& e.config3 > 0 ==> is_v(v, 6, 3)
    &&& o.inherit == Some(Inherit::NewThread) ==> is_v(v, 5, 13)
    &&& o.on_execve == Some(OnExecve::Remove) ==> is_v(v, 5, 13)
    &&& o.stat_format.supported_by(v)
    &&& sample_format_supported(o.sample_format, v)
    &&& o.extra_record.text_poke ==> is_v(v, 5, 9)
    &&& o.extra_record.mmap.ext == Some(UseBuildId(true)) ==> is_v(v, 5, 12)
    &&& o.sigtrap_on_sample is Some ==> is_v(v, 5, 13)
    &&& o.pause_aux ==> is_v(v, 6, 13)
}

#[verifier::opaque]
pub open spec fn priv_bits(o: Opts) -> u64 {
    flag(o.exclude.user, b::ATTR_EXCLUDE_USER) | flag(o.exclude.kernel, b::ATTR_EXCLUDE_KERNEL)
        | flag(o.exclude.hv, b::ATTR_EXCLUDE_HV) | flag(o.exclude.host, b::ATTR_EXCLUDE_HOST)
        | flag(o.exclude.guest, b::ATTR_EXCLUDE_GUEST) | flag(o.exclude.idle, b::ATTR_EXCLUDE_IDLE)
}

#[verifier::opaque]
pub open spec fn count_bits(o: Opts) -> u64 {
    flag(o.only_group, b::ATTR_EXCLUSIVE) | flag(o.pin_on_pmu, b::ATTR_PINNED) | flag(
        o.inherit is Some,
        b::ATTR_INHERIT,
    ) | flag(o.inherit == Some(Inherit::NewThread), b::ATTR_INHERIT_THREAD) | flag(
        o.on_execve == Some(OnExecve::Enable),
        b::ATTR_ENABLE_ON_EXEC,
    ) | flag(o.on_execve == Some(OnExecve::Remove), b::ATTR_REMOVE_ON_EXEC) | flag(
        !o.enable,
        b::ATTR_DISABLED,
    )
}

pub open spec fn call_chain_excludes(c: Option<CallChain>, user: bool) -> bool {
    match c {
        Some(c) => if user {
            c.exclude_user
        } else {
            c.exclude_kernel
        },
        None => false,
    }
}

#[verifier::opaque]
pub open spec fn sample_bits(o: Opts) -> u64 {
    flag(o.sample_on is Freq, b::ATTR_FREQ) | (((o.sample_skid.spec_precise_ip() as u64) * 0x8000) as u64) | flag(
        call_chain_excludes(o.sample_format.call_chain, false),
        b::ATTR_EXCLUDE_CALLCHAIN_KERNEL,
    ) | flag(call_chain_excludes(o.sample_format.call_chain, true), b::ATTR_EXCLUDE_CALLCHAIN_USER)
        | flag(o.record_id_all, b::ATTR_SAMPLE_ID_ALL) | flag(
        o.wake_up.on is Bytes,
        b::ATTR_WATERMARK,
    ) | flag(o.sigtrap_on_sample is Some, b::ATTR_SIGTRAP) | flag(
        o.timer is Some,
        b::ATTR_USE_CLOCKID,
    )
}

#[verifier::opaque]
pub open spec fn record_bits(o: Opts) -> u64 {
    let x = o.extra_record;
    flag(x.task, b::ATTR_TASK) | flag(x.read, b::ATTR_INHERIT_STAT) | flag(x.comm, b::ATTR_COMM)
        | flag(x.mmap.code || x.mmap.ext is Some, b::ATTR_MMAP) | flag(x.mmap.data, b::ATTR_MMAP_DATA)
        | flag(x.mmap.ext is Some, b::ATTR_MMAP2) | flag(
        x.mmap.ext == Some(UseBuildId(true)),
        b::ATTR_BUILD_ID,
    ) | flag(x.cgroup, b::ATTR_CGROUP) | flag(x.ksymbol, b::ATTR_KSYMBOL) | flag(
        x.bpf_event,
        b::ATTR_BPF_EVENT,
    ) | flag(x.text_poke, b::ATTR_TEXT_POKE) | flag(x.ctx_switch, b::ATTR_CONTEXT_SWITCH) | flag(
        x.namespaces,
        b::ATTR_NAMESPACES,
    )
}

/// The single-bit options of `perf_event_attr`.
pub open spec fn flags_of(o: Opts) -> u64 {
    priv_bits(o) | count_bits(o) | sample_bits(o) | record_bits(o)
}

#[verifier::opaque]
pub open spec fn sample_field_bits(s: SampleFormat) -> u64 {
    flag(s.stat, b::PERF_SAMPLE_READ) | flag(s.period, b::PERF_SAMPLE_PERIOD) | flag(
        s.cgroup,
        b::PERF_SAMPLE_CGROUP,
    ) | flag(s.user_stack is Some, b::PERF_SAMPLE_STACK_USER) | flag(
        s.call_chain is Some,
        b::PERF_SAMPLE_CALLCHAIN,
    ) | flag(s.data_addr, b::PERF_SAMPLE_ADDR) | flag(s.data_phys_addr, b::PERF_SAMPLE_PHYS_ADDR)
        | flag(s.data_page_size, b::PERF_SAMPLE_DATA_PAGE_SIZE) | flag(
        s.data_source,
        b::PERF_SAMPLE_DATA_SRC,
    ) | flag(s.code_addr, b::PERF_SAMPLE_IP) | flag(s.code_page_size, b::PERF_SAMPLE_CODE_PAGE_SIZE)
        | flag(s.user_regs is Some, b::PERF_SAMPLE_REGS_USER) | flag(
        s.intr_regs is Some,
        b::PERF_SAMPLE_REGS_INTR,
    ) | flag(s.raw, b::PERF_SAMPLE_RAW) | flag(s.lbr is Some, b::PERF_SAMPLE_BRANCH_STACK) | flag(
        s.aux is Some,
        b::PERF_SAMPLE_AUX,
    ) | flag(s.txn, b::PERF_SAMPLE_TRANSACTION) | flag(
        s.weight == Some(Repr::Full),
        b::PERF_SAMPLE_WEIGHT,
    ) | flag(s.weight == Some(Repr::Vars), b::PERF_SAMPLE_WEIGHT_STRUCT)
}

#[verifier::opaque]
pub open spec fn record_id_bits(o: Opts) -> u64 {
    let r = o.record_id_format;
    flag(r.id, b::PERF_SAMPLE_ID) | flag(r.stream_id, b::PERF_SAMPLE_STREAM_ID) | flag(
        r.cpu,
        b::PERF_SAMPLE_CPU,
    ) | flag(r.task, b::PERF_SAMPLE_TID) | flag(r.time, b::PERF_SAMPLE_TIME)
}

/// `sample_type`: one bit per sample field and per record id field.
pub open spec fn sample_type_of(o: Opts) -> u64 {
    sample_field_bits(o.sample_format) | record_id_bits(o)
}

#[verifier::opaque]
pub open spec fn branch_kind_bits(l: Lbr) -> u64 {
    let t = l.branch_type;
    flag(t.any, b::PERF_SAMPLE_BRANCH_ANY) | flag(t.any_return, b::PERF_SAMPLE_BRANCH_ANY_RETURN)
        | flag(t.cond, b::PERF_SAMPLE_BRANCH_COND) | flag(t.ind_jump, b::PERF_SAMPLE_BRANCH_IND_JUMP)
        | flag(t.call_stack, b::PERF_SAMPLE_BRANCH_CALL_STACK) | flag(
        t.call,
        b::PERF_SAMPLE_BRANCH_CALL,
    ) | flag(t.any_call, b::PERF_SAMPLE_BRANCH_ANY_CALL) | flag(
        t.ind_call,
        b::PERF_SAMPLE_BRANCH_IND_CALL,
    ) | flag(t.in_tx, b::PERF_SAMPLE_BRANCH_IN_TX) | flag(t.no_tx, b::PERF_SAMPLE_BRANCH_NO_TX)
        | flag(t.abort_tx, b::PERF_SAMPLE_BRANCH_ABORT_TX)
}

#[verifier::opaque]
pub open spec fn branch_entry_bits(l: Lbr) -> u64 {
    let f = l.entry_format;
    flag(l.hw_index, b::PERF_SAMPLE_BRANCH_HW_INDEX) | flag(!f.flags, b::PERF_SAMPLE_BRANCH_NO_FLAGS)
        | flag(!f.cycles, b::PERF_SAMPLE_BRANCH_NO_CYCLES) | flag(
        f.counter,
        b::PERF_SAMPLE_BRANCH_COUNTERS,
    ) | flag(f.branch_type, b::PERF_SAMPLE_BRANCH_TYPE_SAVE) | flag(
        f.branch_priv,
        b::PERF_SAMPLE_BRANCH_PRIV_SAVE,
    )
}

/// `branch_sample_type` of a last-branch-record option: the target privilege
/// mask (none: the kernel takes it from the exclude options), the kinds of
/// branches, and the entry format.
pub open spec fn branch_sample_type_of(l: Option<Lbr>) -> u64 {
    match l {
        Some(l) => (match l.target_priv {
            Some(p) => p.spec_branch_sample_type(),
            None => 0,
        }) | branch_kind_bits(l) | branch_entry_bits(l),
        None => 0,
    }
}

pub open spec fn clock_id(c: Option<Clock>) -> i32 {
    match c {
        Some(Clock::Tai) => b::CLOCK_TAI,
        Some(Clock::RealTime) => b::CLOCK_REALTIME,
        Some(Clock::BootTime) => b::CLOCK_BOOTTIME,
        Some(Clock::Monotonic) => b::CLOCK_MONOTONIC,
        Some(Clock::MonotonicRaw) => b::CLOCK_MONOTONIC_RAW,
        None => 0,
    }
}

/// The attribute that `e` and `o` assemble to.
pub open spec fn attr_of(e: EventConfig, o: Opts) -> Attr {
    let s = o.sample_format;
    Attr {
        ty: e.ty,
        size: b::PERF_ATTR_SIZE,
        config: e.config,
        sample_period_or_freq: match o.sample_on {
            SampleOn::Freq(n) => n,
            SampleOn::Count(n) => n,
        },
        sample_type: sample_type_of(o),
        read_format: crate::config::read_format_of(o.stat_format),
        flags: flags_of(o),
        wakeup_events_or_watermark: match o.wake_up.on {
            WakeUpOn::Bytes(n) => n as u32,
            WakeUpOn::Samples(n) => n as u32,
        },
        bp_type: e.bp_type,
        config1: e.config1,
        config2: e.config2,
        branch_sample_type: branch_sample_type_of(s.lbr),
        sample_regs_user: match s.user_regs {
            Some(m) => m.0,
            None => 0,
        },
        sample_stack_user: match s.user_stack {
            Some(n) => n.0,
            None => 0,
        },
        clockid: clock_id(o.timer),
        sample_regs_intr: match s.intr_regs {
            Some(m) => m.0,
            None => 0,
        },
        aux_watermark: o.wake_up.on_aux_bytes,
        sample_max_stack: match s.call_chain {
            Some(c) => c.max_stack_frames,
            None => 0,
        },
        aux_sample_size: match s.aux {
            Some(n) => n.0,
            None => 0,
        },
        aux_action: if o.pause_aux {
            b::ATTR_AUX_START_PAUSED
        } else {
            0
        },
        sig_data: match o.sigtrap_on_sample {
            Some(d) => d.0,
            None => 0,
        },
        config3: e.config3,
    }
}

fn priv_bits_exec(o: &Opts) -> (r: u64)
    ensures
        r == priv_bits(*o),
{
    reveal(priv_bits);
    fl(o.exclude.user, b::ATTR_EXCLUDE_USER) | fl(o.exclude.kernel, b::ATTR_EXCLUDE_KERNEL) | fl(
        o.exclude.hv,
        b::ATTR_EXCLUDE_HV,
    ) | fl(o.exclude.host, b::ATTR_EXCLUDE_HOST) | fl(o.exclude.guest, b::ATTR_EXCLUDE_GUEST) | fl(
        o.exclude.idle,
        b::ATTR_EXCLUDE_IDLE,
    )
}

fn count_bits_exec(o: &Opts) -> (r: u64)
    ensures
        r == count_bits(*o),
{
    reveal(count_bits);
    let inherit = o.inherit.is_some();
    let inherit_thread = match o.inherit {
        Some(Inherit::NewThread) => true,
        _ => false,
    };
    let enable_on_exec = match o.on_execve {
        Some(OnExecve::Enable) => true,
        _ => false,
    };
    let remove_on_exec = match o.on_execve {
        Some(OnExecve::Remove) => true,
        _ => false,
    };
    fl(o.only_group, b::ATTR_EXCLUSIVE) | fl(o.pin_on_pmu, b::ATTR_PINNED) | fl(
        inherit,
        b::ATTR_INHERIT,
    ) | fl(inherit_thread, b::ATTR_INHERIT_THREAD) | fl(enable_on_exec, b::ATTR_ENABLE_ON_EXEC)
        | fl(remove_on_exec, b::ATTR_REMOVE_ON_EXEC) | fl(!o.enable, b::ATTR_DISABLED)
}

fn sample_bits_exec(o: &Opts) -> (r: u64)
    ensures
        r == sample_bits(*o),
{
    reveal(sample_bits);
    let freq = match o.sample_on {
        SampleOn::Freq(_) => true,
        SampleOn::Count(_) => false,
    };
    let (ex_kernel, ex_user) = match o.sample_format.call_chain {
        Some(c) => (c.exclude_kernel, c.exclude_user),
        None => (false, false),
    };
    let watermark = match o.wake_up.on {
        WakeUpOn::Bytes(_) => true,
        WakeUpOn::Samples(_) => false,
    };
    fl(freq, b::ATTR_FREQ) | ((o.sample_skid.as_precise_ip() as u64) * 0x8000) | fl(
        ex_kernel,
        b::ATTR_EXCLUDE_CALLCHAIN_KERNEL,
    ) | fl(ex_user, b::ATTR_EXCLUDE_CALLCHAIN_USER) | fl(o.record_id_all, b::ATTR_SAMPLE_ID_ALL)
        | fl(watermark, b::ATTR_WATERMARK) | fl(o.sigtrap_on_sample.is_some(), b::ATTR_SIGTRAP) | fl(
        o.timer.is_some(),
        b::ATTR_USE_CLOCKID,
    )
}

fn record_bits_exec(o: &Opts) -> (r: u64)
    ensures
        r == record_bits(*o),
{
    reveal(record_bits);
    let x = &o.extra_record;
    let ext = x.mmap.ext.is_some();
    let build_id = match x.mmap.ext {
        Some(UseBuildId(on)) => on,
        None => false,
    };
    fl(x.task, b::ATTR_TASK) | fl(x.read, b::ATTR_INHERIT_STAT) | fl(x.comm, b::ATTR_COMM) | fl(
        x.mmap.code || ext,
        b::ATTR_MMAP,
    ) | fl(x.mmap.data, b::ATTR_MMAP_DATA) | fl(ext, b::ATTR_MMAP2) | fl(build_id, b::ATTR_BUILD_ID)
        | fl(x.cgroup, b::ATTR_CGROUP) | fl(x.ksymbol, b::ATTR_KSYMBOL) | fl(
        x.bpf_event,
        b::ATTR_BPF_EVENT,
    ) | fl(x.text_poke, b::ATTR_TEXT_POKE) | fl(x.ctx_switch, b::ATTR_CONTEXT_SWITCH) | fl(
        x.namespaces,
        b::ATTR_NAMESPACES,
    )
}

fn sample_field_bits_exec(s: &SampleFormat) -> (r: u64)
    ensures
        r == sample_field_bits(*s),
{
    reveal(sample_field_bits);
    let full = match s.weight {
        Some(Repr::Full) => true,
        _ => false,
    };
    let vars = match s.weight {
        Some(Repr::Vars) => true,
        _ => false,
    };
    fl(s.stat, b::PERF_SAMPLE_READ) | fl(s.period, b::PERF_SAMPLE_PERIOD) | fl(
        s.cgroup,
        b::PERF_SAMPLE_CGROUP,
    ) | fl(s.user_stack.is_some(), b::PERF_SAMPLE_STACK_USER) | fl(
        s.call_chain.is_some(),
        b::PERF_SAMPLE_CALLCHAIN,
    ) | fl(s.data_addr, b::PERF_SAMPLE_ADDR) | fl(s.data_phys_addr, b::PERF_SAMPLE_PHYS_ADDR) | fl(
        s.data_page_size,
        b::PERF_SAMPLE_DATA_PAGE_SIZE,
    ) | fl(s.data_source, b::PERF_SAMPLE_DATA_SRC) | fl(s.code_addr, b::PERF_SAMPLE_IP) | fl(
        s.code_page_size,
        b::PERF_SAMPLE_CODE_PAGE_SIZE,
    ) | fl(s.user_regs.is_some(), b::PERF_SAMPLE_REGS_USER) | fl(
        s.intr_regs.is_some(),
        b::PERF_SAMPLE_REGS_INTR,
    ) | fl(s.raw, b::PERF_SAMPLE_RAW) | fl(s.lbr.is_some(), b::PERF_SAMPLE_BRANCH_STACK) | fl(
        s.aux.is_some(),
        b::PERF_SAMPLE_AUX,
    ) | fl(s.txn, b::PERF_SAMPLE_TRANSACTION) | fl(full, b::PERF_SAMPLE_WEIGHT) | fl(
        vars,
        b::PERF_SAMPLE_WEIGHT_STRUCT,
    )
}

fn record_id_bits_exec(o: &Opts) -> (r: u64)
    ensures
        r == record_id_bits(*o),
{
    reveal(record_id_bits);
    let r = &o.record_id_format;
    fl(r.id, b::PERF_SAMPLE_ID) | fl(r.stream_id, b::PERF_SAMPLE_STREAM_ID) | fl(
        r.cpu,
        b::PERF_SAMPLE_CPU,
    ) | fl(r.task, b::PERF_SAMPLE_TID) | fl(r.time, b::PERF_SAMPLE_TIME)
}

fn branch_sample_type_exec(lbr: &Option<Lbr>) -> (r: u64)
    ensures
        r == branch_sample_type_of(*lbr),
{
    reveal(branch_kind_bits);
    reveal(branch_entry_bits);
    match lbr {
        None => 0,
        Some(l) => {
            let p = match &l.target_priv {
                Some(p) => p.as_branch_sample_type(),
                None => 0,
            };
            let t = &l.branch_type;
            let kinds = fl(t.any, b::PERF_SAMPLE_BRANCH_ANY) | fl(
                t.any_return,
                b::PERF_SAMPLE_BRANCH_ANY_RETURN,
            ) | fl(t.cond, b::PERF_SAMPLE_BRANCH_COND) | fl(t.ind_jump, b::PERF_SAMPLE_BRANCH_IND_JUMP)
                | fl(t.call_stack, b::PERF_SAMPLE_BRANCH_CALL_STACK) | fl(
                t.call,
                b::PERF_SAMPLE_BRANCH_CALL,
            ) | fl(t.any_call, b::PERF_SAMPLE_BRANCH_ANY_CALL) | fl(
                t.ind_call,
                b::PERF_SAMPLE_BRANCH_IND_CALL,
            ) | fl(t.in_tx, b::PERF_SAMPLE_BRANCH_IN_TX) | fl(t.no_tx, b::PERF_SAMPLE_BRANCH_NO_TX)
                | fl(t.abort_tx, b::PERF_SAMPLE_BRANCH_ABORT_TX);
            let f = &l.entry_format;
            let entry = fl(l.hw_index, b::PERF_SAMPLE_BRANCH_HW_INDEX) | fl(
                !f.flags,
                b::PERF_SAMPLE_BRANCH_NO_FLAGS,
            ) | fl(!f.cycles, b::PERF_SAMPLE_BRANCH_NO_CYCLES) | fl(
                f.counter,
                b::PERF_SAMPLE_BRANCH_COUNTERS,
            ) | fl(f.branch_type, b::PERF_SAMPLE_BRANCH_TYPE_SAVE) | fl(
                f.branch_priv,
                b::PERF_SAMPLE_BRANCH_PRIV_SAVE,
            );
            p | kinds | entry
        },
    }
}

fn check(ok: bool) -> (r: Result<(), Error>)
    ensures
        r is Ok <==> ok,
        r is Err ==> r == Err::<(), Error>(Error::Unsupported),
{
    if ok {
        Ok(())
    } else {
        Err(Error::Unsupported)
    }
}

fn check_supported(e: &EventConfig, o: &Opts, v: &Version) -> (r: Result<(), Error>)
    ensures
        r is Ok <==> supported(*e, *o, *v),
        r is Err ==> r == Err::<(), Error>(Error::Unsupported),
{
    let s = &o.sample_format;
    check(e.config3 == 0 || v.at_least(6, 3))?;
    check(!matches!(o.inherit, Some(Inherit::NewThread)) || v.at_least(5, 13))?;
    check(!matches!(o.on_execve, Some(OnExecve::Remove)) || v.at_least(5, 13))?;
    check(!o.stat_format.lost_records || v.at_least(6, 0))?;
    check(!s.data_page_size || v.at_least(5, 11))?;
    check(!s.code_page_size || v.at_least(5, 11))?;
    check(!matches!(s.weight, Some(Repr::Vars)) || v.at_least(5, 12))?;
    if let Some(l) = &s.lbr {
        check(!l.entry_format.counter || v.at_least(6, 8))?;
        check(!l.entry_format.branch_priv || v.at_least(6, 1))?;
    }
    check(!o.extra_record.text_poke || v.at_least(5, 9))?;
    check(!matches!(o.extra_record.mmap.ext, Some(UseBuildId(true))) || v.at_least(5, 12))?;
    check(o.sigtrap_on_sample.is_none() || v.at_least(5, 13))?;
    check(!o.pause_aux || v.at_least(6, 13))?;
    Ok(())
}

/// Assembles the attribute of event `e` under options `o` for kernel `v`:
/// `Unsupported` exactly when an option needs a newer kernel.
pub fn from(e: EventConfig, o: &Opts, v: &Version) -> (r: Result<Attr, Error>)
    ensures
        r is Ok <==> supported(e, *o, *v),
        r is Err ==> r == Err::<Attr, Error>(Error::Unsupported),
        r is Ok ==> r == Ok::<Attr, Error>(attr_of(e, *o)),
{
    check_supported(&e, o, v)?;
    let s = &o.sample_format;
    let read_format = o.stat_format.as_read_format(v)?;
    let attr = Attr {
        ty: e.ty,
        size: b::PERF_ATTR_SIZE,
        config: e.config,
        sample_period_or_freq: match o.sample_on {
            SampleOn::Freq(n) => n,
            SampleOn::Count(n) => n,
        },
        sample_type: sample_field_bits_exec(s) | record_id_bits_exec(o),
        read_format,
        flags: priv_bits_exec(o) | count_bits_exec(o) | sample_bits_exec(o) | record_bits_exec(o),
        wakeup_events_or_watermark: match o.wake_up.on {
            WakeUpOn::Bytes(n) => n as u32,
            WakeUpOn::Samples(n) => n as u32,
        },
        bp_type: e.bp_type,
        config1: e.config1,
        config2: e.config2,
        branch_sample_type: branch_sample_type_exec(&s.lbr),
        sample_regs_user: match s.user_regs {
            Some(m) => m.0,
            None => 0,
        },
        sample_stack_user: match s.user_stack {
            Some(n) => n.0,
            None => 0,
        },
        clockid: match o.timer {
            Some(Clock::Tai) => b::CLOCK_TAI,
            Some(Clock::RealTime) => b::CLOCK_REALTIME,
            Some(Clock::BootTime) => b::CLOCK_BOOTTIME,
            Some(Clock::Monotonic) => b::CLOCK_MONOTONIC,
            Some(Clock::MonotonicRaw) => b::CLOCK_MONOTONIC_RAW,
            None => 0,
        },
        sample_regs_intr: match s.intr_regs {
            Some(m) => m.0,
            None => 0,
        },
        aux_watermark: o.wake_up.on_aux_bytes,
        sample_max_stack: match s.call_chain {
            Some(c) => c.max_stack_frames,
            None => 0,
        },
        aux_sample_size: match s.aux {
            Some(n) => n.0,
            None => 0,
        },
        aux_action: if o.pause_aux {
            b::ATTR_AUX_START_PAUSED
        } else {
            0
        },
        sig_data: match o.sigtrap_on_sample {
            Some(d) => d.0,
            None => 0,
        },
        config3: e.config3,
    };
    Ok(attr)
}

/// The kernel's binary layout of `a` (little-endian, `PERF_ATTR_SIZE_VER8`).
pub open spec fn attr_bytes(a: Attr) -> Seq<u8> {
    le_bytes(a.ty as nat, 4) + le_bytes(a.size as nat, 4) + le_bytes(a.config as nat, 8) + le_bytes(
        a.sample_period_or_freq as nat,
        8,
    ) + le_bytes(a.sample_type as nat, 8) + le_bytes(a.read_format as nat, 8) + le_bytes(
        a.flags as nat,
        8,
    ) + le_bytes(a.wakeup_events_or_watermark as nat, 4) + le_bytes(a.bp_type as nat, 4) + le_bytes(
        a.config1 as nat,
        8,
    ) + le_bytes(a.config2 as nat, 8) + le_bytes(a.branch_sample_type as nat, 8) + le_bytes(
        a.sample_regs_user as nat,
        8,
    ) + le_bytes(a.sample_stack_user as nat, 4) + le_bytes((a.clockid as u32) as nat, 4) + le_bytes(
        a.sample_regs_intr as nat,
        8,
    ) + le_bytes(a.aux_watermark as nat, 4) + le_bytes(a.sample_max_stack as nat, 2) + le_bytes(0, 2)
        + le_bytes(a.aux_sample_size as nat, 4) + le_bytes(a.aux_action as nat, 4) + le_bytes(
        a.sig_data as nat,
        8,
    ) + le_bytes(a.config3 as nat, 8)
}

pub proof fn lemma_le_bytes_len(v: nat, n: nat)
    ensures
        le_bytes(v, n).len() == n,
    decreases n,
{
    if n > 0 {
        lemma_le_bytes_len(v / 256, (n - 1) as nat);
    }
}

impl Attr {
    /// The bytes handed to `perf_event_open`.
    pub fn to_bytes(&self) -> (r: Vec<u8>)
        ensures
            r@ == attr_bytes(*self),
    {
        let mut buf: Vec<u8> = Vec::new();
        push_le(&mut buf, self.ty as u64, 4);
        push_le(&mut buf, self.size as u64, 4);
        push_le(&mut buf, self.config, 8);
        push_le(&mut buf, self.sample_period_or_freq, 8);
        push_le(&mut buf, self.sample_type, 8);
        push_le(&mut buf, self.read_format, 8);
        push_le(&mut buf, self.flags, 8);
        push_le(&mut buf, self.wakeup_events_or_watermark as u64, 4);
        push_le(&mut buf, self.bp_type as u64, 4);
        push_le(&mut buf, self.config1, 8);
        push_le(&mut buf, self.config2, 8);
        push_le(&mut buf, self.branch_sample_type, 8);
        push_le(&mut buf, self.sample_regs_user, 8);
        push_le(&mut buf, self.sample_stack_user as u64, 4);
        push_le(&mut buf, (self.clockid as u32) as u64, 4);
        push_le(&mut buf, self.sample_regs_intr, 8);
        push_le(&mut buf, self.aux_watermark as u64, 4);
        push_le(&mut buf, self.sample_max_stack as u64, 2);
        push_le(&mut buf, 0, 2);
        push_le(&mut buf, self.aux_sample_size as u64, 4);
        push_le(&mut buf, self.aux_action as u64, 4);
        push_le(&mut buf, self.sig_data, 8);
        push_le(&mut buf, self.config3, 8);
        assert(buf@ =~= attr_bytes(*self));
        buf
    }
}

/// The layout is `PERF_ATTR_SIZE_VER8` bytes long, as its `size` field says.
pub proof fn lemma_attr_bytes_len(a: Attr)
    ensures
        attr_bytes(a).len() == 136,
{
    lemma_le_bytes_len(a.ty as nat, 4);
    lemma_le_bytes_len(a.size as nat, 4);
    lemma_le_bytes_len(a.config as nat, 8);
    lemma_le_bytes_len(a.sample_period_or_freq as nat, 8);
    lemma_le_bytes_len(a.sample_type as nat, 8);
    lemma_le_bytes_len(a.read_format as nat, 8);
    lemma_le_bytes_len(a.flags as nat, 8);
    lemma_le_bytes_len(a.wakeup_events_or_watermark as nat, 4);
    lemma_le_bytes_len(a.bp_type as nat, 4);
    lemma_le_bytes_len(a.config1 as nat, 8);
    lemma_le_bytes_len(a.config2 as nat, 8);
    lemma_le_bytes_len(a.branch_sample_type as nat, 8);
    lemma_le_bytes_len(a.sample_regs_user as nat, 8);
    lemma_le_bytes_len(a.sample_stack_user as nat, 4);
    lemma_le_bytes_len((a.clockid as u32) as nat, 4);
    lemma_le_bytes_len(a.sample_regs_intr as nat, 8);
    lemma_le_bytes_len(a.aux_watermark as nat, 4);
    lemma_le_bytes_len(a.sample_max_stack as nat, 2);
    lemma_le_bytes_len(0, 2);
    lemma_le_bytes_len(a.aux_sample_size as nat, 4);
    lemma_le_bytes_len(a.aux_action as nat, 4);
    lemma_le_bytes_len(a.sig_data as nat, 8);
    lemma_le_bytes_len(a.config3 as nat, 8);
}

/// An event and options that use no feature gated by kernel version assemble
/// for every kernel: `from` then returns the attribute, never `Unsupported`.
pub proof fn lemma_ungated_options_supported(e: EventConfig, o: Opts, v: Version)
    requires
        e.config3 == 0,
        o.inherit != Some(Inherit::NewThread),
        o.on_execve != Some(OnExecve::Remove),
        !o.stat_format.lost_records,
        !o.sample_format.data_page_size,
        !o.sample_format.code_page_size,
        o.sample_format.weight != Some(Repr::Vars),
        o.sample_format.lbr matches Some(l) ==> !l.entry_format.counter && !l.entry_format.branch_priv,
        !o.extra_record.text_poke,
        o.extra_record.mmap.ext != Some(UseBuildId(true)),
        o.sigtrap_on_sample is None,
        !o.pause_aux,
    ensures
        supported(e, o, v),
{
}

/// Decoding `sample_type` gives back which sample and record id fields were asked for.
#[verifier::spinoff_prover]
#[verifier::rlimit(50)]
pub proof fn lemma_sample_type_round_trip(o: Opts)
    ensures
        has_bit(sample_type_of(o), b::PERF_SAMPLE_READ) == (o.sample_format.stat),
        has_bit(sample_type_of(o), b::PERF_SAMPLE_PERIOD) == (o.sample_format.period),
        has_bit(sample_type_of(o), b::PERF_SAMPLE_CGROUP) == (o.sample_format.cgroup),
        has_bit(sample_type_of(o), b::PERF_SAMPLE_STACK_USER) == (o.sample_format.user_stack is Some),
        has_bit(sample_type_of(o), b::PERF_SAMPLE_CALLCHAIN) == (o.sample_format.call_chain is Some),
        has_bit(sample_type_of(o), b::PERF_SAMPLE_ADDR) == (o.sample_format.data_addr),
        has_bit(sample_type_of(o), b::PERF_SAMPLE_PHYS_ADDR) == (o.sample_format.data_phys_addr),
        has_bit(sample_type_of(o), b::PERF_SAMPLE_DATA_PAGE_SIZE) == (o.sample_format.data_page_size),
        has_bit(sample_type_of(o), b::PERF_SAMPLE_DATA_SRC) == (o.sample_format.data_source),
        has_bit(sample_type_of(o), b::PERF_SAMPLE_IP) == (o.sample_format.code_addr),
        has_bit(sample_type_of(o), b::PERF_SAMPLE_CODE_PAGE_SIZE) == (o.sample_format.code_page_size),
        has_bit(sample_type_of(o), b::PERF_SAMPLE_REGS_USER) == (o.sample_format.user_regs is Some),
        has_bit(sample_type_of(o), b::PERF_SAMPLE_REGS_INTR) == (o.sample_format.intr_regs is Some),
        has_bit(sample_type_of(o), b::PERF_SAMPLE_RAW) == (o.sample_format.raw),
        has_bit(sample_type_of(o), b::PERF_SAMPLE_BRANCH_STACK) == (o.sample_format.lbr is Some),
        has_bit(sample_type_of(o), b::PERF_SAMPLE_AUX) == (o.sample_format.aux is Some),
        has_bit(sample_type_of(o), b::PERF_SAMPLE_TRANSACTION) == (o.sample_format.txn),
        has_bit(sample_type_of(o), b::PERF_SAMPLE_WEIGHT) == (o.sample_format.weight == Some(Repr::Full)),
        has_bit(sample_type_of(o), b::PERF_SAMPLE_WEIGHT_STRUCT) == (o.sample_format.weight == Some(Repr::Vars)),
        has_bit(sample_type_of(o), b::PERF_SAMPLE_ID) == (o.record_id_format.id),
        has_bit(sample_type_of(o), b::PERF_SAMPLE_STREAM_ID) == (o.record_id_format.stream_id),
        has_bit(sample_type_of(o), b::PERF_SAMPLE_CPU) == (o.record_id_format.cpu),
        has_bit(sample_type_of(o), b::PERF_SAMPLE_TID) == (o.record_id_format.task),
        has_bit(sample_type_of(o), b::PERF_SAMPLE_TIME) == (o.record_id_format.time),
        sample_type_of(o) & !0x1feffffu64 == 0,
{
    let xa: u64 = sample_field_bits(o.sample_format);
    let xb: u64 = record_id_bits(o);
    {
        let a0: bool = o.sample_format.stat;
        let a1: bool = o.sample_format.period;
        let a2: bool = o.sample_format.cgroup;
        let a3: bool = o.sample_format.user_stack is Some;
        let a4: bool = o.sample_format.call_chain is Some;
        let a5: bool = o.sample_format.data_addr;
        let a6: bool = o.sample_format.data_phys_addr;
        let a7: bool = o.sample_format.data_page_size;
        let a8: bool = o.sample_format.data_source;
        let a9: bool = o.sample_format.code_addr;
        let a10: bool = o.sample_format.code_page_size;
        let a11: bool = o.sample_format.user_regs is Some;
        let a12: bool = o.sample_format.intr_regs is Some;
        let a13: bool = o.sample_format.raw;
        let a14: bool = o.sample_format.lbr is Some;
        let a15: bool = o.sample_format.aux is Some;
        let a16: bool = o.sample_format.txn;
        let a17: bool = o.sample_format.weight == Some(Repr::Full);
        let a18: bool = o.sample_format.weight == Some(Repr::Vars);
        assert(xa == (if a0 { b::PERF_SAMPLE_READ } else { 0u64 }) | (if a1 { b::PERF_SAMPLE_PERIOD } else { 0u64 }) | (if a2 { b::PERF_SAMPLE_CGROUP } else { 0u64 }) | (if a3 { b::PERF_SAMPLE_STACK_USER } else { 0u64 }) | (if a4 { b::PERF_SAMPLE_CALLCHAIN } else { 0u64 }) | (if a5 { b::PERF_SAMPLE_ADDR } else { 0u64 }) | (if a6 { b::PERF_SAMPLE_PHYS_ADDR } else { 0u64 }) | (if a7 { b::PERF_SAMPLE_DATA_PAGE_SIZE } else { 0u64 }) | (if a8 { b::PERF_SAMPLE_DATA_SRC } else { 0u64 }) | (if a9 { b::PERF_SAMPLE_IP } else { 0u64 }) | (if a10 { b::PERF_SAMPLE_CODE_PAGE_SIZE } else { 0u64 }) | (if a11 { b::PERF_SAMPLE_REGS_USER } else { 0u64 }) | (if a12 { b::PERF_SAMPLE_REGS_INTR } else { 0u64 }) | (if a13 { b::PERF_SAMPLE_RAW } else { 0u64 }) | (if a14 { b::PERF_SAMPLE_BRANCH_STACK } else { 0u64 }) | (if a15 { b::PERF_SAMPLE_AUX } else { 0u64 }) | (if a16 { b::PERF_SAMPLE_TRANSACTION } else { 0u64 }) | (if a17 { b::PERF_SAMPLE_WEIGHT } else { 0u64 }) | (if a18 { b::PERF_SAMPLE_WEIGHT_STRUCT } else { 0u64 })) by {
            reveal(sample_field_bits);
        }
        assert(xa == (if a0 { b::PERF_SAMPLE_READ } else { 0u64 }) | (if a1 { b::PERF_SAMPLE_PERIOD } else { 0u64 }) | (if a2 { b::PERF_SAMPLE_CGROUP } else { 0u64 }) | (if a3 { b::PERF_SAMPLE_STACK_USER } else { 0u64 }) | (if a4 { b::PERF_SAMPLE_CALLCHAIN } else { 0u64 }) | (if a5 { b::PERF_SAMPLE_ADDR } else { 0u64 }) | (if a6 { b::PERF_SAMPLE_PHYS_ADDR } else { 0u64 }) | (if a7 { b::PERF_SAMPLE_DATA_PAGE_SIZE } else { 0u64 }) | (if a8 { b::PERF_SAMPLE_DATA_SRC } else { 0u64 }) | (if a9 { b::PERF_SAMPLE_IP } else { 0u64 }) | (if a10 { b::PERF_SAMPLE_CODE_PAGE_SIZE } else { 0u64 }) | (if a11 { b::PERF_SAMPLE_REGS_USER } else { 0u64 }) | (if a12 { b::PERF_SAMPLE_REGS_INTR } else { 0u64 }) | (if a13 { b::PERF_SAMPLE_RAW } else { 0u64 }) | (if a14 { b::PERF_SAMPLE_BRANCH_STACK } else { 0u64 }) | (if a15 { b::PERF_SAMPLE_AUX } else { 0u64 }) | (if a16 { b::PERF_SAMPLE_TRANSACTION } else { 0u64 }) | (if a17 { b::PERF_SAMPLE_WEIGHT } else { 0u64 }) | (if a18 { b::PERF_SAMPLE_WEIGHT_STRUCT } else { 0u64 }) ==> ((xa & b::PERF_SAMPLE_READ != 0) == a0) && ((xa & b::PERF_SAMPLE_PERIOD != 0) == a1) && ((xa & b::PERF_SAMPLE_CGROUP != 0) == a2) && ((xa & b::PERF_SAMPLE_STACK_USER != 0) == a3) && ((xa & b::PERF_SAMPLE_CALLCHAIN != 0) == a4) && ((xa & b::PERF_SAMPLE_ADDR != 0) == a5) && ((xa & b::PERF_SAMPLE_PHYS_ADDR != 0) == a6) && ((xa & b::PERF_SAMPLE_DATA_PAGE_SIZE != 0) == a7) && ((xa & b::PERF_SAMPLE_DATA_SRC != 0) == a8) && ((xa & b::PERF_SAMPLE_IP != 0) == a9) && ((xa & b::PERF_SAMPLE_CODE_PAGE_SIZE != 0) == a10) && ((xa & b::PERF_SAMPLE_REGS_USER != 0) == a11) && ((xa & b::PERF_SAMPLE_REGS_INTR != 0) == a12) && ((xa & b::PERF_SAMPLE_RAW != 0) == a13) && ((xa & b::PERF_SAMPLE_BRANCH_STACK != 0) == a14) && ((xa & b::PERF_SAMPLE_AUX != 0) == a15) && ((xa & b::PERF_SAMPLE_TRANSACTION != 0) == a16) && ((xa & b::PERF_SAMPLE_WEIGHT != 0) == a17) && ((xa & b::PERF_SAMPLE_WEIGHT_STRUCT != 0) == a18) && xa & !0x1fefd39u64 == 0) by (bit_vector);
    }
    {
        let a19: bool = o.record_id_format.id;
        let a20: bool = o.record_id_format.stream_id;
        let a21: bool = o.record_id_format.cpu;
        let a22: bool = o.record_id_format.task;
        let a23: bool = o.record_id_format.time;
        assert(xb == (if a19 { b::PERF_SAMPLE_ID } else { 0u64 }) | (if a20 { b::PERF_SAMPLE_STREAM_ID } else { 0u64 }) | (if a21 { b::PERF_SAMPLE_CPU } else { 0u64 }) | (if a22 { b::PERF_SAMPLE_TID } else { 0u64 }) | (if a23 { b::PERF_SAMPLE_TIME } else { 0u64 })) by {
            reveal(record_id_bits);
        }
        assert(xb == (if a19 { b::PERF_SAMPLE_ID } else { 0u64 }) | (if a20 { b::PERF_SAMPLE_STREAM_ID } else { 0u64 }) | (if a21 { b::PERF_SAMPLE_CPU } else { 0u64 }) | (if a22 { b::PERF_SAMPLE_TID } else { 0u64 }) | (if a23 { b::PERF_SAMPLE_TIME } else { 0u64 }) ==> ((xb & b::PERF_SAMPLE_ID != 0) == a19) && ((xb & b::PERF_SAMPLE_STREAM_ID != 0) == a20) && ((xb & b::PERF_SAMPLE_CPU != 0) == a21) && ((xb & b::PERF_SAMPLE_TID != 0) == a22) && ((xb & b::PERF_SAMPLE_TIME != 0) == a23) && xb & !0x2c6u64 == 0) by (bit_vector);
    }
    let x: u64 = sample_type_of(o);
    assert(x == xa | xb);
    assert(xa & !0x1fefd39u64 == 0 && xb & !0x2c6u64 == 0 && x == xa | xb ==> x & 0x1fefd39u64 == xa && x & 0x2c6u64 == xb && x & !0x1feffffu64 == 0) by (bit_vector);
    assert(x & 0x1fefd39u64 == xa ==> ((x & b::PERF_SAMPLE_READ != 0) == (xa & b::PERF_SAMPLE_READ != 0)) && ((x & b::PERF_SAMPLE_PERIOD != 0) == (xa & b::PERF_SAMPLE_PERIOD != 0)) && ((x & b::PERF_SAMPLE_CGROUP != 0) == (xa & b::PERF_SAMPLE_CGROUP != 0)) && ((x & b::PERF_SAMPLE_STACK_USER != 0) == (xa & b::PERF_SAMPLE_STACK_USER != 0)) && ((x & b::PERF_SAMPLE_CALLCHAIN != 0) == (xa & b::PERF_SAMPLE_CALLCHAIN != 0)) && ((x & b::PERF_SAMPLE_ADDR != 0) == (xa & b::PERF_SAMPLE_ADDR != 0)) && ((x & b::PERF_SAMPLE_PHYS_ADDR != 0) == (xa & b::PERF_SAMPLE_PHYS_ADDR != 0)) && ((x & b::PERF_SAMPLE_DATA_PAGE_SIZE != 0) == (xa & b::PERF_SAMPLE_DATA_PAGE_SIZE != 0)) && ((x & b::PERF_SAMPLE_DATA_SRC != 0) == (xa & b::PERF_SAMPLE_DATA_SRC != 0)) && ((x & b::PERF_SAMPLE_IP != 0) == (xa & b::PERF_SAMPLE_IP != 0)) && ((x & b::PERF_SAMPLE_CODE_PAGE_SIZE != 0) == (xa & b::PERF_SAMPLE_CODE_PAGE_SIZE != 0)) && ((x & b::PERF_SAMPLE_REGS_USER != 0) == (xa & b::PERF_SAMPLE_REGS_USER != 0)) && ((x & b::PERF_SAMPLE_REGS_INTR != 0) == (xa & b::PERF_SAMPLE_REGS_INTR != 0)) && ((x & b::PERF_SAMPLE_RAW != 0) == (xa & b::PERF_SAMPLE_RAW != 0)) && ((x & b::PERF_SAMPLE_BRANCH_STACK != 0) == (xa & b::PERF_SAMPLE_BRANCH_STACK != 0)) && ((x & b::PERF_SAMPLE_AUX != 0) == (xa & b::PERF_SAMPLE_AUX != 0)) && ((x & b::PERF_SAMPLE_TRANSACTION != 0) == (xa & b::PERF_SAMPLE_TRANSACTION != 0)) && ((x & b::PERF_SAMPLE_WEIGHT != 0) == (xa & b::PERF_SAMPLE_WEIGHT != 0)) && ((x & b::PERF_SAMPLE_WEIGHT_STRUCT != 0) == (xa & b::PERF_SAMPLE_WEIGHT_STRUCT != 0))) by (bit_vector);
    assert(x & 0x2c6u64 == xb ==> ((x & b::PERF_SAMPLE_ID != 0) == (xb & b::PERF_SAMPLE_ID != 0)) && ((x & b::PERF_SAMPLE_STREAM_ID != 0) == (xb & b::PERF_SAMPLE_STREAM_ID != 0)) && ((x & b::PERF_SAMPLE_CPU != 0) == (xb & b::PERF_SAMPLE_CPU != 0)) && ((x & b::PERF_SAMPLE_TID != 0) == (xb & b::PERF_SAMPLE_TID != 0)) && ((x & b::PERF_SAMPLE_TIME != 0) == (xb & b::PERF_SAMPLE_TIME != 0))) by (bit_vector);

}

/// Decoding `branch_sample_type` gives back the last-branch-record options.
#[verifier::spinoff_prover]
#[verifier::rlimit(50)]
pub proof fn lemma_branch_sample_type_round_trip(l: Lbr)
    ensures
        has_bit(branch_sample_type_of(Some(l)), b::PERF_SAMPLE_BRANCH_USER) == match l.target_priv {
            Some(p) => p.user,
            None => false,
        },
        has_bit(branch_sample_type_of(Some(l)), b::PERF_SAMPLE_BRANCH_KERNEL) == match l.target_priv {
            Some(p) => p.kernel,
            None => false,
        },
        has_bit(branch_sample_type_of(Some(l)), b::PERF_SAMPLE_BRANCH_HV) == match l.target_priv {
            Some(p) => p.hv,
            None => false,
        },
        has_bit(branch_sample_type_of(Some(l)), b::PERF_SAMPLE_BRANCH_ANY) == (l.branch_type.any),
        has_bit(branch_sample_type_of(Some(l)), b::PERF_SAMPLE_BRANCH_ANY_RETURN) == (l.branch_type.any_return),
        has_bit(branch_sample_type_of(Some(l)), b::PERF_SAMPLE_BRANCH_COND) == (l.branch_type.cond),
        has_bit(branch_sample_type_of(Some(l)), b::PERF_SAMPLE_BRANCH_IND_JUMP) == (l.branch_type.ind_jump),
        has_bit(branch_sample_type_of(Some(l)), b::PERF_SAMPLE_BRANCH_CALL_STACK) == (l.branch_type.call_stack),
        has_bit(branch_sample_type_of(Some(l)), b::PERF_SAMPLE_BRANCH_CALL) == (l.branch_type.call),
        has_bit(branch_sample_type_of(Some(l)), b::PERF_SAMPLE_BRANCH_ANY_CALL) == (l.branch_type.any_call),
        has_bit(branch_sample_type_of(Some(l)), b::PERF_SAMPLE_BRANCH_IND_CALL) == (l.branch_type.ind_call),
        has_bit(branch_sample_type_of(Some(l)), b::PERF_SAMPLE_BRANCH_IN_TX) == (l.branch_type.in_tx),
        has_bit(branch_sample_type_of(Some(l)), b::PERF_SAMPLE_BRANCH_NO_TX) == (l.branch_type.no_tx),
        has_bit(branch_sample_type_of(Some(l)), b::PERF_SAMPLE_BRANCH_ABORT_TX) == (l.branch_type.abort_tx),
        has_bit(branch_sample_type_of(Some(l)), b::PERF_SAMPLE_BRANCH_HW_INDEX) == (l.hw_index),
        has_bit(branch_sample_type_of(Some(l)), b::PERF_SAMPLE_BRANCH_NO_FLAGS) == !(l.entry_format.flags),
        has_bit(branch_sample_type_of(Some(l)), b::PERF_SAMPLE_BRANCH_NO_CYCLES) == !(l.entry_format.cycles),
        has_bit(branch_sample_type_of(Some(l)), b::PERF_SAMPLE_BRANCH_COUNTERS) == (l.entry_format.counter),
        has_bit(branch_sample_type_of(Some(l)), b::PERF_SAMPLE_BRANCH_TYPE_SAVE) == (l.entry_format.branch_type),
        has_bit(branch_sample_type_of(Some(l)), b::PERF_SAMPLE_BRANCH_PRIV_SAVE) == (l.entry_format.branch_priv),
        branch_sample_type_of(Some(l)) & !0xfffffu64 == 0,
        branch_sample_type_of(None) == 0,
{
    let tp: u64 = match l.target_priv {
        Some(p) => p.spec_branch_sample_type(),
        None => 0,
    };
    let xd: u64 = branch_kind_bits(l);
    let xe: u64 = branch_entry_bits(l);
    match l.target_priv {
        Some(p) => {
            let c0: bool = p.user;
            let c1: bool = p.kernel;
            let c2: bool = p.hv;
            assert(tp == (if c0 { b::PERF_SAMPLE_BRANCH_USER } else { 0u64 }) | (if c1 { b::PERF_SAMPLE_BRANCH_KERNEL } else { 0u64 }) | (if c2 { b::PERF_SAMPLE_BRANCH_HV } else { 0u64 }));
            assert(tp == (if c0 { b::PERF_SAMPLE_BRANCH_USER } else { 0u64 }) | (if c1 { b::PERF_SAMPLE_BRANCH_KERNEL } else { 0u64 }) | (if c2 { b::PERF_SAMPLE_BRANCH_HV } else { 0u64 }) ==> ((tp & b::PERF_SAMPLE_BRANCH_USER != 0) == c0) && ((tp & b::PERF_SAMPLE_BRANCH_KERNEL != 0) == c1) && ((tp & b::PERF_SAMPLE_BRANCH_HV != 0) == c2) && tp & !0x7u64 == 0) by (bit_vector);
        },
        None => {
            assert(tp == 0);
            assert(tp == 0 ==> (tp & b::PERF_SAMPLE_BRANCH_USER == 0) && (tp & b::PERF_SAMPLE_BRANCH_KERNEL == 0) && (tp & b::PERF_SAMPLE_BRANCH_HV == 0) && tp & !0x7u64 == 0) by (bit_vector);
        },
    }
    {
        let d0: bool = l.branch_type.any;
        let d1: bool = l.branch_type.any_return;
        let d2: bool = l.branch_type.cond;
        let d3: bool = l.branch_type.ind_jump;
        let d4: bool = l.branch_type.call_stack;
        let d5: bool = l.branch_type.call;
        let d6: bool = l.branch_type.any_call;
        let d7: bool = l.branch_type.ind_call;
        let d8: bool = l.branch_type.in_tx;
        let d9: bool = l.branch_type.no_tx;
        let d10: bool = l.branch_type.abort_tx;
        assert(xd == (if d0 { b::PERF_SAMPLE_BRANCH_ANY } else { 0u64 }) | (if d1 { b::PERF_SAMPLE_BRANCH_ANY_RETURN } else { 0u64 }) | (if d2 { b::PERF_SAMPLE_BRANCH_COND } else { 0u64 }) | (if d3 { b::PERF_SAMPLE_BRANCH_IND_JUMP } else { 0u64 }) | (if d4 { b::PERF_SAMPLE_BRANCH_CALL_STACK } else { 0u64 }) | (if d5 { b::PERF_SAMPLE_BRANCH_CALL } else { 0u64 }) | (if d6 { b::PERF_SAMPLE_BRANCH_ANY_CALL } else { 0u64 }) | (if d7 { b::PERF_SAMPLE_BRANCH_IND_CALL } else { 0u64 }) | (if d8 { b::PERF_SAMPLE_BRANCH_IN_TX } else { 0u64 }) | (if d9 { b::PERF_SAMPLE_BRANCH_NO_TX } else { 0u64 }) | (if d10 { b::PERF_SAMPLE_BRANCH_ABORT_TX } else { 0u64 })) by {
            reveal(branch_kind_bits);
        }
        assert(xd == (if d0 { b::PERF_SAMPLE_BRANCH_ANY } else { 0u64 }) | (if d1 { b::PERF_SAMPLE_BRANCH_ANY_RETURN } else { 0u64 }) | (if d2 { b::PERF_SAMPLE_BRANCH_COND } else { 0u64 }) | (if d3 { b::PERF_SAMPLE_BRANCH_IND_JUMP } else { 0u64 }) | (if d4 { b::PERF_SAMPLE_BRANCH_CALL_STACK } else { 0u64 }) | (if d5 { b::PERF_SAMPLE_BRANCH_CALL } else { 0u64 }) | (if d6 { b::PERF_SAMPLE_BRANCH_ANY_CALL } else { 0u64 }) | (if d7 { b::PERF_SAMPLE_BRANCH_IND_CALL } else { 0u64 }) | (if d8 { b::PERF_SAMPLE_BRANCH_IN_TX } else { 0u64 }) | (if d9 { b::PERF_SAMPLE_BRANCH_NO_TX } else { 0u64 }) | (if d10 { b::PERF_SAMPLE_BRANCH_ABORT_TX } else { 0u64 }) ==> ((xd & b::PERF_SAMPLE_BRANCH_ANY != 0) == d0) && ((xd & b::PERF_SAMPLE_BRANCH_ANY_RETURN != 0) == d1) && ((xd & b::PERF_SAMPLE_BRANCH_COND != 0) == d2) && ((xd & b::PERF_SAMPLE_BRANCH_IND_JUMP != 0) == d3) && ((xd & b::PERF_SAMPLE_BRANCH_CALL_STACK != 0) == d4) && ((xd & b::PERF_SAMPLE_BRANCH_CALL != 0) == d5) && ((xd & b::PERF_SAMPLE_BRANCH_ANY_CALL != 0) == d6) && ((xd & b::PERF_SAMPLE_BRANCH_IND_CALL != 0) == d7) && ((xd & b::PERF_SAMPLE_BRANCH_IN_TX != 0) == d8) && ((xd & b::PERF_SAMPLE_BRANCH_NO_TX != 0) == d9) && ((xd & b::PERF_SAMPLE_BRANCH_ABORT_TX != 0) == d10) && xd & !0x3ff8u64 == 0) by (bit_vector);
    }
    {
        let e0: bool = l.hw_index;
        let e1: bool = l.entry_format.flags;
        let e2: bool = l.entry_format.cycles;
        let e3: bool = l.entry_format.counter;
        let e4: bool = l.entry_format.branch_type;
        let e5: bool = l.entry_format.branch_priv;
        assert(xe == (if e0 { b::PERF_SAMPLE_BRANCH_HW_INDEX } else { 0u64 }) | (if !e1 { b::PERF_SAMPLE_BRANCH_NO_FLAGS } else { 0u64 }) | (if !e2 { b::PERF_SAMPLE_BRANCH_NO_CYCLES } else { 0u64 }) | (if e3 { b::PERF_SAMPLE_BRANCH_COUNTERS } else { 0u64 }) | (if e4 { b::PERF_SAMPLE_BRANCH_TYPE_SAVE } else { 0u64 }) | (if e5 { b::PERF_SAMPLE_BRANCH_PRIV_SAVE } else { 0u64 })) by {
            reveal(branch_entry_bits);
        }
        assert(xe == (if e0 { b::PERF_SAMPLE_BRANCH_HW_INDEX } else { 0u64 }) | (if !e1 { b::PERF_SAMPLE_BRANCH_NO_FLAGS } else { 0u64 }) | (if !e2 { b::PERF_SAMPLE_BRANCH_NO_CYCLES } else { 0u64 }) | (if e3 { b::PERF_SAMPLE_BRANCH_COUNTERS } else { 0u64 }) | (if e4 { b::PERF_SAMPLE_BRANCH_TYPE_SAVE } else { 0u64 }) | (if e5 { b::PERF_SAMPLE_BRANCH_PRIV_SAVE } else { 0u64 }) ==> ((xe & b::PERF_SAMPLE_BRANCH_HW_INDEX != 0) == e0) && ((xe & b::PERF_SAMPLE_BRANCH_NO_FLAGS != 0) == !e1) && ((xe & b::PERF_SAMPLE_BRANCH_NO_CYCLES != 0) == !e2) && ((xe & b::PERF_SAMPLE_BRANCH_COUNTERS != 0) == e3) && ((xe & b::PERF_SAMPLE_BRANCH_TYPE_SAVE != 0) == e4) && ((xe & b::PERF_SAMPLE_BRANCH_PRIV_SAVE != 0) == e5) && xe & !0xfc000u64 == 0) by (bit_vector);
    }
    let x: u64 = branch_sample_type_of(Some(l));
    assert(x == tp | xd | xe);
    assert(tp & !0x7u64 == 0 && xd & !0x3ff8u64 == 0 && xe & !0xfc000u64 == 0 && x == tp | xd | xe ==> x & 0x7u64 == tp && x & 0x3ff8u64 == xd && x & 0xfc000u64 == xe && x & !0xfffffu64 == 0) by (bit_vector);
    assert(x & 0x7u64 == tp ==> ((x & b::PERF_SAMPLE_BRANCH_USER != 0) == (tp & b::PERF_SAMPLE_BRANCH_USER != 0)) && ((x & b::PERF_SAMPLE_BRANCH_KERNEL != 0) == (tp & b::PERF_SAMPLE_BRANCH_KERNEL != 0)) && ((x & b::PERF_SAMPLE_BRANCH_HV != 0) == (tp & b::PERF_SAMPLE_BRANCH_HV != 0))) by (bit_vector);
    assert(x & 0x3ff8u64 == xd ==> ((x & b::PERF_SAMPLE_BRANCH_ANY != 0) == (xd & b::PERF_SAMPLE_BRANCH_ANY != 0)) && ((x & b::PERF_SAMPLE_BRANCH_ANY_RETURN != 0) == (xd & b::PERF_SAMPLE_BRANCH_ANY_RETURN != 0)) && ((x & b::PERF_SAMPLE_BRANCH_COND != 0) == (xd & b::PERF_SAMPLE_BRANCH_COND != 0)) && ((x & b::PERF_SAMPLE_BRANCH_IND_JUMP != 0) == (xd & b::PERF_SAMPLE_BRANCH_IND_JUMP != 0)) && ((x & b::PERF_SAMPLE_BRANCH_CALL_STACK != 0) == (xd & b::PERF_SAMPLE_BRANCH_CALL_STACK != 0)) && ((x & b::PERF_SAMPLE_BRANCH_CALL != 0) == (xd & b::PERF_SAMPLE_BRANCH_CALL != 0)) && ((x & b::PERF_SAMPLE_BRANCH_ANY_CALL != 0) == (xd & b::PERF_SAMPLE_BRANCH_ANY_CALL != 0)) && ((x & b::PERF_SAMPLE_BRANCH_IND_CALL != 0) == (xd & b::PERF_SAMPLE_BRANCH_IND_CALL != 0)) && ((x & b::PERF_SAMPLE_BRANCH_IN_TX != 0) == (xd & b::PERF_SAMPLE_BRANCH_IN_TX != 0)) && ((x & b::PERF_SAMPLE_BRANCH_NO_TX != 0) == (xd & b::PERF_SAMPLE_BRANCH_NO_TX != 0)) && ((x & b::PERF_SAMPLE_BRANCH_ABORT_TX != 0) == (xd & b::PERF_SAMPLE_BRANCH_ABORT_TX != 0))) by (bit_vector);
    assert(x & 0xfc000u64 == xe ==> ((x & b::PERF_SAMPLE_BRANCH_HW_INDEX != 0) == (xe & b::PERF_SAMPLE_BRANCH_HW_INDEX != 0)) && ((x & b::PERF_SAMPLE_BRANCH_NO_FLAGS != 0) == (xe & b::PERF_SAMPLE_BRANCH_NO_FLAGS != 0)) && ((x & b::PERF_SAMPLE_BRANCH_NO_CYCLES != 0) == (xe & b::PERF_SAMPLE_BRANCH_NO_CYCLES != 0)) && ((x & b::PERF_SAMPLE_BRANCH_COUNTERS != 0) == (xe & b::PERF_SAMPLE_BRANCH_COUNTERS != 0)) && ((x & b::PERF_SAMPLE_BRANCH_TYPE_SAVE != 0) == (xe & b::PERF_SAMPLE_BRANCH_TYPE_SAVE != 0)) && ((x & b::PERF_SAMPLE_BRANCH_PRIV_SAVE != 0) == (xe & b::PERF_SAMPLE_BRANCH_PRIV_SAVE != 0))) by (bit_vector);

}

/// Decoding the single-bit options gives back the options they came from.
#[verifier::spinoff_prover]
#[verifier::rlimit(50)]
pub proof fn lemma_flags_round_trip(o: Opts)
    ensures
        has_bit(flags_of(o), b::ATTR_EXCLUDE_USER) == (o.exclude.user),
        has_bit(flags_of(o), b::ATTR_EXCLUDE_KERNEL) == (o.exclude.kernel),
        has_bit(flags_of(o), b::ATTR_EXCLUDE_HV) == (o.exclude.hv),
        has_bit(flags_of(o), b::ATTR_EXCLUDE_HOST) == (o.exclude.host),
        has_bit(flags_of(o), b::ATTR_EXCLUDE_GUEST) == (o.exclude.guest),
        has_bit(flags_of(o), b::ATTR_EXCLUDE_IDLE) == (o.exclude.idle),
        has_bit(flags_of(o), b::ATTR_EXCLUSIVE) == (o.only_group),
        has_bit(flags_of(o), b::ATTR_PINNED) == (o.pin_on_pmu),
        has_bit(flags_of(o), b::ATTR_INHERIT) == (o.inherit is Some),
        has_bit(flags_of(o), b::ATTR_INHERIT_THREAD) == (o.inherit == Some(Inherit::NewThread)),
        has_bit(flags_of(o), b::ATTR_ENABLE_ON_EXEC) == (o.on_execve == Some(OnExecve::Enable)),
        has_bit(flags_of(o), b::ATTR_REMOVE_ON_EXEC) == (o.on_execve == Some(OnExecve::Remove)),
        has_bit(flags_of(o), b::ATTR_DISABLED) == (!o.enable),
        has_bit(flags_of(o), b::ATTR_FREQ) == (o.sample_on is Freq),
        has_bit(flags_of(o), b::ATTR_EXCLUDE_CALLCHAIN_KERNEL) == (call_chain_excludes(o.sample_format.call_chain, false)),
        has_bit(flags_of(o), b::ATTR_EXCLUDE_CALLCHAIN_USER) == (call_chain_excludes(o.sample_format.call_chain, true)),
        has_bit(flags_of(o), b::ATTR_SAMPLE_ID_ALL) == (o.record_id_all),
        has_bit(flags_of(o), b::ATTR_WATERMARK) == (o.wake_up.on is Bytes),
        has_bit(flags_of(o), b::ATTR_SIGTRAP) == (o.sigtrap_on_sample is Some),
        has_bit(flags_of(o), b::ATTR_USE_CLOCKID) == (o.timer is Some),
        has_bit(flags_of(o), b::ATTR_TASK) == (o.extra_record.task),
        has_bit(flags_of(o), b::ATTR_INHERIT_STAT) == (o.extra_record.read),
        has_bit(flags_of(o), b::ATTR_COMM) == (o.extra_record.comm),
        has_bit(flags_of(o), b::ATTR_MMAP) == (o.extra_record.mmap.code || o.extra_record.mmap.ext is Some),
        has_bit(flags_of(o), b::ATTR_MMAP_DATA) == (o.extra_record.mmap.data),
        has_bit(flags_of(o), b::ATTR_MMAP2) == (o.extra_record.mmap.ext is Some),
        has_bit(flags_of(o), b::ATTR_BUILD_ID) == (o.extra_record.mmap.ext == Some(UseBuildId(true))),
        has_bit(flags_of(o), b::ATTR_CGROUP) == (o.extra_record.cgroup),
        has_bit(flags_of(o), b::ATTR_KSYMBOL) == (o.extra_record.ksymbol),
        has_bit(flags_of(o), b::ATTR_BPF_EVENT) == (o.extra_record.bpf_event),
        has_bit(flags_of(o), b::ATTR_TEXT_POKE) == (o.extra_record.text_poke),
        has_bit(flags_of(o), b::ATTR_CONTEXT_SWITCH) == (o.extra_record.ctx_switch),
        has_bit(flags_of(o), b::ATTR_NAMESPACES) == (o.extra_record.namespaces),
        (flags_of(o) / 0x8000) % 4 == o.sample_skid.spec_precise_ip() as u64,
{
    let pp: u64 = o.sample_skid.spec_precise_ip() as u64;
    let xp: u64 = priv_bits(o);
    {
        let ex0: bool = o.exclude.user;
        let ex1: bool = o.exclude.kernel;
        let ex2: bool = o.exclude.hv;
        let ex3: bool = o.exclude.host;
        let ex4: bool = o.exclude.guest;
        let ex5: bool = o.exclude.idle;
        assert(xp == (if ex0 { b::ATTR_EXCLUDE_USER } else { 0u64 }) | (if ex1 { b::ATTR_EXCLUDE_KERNEL } else { 0u64 }) | (if ex2 { b::ATTR_EXCLUDE_HV } else { 0u64 }) | (if ex3 { b::ATTR_EXCLUDE_HOST } else { 0u64 }) | (if ex4 { b::ATTR_EXCLUDE_GUEST } else { 0u64 }) | (if ex5 { b::ATTR_EXCLUDE_IDLE } else { 0u64 })) by {
            reveal(priv_bits);
        }
        assert(xp == (if ex0 { b::ATTR_EXCLUDE_USER } else { 0u64 }) | (if ex1 { b::ATTR_EXCLUDE_KERNEL } else { 0u64 }) | (if ex2 { b::ATTR_EXCLUDE_HV } else { 0u64 }) | (if ex3 { b::ATTR_EXCLUDE_HOST } else { 0u64 }) | (if ex4 { b::ATTR_EXCLUDE_GUEST } else { 0u64 }) | (if ex5 { b::ATTR_EXCLUDE_IDLE } else { 0u64 }) ==> ((xp & b::ATTR_EXCLUDE_USER != 0) == ex0) && ((xp & b::ATTR_EXCLUDE_KERNEL != 0) == ex1) && ((xp & b::ATTR_EXCLUDE_HV != 0) == ex2) && ((xp & b::ATTR_EXCLUDE_HOST != 0) == ex3) && ((xp & b::ATTR_EXCLUDE_GUEST != 0) == ex4) && ((xp & b::ATTR_EXCLUDE_IDLE != 0) == ex5) && xp & !0x1800f0u64 == 0) by (bit_vector);
    }
    let xc: u64 = count_bits(o);
    {
        let q0: bool = o.only_group;
        let q1: bool = o.pin_on_pmu;
        let q2: bool = o.inherit is Some;
        let q3: bool = o.inherit == Some(Inherit::NewThread);
        let q4: bool = o.on_execve == Some(OnExecve::Enable);
        let q5: bool = o.on_execve == Some(OnExecve::Remove);
        let q6: bool = !o.enable;
        assert(xc == (if q0 { b::ATTR_EXCLUSIVE } else { 0u64 }) | (if q1 { b::ATTR_PINNED } else { 0u64 }) | (if q2 { b::ATTR_INHERIT } else { 0u64 }) | (if q3 { b::ATTR_INHERIT_THREAD } else { 0u64 }) | (if q4 { b::ATTR_ENABLE_ON_EXEC } else { 0u64 }) | (if q5 { b::ATTR_REMOVE_ON_EXEC } else { 0u64 }) | (if q6 { b::ATTR_DISABLED } else { 0u64 })) by {
            reveal(count_bits);
        }
        assert(xc == (if q0 { b::ATTR_EXCLUSIVE } else { 0u64 }) | (if q1 { b::ATTR_PINNED } else { 0u64 }) | (if q2 { b::ATTR_INHERIT } else { 0u64 }) | (if q3 { b::ATTR_INHERIT_THREAD } else { 0u64 }) | (if q4 { b::ATTR_ENABLE_ON_EXEC } else { 0u64 }) | (if q5 { b::ATTR_REMOVE_ON_EXEC } else { 0u64 }) | (if q6 { b::ATTR_DISABLED } else { 0u64 }) ==> ((xc & b::ATTR_EXCLUSIVE != 0) == q0) && ((xc & b::ATTR_PINNED != 0) == q1) && ((xc & b::ATTR_INHERIT != 0) == q2) && ((xc & b::ATTR_INHERIT_THREAD != 0) == q3) && ((xc & b::ATTR_ENABLE_ON_EXEC != 0) == q4) && ((xc & b::ATTR_REMOVE_ON_EXEC != 0) == q5) && ((xc & b::ATTR_DISABLED != 0) == q6) && xc & !0x180000100fu64 == 0) by (bit_vector);
    }
    let xs: u64 = sample_bits(o);
    {
        let s0: bool = o.sample_on is Freq;
        let t0: bool = call_chain_excludes(o.sample_format.call_chain, false);
        let t1: bool = call_chain_excludes(o.sample_format.call_chain, true);
        let t2: bool = o.record_id_all;
        let t3: bool = o.wake_up.on is Bytes;
        let t4: bool = o.sigtrap_on_sample is Some;
        let t5: bool = o.timer is Some;
        assert(xs == (if s0 { b::ATTR_FREQ } else { 0u64 }) | ((pp * 0x8000u64) as u64) | (if t0 { b::ATTR_EXCLUDE_CALLCHAIN_KERNEL } else { 0u64 }) | (if t1 { b::ATTR_EXCLUDE_CALLCHAIN_USER } else { 0u64 }) | (if t2 { b::ATTR_SAMPLE_ID_ALL } else { 0u64 }) | (if t3 { b::ATTR_WATERMARK } else { 0u64 }) | (if t4 { b::ATTR_SIGTRAP } else { 0u64 }) | (if t5 { b::ATTR_USE_CLOCKID } else { 0u64 })) by {
            reveal(sample_bits);
        }
        assert(pp <= 3 && xs == (if s0 { b::ATTR_FREQ } else { 0u64 }) | ((pp * 0x8000u64) as u64) | (if t0 { b::ATTR_EXCLUDE_CALLCHAIN_KERNEL } else { 0u64 }) | (if t1 { b::ATTR_EXCLUDE_CALLCHAIN_USER } else { 0u64 }) | (if t2 { b::ATTR_SAMPLE_ID_ALL } else { 0u64 }) | (if t3 { b::ATTR_WATERMARK } else { 0u64 }) | (if t4 { b::ATTR_SIGTRAP } else { 0u64 }) | (if t5 { b::ATTR_USE_CLOCKID } else { 0u64 }) ==> ((xs & b::ATTR_FREQ != 0) == s0) && ((xs & b::ATTR_EXCLUDE_CALLCHAIN_KERNEL != 0) == t0) && ((xs & b::ATTR_EXCLUDE_CALLCHAIN_USER != 0) == t1) && ((xs & b::ATTR_SAMPLE_ID_ALL != 0) == t2) && ((xs & b::ATTR_WATERMARK != 0) == t3) && ((xs & b::ATTR_SIGTRAP != 0) == t4) && ((xs & b::ATTR_USE_CLOCKID != 0) == t5) && xs & !0x200265c400u64 == 0) by (bit_vector);
    }
    {
        let s0: bool = o.sample_on is Freq;
        let t0: bool = call_chain_excludes(o.sample_format.call_chain, false);
        let t1: bool = call_chain_excludes(o.sample_format.call_chain, true);
        let t2: bool = o.record_id_all;
        let t3: bool = o.wake_up.on is Bytes;
        let t4: bool = o.sigtrap_on_sample is Some;
        let t5: bool = o.timer is Some;
        assert(xs == (if s0 { b::ATTR_FREQ } else { 0u64 }) | ((pp * 0x8000u64) as u64) | (if t0 { b::ATTR_EXCLUDE_CALLCHAIN_KERNEL } else { 0u64 }) | (if t1 { b::ATTR_EXCLUDE_CALLCHAIN_USER } else { 0u64 }) | (if t2 { b::ATTR_SAMPLE_ID_ALL } else { 0u64 }) | (if t3 { b::ATTR_WATERMARK } else { 0u64 }) | (if t4 { b::ATTR_SIGTRAP } else { 0u64 }) | (if t5 { b::ATTR_USE_CLOCKID } else { 0u64 })) by {
            reveal(sample_bits);
        }
        assert(pp <= 3 && xs == (if s0 { b::ATTR_FREQ } else { 0u64 }) | ((pp * 0x8000u64) as u64) | (if t0 { b::ATTR_EXCLUDE_CALLCHAIN_KERNEL } else { 0u64 }) | (if t1 { b::ATTR_EXCLUDE_CALLCHAIN_USER } else { 0u64 }) | (if t2 { b::ATTR_SAMPLE_ID_ALL } else { 0u64 }) | (if t3 { b::ATTR_WATERMARK } else { 0u64 }) | (if t4 { b::ATTR_SIGTRAP } else { 0u64 }) | (if t5 { b::ATTR_USE_CLOCKID } else { 0u64 }) ==> (xs / 0x8000u64) % 4u64 == pp) by (bit_vector);
    }
    let xr: u64 = record_bits(o);
    {
        let r0: bool = o.extra_record.task;
        let r1: bool = o.extra_record.read;
        let r2: bool = o.extra_record.comm;
        let r3: bool = o.extra_record.mmap.code || o.extra_record.mmap.ext is Some;
        let r4: bool = o.extra_record.mmap.data;
        let r5: bool = o.extra_record.mmap.ext is Some;
        let r6: bool = o.extra_record.mmap.ext == Some(UseBuildId(true));
        let r7: bool = o.extra_record.cgroup;
        let r8: bool = o.extra_record.ksymbol;
        let r9: bool = o.extra_record.bpf_event;
        let r10: bool = o.extra_record.text_poke;
        let r11: bool = o.extra_record.ctx_switch;
        let r12: bool = o.extra_record.namespaces;
        assert(xr == (if r0 { b::ATTR_TASK } else { 0u64 }) | (if r1 { b::ATTR_INHERIT_STAT } else { 0u64 }) | (if r2 { b::ATTR_COMM } else { 0u64 }) | (if r3 { b::ATTR_MMAP } else { 0u64 }) | (if r4 { b::ATTR_MMAP_DATA } else { 0u64 }) | (if r5 { b::ATTR_MMAP2 } else { 0u64 }) | (if r6 { b::ATTR_BUILD_ID } else { 0u64 }) | (if r7 { b::ATTR_CGROUP } else { 0u64 }) | (if r8 { b::ATTR_KSYMBOL } else { 0u64 }) | (if r9 { b::ATTR_BPF_EVENT } else { 0u64 }) | (if r10 { b::ATTR_TEXT_POKE } else { 0u64 }) | (if r11 { b::ATTR_CONTEXT_SWITCH } else { 0u64 }) | (if r12 { b::ATTR_NAMESPACES } else { 0u64 })) by {
            reveal(record_bits);
        }
        assert(xr == (if r0 { b::ATTR_TASK } else { 0u64 }) | (if r1 { b::ATTR_INHERIT_STAT } else { 0u64 }) | (if r2 { b::ATTR_COMM } else { 0u64 }) | (if r3 { b::ATTR_MMAP } else { 0u64 }) | (if r4 { b::ATTR_MMAP_DATA } else { 0u64 }) | (if r5 { b::ATTR_MMAP2 } else { 0u64 }) | (if r6 { b::ATTR_BUILD_ID } else { 0u64 }) | (if r7 { b::ATTR_CGROUP } else { 0u64 }) | (if r8 { b::ATTR_KSYMBOL } else { 0u64 }) | (if r9 { b::ATTR_BPF_EVENT } else { 0u64 }) | (if r10 { b::ATTR_TEXT_POKE } else { 0u64 }) | (if r11 { b::ATTR_CONTEXT_SWITCH } else { 0u64 }) | (if r12 { b::ATTR_NAMESPACES } else { 0u64 }) ==> ((xr & b::ATTR_TASK != 0) == r0) && ((xr & b::ATTR_INHERIT_STAT != 0) == r1) && ((xr & b::ATTR_COMM != 0) == r2) && ((xr & b::ATTR_MMAP != 0) == r3) && ((xr & b::ATTR_MMAP_DATA != 0) == r4) && ((xr & b::ATTR_MMAP2 != 0) == r5) && ((xr & b::ATTR_BUILD_ID != 0) == r6) && ((xr & b::ATTR_CGROUP != 0) == r7) && ((xr & b::ATTR_KSYMBOL != 0) == r8) && ((xr & b::ATTR_BPF_EVENT != 0) == r9) && ((xr & b::ATTR_TEXT_POKE != 0) == r10) && ((xr & b::ATTR_CONTEXT_SWITCH != 0) == r11) && ((xr & b::ATTR_NAMESPACES != 0) == r12) && xr & !0x774822b00u64 == 0) by (bit_vector);
    }
    let x: u64 = flags_of(o);
    assert(x == xp | xc | xs | xr);
    assert(xp & !0x1800f0u64 == 0 && xc & !0x180000100fu64 == 0 && xs & !0x200265c400u64 == 0 && xr & !0x774822b00u64 == 0 && x == xp | xc | xs | xr ==> x & 0x1800f0u64 == xp && x & 0x180000100fu64 == xc && x & 0x200265c400u64 == xs && x & 0x774822b00u64 == xr) by (bit_vector);
    assert(x & 0x1800f0u64 == xp ==> ((x & b::ATTR_EXCLUDE_USER != 0) == (xp & b::ATTR_EXCLUDE_USER != 0)) && ((x & b::ATTR_EXCLUDE_KERNEL != 0) == (xp & b::ATTR_EXCLUDE_KERNEL != 0)) && ((x & b::ATTR_EXCLUDE_HV != 0) == (xp & b::ATTR_EXCLUDE_HV != 0)) && ((x & b::ATTR_EXCLUDE_HOST != 0) == (xp & b::ATTR_EXCLUDE_HOST != 0)) && ((x & b::ATTR_EXCLUDE_GUEST != 0) == (xp & b::ATTR_EXCLUDE_GUEST != 0)) && ((x & b::ATTR_EXCLUDE_IDLE != 0) == (xp & b::ATTR_EXCLUDE_IDLE != 0))) by (bit_vector);
    assert(x & 0x180000100fu64 == xc ==> ((x & b::ATTR_EXCLUSIVE != 0) == (xc & b::ATTR_EXCLUSIVE != 0)) && ((x & b::ATTR_PINNED != 0) == (xc & b::ATTR_PINNED != 0)) && ((x & b::ATTR_INHERIT != 0) == (xc & b::ATTR_INHERIT != 0)) && ((x & b::ATTR_INHERIT_THREAD != 0) == (xc & b::ATTR_INHERIT_THREAD != 0)) && ((x & b::ATTR_ENABLE_ON_EXEC != 0) == (xc & b::ATTR_ENABLE_ON_EXEC != 0)) && ((x & b::ATTR_REMOVE_ON_EXEC != 0) == (xc & b::ATTR_REMOVE_ON_EXEC != 0)) && ((x & b::ATTR_DISABLED != 0) == (xc & b::ATTR_DISABLED != 0))) by (bit_vector);
    assert(x & 0x200265c400u64 == xs ==> ((x & b::ATTR_FREQ != 0) == (xs & b::ATTR_FREQ != 0)) && ((x & b::ATTR_EXCLUDE_CALLCHAIN_KERNEL != 0) == (xs & b::ATTR_EXCLUDE_CALLCHAIN_KERNEL != 0)) && ((x & b::ATTR_EXCLUDE_CALLCHAIN_USER != 0) == (xs & b::ATTR_EXCLUDE_CALLCHAIN_USER != 0)) && ((x & b::ATTR_SAMPLE_ID_ALL != 0) == (xs & b::ATTR_SAMPLE_ID_ALL != 0)) && ((x & b::ATTR_WATERMARK != 0) == (xs & b::ATTR_WATERMARK != 0)) && ((x & b::ATTR_SIGTRAP != 0) == (xs & b::ATTR_SIGTRAP != 0)) && ((x & b::ATTR_USE_CLOCKID != 0) == (xs & b::ATTR_USE_CLOCKID != 0))) by (bit_vector);
    assert(x & 0x774822b00u64 == xr ==> ((x & b::ATTR_TASK != 0) == (xr & b::ATTR_TASK != 0)) && ((x & b::ATTR_INHERIT_STAT != 0) == (xr & b::ATTR_INHERIT_STAT != 0)) && ((x & b::ATTR_COMM != 0) == (xr & b::ATTR_COMM != 0)) && ((x & b::ATTR_MMAP != 0) == (xr & b::ATTR_MMAP != 0)) && ((x & b::ATTR_MMAP_DATA != 0) == (xr & b::ATTR_MMAP_DATA != 0)) && ((x & b::ATTR_MMAP2 != 0) == (xr & b::ATTR_MMAP2 != 0)) && ((x & b::ATTR_BUILD_ID != 0) == (xr & b::ATTR_BUILD_ID != 0)) && ((x & b::ATTR_CGROUP != 0) == (xr & b::ATTR_CGROUP != 0)) && ((x & b::ATTR_KSYMBOL != 0) == (xr & b::ATTR_KSYMBOL != 0)) && ((x & b::ATTR_BPF_EVENT != 0) == (xr & b::ATTR_BPF_EVENT != 0)) && ((x & b::ATTR_TEXT_POKE != 0) == (xr & b::ATTR_TEXT_POKE != 0)) && ((x & b::ATTR_CONTEXT_SWITCH != 0) == (xr & b::ATTR_CONTEXT_SWITCH != 0)) && ((x & b::ATTR_NAMESPACES != 0) == (xr & b::ATTR_NAMESPACES != 0))) by (bit_vector);
    assert(x & 0x200265c400u64 == xs ==> (x / 0x8000u64) % 4u64 == (xs / 0x8000u64) % 4u64) by (bit_vector);
}

} // verus!
