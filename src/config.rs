//! The user-facing configuration of a counter, and its lowering to the kernel's
//! bitmasks.
use vstd::prelude::*;

use crate::error::Error;
use crate::uapi as b;
use crate::version::Version;

verus! {

/// `f` when `b` holds, else no bit.
pub open spec fn flag(b: bool, f: u64) -> u64 {
    if b {
        f
    } else {
        0
    }
}

/// Whether `mask` has any bit of `f`.
pub open spec fn has_bit(mask: u64, f: u64) -> bool {
    mask & f != 0
}

#[derive(Clone, Copy, Debug, Default)]
pub struct Opts {
    pub exclude: Priv,
    pub only_group: bool,
    pub pin_on_pmu: bool,
    pub inherit: Option<Inherit>,
    pub on_execve: Option<OnExecve>,
    pub stat_format: StatFormat,
    pub enable: bool,
    pub sample_on: SampleOn,
    pub sample_skid: SampleSkid,
    pub sample_format: SampleFormat,
    pub extra_record: ExtraRecord,
    pub record_id_all: bool,
    pub record_id_format: RecordIdFormat,
    pub wake_up: WakeUp,
    /// Since `linux-5.13`; the kernel wants it together with `OnExecve::Remove`.
    pub sigtrap_on_sample: Option<SigData>,
    pub timer: Option<Clock>,
    /// Since `linux-6.13`.
    pub pause_aux: bool,
}

/// Privilege levels.
#[derive(Clone, Copy, Debug, Default)]
pub struct Priv {
    pub user: bool,
    pub kernel: bool,
    pub hv: bool,
    pub host: bool,
    pub guest: bool,
    pub idle: bool,
}

/// Which children inherit the counter.
#[derive(Clone, Copy, Debug, PartialEq, Eq, Structural)]
pub enum Inherit {
    NewChild,
    /// Since `linux-5.13`.
    NewThread,
}

/// What happens to the counter on `execve`.
#[derive(Clone, Copy, Debug, PartialEq, Eq, Structural)]
pub enum OnExecve {
    Enable,
    /// Since `linux-5.13`.
    Remove,
}

/// The fields of a counter's statistics.
#[derive(Clone, Copy, Debug, Default, PartialEq, Eq, Structural)]
pub struct StatFormat {
    pub id: bool,
    pub time_enabled: bool,
    pub time_running: bool,
    /// Since `linux-6.0`.
    pub lost_records: bool,
    pub siblings: bool,
}

/// The `read_format` bitmask of a statistics format.
pub open spec fn read_format_of(s: StatFormat) -> u64 {
    flag(s.id, b::PERF_FORMAT_ID) | flag(s.time_enabled, b::PERF_FORMAT_TOTAL_TIME_ENABLED) | flag(
        s.time_running,
        b::PERF_FORMAT_TOTAL_TIME_RUNNING,
    ) | flag(s.lost_records, b::PERF_FORMAT_LOST) | flag(s.siblings, b::PERF_FORMAT_GROUP)
}

impl StatFormat {
    pub open spec fn supported_by(self, v: Version) -> bool {
        self.lost_records ==> v.spec_at_least(6, 0)
    }

    pub fn as_read_format(&self, v: &Version) -> (r: Result<u64, Error>)
        ensures
            r is Err <==> !self.supported_by(*v),
            r is Err ==> r == Err::<u64, Error>(Error::Unsupported),
            r is Ok ==> r == Ok::<u64, Error>(read_format_of(*self)),
    {
        if self.lost_records && !v.at_least(6, 0) {
            return Err(Error::Unsupported);
        }
        Ok((if self.id {
            b::PERF_FORMAT_ID
        } else {
            0
        }) | (if self.time_enabled {
            b::PERF_FORMAT_TOTAL_TIME_ENABLED
        } else {
            0
        }) | (if self.time_running {
            b::PERF_FORMAT_TOTAL_TIME_RUNNING
        } else {
            0
        }) | (if self.lost_records {
            b::PERF_FORMAT_LOST
        } else {
            0
        }) | (if self.siblings {
            b::PERF_FORMAT_GROUP
        } else {
            0
        }))
    }
}

/// When a sample is taken: `Freq` samples per second, or every `Count` events.
/// `0` means never.
#[derive(Clone, Copy, Debug, PartialEq, Eq, Structural)]
pub enum SampleOn {
    Freq(u64),
    Count(u64),
}

impl Default for SampleOn {
    fn default() -> (r: Self)
        ensures
            r == SampleOn::Freq(0),
    {
        SampleOn::Freq(0)
    }
}

/// How far the reported instruction may be from the one that overflowed.
#[derive(Clone, Copy, Debug, PartialEq, Eq, Structural)]
pub enum SampleSkid {
    Arbitrary,
    Const,
    ReqZero,
    Zero,
}

impl SampleSkid {
    pub open spec fn spec_precise_ip(self) -> u8 {
        match self {
            SampleSkid::Arbitrary => 0,
            SampleSkid::Const => 1,
            SampleSkid::ReqZero => 2,
            SampleSkid::Zero => 3,
        }
    }

    pub fn as_precise_ip(&self) -> (r: u8)
        ensures
            r == self.spec_precise_ip(),
    {
        match self {
            SampleSkid::Arbitrary => 0,
            SampleSkid::Const => 1,
            SampleSkid::ReqZero => 2,
            SampleSkid::Zero => 3,
        }
    }
}

impl Default for SampleSkid {
    fn default() -> (r: Self)
        ensures
            r == SampleSkid::Arbitrary,
    {
        SampleSkid::Arbitrary
    }
}

/// The fields of a sample.
#[derive(Clone, Copy, Debug, Default)]
pub struct SampleFormat {
    pub stat: bool,
    pub period: bool,
    pub cgroup: bool,
    pub call_chain: Option<CallChain>,
    pub user_stack: Option<Size>,
    pub data_addr: bool,
    pub data_phys_addr: bool,
    /// Since `linux-5.11`.
    pub data_page_size: bool,
    pub data_source: bool,
    pub code_addr: bool,
    /// Since `linux-5.11`.
    pub code_page_size: bool,
    pub user_regs: Option<RegsMask>,
    pub intr_regs: Option<RegsMask>,
    pub raw: bool,
    pub lbr: Option<Lbr>,
    pub aux: Option<Size>,
    pub txn: bool,
    pub weight: Option<Repr>,
}

/// Last branch records.
#[derive(Clone, Copy, Debug, Default)]
pub struct Lbr {
    pub target_priv: Option<TargetPriv>,
    pub branch_type: BranchType,
    pub hw_index: bool,
    pub entry_format: EntryFormat,
}

/// Privilege levels of the branch targets.
#[derive(Clone, Copy, Debug, PartialEq, Eq, Structural)]
pub struct TargetPriv {
    pub user: bool,
    pub kernel: bool,
    pub hv: bool,
}

impl TargetPriv {
    pub open spec fn spec_branch_sample_type(self) -> u64 {
        flag(self.user, b::PERF_SAMPLE_BRANCH_USER) | flag(self.kernel, b::PERF_SAMPLE_BRANCH_KERNEL)
            | flag(self.hv, b::PERF_SAMPLE_BRANCH_HV)
    }

    pub fn as_branch_sample_type(&self) -> (r: u64)
        ensures
            r == self.spec_branch_sample_type(),
    {
        (if self.user {
            b::PERF_SAMPLE_BRANCH_USER
        } else {
            0
        }) | (if self.kernel {
            b::PERF_SAMPLE_BRANCH_KERNEL
        } else {
            0
        }) | (if self.hv {
            b::PERF_SAMPLE_BRANCH_HV
        } else {
            0
        })
    }
}

/// Which branches to record.
#[derive(Clone, Copy, Debug, Default, PartialEq, Eq, Structural)]
pub struct BranchType {
    pub any: bool,
    pub any_return: bool,
    pub cond: bool,
    pub ind_jump: bool,
    pub call_stack: bool,
    pub call: bool,
    pub ind_call: bool,
    pub any_call: bool,
    pub in_tx: bool,
    pub no_tx: bool,
    pub abort_tx: bool,
}

/// What each branch entry holds.
#[derive(Clone, Copy, Debug, Default, PartialEq, Eq, Structural)]
pub struct EntryFormat {
    pub flags: bool,
    pub cycles: bool,
    /// Since `linux-6.8`.
    pub counter: bool,
    pub branch_type: bool,
    /// Since `linux-6.1`.
    pub branch_priv: bool,
}

/// A size in bytes.
#[derive(Clone, Copy, Debug, PartialEq, Eq, Structural)]
pub struct Size(pub u32);

/// How the sample weight is represented.
#[derive(Clone, Copy, Debug, PartialEq, Eq, Structural)]
pub enum Repr {
    Full,
    /// Since `linux-5.12`.
    Vars,
}

/// Call chain options.
#[derive(Clone, Copy, Debug, PartialEq, Eq, Structural)]
pub struct CallChain {
    pub exclude_user: bool,
    pub exclude_kernel: bool,
    pub max_stack_frames: u16,
}

/// A bitmask of registers.
#[derive(Clone, Copy, Debug, PartialEq, Eq, Structural)]
pub struct RegsMask(pub u64);

/// Records other than samples.
#[derive(Clone, Copy, Debug, Default)]
pub struct ExtraRecord {
    pub task: bool,
    pub read: bool,
    pub comm: bool,
    pub mmap: Mmap,
    pub cgroup: bool,
    pub ksymbol: bool,
    pub bpf_event: bool,
    /// Since `linux-5.9`.
    pub text_poke: bool,
    pub ctx_switch: bool,
    pub namespaces: bool,
}

/// The identifying fields carried by every record.
#[derive(Clone, Copy, Debug, Default, PartialEq, Eq, Structural)]
pub struct RecordIdFormat {
    pub id: bool,
    pub stream_id: bool,
    pub cpu: bool,
    pub task: bool,
    pub time: bool,
}

/// When the ring buffer wakes its reader.
#[derive(Clone, Copy, Debug, Default, PartialEq, Eq, Structural)]
pub struct WakeUp {
    pub on: WakeUpOn,
    pub on_aux_bytes: u32,
}

#[derive(Clone, Copy, Debug, PartialEq, Eq, Structural)]
pub enum WakeUpOn {
    Bytes(u64),
    Samples(u64),
}

impl Default for WakeUpOn {
    fn default() -> (r: Self)
        ensures
            r == WakeUpOn::Samples(0),
    {
        WakeUpOn::Samples(0)
    }
}

/// Data handed to the `SIGTRAP` handler.
#[derive(Clone, Copy, Debug, PartialEq, Eq, Structural)]
pub struct SigData(pub u64);

/// The clock of the time fields.
#[derive(Clone, Copy, Debug, PartialEq, Eq, Structural)]
pub enum Clock {
    Tai,
    RealTime,
    BootTime,
    Monotonic,
    MonotonicRaw,
}

/// Mmap records.
#[derive(Clone, Copy, Debug, Default, PartialEq, Eq, Structural)]
pub struct Mmap {
    pub code: bool,
    pub data: bool,
    pub ext: Option<UseBuildId>,
}

/// Whether mmap2 records carry a build id (since `linux-5.12`) instead of a device.
#[derive(Clone, Copy, Debug, Default, PartialEq, Eq, Structural)]
pub struct UseBuildId(pub bool);

/// Decoding a `read_format` built from a statistics format gives the format back.
pub proof fn lemma_read_format_round_trip(s: StatFormat)
    ensures
        has_bit(read_format_of(s), b::PERF_FORMAT_ID) == s.id,
        has_bit(read_format_of(s), b::PERF_FORMAT_TOTAL_TIME_ENABLED) == s.time_enabled,
        has_bit(read_format_of(s), b::PERF_FORMAT_TOTAL_TIME_RUNNING) == s.time_running,
        has_bit(read_format_of(s), b::PERF_FORMAT_LOST) == s.lost_records,
        has_bit(read_format_of(s), b::PERF_FORMAT_GROUP) == s.siblings,
{
    let (a, b, c, d, e) = (s.id, s.time_enabled, s.time_running, s.lost_records, s.siblings);
    assert({
        let x = (if a { 4u64 } else { 0u64 }) | (if b { 1u64 } else { 0u64 }) | (if c { 2u64 } else { 0u64 }) | (if d { 16u64 } else { 0u64 }) | (if e { 8u64 } else { 0u64 });
        (x & 4 != 0) == a && (x & 1 != 0) == b && (x & 2 != 0) == c && (x & 16 != 0) == d && (x & 8 != 0) == e
    }) by (bit_vector);
}

} // verus!
