//! Records of the data ring, decoded from their bytes. Every decoder reads only
//! within the record and never panics: a record whose bytes are cut short of
//! what its header and the sampling options announce is kept as raw bytes.
pub mod bpf;
pub mod ksymbol;

use vstd::prelude::*;

use crate::bytes::{le_at, lemma_pow256_8, pow256, read_le};
use crate::config::has_bit;
use crate::stat::{w, Stat};
use crate::uapi as b;

verus! {

/// Reads the little-endian number of `n` bytes at `pos`, if it lies in `b`.
pub fn rd(b: &[u8], pos: usize, n: usize) -> (r: Option<u64>)
    requires
        n <= 8,
    ensures
        r == if pos + n <= b@.len() {
            Some(le_at(b@, pos as int, n as int) as u64)
        } else {
            None::<u64>
        },
        r matches Some(v) ==> v < pow256(n as nat) && v as nat == le_at(b@, pos as int, n as int),
        b@.len() <= usize::MAX,
{
    let len = b.len();
    if pos > len || len - pos < n {
        None
    } else {
        Some(read_le(b, pos, n))
    }
}

/// `p` rounded up to a multiple of 8.
pub open spec fn align8(p: int) -> int {
    p + (8 - p % 8) % 8
}

pub fn align8_exec(p: usize) -> (r: Option<usize>)
    ensures
        r == if align8(p as int) <= usize::MAX {
            Some(align8(p as int) as usize)
        } else {
            None::<usize>
        },
{
    let pad = (8 - p % 8) % 8;
    if p > usize::MAX - pad {
        None
    } else {
        Some(p + pad)
    }
}

/// A process and thread id.
#[derive(Clone, Copy, Debug, PartialEq, Eq, Structural)]
pub struct Task {
    pub pid: u32,
    pub tid: u32,
}

pub open spec fn task_at(s: Seq<u8>, p: int) -> Task {
    Task { pid: le_at(s, p, 4) as u32, tid: le_at(s, p + 4, 4) as u32 }
}

fn task(b: &[u8], p: usize) -> (r: Option<Task>)
    ensures
        r == if p + 8 <= b@.len() {
            Some(task_at(b@, p as int))
        } else {
            None::<Task>
        },
{
    proof {
        lemma_pow256_8();
    }
    let len = b.len();
    if p > len || len - p < 8 {
        return None;
    }
    Some(Task { pid: read_le(b, p, 4) as u32, tid: read_le(b, p + 4, 4) as u32 })
}

/// The privilege level that a record came from.
#[derive(Clone, Copy, Debug, PartialEq, Eq, Structural)]
pub enum Priv {
    User,
    Kernel,
    Hv,
    GuestUser,
    GuestKernel,
    Unknown,
}

impl Priv {
    pub open spec fn spec_from_misc(misc: u16) -> Priv {
        let m = misc & b::PERF_RECORD_MISC_CPUMODE_MASK;
        if m == b::PERF_RECORD_MISC_USER {
            Priv::User
        } else if m == b::PERF_RECORD_MISC_KERNEL {
            Priv::Kernel
        } else if m == b::PERF_RECORD_MISC_HYPERVISOR {
            Priv::Hv
        } else if m == b::PERF_RECORD_MISC_GUEST_USER {
            Priv::GuestUser
        } else if m == b::PERF_RECORD_MISC_GUEST_KERNEL {
            Priv::GuestKernel
        } else {
            Priv::Unknown
        }
    }

    pub fn from_misc(misc: u16) -> (r: Priv)
        ensures
            r == Self::spec_from_misc(misc),
    {
        let m = misc & b::PERF_RECORD_MISC_CPUMODE_MASK;
        if m == b::PERF_RECORD_MISC_USER {
            Priv::User
        } else if m == b::PERF_RECORD_MISC_KERNEL {
            Priv::Kernel
        } else if m == b::PERF_RECORD_MISC_HYPERVISOR {
            Priv::Hv
        } else if m == b::PERF_RECORD_MISC_GUEST_USER {
            Priv::GuestUser
        } else if m == b::PERF_RECORD_MISC_GUEST_KERNEL {
            Priv::GuestKernel
        } else {
            Priv::Unknown
        }
    }
}

/// The identifying fields that `sample_type` selects.
#[derive(Clone, Copy, Debug, PartialEq, Eq, Structural)]
pub struct RecordId {
    pub id: Option<u64>,
    pub stream_id: Option<u64>,
    pub cpu: Option<u32>,
    pub task: Option<Task>,
    pub time: Option<u64>,
}

/// The room of the `sample_id` trailer.
pub open spec fn record_id_len(st: u64) -> int {
    w(has_bit(st, b::PERF_SAMPLE_TID)) + w(has_bit(st, b::PERF_SAMPLE_TIME)) + w(
        has_bit(st, b::PERF_SAMPLE_ID),
    ) + w(has_bit(st, b::PERF_SAMPLE_STREAM_ID)) + w(has_bit(st, b::PERF_SAMPLE_CPU))
}

/// The `sample_id` trailer at `p`: task, time, id, stream id, then cpu.
pub open spec fn record_id_at(s: Seq<u8>, p: int, st: u64) -> RecordId {
    let tid = has_bit(st, b::PERF_SAMPLE_TID);
    let time = has_bit(st, b::PERF_SAMPLE_TIME);
    let id = has_bit(st, b::PERF_SAMPLE_ID);
    let sid = has_bit(st, b::PERF_SAMPLE_STREAM_ID);
    let cpu = has_bit(st, b::PERF_SAMPLE_CPU);
    let o1 = p + w(tid);
    let o2 = o1 + w(time);
    let o3 = o2 + w(id);
    let o4 = o3 + w(sid);
    RecordId {
        task: if tid {
            Some(task_at(s, p))
        } else {
            None
        },
        time: if time {
            Some(le_at(s, o1, 8) as u64)
        } else {
            None
        },
        id: if id {
            Some(le_at(s, o2, 8) as u64)
        } else {
            None
        },
        stream_id: if sid {
            Some(le_at(s, o3, 8) as u64)
        } else {
            None
        },
        cpu: if cpu {
            Some(le_at(s, o4, 4) as u32)
        } else {
            None
        },
    }
}

/// The trailer at `p`: `None` when it does not fit, else the record id, which
/// is there only with `sample_id_all` (`sid` holds `sample_type` then).
pub open spec fn trailer_at(s: Seq<u8>, p: int, sid: Option<u64>) -> Option<Option<RecordId>> {
    match sid {
        None => Some(None),
        Some(st) => if p + record_id_len(st) <= s.len() {
            Some(Some(record_id_at(s, p, st)))
        } else {
            None
        },
    }
}

fn opt_u64(b: &[u8], p: usize, on: bool) -> (r: Option<u64>)
    requires
        on ==> p + 8 <= b@.len(),
    ensures
        r == if on {
            Some(le_at(b@, p as int, 8) as u64)
        } else {
            None::<u64>
        },
{
    if on {
        Some(read_le(b, p, 8))
    } else {
        None
    }
}

impl RecordId {
    pub fn parse(b: &[u8], p: usize, st: u64) -> (r: Option<RecordId>)
        ensures
            r == if p + record_id_len(st) <= b@.len() {
                Some(record_id_at(b@, p as int, st))
            } else {
                None::<RecordId>
            },
    {
        let len = b.len();
        let tid = st & b::PERF_SAMPLE_TID != 0;
        let time = st & b::PERF_SAMPLE_TIME != 0;
        let id = st & b::PERF_SAMPLE_ID != 0;
        let sid = st & b::PERF_SAMPLE_STREAM_ID != 0;
        let cpu = st & b::PERF_SAMPLE_CPU != 0;
        let n: usize = (if tid {
            8
        } else {
            0
        }) + (if time {
            8
        } else {
            0
        }) + (if id {
            8
        } else {
            0
        }) + (if sid {
            8
        } else {
            0
        }) + (if cpu {
            8
        } else {
            0
        });
        if p > len || len - p < n {
            return None;
        }
        let o1 = p + (if tid {
            8
        } else {
            0
        });
        let o2 = o1 + (if time {
            8
        } else {
            0
        });
        let o3 = o2 + (if id {
            8
        } else {
            0
        });
        let o4 = o3 + (if sid {
            8
        } else {
            0
        });
        let task = if tid {
            Some(Task { pid: read_le(b, p, 4) as u32, tid: read_le(b, p + 4, 4) as u32 })
        } else {
            None
        };
        Some(RecordId {
            task,
            time: opt_u64(b, o1, time),
            id: opt_u64(b, o2, id),
            stream_id: opt_u64(b, o3, sid),
            cpu: if cpu {
                Some(read_le(b, o4, 4) as u32)
            } else {
                None
            },
        })
    }
}

/// Reads the trailer at `p`.
pub fn trailer(b: &[u8], p: usize, sid: Option<u64>) -> (r: Option<Option<RecordId>>)
    ensures
        r == trailer_at(b@, p as int, sid),
{
    match sid {
        None => Some(None),
        Some(st) => match RecordId::parse(b, p, st) {
            Some(id) => Some(Some(id)),
            None => None,
        },
    }
}

/// Whether `s` has a nul byte at `e`, and none from `p` up to it.
pub open spec fn cstr_ends_at(s: Seq<u8>, p: int, e: int) -> bool {
    &&& p <= e < s.len()
    &&& s[e] == 0
    &&& forall|i: int| p <= i < e ==> s[i] != 0
}

/// The C string at `p`: its bytes without the nul, and the offset after the nul
/// rounded up to 8. `None` when no nul follows in the record.
pub fn cstr(b: &[u8], p: usize) -> (r: Option<(Vec<u8>, usize)>)
    ensures
        r matches Some((v, next)) ==> cstr_ends_at(b@, p as int, p + v@.len()) && v@ == b@.subrange(
            p as int,
            p + v@.len(),
        ) && next == align8(p + v@.len() + 1),
        r is None ==> forall|e: int|
            cstr_ends_at(b@, p as int, e) ==> align8(e + 1) > usize::MAX,
{
    let len = b.len();
    if p >= len {
        return None;
    }
    let mut e: usize = p;
    let mut v: Vec<u8> = Vec::new();
    assert(v@ =~= b@.subrange(p as int, p as int));
    while e < len
        invariant
            len == b@.len(),
            p <= e <= len,
            v@ == b@.subrange(p as int, e as int),
            forall|i: int| p <= i < e ==> b@[i] != 0,
        decreases len - e,
    {
        if b[e] == 0 {
            assert(cstr_ends_at(b@, p as int, e as int));
            assert forall|c: int| cstr_ends_at(b@, p as int, c) implies c == e by {
                if c < e {
                    assert(b@[c] != 0);
                } else if c > e {
                    assert(b@[e as int] != 0);
                }
            }
            return match align8_exec(e + 1) {
                Some(next) => Some((v, next)),
                None => None,
            };
        }
        v.push(b[e]);
        assert(v@ =~= b@.subrange(p as int, e + 1));
        e = e + 1;
    }
    assert forall|c: int| cstr_ends_at(b@, p as int, c) implies align8(c + 1) > usize::MAX by {
        assert(b@[c] != 0);
    }
    None
}


/// A namespace: its device and inode.
#[derive(Clone, Copy, Debug, PartialEq, Eq, Structural)]
pub struct LinkInfo {
    pub dev: u64,
    pub inode: u64,
}

pub open spec fn link_at(s: Seq<u8>, p: int) -> LinkInfo {
    LinkInfo { dev: le_at(s, p, 8) as u64, inode: le_at(s, p + 8, 8) as u64 }
}

fn link(b: &[u8], p: usize) -> (r: LinkInfo)
    requires
        p + 16 <= b@.len(),
    ensures
        r == link_at(b@, p as int),
{
    let len = b.len();
    assert(p + 16 <= len);
    LinkInfo { dev: read_le(b, p, 8), inode: read_le(b, p + 8, 8) }
}

/// `PERF_RECORD_LOST`: records the kernel dropped.
#[derive(Clone, Debug)]
pub struct LostRecords {
    pub record_id: Option<RecordId>,
    pub id: u64,
    pub lost_records: u64,
}

impl LostRecords {
    /// Whether the record's bytes `s` decode.
    pub open spec fn spec_ok(s: Seq<u8>, sid: Option<u64>) -> bool {
        24 <= s.len() && trailer_at(s, 24, sid) is Some
    }

    /// What the record's bytes `s` say, field by field.
    pub open spec fn spec_decoded(self, s: Seq<u8>, sid: Option<u64>) -> bool {
        &&& Some(self.record_id) == trailer_at(s, 24, sid)
        &&& self.id == le_at(s, 8, 8) as u64
        &&& self.lost_records == le_at(s, 16, 8) as u64
    }

    /// Decodes the record `b`, header included; `sid` holds `sample_type` when
    /// records end with a `sample_id` trailer.
    pub fn parse(b: &[u8], sid: Option<u64>) -> (r: Option<LostRecords>)
        ensures
            r is Some <==> Self::spec_ok(b@, sid),
            r matches Some(x) ==> x.spec_decoded(b@, sid),
    {
        proof {
            lemma_pow256_8();
        }
        if b.len() < 24 {
            return None;
        }
        let record_id = match trailer(b, 24, sid) {
            Some(t) => t,
            None => return None,
        };

        Some(LostRecords {
            record_id,
            id: read_le(b, 8, 8),
            lost_records: read_le(b, 16, 8),
        })
    }
}

/// `PERF_RECORD_LOST_SAMPLES`: samples the kernel dropped.
#[derive(Clone, Debug)]
pub struct LostSamples {
    pub record_id: Option<RecordId>,
    pub lost_samples: u64,
}

impl LostSamples {
    /// Whether the record's bytes `s` decode.
    pub open spec fn spec_ok(s: Seq<u8>, sid: Option<u64>) -> bool {
        16 <= s.len() && trailer_at(s, 16, sid) is Some
    }

    /// What the record's bytes `s` say, field by field.
    pub open spec fn spec_decoded(self, s: Seq<u8>, sid: Option<u64>) -> bool {
        &&& Some(self.record_id) == trailer_at(s, 16, sid)
        &&& self.lost_samples == le_at(s, 8, 8) as u64
    }

    /// Decodes the record `b`, header included; `sid` holds `sample_type` when
    /// records end with a `sample_id` trailer.
    pub fn parse(b: &[u8], sid: Option<u64>) -> (r: Option<LostSamples>)
        ensures
            r is Some <==> Self::spec_ok(b@, sid),
            r matches Some(x) ==> x.spec_decoded(b@, sid),
    {
        proof {
            lemma_pow256_8();
        }
        if b.len() < 16 {
            return None;
        }
        let record_id = match trailer(b, 16, sid) {
            Some(t) => t,
            None => return None,
        };

        Some(LostSamples {
            record_id,
            lost_samples: read_le(b, 8, 8),
        })
    }
}

/// `PERF_RECORD_THROTTLE`: sampling was throttled.
#[derive(Clone, Debug)]
pub struct Throttle {
    pub record_id: Option<RecordId>,
    pub time: u64,
    pub id: u64,
    pub stream_id: u64,
}

impl Throttle {
    /// Whether the record's bytes `s` decode.
    pub open spec fn spec_ok(s: Seq<u8>, sid: Option<u64>) -> bool {
        32 <= s.len() && trailer_at(s, 32, sid) is Some
    }

    /// What the record's bytes `s` say, field by field.
    pub open spec fn spec_decoded(self, s: Seq<u8>, sid: Option<u64>) -> bool {
        &&& Some(self.record_id) == trailer_at(s, 32, sid)
        &&& self.time == le_at(s, 8, 8) as u64
        &&& self.id == le_at(s, 16, 8) as u64
        &&& self.stream_id == le_at(s, 24, 8) as u64
    }

    /// Decodes the record `b`, header included; `sid` holds `sample_type` when
    /// records end with a `sample_id` trailer.
    pub fn parse(b: &[u8], sid: Option<u64>) -> (r: Option<Throttle>)
        ensures
            r is Some <==> Self::spec_ok(b@, sid),
            r matches Some(x) ==> x.spec_decoded(b@, sid),
    {
        proof {
            lemma_pow256_8();
        }
        if b.len() < 32 {
            return None;
        }
        let record_id = match trailer(b, 32, sid) {
            Some(t) => t,
            None => return None,
        };

        Some(Throttle {
            record_id,
            time: read_le(b, 8, 8),
            id: read_le(b, 16, 8),
            stream_id: read_le(b, 24, 8),
        })
    }
}

/// `PERF_RECORD_UNTHROTTLE`: sampling resumed.
#[derive(Clone, Debug)]
pub struct Unthrottle {
    pub record_id: Option<RecordId>,
    pub time: u64,
    pub id: u64,
    pub stream_id: u64,
}

impl Unthrottle {
    /// Whether the record's bytes `s` decode.
    pub open spec fn spec_ok(s: Seq<u8>, sid: Option<u64>) -> bool {
        32 <= s.len() && trailer_at(s, 32, sid) is Some
    }

    /// What the record's bytes `s` say, field by field.
    pub open spec fn spec_decoded(self, s: Seq<u8>, sid: Option<u64>) -> bool {
        &&& Some(self.record_id) == trailer_at(s, 32, sid)
        &&& self.time == le_at(s, 8, 8) as u64
        &&& self.id == le_at(s, 16, 8) as u64
        &&& self.stream_id == le_at(s, 24, 8) as u64
    }

    /// Decodes the record `b`, header included; `sid` holds `sample_type` when
    /// records end with a `sample_id` trailer.
    pub fn parse(b: &[u8], sid: Option<u64>) -> (r: Option<Unthrottle>)
        ensures
            r is Some <==> Self::spec_ok(b@, sid),
            r matches Some(x) ==> x.spec_decoded(b@, sid),
    {
        proof {
            lemma_pow256_8();
        }
        if b.len() < 32 {
            return None;
        }
        let record_id = match trailer(b, 32, sid) {
            Some(t) => t,
            None => return None,
        };

        Some(Unthrottle {
            record_id,
            time: read_le(b, 8, 8),
            id: read_le(b, 16, 8),
            stream_id: read_le(b, 24, 8),
        })
    }
}

/// `PERF_RECORD_EXIT`: a task exited.
#[derive(Clone, Debug)]
pub struct Exit {
    pub record_id: Option<RecordId>,
    pub task: Task,
    pub parent_task: Task,
    pub time: u64,
}

impl Exit {
    /// Whether the record's bytes `s` decode.
    pub open spec fn spec_ok(s: Seq<u8>, sid: Option<u64>) -> bool {
        32 <= s.len() && trailer_at(s, 32, sid) is Some
    }

    /// What the record's bytes `s` say, field by field.
    pub open spec fn spec_decoded(self, s: Seq<u8>, sid: Option<u64>) -> bool {
        &&& Some(self.record_id) == trailer_at(s, 32, sid)
        &&& self.task == Task { pid: le_at(s, 8, 4) as u32, tid: le_at(s, 16, 4) as u32 }
        &&& self.parent_task == Task { pid: le_at(s, 12, 4) as u32, tid: le_at(s, 20, 4) as u32 }
        &&& self.time == le_at(s, 24, 8) as u64
    }

    /// Decodes the record `b`, header included; `sid` holds `sample_type` when
    /// records end with a `sample_id` trailer.
    pub fn parse(b: &[u8], sid: Option<u64>) -> (r: Option<Exit>)
        ensures
            r is Some <==> Self::spec_ok(b@, sid),
            r matches Some(x) ==> x.spec_decoded(b@, sid),
    {
        proof {
            lemma_pow256_8();
        }
        if b.len() < 32 {
            return None;
        }
        let record_id = match trailer(b, 32, sid) {
            Some(t) => t,
            None => return None,
        };

        Some(Exit {
            record_id,
            task: Task { pid: read_le(b, 8, 4) as u32, tid: read_le(b, 16, 4) as u32 },
            parent_task: Task { pid: read_le(b, 12, 4) as u32, tid: read_le(b, 20, 4) as u32 },
            time: read_le(b, 24, 8),
        })
    }
}

/// `PERF_RECORD_FORK`: a task was created.
#[derive(Clone, Debug)]
pub struct Fork {
    pub record_id: Option<RecordId>,
    pub task: Task,
    pub parent_task: Task,
    pub time: u64,
}

impl Fork {
    /// Whether the record's bytes `s` decode.
    pub open spec fn spec_ok(s: Seq<u8>, sid: Option<u64>) -> bool {
        32 <= s.len() && trailer_at(s, 32, sid) is Some
    }

    /// What the record's bytes `s` say, field by field.
    pub open spec fn spec_decoded(self, s: Seq<u8>, sid: Option<u64>) -> bool {
        &&& Some(self.record_id) == trailer_at(s, 32, sid)
        &&& self.task == Task { pid: le_at(s, 8, 4) as u32, tid: le_at(s, 16, 4) as u32 }
        &&& self.parent_task == Task { pid: le_at(s, 12, 4) as u32, tid: le_at(s, 20, 4) as u32 }
        &&& self.time == le_at(s, 24, 8) as u64
    }

    /// Decodes the record `b`, header included; `sid` holds `sample_type` when
    /// records end with a `sample_id` trailer.
    pub fn parse(b: &[u8], sid: Option<u64>) -> (r: Option<Fork>)
        ensures
            r is Some <==> Self::spec_ok(b@, sid),
            r matches Some(x) ==> x.spec_decoded(b@, sid),
    {
        proof {
            lemma_pow256_8();
        }
        if b.len() < 32 {
            return None;
        }
        let record_id = match trailer(b, 32, sid) {
            Some(t) => t,
            None => return None,
        };

        Some(Fork {
            record_id,
            task: Task { pid: read_le(b, 8, 4) as u32, tid: read_le(b, 16, 4) as u32 },
            parent_task: Task { pid: read_le(b, 12, 4) as u32, tid: read_le(b, 20, 4) as u32 },
            time: read_le(b, 24, 8),
        })
    }
}

/// `PERF_RECORD_ITRACE_START`: instruction tracing started in a task.
#[derive(Clone, Debug)]
pub struct ItraceStart {
    pub record_id: Option<RecordId>,
    pub task: Task,
}

impl ItraceStart {
    /// Whether the record's bytes `s` decode.
    pub open spec fn spec_ok(s: Seq<u8>, sid: Option<u64>) -> bool {
        16 <= s.len() && trailer_at(s, 16, sid) is Some
    }

    /// What the record's bytes `s` say, field by field.
    pub open spec fn spec_decoded(self, s: Seq<u8>, sid: Option<u64>) -> bool {
        &&& Some(self.record_id) == trailer_at(s, 16, sid)
        &&& self.task == task_at(s, 8)
    }

    /// Decodes the record `b`, header included; `sid` holds `sample_type` when
    /// records end with a `sample_id` trailer.
    pub fn parse(b: &[u8], sid: Option<u64>) -> (r: Option<ItraceStart>)
        ensures
            r is Some <==> Self::spec_ok(b@, sid),
            r matches Some(x) ==> x.spec_decoded(b@, sid),
    {
        proof {
            lemma_pow256_8();
        }
        if b.len() < 16 {
            return None;
        }
        let record_id = match trailer(b, 16, sid) {
            Some(t) => t,
            None => return None,
        };

        Some(ItraceStart {
            record_id,
            task: Task { pid: read_le(b, 8, 4) as u32, tid: read_le(b, 12, 4) as u32 },
        })
    }
}

/// `PERF_RECORD_AUX_OUTPUT_HW_ID`: the hardware id of the aux output.
#[derive(Clone, Debug)]
pub struct AuxOutputHwId {
    pub record_id: Option<RecordId>,
    pub hw_id: u64,
}

impl AuxOutputHwId {
    /// Whether the record's bytes `s` decode.
    pub open spec fn spec_ok(s: Seq<u8>, sid: Option<u64>) -> bool {
        16 <= s.len() && trailer_at(s, 16, sid) is Some
    }

    /// What the record's bytes `s` say, field by field.
    pub open spec fn spec_decoded(self, s: Seq<u8>, sid: Option<u64>) -> bool {
        &&& Some(self.record_id) == trailer_at(s, 16, sid)
        &&& self.hw_id == le_at(s, 8, 8) as u64
    }

    /// Decodes the record `b`, header included; `sid` holds `sample_type` when
    /// records end with a `sample_id` trailer.
    pub fn parse(b: &[u8], sid: Option<u64>) -> (r: Option<AuxOutputHwId>)
        ensures
            r is Some <==> Self::spec_ok(b@, sid),
            r matches Some(x) ==> x.spec_decoded(b@, sid),
    {
        proof {
            lemma_pow256_8();
        }
        if b.len() < 16 {
            return None;
        }
        let record_id = match trailer(b, 16, sid) {
            Some(t) => t,
            None => return None,
        };

        Some(AuxOutputHwId {
            record_id,
            hw_id: read_le(b, 8, 8),
        })
    }
}

/// `PERF_RECORD_AUX`: new data in the aux ring.
#[derive(Clone, Debug)]
pub struct Aux {
    pub record_id: Option<RecordId>,
    pub offset: u64,
    pub size: u64,
    pub truncated: bool,
    pub overwrite: bool,
    pub partial: bool,
    pub collision: bool,
    pub pmu_format_type: u8,
}

impl Aux {
    /// Whether the record's bytes `s` decode.
    pub open spec fn spec_ok(s: Seq<u8>, sid: Option<u64>) -> bool {
        32 <= s.len() && trailer_at(s, 32, sid) is Some
    }

    /// What the record's bytes `s` say, field by field.
    pub open spec fn spec_decoded(self, s: Seq<u8>, sid: Option<u64>) -> bool {
        &&& Some(self.record_id) == trailer_at(s, 32, sid)
        &&& self.offset == le_at(s, 8, 8) as u64
        &&& self.size == le_at(s, 16, 8) as u64
        &&& self.truncated == ((le_at(s, 24, 8) as u64) & b::PERF_AUX_FLAG_TRUNCATED != 0)
        &&& self.overwrite == ((le_at(s, 24, 8) as u64) & b::PERF_AUX_FLAG_OVERWRITE != 0)
        &&& self.partial == ((le_at(s, 24, 8) as u64) & b::PERF_AUX_FLAG_PARTIAL != 0)
        &&& self.collision == ((le_at(s, 24, 8) as u64) & b::PERF_AUX_FLAG_COLLISION != 0)
        &&& self.pmu_format_type == (((le_at(s, 24, 8) as u64) & b::PERF_AUX_FLAG_PMU_FORMAT_TYPE_MASK) / 0x100) as u8
    }

    /// Decodes the record `b`, header included; `sid` holds `sample_type` when
    /// records end with a `sample_id` trailer.
    pub fn parse(b: &[u8], sid: Option<u64>) -> (r: Option<Aux>)
        ensures
            r is Some <==> Self::spec_ok(b@, sid),
            r matches Some(x) ==> x.spec_decoded(b@, sid),
    {
        proof {
            lemma_pow256_8();
        }
        if b.len() < 32 {
            return None;
        }
        let record_id = match trailer(b, 32, sid) {
            Some(t) => t,
            None => return None,
        };
        let flags = read_le(b, 24, 8);
        Some(Aux {
            record_id,
            offset: read_le(b, 8, 8),
            size: read_le(b, 16, 8),
            truncated: flags & b::PERF_AUX_FLAG_TRUNCATED != 0,
            overwrite: flags & b::PERF_AUX_FLAG_OVERWRITE != 0,
            partial: flags & b::PERF_AUX_FLAG_PARTIAL != 0,
            collision: flags & b::PERF_AUX_FLAG_COLLISION != 0,
            pmu_format_type: ((flags & b::PERF_AUX_FLAG_PMU_FORMAT_TYPE_MASK) / 0x100) as u8,
        })
    }
}

/// `PERF_RECORD_NAMESPACES`: the namespaces of a new task.
#[derive(Clone, Debug)]
pub struct Namespaces {
    pub record_id: Option<RecordId>,
    pub task: Task,
    pub ns_net: LinkInfo,
    pub ns_uts: LinkInfo,
    pub ns_ipc: LinkInfo,
    pub ns_pid: LinkInfo,
    pub ns_user: LinkInfo,
    pub ns_mnt: LinkInfo,
    pub ns_cgroup: LinkInfo,
}

impl Namespaces {
    /// Whether the record's bytes `s` decode.
    pub open spec fn spec_ok(s: Seq<u8>, sid: Option<u64>) -> bool {
        128 <= s.len() && trailer_at(s, 128, sid) is Some
    }

    /// What the record's bytes `s` say, field by field.
    pub open spec fn spec_decoded(self, s: Seq<u8>, sid: Option<u64>) -> bool {
        &&& Some(self.record_id) == trailer_at(s, 128, sid)
        &&& self.task == task_at(s, 8)
        &&& self.ns_net == link_at(s, 16 + 16 * b::NET_NS_INDEX)
        &&& self.ns_uts == link_at(s, 16 + 16 * b::UTS_NS_INDEX)
        &&& self.ns_ipc == link_at(s, 16 + 16 * b::IPC_NS_INDEX)
        &&& self.ns_pid == link_at(s, 16 + 16 * b::PID_NS_INDEX)
        &&& self.ns_user == link_at(s, 16 + 16 * b::USER_NS_INDEX)
        &&& self.ns_mnt == link_at(s, 16 + 16 * b::MNT_NS_INDEX)
        &&& self.ns_cgroup == link_at(s, 16 + 16 * b::CGROUP_NS_INDEX)
    }

    /// Decodes the record `b`, header included; `sid` holds `sample_type` when
    /// records end with a `sample_id` trailer.
    pub fn parse(b: &[u8], sid: Option<u64>) -> (r: Option<Namespaces>)
        ensures
            r is Some <==> Self::spec_ok(b@, sid),
            r matches Some(x) ==> x.spec_decoded(b@, sid),
    {
        proof {
            lemma_pow256_8();
        }
        if b.len() < 128 {
            return None;
        }
        let record_id = match trailer(b, 128, sid) {
            Some(t) => t,
            None => return None,
        };

        Some(Namespaces {
            record_id,
            task: Task { pid: read_le(b, 8, 4) as u32, tid: read_le(b, 12, 4) as u32 },
            ns_net: link(b, 16 + 16 * b::NET_NS_INDEX),
            ns_uts: link(b, 16 + 16 * b::UTS_NS_INDEX),
            ns_ipc: link(b, 16 + 16 * b::IPC_NS_INDEX),
            ns_pid: link(b, 16 + 16 * b::PID_NS_INDEX),
            ns_user: link(b, 16 + 16 * b::USER_NS_INDEX),
            ns_mnt: link(b, 16 + 16 * b::MNT_NS_INDEX),
            ns_cgroup: link(b, 16 + 16 * b::CGROUP_NS_INDEX),
        })
    }
}


/// Whether a C string of `n` bytes starts at `p` of `s`, with its nul after it.
pub open spec fn cstr_of(s: Seq<u8>, p: int, n: int) -> bool {
    cstr_ends_at(s, p, p + n)
}

/// `PERF_RECORD_COMM`: a task's name changed.
#[derive(Clone, Debug)]
pub struct Comm {
    pub record_id: Option<RecordId>,
    pub by_execve: bool,
    pub task: Task,
    /// The name, without its nul.
    pub comm: Vec<u8>,
}

impl Comm {
    /// What the record's bytes `s` say, field by field.
    pub open spec fn spec_decoded(self, s: Seq<u8>, misc: u16, sid: Option<u64>) -> bool {
        let n = self.comm@.len() as int;
        &&& 16 <= s.len()
        &&& self.task == task_at(s, 8)
        &&& self.by_execve == (misc & b::PERF_RECORD_MISC_COMM_EXEC != 0)
        &&& cstr_of(s, 16, n)
        &&& self.comm@ == s.subrange(16, 16 + n)
        &&& Some(self.record_id) == trailer_at(s, align8(16 + n + 1), sid)
    }

    /// When the record's bytes `s` do not decode.
    pub open spec fn spec_fails(s: Seq<u8>, misc: u16, sid: Option<u64>) -> bool {
        s.len() < 16 || forall|e: int|
                cstr_ends_at(s, 16, e) ==> align8(e + 1) > usize::MAX || trailer_at(
                    s,
                    align8(e + 1),
                    sid,
                ) is None
    }

    pub fn parse(b: &[u8], misc: u16, sid: Option<u64>) -> (r: Option<Comm>)
        ensures
            r matches Some(x) ==> x.spec_decoded(b@, misc, sid),
            r is None ==> Self::spec_fails(b@, misc, sid),
    {
        let task = match task(b, 8) {
            Some(t) => t,
            None => return None,
        };
        let (comm, next) = match cstr(b, 16) {
            Some(c) => c,
            None => return None,
        };
        let record_id = match trailer(b, next, sid) {
            Some(t) => t,
            None => return None,
        };
        Some(Comm { record_id, by_execve: misc & b::PERF_RECORD_MISC_COMM_EXEC != 0, task, comm })
    }
}

/// `PERF_RECORD_CGROUP`: a cgroup was created.
#[derive(Clone, Debug)]
pub struct Cgroup {
    pub record_id: Option<RecordId>,
    pub id: u64,
    /// The path, without its nul.
    pub path: Vec<u8>,
}

impl Cgroup {
    /// What the record's bytes `s` say, field by field.
    pub open spec fn spec_decoded(self, s: Seq<u8>, sid: Option<u64>) -> bool {
        let n = self.path@.len() as int;
        &&& 16 <= s.len()
        &&& self.id == le_at(s, 8, 8)
        &&& cstr_of(s, 16, n)
        &&& self.path@ == s.subrange(16, 16 + n)
        &&& Some(self.record_id) == trailer_at(s, align8(16 + n + 1), sid)
    }

    /// When the record's bytes `s` do not decode.
    pub open spec fn spec_fails(s: Seq<u8>, sid: Option<u64>) -> bool {
        s.len() < 16 || forall|e: int|
                cstr_ends_at(s, 16, e) ==> align8(e + 1) > usize::MAX || trailer_at(
                    s,
                    align8(e + 1),
                    sid,
                ) is None
    }

    pub fn parse(b: &[u8], sid: Option<u64>) -> (r: Option<Cgroup>)
        ensures
            r matches Some(x) ==> x.spec_decoded(b@, sid),
            r is None ==> Self::spec_fails(b@, sid),
    {
        proof {
            lemma_pow256_8();
        }
        if b.len() < 16 {
            return None;
        }
        let id = read_le(b, 8, 8);
        let (path, next) = match cstr(b, 16) {
            Some(c) => c,
            None => return None,
        };
        let record_id = match trailer(b, next, sid) {
            Some(t) => t,
            None => return None,
        };
        Some(Cgroup { record_id, id, path })
    }
}

/// `PERF_RECORD_TEXT_POKE`: kernel text was changed.
#[derive(Clone, Debug)]
pub struct TextPoke {
    pub record_id: Option<RecordId>,
    pub addr: u64,
    pub old_bytes: Vec<u8>,
    pub new_bytes: Vec<u8>,
}

impl TextPoke {
    /// Whether the record's bytes `s` decode.
    pub open spec fn spec_ok(s: Seq<u8>, sid: Option<u64>) -> bool {
        let end: int = 20 + le_at(s, 16, 2) as int + le_at(s, 18, 2) as int;
        &&& 20 <= s.len()
        &&& end <= s.len()
        &&& trailer_at(s, align8(end), sid) is Some
    }

    /// What the record's bytes `s` say, field by field.
    pub open spec fn spec_decoded(self, s: Seq<u8>, sid: Option<u64>) -> bool {
        let o = le_at(s, 16, 2) as int;
        let n = le_at(s, 18, 2) as int;
        &&& self.addr == le_at(s, 8, 8)
        &&& self.old_bytes@ == s.subrange(20, 20 + o)
        &&& self.new_bytes@ == s.subrange(20 + o, 20 + o + n)
        &&& Some(self.record_id) == trailer_at(s, align8(20 + o + n), sid)
    }

    pub fn parse(b: &[u8], sid: Option<u64>) -> (r: Option<TextPoke>)
        ensures
            r is Some <==> Self::spec_ok(b@, sid),
            r matches Some(x) ==> x.spec_decoded(b@, sid),
    {
        proof {
            lemma_pow256_8();
        }
        let len = b.len();
        if len < 20 {
            return None;
        }
        let addr = read_le(b, 8, 8);
        let o = read_le(b, 16, 2) as usize;
        let n = read_le(b, 18, 2) as usize;
        if len - 20 < o + n {
            return None;
        }
        let end = 20 + o + n;
        let next = match align8_exec(end) {
            Some(p) => p,
            None => return None,
        };
        let record_id = match trailer(b, next, sid) {
            Some(t) => t,
            None => return None,
        };
        let old_bytes = vstd::slice::slice_to_vec(vstd::slice::slice_subrange(b, 20, 20 + o));
        let new_bytes = vstd::slice::slice_to_vec(vstd::slice::slice_subrange(b, 20 + o, end));
        Some(TextPoke { record_id, addr, old_bytes, new_bytes })
    }
}

/// `PERF_RECORD_READ`: the statistics of an inherited counter at the exit of a task.
#[derive(Clone, Debug)]
pub struct Read {
    pub record_id: Option<RecordId>,
    pub task: Task,
    pub stat: Stat,
}

impl Read {
    /// What the record's bytes `s` say, field by field.
    pub open spec fn spec_decoded(self, s: Seq<u8>, read_format: u64, sid: Option<u64>) -> bool {
        &&& 16 <= s.len()
        &&& self.task == task_at(s, 8)
        &&& crate::stat::stat_fits(s, 16, read_format)
        &&& self.stat.decodes(s, 16, read_format)
        &&& Some(self.record_id) == trailer_at(
            s,
            16 + crate::stat::stat_len(s, 16, read_format),
            sid,
        )
    }

    /// When the record's bytes `s` do not decode.
    pub open spec fn spec_fails(s: Seq<u8>, read_format: u64, sid: Option<u64>) -> bool {
        s.len() < 16 || !crate::stat::stat_fits(s, 16, read_format) || trailer_at(
                s,
                16 + crate::stat::stat_len(s, 16, read_format),
                sid,
            ) is None
    }

    pub fn parse(b: &[u8], read_format: u64, sid: Option<u64>) -> (r: Option<Read>)
        ensures
            r matches Some(x) ==> x.spec_decoded(b@, read_format, sid),
            r is None ==> Self::spec_fails(b@, read_format, sid),
    {
        let task = match task(b, 8) {
            Some(t) => t,
            None => return None,
        };
        let (stat, next) = match Stat::from_bytes(b, 16, read_format) {
            Some(x) => x,
            None => return None,
        };
        let record_id = match trailer(b, next, sid) {
            Some(t) => t,
            None => return None,
        };
        Some(Read { record_id, task, stat })
    }
}

/// The direction of a context switch, with the other task when the record
/// is CPU-wide.
#[derive(Clone, Copy, Debug, PartialEq, Eq, Structural)]
pub enum Switch {
    OutTo { task: Option<Task>, preempt: bool },
    InFrom(Option<Task>),
}

/// `PERF_RECORD_SWITCH` or `PERF_RECORD_SWITCH_CPU_WIDE`: a context switch.
#[derive(Clone, Debug)]
pub struct CtxSwitch {
    pub record_id: Option<RecordId>,
    pub info: Switch,
}

impl CtxSwitch {
    /// Whether the record's bytes `s` decode.
    pub open spec fn spec_ok(s: Seq<u8>, cpu_wide: bool, misc: u16, sid: Option<u64>) -> bool {
        let end: int = if cpu_wide {
            16
        } else {
            8
        };
        end <= s.len() && trailer_at(s, end, sid) is Some
    }

    /// What the record's bytes `s` say, field by field.
    pub open spec fn spec_decoded(self, s: Seq<u8>, cpu_wide: bool, misc: u16, sid: Option<u64>) -> bool {
        let task = if cpu_wide {
            Some(task_at(s, 8))
        } else {
            None
        };
        &&& Some(self.record_id) == trailer_at(
            s,
            if cpu_wide {
                16
            } else {
                8
            },
            sid,
        )
        &&& self.info == if misc & b::PERF_RECORD_MISC_SWITCH_OUT != 0 {
            Switch::OutTo {
                task,
                preempt: misc & b::PERF_RECORD_MISC_SWITCH_OUT_PREEMPT != 0,
            }
        } else {
            Switch::InFrom(task)
        }
    }

    pub fn parse(b: &[u8], cpu_wide: bool, misc: u16, sid: Option<u64>) -> (r: Option<CtxSwitch>)
        ensures
            r is Some <==> Self::spec_ok(b@, cpu_wide, misc, sid),
            r matches Some(x) ==> x.spec_decoded(b@, cpu_wide, misc, sid),
    {
        let (task, end) = if cpu_wide {
            match task(b, 8) {
                Some(t) => (Some(t), 16),
                None => return None,
            }
        } else {
            if b.len() < 8 {
                return None;
            }
            (None, 8)
        };
        let record_id = match trailer(b, end, sid) {
            Some(t) => t,
            None => return None,
        };
        let info = if misc & b::PERF_RECORD_MISC_SWITCH_OUT != 0 {
            Switch::OutTo { task, preempt: misc & b::PERF_RECORD_MISC_SWITCH_OUT_PREEMPT != 0 }
        } else {
            Switch::InFrom(task)
        };
        Some(CtxSwitch { record_id, info })
    }
}

#[verifier::external_type_specification]
#[verifier::external_body]
#[verifier::reject_recursive_types(T)]
pub struct ExArrayVec<T, const CAP: usize>(arrayvec::ArrayVec<T, CAP>);

/// Relies on arrayvec's `Clone` for `ArrayVec`, which records and their
/// clones need; nothing is assumed of the copy.
pub assume_specification<T, const CAP: usize>[ <arrayvec::ArrayVec<T, CAP> as core::clone::Clone>::clone ](
    a: &arrayvec::ArrayVec<T, CAP>,
) -> arrayvec::ArrayVec<T, CAP>
    where
        T: core::clone::Clone,
;

/// The bytes that a build id holds.
pub uninterp spec fn build_id_bytes(a: arrayvec::ArrayVec<u8, BUILD_ID_SIZE_MAX>) -> Seq<u8>;

/// Relies on arrayvec's `TryFrom<&[T]>` for `ArrayVec`: a slice no longer than
/// the capacity is copied in whole, in order.
#[verifier::external_body]
fn build_id_from(s: &[u8]) -> (r: arrayvec::ArrayVec<u8, BUILD_ID_SIZE_MAX>)
    requires
        s@.len() <= BUILD_ID_SIZE_MAX,
    ensures
        build_id_bytes(r) == s@,
{
    match arrayvec::ArrayVec::try_from(s) {
        Ok(a) => a,
        Err(_) => arrayvec::ArrayVec::new(),
    }
}

/// The mapped file of an mmap2 record: its build id, or its device and inode.
#[derive(Clone, Debug)]
pub enum Info {
    Device { major: u32, minor: u32, inode: u64, inode_gen: u64 },
    BuildId(arrayvec::ArrayVec<u8, BUILD_ID_SIZE_MAX>),
}

/// What mmap2 records add.
#[derive(Clone, Debug)]
pub struct Ext {
    pub prot: u32,
    pub flags: u32,
    pub info: Info,
}

/// `PERF_RECORD_MMAP` or `PERF_RECORD_MMAP2`: a region was mapped.
#[derive(Clone, Debug)]
pub struct Mmap {
    pub record_id: Option<RecordId>,
    pub executable: bool,
    pub task: Task,
    pub addr: u64,
    pub len: u64,
    /// The file name, without its nul.
    pub file: Vec<u8>,
    pub page_offset: u64,
    pub ext: Option<Ext>,
}

/// The longest build id.
pub const BUILD_ID_SIZE_MAX: usize = 20;

impl Mmap {
    /// When the record's bytes `s` do not decode.
    pub open spec fn spec_fails(s: Seq<u8>, misc: u16, v2: bool, sid: Option<u64>) -> bool {
        let p: int = if v2 {
            72
        } else {
            40
        };
        ||| s.len() < p
        ||| v2 && misc & b::PERF_RECORD_MISC_MMAP_BUILD_ID != 0 && s[40] > BUILD_ID_SIZE_MAX
        ||| forall|e: int|
            cstr_ends_at(s, p, e) ==> align8(e + 1) > usize::MAX || trailer_at(
                s,
                align8(e + 1),
                sid,
            ) is None
    }

    /// What the record's bytes `s` say, field by field.
    pub open spec fn spec_decoded(self, s: Seq<u8>, misc: u16, v2: bool, sid: Option<u64>) -> bool {
        let p: int = if v2 {
            72
        } else {
            40
        };
        let n = self.file@.len() as int;
        &&& p <= s.len()
        &&& self.task == task_at(s, 8)
        &&& self.addr == le_at(s, 16, 8)
        &&& self.len == le_at(s, 24, 8)
        &&& self.page_offset == le_at(s, 32, 8)
        &&& self.executable == (misc & b::PERF_RECORD_MISC_MMAP_DATA == 0)
        &&& (self.ext is Some) == v2
        &&& (self.ext matches Some(e) ==> {
            &&& e.prot == le_at(s, 64, 4)
            &&& e.flags == le_at(s, 68, 4)
            &&& if misc & b::PERF_RECORD_MISC_MMAP_BUILD_ID != 0 {
                &&& s[40] <= BUILD_ID_SIZE_MAX
                &&& e.info matches Info::BuildId(id) && build_id_bytes(id) == s.subrange(44, 44 + s[40])
            } else {
                e.info == (Info::Device {
                    major: le_at(s, 40, 4) as u32,
                    minor: le_at(s, 44, 4) as u32,
                    inode: le_at(s, 48, 8) as u64,
                    inode_gen: le_at(s, 56, 8) as u64,
                })
            }
        })
        &&& cstr_of(s, p, n)
        &&& self.file@ == s.subrange(p, p + n)
        &&& Some(self.record_id) == trailer_at(s, align8(p + n + 1), sid)
    }

    pub fn parse(b: &[u8], misc: u16, v2: bool, sid: Option<u64>) -> (r: Option<Mmap>)
        ensures
            r is None ==> Self::spec_fails(b@, misc, v2, sid),
            r matches Some(x) ==> x.spec_decoded(b@, misc, v2, sid),
    {
        proof {
            lemma_pow256_8();
        }
        let len = b.len();
        let p: usize = if v2 {
            72
        } else {
            40
        };
        if len < p {
            return None;
        }
        let task = Task { pid: read_le(b, 8, 4) as u32, tid: read_le(b, 12, 4) as u32 };
        let addr = read_le(b, 16, 8);
        let mlen = read_le(b, 24, 8);
        let page_offset = read_le(b, 32, 8);
        let ext = if v2 {
            let info = if misc & b::PERF_RECORD_MISC_MMAP_BUILD_ID != 0 {
                let n = b[40] as usize;
                if n > BUILD_ID_SIZE_MAX {
                    return None;
                }
                Info::BuildId(build_id_from(vstd::slice::slice_subrange(b, 44, 44 + n)))
            } else {
                Info::Device {
                    major: read_le(b, 40, 4) as u32,
                    minor: read_le(b, 44, 4) as u32,
                    inode: read_le(b, 48, 8),
                    inode_gen: read_le(b, 56, 8),
                }
            };
            Some(Ext { prot: read_le(b, 64, 4) as u32, flags: read_le(b, 68, 4) as u32, info })
        } else {
            None
        };
        let (file, next) = match cstr(b, p) {
            Some(c) => c,
            None => return None,
        };
        let record_id = match trailer(b, next, sid) {
            Some(t) => t,
            None => return None,
        };
        Some(Mmap {
            record_id,
            executable: misc & b::PERF_RECORD_MISC_MMAP_DATA == 0,
            task,
            addr,
            len: mlen,
            file,
            page_offset,
            ext,
        })
    }
}

} // verus!
