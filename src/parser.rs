//! Decoding a chunk of the data ring into a typed record, with the sampling
//! options frozen when the sampler was created.
use vstd::prelude::*;

use crate::attr::Attr;
use crate::bytes::{le_at, read_le};
use crate::record::bpf::BpfEvent;
use crate::record::ksymbol::Ksymbol;
use crate::record::{
    Aux, AuxOutputHwId, Cgroup, Comm, CtxSwitch, Exit, Fork, ItraceStart, LostRecords,
    LostSamples, Mmap, Namespaces, Priv, Read, TextPoke, Throttle, Unthrottle,
};
use crate::rb::CowChunk;
use crate::sample::Sample;
use crate::uapi as b;

verus! {

/// A record of the data ring. A record of a type this library does not know,
/// or one cut short of what its type and the options announce, is kept as
/// its raw bytes.
#[derive(Clone, Debug)]
pub enum Record {
    Sample(Box<Sample>),
    Mmap(Box<Mmap>),
    Read(Box<Read>),
    Cgroup(Box<Cgroup>),
    Ksymbol(Box<Ksymbol>),
    TextPoke(Box<TextPoke>),
    BpfEvent(Box<BpfEvent>),
    CtxSwitch(Box<CtxSwitch>),
    Namespaces(Box<Namespaces>),
    ItraceStart(Box<ItraceStart>),
    Aux(Box<Aux>),
    AuxOutputHwId(Box<AuxOutputHwId>),
    Comm(Box<Comm>),
    Exit(Box<Exit>),
    Fork(Box<Fork>),
    Throttle(Box<Throttle>),
    Unthrottle(Box<Unthrottle>),
    LostRecords(Box<LostRecords>),
    LostSamples(Box<LostSamples>),
    Unknown(Vec<u8>),
}

/// The number of set bits of `x`.
pub open spec fn popcount(x: u64) -> nat
    decreases x,
{
    if x == 0 {
        0
    } else {
        (x % 2) as nat + popcount(x / 2)
    }
}

pub open spec fn pow2(k: nat) -> nat
    decreases k,
{
    if k == 0 {
        1
    } else {
        2 * pow2((k - 1) as nat)
    }
}

proof fn lemma_popcount_le(x: u64, k: nat)
    requires
        x < pow2(k),
    ensures
        popcount(x) <= k,
    decreases k,
{
    if x > 0 {
        assert(k > 0);
        lemma_popcount_le(x / 2, (k - 1) as nat);
    }
}

fn count_ones(x: u64) -> (r: usize)
    ensures
        r == popcount(x),
{
    let mut v = x;
    let mut n: usize = 0;
    proof {
        reveal_with_fuel(pow2, 65);
        assert(pow2(64) == 0x1_0000_0000_0000_0000);
        lemma_popcount_le(x, 64);
    }
    while v != 0
        invariant
            n + popcount(v) == popcount(x),
            popcount(x) <= 64,
        decreases v,
    {
        proof {
            assert(popcount(v) == (v % 2) as nat + popcount(v / 2));
        }
        n = n + (v % 2) as usize;
        v = v / 2;
    }
    n
}

/// The options that decoding depends on.
#[derive(Clone, Copy, Debug, PartialEq, Eq, Structural)]
pub struct UnsafeParser {
    pub sample_id_all: bool,
    pub sample_type: u64,
    pub read_format: u64,
    /// The number of user registers in a sample.
    pub user_regs: usize,
    /// The number of interrupt registers in a sample.
    pub intr_regs: usize,
    pub branch_sample_type: u64,
}

/// The header type of a record.
pub open spec fn ty_of(s: Seq<u8>) -> u32 {
    le_at(s, 0, 4) as u32
}

/// The header misc field of a record.
pub open spec fn misc_of(s: Seq<u8>) -> u16 {
    le_at(s, 4, 2) as u16
}

/// The header size field of a record.
pub open spec fn size_of_record(s: Seq<u8>) -> int {
    le_at(s, 6, 2) as int
}

/// Whether `r` has the variant that records of type `ty` decode to.
pub open spec fn variant_for(ty: u32, r: Record) -> bool {
    if ty == b::PERF_RECORD_SAMPLE {
        r is Sample
    } else if ty == b::PERF_RECORD_MMAP || ty == b::PERF_RECORD_MMAP2 {
        r is Mmap
    } else if ty == b::PERF_RECORD_READ {
        r is Read
    } else if ty == b::PERF_RECORD_CGROUP {
        r is Cgroup
    } else if ty == b::PERF_RECORD_KSYMBOL {
        r is Ksymbol
    } else if ty == b::PERF_RECORD_TEXT_POKE {
        r is TextPoke
    } else if ty == b::PERF_RECORD_BPF_EVENT {
        r is BpfEvent
    } else if ty == b::PERF_RECORD_SWITCH || ty == b::PERF_RECORD_SWITCH_CPU_WIDE {
        r is CtxSwitch
    } else if ty == b::PERF_RECORD_NAMESPACES {
        r is Namespaces
    } else if ty == b::PERF_RECORD_ITRACE_START {
        r is ItraceStart
    } else if ty == b::PERF_RECORD_AUX {
        r is Aux
    } else if ty == b::PERF_RECORD_AUX_OUTPUT_HW_ID {
        r is AuxOutputHwId
    } else if ty == b::PERF_RECORD_COMM {
        r is Comm
    } else if ty == b::PERF_RECORD_EXIT {
        r is Exit
    } else if ty == b::PERF_RECORD_FORK {
        r is Fork
    } else if ty == b::PERF_RECORD_THROTTLE {
        r is Throttle
    } else if ty == b::PERF_RECORD_UNTHROTTLE {
        r is Unthrottle
    } else if ty == b::PERF_RECORD_LOST {
        r is LostRecords
    } else if ty == b::PERF_RECORD_LOST_SAMPLES {
        r is LostSamples
    } else {
        false
    }
}

/// The bytes that decoding reads: the first `size` bytes, as the header says.
pub open spec fn limited(s: Seq<u8>) -> Seq<u8> {
    if size_of_record(s) < s.len() {
        s.subrange(0, size_of_record(s))
    } else {
        s
    }
}

impl UnsafeParser {
    /// The `sample_type` that trailers follow, when records carry one.
    pub open spec fn sid(self) -> Option<u64> {
        if self.sample_id_all {
            Some(self.sample_type)
        } else {
            None
        }
    }

    /// For a record of a known type `ty` whose bytes `s` its decoder accepts,
    /// `rec` is that decoder's result; a decoded record is what its bytes say.
    pub open spec fn decodes_known(self, s: Seq<u8>, ty: u32, misc: u16, rec: Record) -> bool {
        let sid = self.sid();
        &&& ty == b::PERF_RECORD_SAMPLE ==> (Sample::spec_ok(s, misc, self.read_format, self.sample_type, self.user_regs as usize, self.intr_regs as usize, self.branch_sample_type) ==> rec is Sample) && (rec matches Record::Sample(x) ==> x.spec_decoded(s, misc, self.read_format, self.sample_type, self.user_regs as usize, self.intr_regs as usize, self.branch_sample_type))
        &&& ty == b::PERF_RECORD_MMAP ==> (!Mmap::spec_fails(s, misc, false, sid) ==> rec is Mmap) && (rec matches Record::Mmap(x) ==> x.spec_decoded(s, misc, false, sid))
        &&& ty == b::PERF_RECORD_MMAP2 ==> (!Mmap::spec_fails(s, misc, true, sid) ==> rec is Mmap) && (rec matches Record::Mmap(x) ==> x.spec_decoded(s, misc, true, sid))
        &&& ty == b::PERF_RECORD_READ ==> (!Read::spec_fails(s, self.read_format, sid) ==> rec is Read) && (rec matches Record::Read(x) ==> x.spec_decoded(s, self.read_format, sid))
        &&& ty == b::PERF_RECORD_CGROUP ==> (!Cgroup::spec_fails(s, sid) ==> rec is Cgroup) && (rec matches Record::Cgroup(x) ==> x.spec_decoded(s, sid))
        &&& ty == b::PERF_RECORD_KSYMBOL ==> (!Ksymbol::spec_fails(s, sid) ==> rec is Ksymbol) && (rec matches Record::Ksymbol(x) ==> x.spec_decoded(s, sid))
        &&& ty == b::PERF_RECORD_TEXT_POKE ==> (TextPoke::spec_ok(s, sid) ==> rec is TextPoke) && (rec matches Record::TextPoke(x) ==> x.spec_decoded(s, sid))
        &&& ty == b::PERF_RECORD_BPF_EVENT ==> (BpfEvent::spec_ok(s, sid) ==> rec is BpfEvent) && (rec matches Record::BpfEvent(x) ==> x.spec_decoded(s, sid))
        &&& ty == b::PERF_RECORD_SWITCH ==> (CtxSwitch::spec_ok(s, false, misc, sid) ==> rec is CtxSwitch) && (rec matches Record::CtxSwitch(x) ==> x.spec_decoded(s, false, misc, sid))
        &&& ty == b::PERF_RECORD_SWITCH_CPU_WIDE ==> (CtxSwitch::spec_ok(s, true, misc, sid) ==> rec is CtxSwitch) && (rec matches Record::CtxSwitch(x) ==> x.spec_decoded(s, true, misc, sid))
        &&& ty == b::PERF_RECORD_NAMESPACES ==> (Namespaces::spec_ok(s, sid) ==> rec is Namespaces) && (rec matches Record::Namespaces(x) ==> x.spec_decoded(s, sid))
        &&& ty == b::PERF_RECORD_ITRACE_START ==> (ItraceStart::spec_ok(s, sid) ==> rec is ItraceStart) && (rec matches Record::ItraceStart(x) ==> x.spec_decoded(s, sid))
        &&& ty == b::PERF_RECORD_AUX ==> (Aux::spec_ok(s, sid) ==> rec is Aux) && (rec matches Record::Aux(x) ==> x.spec_decoded(s, sid))
        &&& ty == b::PERF_RECORD_AUX_OUTPUT_HW_ID ==> (AuxOutputHwId::spec_ok(s, sid) ==> rec is AuxOutputHwId) && (rec matches Record::AuxOutputHwId(x) ==> x.spec_decoded(s, sid))
        &&& ty == b::PERF_RECORD_COMM ==> (!Comm::spec_fails(s, misc, sid) ==> rec is Comm) && (rec matches Record::Comm(x) ==> x.spec_decoded(s, misc, sid))
        &&& ty == b::PERF_RECORD_EXIT ==> (Exit::spec_ok(s, sid) ==> rec is Exit) && (rec matches Record::Exit(x) ==> x.spec_decoded(s, sid))
        &&& ty == b::PERF_RECORD_FORK ==> (Fork::spec_ok(s, sid) ==> rec is Fork) && (rec matches Record::Fork(x) ==> x.spec_decoded(s, sid))
        &&& ty == b::PERF_RECORD_THROTTLE ==> (Throttle::spec_ok(s, sid) ==> rec is Throttle) && (rec matches Record::Throttle(x) ==> x.spec_decoded(s, sid))
        &&& ty == b::PERF_RECORD_UNTHROTTLE ==> (Unthrottle::spec_ok(s, sid) ==> rec is Unthrottle) && (rec matches Record::Unthrottle(x) ==> x.spec_decoded(s, sid))
        &&& ty == b::PERF_RECORD_LOST ==> (LostRecords::spec_ok(s, sid) ==> rec is LostRecords) && (rec matches Record::LostRecords(x) ==> x.spec_decoded(s, sid))
        &&& ty == b::PERF_RECORD_LOST_SAMPLES ==> (LostSamples::spec_ok(s, sid) ==> rec is LostSamples) && (rec matches Record::LostSamples(x) ==> x.spec_decoded(s, sid))
    }

    /// What decoding `bytes` gives: the privilege level of the header's misc
    /// field, and the record that the decoder of its type makes of the first
    /// `size` bytes; the raw bytes when the type is unknown or the decoder
    /// refuses them.
    pub open spec fn parses_to(self, bytes: Seq<u8>, r: (Priv, Record)) -> bool {
        &&& bytes.len() < 8 ==> r.0 == Priv::Unknown && r.1 is Unknown
        &&& bytes.len() >= 8 ==> r.0 == Priv::spec_from_misc(misc_of(bytes))
        &&& r.1 matches Record::Unknown(v) ==> v@ == bytes
        &&& bytes.len() >= 8 && !(r.1 is Unknown) ==> variant_for(ty_of(bytes), r.1)
        &&& bytes.len() >= 8 ==> self.decodes_known(limited(bytes), ty_of(bytes), misc_of(bytes), r.1)
    }
}

impl UnsafeParser {
    /// The parser of a counter with attribute `attr`.
    pub open spec fn spec_from_attr(attr: Attr) -> UnsafeParser {
        UnsafeParser {
            sample_id_all: attr.flags & b::ATTR_SAMPLE_ID_ALL != 0,
            sample_type: attr.sample_type,
            read_format: attr.read_format,
            user_regs: popcount(attr.sample_regs_user) as usize,
            intr_regs: popcount(attr.sample_regs_intr) as usize,
            branch_sample_type: attr.branch_sample_type,
        }
    }

    pub fn from_attr(attr: &Attr) -> (r: UnsafeParser)
        ensures
            r == Self::spec_from_attr(*attr),
    {
        UnsafeParser {
            sample_id_all: attr.flags & b::ATTR_SAMPLE_ID_ALL != 0,
            sample_type: attr.sample_type,
            read_format: attr.read_format,
            user_regs: count_ones(attr.sample_regs_user),
            intr_regs: count_ones(attr.sample_regs_intr),
            branch_sample_type: attr.branch_sample_type,
        }
    }

    /// Decodes one record: its privilege level from the header's misc field,
    /// and the record. Only the first `size` bytes, as the header says, are
    /// read. Bytes too short for a header give `(Priv::Unknown, Unknown)`.
    pub fn parse(&self, bytes: &[u8]) -> (r: (Priv, Record))
        ensures
            self.parses_to(bytes@, r),
    {
        let len = bytes.len();
        if len < 8 {
            return (Priv::Unknown, Record::Unknown(vstd::slice::slice_to_vec(bytes)));
        }
        let ty = read_le(bytes, 0, 4) as u32;
        let misc = read_le(bytes, 4, 2) as u16;
        proof {
            crate::bytes::lemma_pow256_8();
        }
        let size = read_le(bytes, 6, 2) as usize;
        let limit = if size < len {
            size
        } else {
            len
        };
        let b = vstd::slice::slice_subrange(bytes, 0, limit);
        assert(b@ =~= limited(bytes@));
        let sid = if self.sample_id_all {
            Some(self.sample_type)
        } else {
            None
        };
        let record = if ty == b::PERF_RECORD_SAMPLE {
            match Sample::parse(
                b,
                misc,
                self.read_format,
                self.sample_type,
                self.user_regs,
                self.intr_regs,
                self.branch_sample_type,
            ) {
                Some(x) => Some(Record::Sample(Box::new(x))),
                None => None,
            }
        } else if ty == b::PERF_RECORD_MMAP || ty == b::PERF_RECORD_MMAP2 {
            match Mmap::parse(b, misc, ty == b::PERF_RECORD_MMAP2, sid) {
                Some(x) => Some(Record::Mmap(Box::new(x))),
                None => None,
            }
        } else if ty == b::PERF_RECORD_READ {
            match Read::parse(b, self.read_format, sid) {
                Some(x) => Some(Record::Read(Box::new(x))),
                None => None,
            }
        } else if ty == b::PERF_RECORD_CGROUP {
            match Cgroup::parse(b, sid) {
                Some(x) => Some(Record::Cgroup(Box::new(x))),
                None => None,
            }
        } else if ty == b::PERF_RECORD_KSYMBOL {
            match Ksymbol::parse(b, sid) {
                Some(x) => Some(Record::Ksymbol(Box::new(x))),
                None => None,
            }
        } else if ty == b::PERF_RECORD_TEXT_POKE {
            match TextPoke::parse(b, sid) {
                Some(x) => Some(Record::TextPoke(Box::new(x))),
                None => None,
            }
        } else if ty == b::PERF_RECORD_BPF_EVENT {
            match BpfEvent::parse(b, sid) {
                Some(x) => Some(Record::BpfEvent(Box::new(x))),
                None => None,
            }
        } else if ty == b::PERF_RECORD_SWITCH || ty == b::PERF_RECORD_SWITCH_CPU_WIDE {
            match CtxSwitch::parse(b, ty == b::PERF_RECORD_SWITCH_CPU_WIDE, misc, sid) {
                Some(x) => Some(Record::CtxSwitch(Box::new(x))),
                None => None,
            }
        } else if ty == b::PERF_RECORD_NAMESPACES {
            match Namespaces::parse(b, sid) {
                Some(x) => Some(Record::Namespaces(Box::new(x))),
                None => None,
            }
        } else if ty == b::PERF_RECORD_ITRACE_START {
            match ItraceStart::parse(b, sid) {
                Some(x) => Some(Record::ItraceStart(Box::new(x))),
                None => None,
            }
        } else if ty == b::PERF_RECORD_AUX {
            match Aux::parse(b, sid) {
                Some(x) => Some(Record::Aux(Box::new(x))),
                None => None,
            }
        } else if ty == b::PERF_RECORD_AUX_OUTPUT_HW_ID {
            match AuxOutputHwId::parse(b, sid) {
                Some(x) => Some(Record::AuxOutputHwId(Box::new(x))),
                None => None,
            }
        } else if ty == b::PERF_RECORD_COMM {
            match Comm::parse(b, misc, sid) {
                Some(x) => Some(Record::Comm(Box::new(x))),
                None => None,
            }
        } else if ty == b::PERF_RECORD_EXIT {
            match Exit::parse(b, sid) {
                Some(x) => Some(Record::Exit(Box::new(x))),
                None => None,
            }
        } else if ty == b::PERF_RECORD_FORK {
            match Fork::parse(b, sid) {
                Some(x) => Some(Record::Fork(Box::new(x))),
                None => None,
            }
        } else if ty == b::PERF_RECORD_THROTTLE {
            match Throttle::parse(b, sid) {
                Some(x) => Some(Record::Throttle(Box::new(x))),
                None => None,
            }
        } else if ty == b::PERF_RECORD_UNTHROTTLE {
            match Unthrottle::parse(b, sid) {
                Some(x) => Some(Record::Unthrottle(Box::new(x))),
                None => None,
            }
        } else if ty == b::PERF_RECORD_LOST {
            match LostRecords::parse(b, sid) {
                Some(x) => Some(Record::LostRecords(Box::new(x))),
                None => None,
            }
        } else if ty == b::PERF_RECORD_LOST_SAMPLES {
            match LostSamples::parse(b, sid) {
                Some(x) => Some(Record::LostSamples(Box::new(x))),
                None => None,
            }
        } else {
            None
        };
        let record = match record {
            Some(r) => r,
            None => Record::Unknown(vstd::slice::slice_to_vec(bytes)),
        };
        (Priv::from_misc(misc), record)
    }
}

/// The parser of a sampler, frozen from its counter's attribute.
#[derive(Debug)]
pub struct Parser(pub UnsafeParser);

impl Parser {
    pub fn parse(&self, chunk: CowChunk<'_>) -> (r: (Priv, Record))
        ensures
            self.0.parses_to(chunk@, r),
    {
        self.0.parse(chunk.as_bytes())
    }

    pub fn as_unsafe(&self) -> (r: &UnsafeParser)
        ensures
            *r == self.0,
    {
        &self.0
    }
}

} // verus!
