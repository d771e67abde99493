//! BPF program events.
use vstd::prelude::*;

use super::{trailer, trailer_at, RecordId};
use crate::bytes::{le_at, lemma_pow256_8, read_le};
use crate::uapi as b;

verus! {

/// The type of a BPF event.
#[derive(Clone, Copy, Debug, PartialEq, Eq, Structural)]
pub enum Type {
    ProgLoad,
    ProgUnload,
    Unknown,
}

impl Type {
    pub open spec fn spec_from(v: u16) -> Type {
        if v == b::PERF_BPF_EVENT_PROG_LOAD {
            Type::ProgLoad
        } else if v == b::PERF_BPF_EVENT_PROG_UNLOAD {
            Type::ProgUnload
        } else {
            Type::Unknown
        }
    }

    pub fn from_raw(v: u16) -> (r: Type)
        ensures
            r == Self::spec_from(v),
    {
        if v == b::PERF_BPF_EVENT_PROG_LOAD {
            Type::ProgLoad
        } else if v == b::PERF_BPF_EVENT_PROG_UNLOAD {
            Type::ProgUnload
        } else {
            Type::Unknown
        }
    }
}

pub open spec fn tag_at(s: Seq<u8>, p: int) -> [u8; 8] {
    [s[p], s[p + 1], s[p + 2], s[p + 3], s[p + 4], s[p + 5], s[p + 6], s[p + 7]]
}

/// `PERF_RECORD_BPF_EVENT`: a BPF program was loaded or unloaded.
#[derive(Clone, Debug)]
pub struct BpfEvent {
    pub record_id: Option<RecordId>,
    pub ty: Type,
    pub flags: u16,
    pub id: u32,
    pub tag: [u8; 8],
}

impl BpfEvent {
    /// Whether the record's bytes `s` decode.
    pub open spec fn spec_ok(s: Seq<u8>, sid: Option<u64>) -> bool {
        24 <= s.len() && trailer_at(s, 24, sid) is Some
    }

    /// What the record's bytes `s` say, field by field.
    pub open spec fn spec_decoded(self, s: Seq<u8>, sid: Option<u64>) -> bool {
        &&& Some(self.record_id) == trailer_at(s, 24, sid)
        &&& self.ty == Type::spec_from(le_at(s, 8, 2) as u16)
        &&& self.flags == le_at(s, 10, 2) as u16
        &&& self.id == le_at(s, 12, 4) as u32
        &&& self.tag == tag_at(s, 16)
    }

    /// Decodes the record `b`, header included; `sid` holds `sample_type` when
    /// records end with a `sample_id` trailer.
    pub fn parse(b: &[u8], sid: Option<u64>) -> (r: Option<BpfEvent>)
        ensures
            r is Some <==> Self::spec_ok(b@, sid),
            r matches Some(x) ==> x.spec_decoded(b@, sid),
    {
        proof {
            lemma_pow256_8();
        }
        if b.len() < 24 {
            return None;
        }
        let record_id = match trailer(b, 24, sid) {
            Some(t) => t,
            None => return None,
        };

        Some(BpfEvent {
            record_id,
            ty: Type::from_raw(read_le(b, 8, 2) as u16),
            flags: read_le(b, 10, 2) as u16,
            id: read_le(b, 12, 4) as u32,
            tag: [b[16], b[17], b[18], b[19], b[20], b[21], b[22], b[23]],
        })
    }
}

} // verus!
