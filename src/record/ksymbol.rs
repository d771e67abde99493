//! Kernel symbol events.
use vstd::prelude::*;

use super::{align8, cstr, cstr_ends_at, cstr_of, trailer, trailer_at, RecordId};
use crate::bytes::{le_at, lemma_pow256_8, read_le};
use crate::uapi as b;

verus! {

/// The kind of a kernel symbol.
#[derive(Clone, Copy, Debug, PartialEq, Eq, Structural)]
pub enum Type {
    Bpf,
    OutOfLine,
    Unknown,
}

/// Whether a kernel symbol was registered or unregistered.
#[derive(Clone, Copy, Debug, PartialEq, Eq, Structural)]
pub enum State {
    Reg,
    Unreg,
}

pub open spec fn ksymbol_type(v: u16) -> Type {
    if v == b::PERF_RECORD_KSYMBOL_TYPE_BPF {
        Type::Bpf
    } else if v == b::PERF_RECORD_KSYMBOL_TYPE_OOL {
        Type::OutOfLine
    } else {
        Type::Unknown
    }
}

/// `PERF_RECORD_KSYMBOL`: a kernel symbol was registered or unregistered.
#[derive(Clone, Debug)]
pub struct Ksymbol {
    pub record_id: Option<RecordId>,
    pub ty: Type,
    pub name: Vec<u8>,
    pub state: State,
    pub addr: u64,
    pub len: u32,
}

impl Ksymbol {
    /// What the record's bytes `s` say, field by field.
    pub open spec fn spec_decoded(self, s: Seq<u8>, sid: Option<u64>) -> bool {
        let n = self.name@.len() as int;
        &&& 24 <= s.len()
        &&& self.addr == le_at(s, 8, 8)
        &&& self.len == le_at(s, 16, 4)
        &&& self.ty == ksymbol_type(le_at(s, 20, 2) as u16)
        &&& self.state == if (le_at(s, 22, 2) as u16) & b::PERF_RECORD_KSYMBOL_FLAGS_UNREGISTER != 0 {
            State::Unreg
        } else {
            State::Reg
        }
        &&& cstr_of(s, 24, n)
        &&& self.name@ == s.subrange(24, 24 + n)
        &&& Some(self.record_id) == trailer_at(s, align8(24 + n + 1), sid)
    }

    /// When the record's bytes `s` do not decode.
    pub open spec fn spec_fails(s: Seq<u8>, sid: Option<u64>) -> bool {
        s.len() < 24 || forall|e: int|
                cstr_ends_at(s, 24, e) ==> align8(e + 1) > usize::MAX || trailer_at(
                    s,
                    align8(e + 1),
                    sid,
                ) is None
    }

    pub fn parse(b: &[u8], sid: Option<u64>) -> (r: Option<Ksymbol>)
        ensures
            r matches Some(x) ==> x.spec_decoded(b@, sid),
            r is None ==> Self::spec_fails(b@, sid),
    {
        proof {
            lemma_pow256_8();
        }
        if b.len() < 24 {
            return None;
        }
        let addr = read_le(b, 8, 8);
        let len = read_le(b, 16, 4) as u32;
        let ty = read_le(b, 20, 2) as u16;
        let flags = read_le(b, 22, 2) as u16;
        let (name, next) = match cstr(b, 24) {
            Some(c) => c,
            None => return None,
        };
        let record_id = match trailer(b, next, sid) {
            Some(t) => t,
            None => return None,
        };
        let ty = if ty == b::PERF_RECORD_KSYMBOL_TYPE_BPF {
            Type::Bpf
        } else if ty == b::PERF_RECORD_KSYMBOL_TYPE_OOL {
            Type::OutOfLine
        } else {
            Type::Unknown
        };
        let state = if flags & b::PERF_RECORD_KSYMBOL_FLAGS_UNREGISTER != 0 {
            State::Unreg
        } else {
            State::Reg
        };
        Some(Ksymbol { record_id, ty, name, state, addr, len })
    }
}

} // verus!
