//! Hardware breakpoints.
use vstd::prelude::*;

use super::{mk, tuple, Event};
use crate::error::Error;
use crate::uapi as b;
use crate::version::Version;

verus! {

/// A hardware breakpoint at `addr`.
#[derive(Clone, Copy, Debug, PartialEq, Eq, Structural)]
pub struct Breakpoint {
    pub ty: Type,
    pub addr: u64,
}

/// The access that triggers a breakpoint, and the watched length.
#[derive(Clone, Copy, Debug, PartialEq, Eq, Structural)]
pub enum Type {
    R(Len),
    W(Len),
    Rw(Len),
    X,
}

/// A watched length in bytes. Lengths 3, 5, 6 and 7 since `linux-4.10`.
#[derive(Clone, Copy, Debug, PartialEq, Eq, Structural)]
pub enum Len {
    _1,
    _2,
    _3,
    _4,
    _5,
    _6,
    _7,
    _8,
}

impl Len {
    pub open spec fn spec_bp_len(self) -> u64 {
        match self {
            Len::_1 => 1,
            Len::_2 => 2,
            Len::_3 => 3,
            Len::_4 => 4,
            Len::_5 => 5,
            Len::_6 => 6,
            Len::_7 => 7,
            Len::_8 => 8,
        }
    }

    pub open spec fn supported_by(self, v: Version) -> bool {
        match self {
            Len::_1 | Len::_2 | Len::_4 | Len::_8 => true,
            _ => v.spec_at_least(4, 10),
        }
    }

    pub fn as_bp_len(&self, v: &Version) -> (r: Result<u64, Error>)
        ensures
            r is Err <==> !self.supported_by(*v),
            r is Err ==> r == Err::<u64, Error>(Error::Unsupported),
            r is Ok ==> r == Ok::<u64, Error>(self.spec_bp_len()),
    {
        match self {
            Len::_1 => Ok(1),
            Len::_2 => Ok(2),
            Len::_4 => Ok(4),
            Len::_8 => Ok(8),
            _ => {
                if !v.at_least(4, 10) {
                    return Err(Error::Unsupported);
                }
                match self {
                    Len::_3 => Ok(3),
                    Len::_5 => Ok(5),
                    Len::_6 => Ok(6),
                    _ => Ok(7),
                }
            },
        }
    }
}

impl Breakpoint {
    pub open spec fn supported_by(self, v: Version) -> bool {
        match self.ty {
            Type::R(l) | Type::W(l) | Type::Rw(l) => l.supported_by(v),
            Type::X => true,
        }
    }

    /// The event: access type in `bp_type`, length in `config2`, address in `config1`.
    pub open spec fn spec_event(self) -> Event {
        match self.ty {
            Type::R(l) => tuple(b::PERF_TYPE_BREAKPOINT, 0, self.addr, l.spec_bp_len(), 0, b::HW_BREAKPOINT_R),
            Type::W(l) => tuple(b::PERF_TYPE_BREAKPOINT, 0, self.addr, l.spec_bp_len(), 0, b::HW_BREAKPOINT_W),
            Type::Rw(l) => tuple(b::PERF_TYPE_BREAKPOINT, 0, self.addr, l.spec_bp_len(), 0, b::HW_BREAKPOINT_RW),
            Type::X => tuple(b::PERF_TYPE_BREAKPOINT, 0, self.addr, 0, 0, b::HW_BREAKPOINT_X),
        }
    }

    pub fn as_event(&self, v: &Version) -> (r: Result<Event, Error>)
        ensures
            r is Err <==> !self.supported_by(*v),
            r is Err ==> r == Err::<Event, Error>(Error::Unsupported),
            r is Ok ==> r == Ok::<Event, Error>(self.spec_event()),
    {
        let (bp_type, bp_len) = match self.ty {
            Type::R(l) => (b::HW_BREAKPOINT_R, l.as_bp_len(v)?),
            Type::W(l) => (b::HW_BREAKPOINT_W, l.as_bp_len(v)?),
            Type::Rw(l) => (b::HW_BREAKPOINT_RW, l.as_bp_len(v)?),
            Type::X => (b::HW_BREAKPOINT_X, 0),
        };
        Ok(mk(b::PERF_TYPE_BREAKPOINT, 0, self.addr, bp_len, 0, bp_type))
    }
}

} // verus!
