//! Errors that the library itself decides on, before any system call.
use vstd::prelude::*;

verus! {

#[derive(Clone, Copy, Debug, PartialEq, Eq, Structural)]
pub enum Error {
    /// An option needs a newer kernel than the one targeted.
    Unsupported,
    /// The counter already has a sampler.
    AlreadyExists,
    /// A size computation does not fit in `usize`.
    SizeOverflow,
}

} // verus!
