//! The decisions a counter, a counter group and a sampler make around their
//! system calls.
use vstd::prelude::*;

use crate::attr::Attr;
use crate::error::Error;
use crate::event::EventConfig;
use crate::stat::Stat;

verus! {

pub open spec fn pow2_exp(exp: nat) -> nat
    decreases exp,
{
    if exp == 0 {
        1
    } else {
        2 * pow2_exp((exp - 1) as nat)
    }
}

/// The length of a sampler's mapping: a metadata page and `2^exp` data pages.
/// `SizeOverflow` when it does not fit in `usize`.
pub fn arena_len(exp: u8, page_size: usize) -> (r: Result<usize, Error>)
    ensures
        r is Ok <==> (1 + pow2_exp(exp as nat)) * page_size <= usize::MAX,
        r is Ok ==> r == Ok::<usize, Error>(((1 + pow2_exp(exp as nat)) * page_size) as usize),
        r is Err ==> r == Err::<usize, Error>(Error::SizeOverflow),
{
    let pages = match pages_of(exp) {
        Some(p) => p,
        None => {
            if page_size == 0 {
                return Ok(0);
            }
            proof {
                assert((1 + pow2_exp(exp as nat)) * page_size >= 1 + pow2_exp(exp as nat)) by (
                nonlinear_arith)
                    requires
                        page_size >= 1,
                ;
            }
            return Err(Error::SizeOverflow);
        },
    };
    match pages.checked_mul(page_size) {
        Some(n) => Ok(n),
        None => Err(Error::SizeOverflow),
    }
}

/// `1 + 2^exp`, when it fits in `usize`.
fn pages_of(exp: u8) -> (r: Option<usize>)
    ensures
        r is Some <==> 1 + pow2_exp(exp as nat) <= usize::MAX,
        r matches Some(n) ==> n == 1 + pow2_exp(exp as nat),
{
    let mut p: usize = 1;
    let mut i: u8 = 0;
    while i < exp
        invariant
            i <= exp,
            p == pow2_exp(i as nat),
        decreases exp - i,
    {
        if p > (usize::MAX - 1) / 2 {
            proof {
                lemma_pow2_exp_mono((i + 1) as nat, exp as nat);
            }
            return None;
        }
        p = p * 2;
        i = i + 1;
    }
    if p == usize::MAX {
        return None;
    }
    Some(p + 1)
}

proof fn lemma_pow2_exp_mono(a: nat, b: nat)
    requires
        a <= b,
    ensures
        pow2_exp(a) <= pow2_exp(b),
    decreases b,
{
    if a < b {
        lemma_pow2_exp_mono(a, (b - 1) as nat);
    }
}

/// A counter lends its descriptor to one sampler only: with `owners` holders
/// of the descriptor, a sampler may be made only when the counter is the one.
pub fn check_sole_owner(owners: usize) -> (r: Result<(), Error>)
    ensures
        r is Ok <==> owners == 1,
        r is Err ==> r == Err::<(), Error>(Error::AlreadyExists),
{
    if owners == 1 {
        Ok(())
    } else {
        Err(Error::AlreadyExists)
    }
}

/// The leader's read buffer after a sibling joins a group that now has
/// `members` members: grown to what the group needs, never shrunk.
pub fn grown_read_buf_len(old_len: usize, members: usize, read_format: u64) -> (r: usize)
    requires
        members <= (usize::MAX - 24) / 24,
    ensures
        r >= old_len,
        r >= Stat::spec_read_buf_size(members as int, read_format),
        r == old_len || r == Stat::spec_read_buf_size(members as int, read_format),
{
    let need = Stat::read_buf_size(members, read_format);
    if need > old_len {
        need
    } else {
        old_len
    }
}

/// The outcome of the BPF query ioctl on a buffer `[ids_len, prog_cnt,
/// ids[cap]]`: on success the first `prog_cnt` ids; when the kernel said the
/// buffer was too small, all `cap` ids and how many more programs there are.
/// `None` when the buffer does not hold what it claims.
pub fn query_bpf_result(buf: &[u32], cap: u32, too_small: bool) -> (r: Option<(Vec<u32>, Option<u32>)>)
    ensures
        r matches Some((ids, more)) ==> {
            let cnt = buf@[1] as int;
            &&& buf@.len() >= 2
            &&& !too_small ==> more is None && cnt <= cap && ids@ == buf@.subrange(2, 2 + cnt)
            &&& too_small ==> more == Some((cnt - cap) as u32) && cnt >= cap && ids@ == buf@.subrange(
                2,
                2 + cap,
            )
        },
        r is None <==> buf@.len() < 2 || buf@.len() < 2 + cap || (!too_small && buf@[1] > cap) || (
        too_small && buf@[1] < cap),
{
    let len = buf.len();
    if len < 2 || len - 2 < cap as usize {
        return None;
    }
    let cnt = buf[1];
    if too_small {
        if cnt < cap {
            return None;
        }
        let ids = vstd::slice::slice_to_vec(vstd::slice::slice_subrange(buf, 2, 2 + cap as usize));
        Some((ids, Some(cnt - cap)))
    } else {
        if cnt > cap {
            return None;
        }
        let ids = vstd::slice::slice_to_vec(vstd::slice::slice_subrange(buf, 2, 2 + cnt as usize));
        Some((ids, None))
    }
}

impl Attr {
    /// Points the attribute at another event, changing the six event fields only.
    pub fn switch_to(&mut self, e: EventConfig)
        ensures
            *final(self) == (Attr {
                ty: e.ty,
                config: e.config,
                config1: e.config1,
                config2: e.config2,
                config3: e.config3,
                bp_type: e.bp_type,
                ..*old(self)
            }),
    {
        self.ty = e.ty;
        self.config = e.config;
        self.config1 = e.config1;
        self.config2 = e.config2;
        self.config3 = e.config3;
        self.bp_type = e.bp_type;
    }
}

} // verus!
