//! The aux ring: a raw byte stream with no framing, popped in chunks of the
//! bytes available, bounded by a length the consumer chooses.
use vstd::prelude::*;

use crate::rb::{ring_read, take, CowChunk};

verus! {

/// The bytes available from `tail` up to `head`, wrapping.
pub open spec fn available(size: int, tail: int, head: int) -> int {
    if tail <= head {
        head - tail
    } else {
        size + head - tail
    }
}

/// The length of the next chunk: the bytes available, at most `max` when given.
pub open spec fn chunk_len(size: int, tail: int, head: int, max: Option<usize>) -> int {
    match max {
        Some(m) => if available(size, tail, head) < m {
            available(size, tail, head)
        } else {
            m as int
        },
        None => available(size, tail, head),
    }
}

pub struct Rb<'a> {
    pub alloc: &'a [u8],
}

impl<'a> Rb<'a> {
    pub fn new(alloc: &'a [u8]) -> (r: Rb<'a>)
        ensures
            r.alloc@ == alloc@,
    {
        Rb { alloc }
    }

    /// The next chunk after `tail`, given the published `head`: `None` when the
    /// ring is empty. A given `max_chunk_len` is not zero.
    pub fn lending_pop(&self, tail: u64, head: u64, max_chunk_len: Option<usize>) -> (r: Option<
        CowChunk<'a>,
    >)
        requires
            self.alloc@.len() > 0,
            tail < self.alloc@.len(),
            max_chunk_len matches Some(m) ==> m > 0,
        ensures
            r is None <==> tail == head % (self.alloc@.len() as u64),
            r matches Some(c) ==> {
                let size = self.alloc@.len() as int;
                let n = chunk_len(size, tail as int, (head % (size as u64)) as int, max_chunk_len);
                &&& 0 < n < size
                &&& c@ == ring_read(self.alloc@, tail as int, n)
                &&& c.new_tail == (tail + n) % size
                &&& c.spec_is_borrowed() == (tail + n <= size)
            },
    {
        let alloc = self.alloc;
        let size = alloc.len();
        let head = (head % (size as u64)) as usize;
        let t = tail as usize;
        if t == head {
            return None;
        }
        let avail = if t < head {
            head - t
        } else {
            size - t + head
        };
        let n = match max_chunk_len {
            Some(m) => if avail < m {
                avail
            } else {
                m
            },
            None => avail,
        };
        let nt = if n < size - t {
            t + n
        } else {
            n - (size - t)
        };
        proof {
            crate::rb::lemma_mod_step(t as int, n as int, size as int);
        }
        let chunk = take(alloc, t, n);
        Some(CowChunk { new_tail: nt as u64, chunk })
    }
}

} // verus!
