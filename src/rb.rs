//! The ring buffers that the kernel fills: record chunks of the data ring, and
//! byte chunks of the aux ring. The kernel owns the bytes from the tail to the
//! head; a chunk that lies in one piece is lent out and the tail is published
//! when it is released, one that wraps is copied and the tail is published at
//! once.
use vstd::prelude::*;

verus! {

/// The `n` bytes of ring `s` from `start` on, wrapping at its end.
pub open spec fn ring_read(s: Seq<u8>, start: int, n: int) -> Seq<u8> {
    Seq::new(n as nat, |i: int| s[(start + i) % (s.len() as int)])
}

/// The `size` field of the record header at `tail`: bytes 6 and 7 of the
/// header, either of which may lie past the ring's end.
pub open spec fn header_size(s: Seq<u8>, tail: int) -> int {
    s[(tail + 6) % (s.len() as int)] as int + 256 * s[(tail + 7) % (s.len() as int)] as int
}

/// The bytes of a chunk: lent from the ring, or copied out of it.
pub enum Chunk<'a> {
    Borrowed(&'a [u8]),
    Owned(Vec<u8>),
}

/// A chunk popped from a ring, with the tail to publish once it is consumed.
pub struct CowChunk<'a> {
    pub new_tail: u64,
    pub chunk: Chunk<'a>,
}

impl<'a> CowChunk<'a> {
    pub open spec fn view(&self) -> Seq<u8> {
        match self.chunk {
            Chunk::Borrowed(b) => b@,
            Chunk::Owned(v) => v@,
        }
    }

    pub open spec fn spec_is_borrowed(&self) -> bool {
        self.chunk is Borrowed
    }

    pub fn as_bytes(&self) -> (r: &[u8])
        ensures
            r@ == self@,
    {
        match &self.chunk {
            Chunk::Borrowed(b) => b,
            Chunk::Owned(v) => v.as_slice(),
        }
    }

    pub fn into_owned(self) -> (r: Vec<u8>)
        ensures
            r@ == self@,
    {
        match self.chunk {
            Chunk::Borrowed(b) => vstd::slice::slice_to_vec(b),
            Chunk::Owned(v) => v,
        }
    }

    /// Whether the chunk lies in the ring, so that its tail is published on
    /// release; a copied chunk's tail was published when it was popped.
    pub fn is_borrowed(&self) -> (r: bool)
        ensures
            r == self.spec_is_borrowed(),
    {
        match &self.chunk {
            Chunk::Borrowed(_) => true,
            Chunk::Owned(_) => false,
        }
    }

    pub open spec fn spec_release(&self) -> Option<u64> {
        if self.spec_is_borrowed() {
            Some(self.new_tail)
        } else {
            None
        }
    }

    /// The tail to publish when the chunk is released: the new tail for a lent
    /// chunk, nothing for a copied one.
    pub fn release(&self) -> (r: Option<u64>)
        ensures
            r == self.spec_release(),
    {
        if self.is_borrowed() {
            Some(self.new_tail)
        } else {
            None
        }
    }
}

/// `(x + k) % size` for a step `k` that wraps at most once.
pub proof fn lemma_mod_step(x: int, k: int, size: int)
    requires
        size > 0,
        0 <= x < size,
        0 <= k < size,
    ensures
        (x + k) % size == if x + k < size {
            x + k
        } else {
            x + k - size
        },
{
    if x + k < size {
        vstd::arithmetic::div_mod::lemma_fundamental_div_mod_converse(x + k, size, 0, x + k);
    } else {
        vstd::arithmetic::div_mod::lemma_fundamental_div_mod_converse(x + k, size, 1, x + k - size);
    }
}

/// Copies `n` bytes of the ring from `start` on, wrapping at its end.
fn copy_wrapped(alloc: &[u8], start: usize, n: usize) -> (r: Vec<u8>)
    requires
        alloc@.len() > 0,
        start < alloc@.len(),
    ensures
        r@ == ring_read(alloc@, start as int, n as int),
{
    let size = alloc.len();
    let mut out: Vec<u8> = Vec::with_capacity(n);
    let mut i: usize = 0;
    let mut p: usize = start;
    proof {
        vstd::arithmetic::div_mod::lemma_small_mod(start as nat, size as nat);
    }
    while i < n
        invariant
            size == alloc@.len(),
            size > 0,
            i <= n,
            p < size,
            p == (start + i) % (size as int),
            out@ =~= ring_read(alloc@, start as int, i as int),
        decreases n - i,
    {
        out.push(alloc[p]);
        proof {
            vstd::arithmetic::div_mod::lemma_add_mod_noop(start + i, 1, size as int);
            if size > 1 {
                vstd::arithmetic::div_mod::lemma_small_mod(1, size as nat);
                lemma_mod_step(p as int, 1, size as int);
            } else {
                assert(p + 1 == size);
                vstd::arithmetic::div_mod::lemma_mod_self_0(1);
            }
        }
        p = if p + 1 == size {
            0
        } else {
            p + 1
        };
        i = i + 1;
    }
    out
}

/// Lends the `n` bytes at `start` when they lie in one piece, else copies them.
pub fn take(alloc: &[u8], start: usize, n: usize) -> (r: Chunk)
    requires
        alloc@.len() > 0,
        start < alloc@.len(),
    ensures
        (r is Borrowed) == (start + n <= alloc@.len()),
        match r {
            Chunk::Borrowed(b) => b@,
            Chunk::Owned(v) => v@,
        } == ring_read(alloc@, start as int, n as int),
{
    let size = alloc.len();
    if n <= size - start {
        let b = vstd::slice::slice_subrange(alloc, start, start + n);
        proof {
            assert forall|i: int| 0 <= i < n implies #[trigger] ring_read(alloc@, start as int, n as int)[i] == b@[i] by {
                vstd::arithmetic::div_mod::lemma_small_mod((start + i) as nat, size as nat);
            }
            assert(b@ =~= ring_read(alloc@, start as int, n as int));
        }
        Chunk::Borrowed(b)
    } else {
        Chunk::Owned(copy_wrapped(alloc, start, n))
    }
}

/// The data ring: the mapped pages that follow the metadata page.
pub struct Rb<'a> {
    pub alloc: &'a [u8],
}

impl<'a> Rb<'a> {
    pub fn new(alloc: &'a [u8]) -> (r: Rb<'a>)
        ensures
            r.alloc@ == alloc@,
    {
        Rb { alloc }
    }

    /// The next record chunk after `tail`, given the `head` that the kernel
    /// published (loaded with acquire ordering): `None` when the ring is empty.
    /// The chunk is the record whose header is at `tail`, `size` bytes long, and
    /// its new tail lies `size` bytes further, wrapping.
    pub fn lending_pop(&self, tail: u64, head: u64) -> (r: Option<CowChunk<'a>>)
        requires
            self.alloc@.len() >= 8,
            tail < self.alloc@.len(),
        ensures
            r is None <==> tail == head % (self.alloc@.len() as u64),
            r matches Some(c) ==> {
                let n = header_size(self.alloc@, tail as int);
                &&& c@ == ring_read(self.alloc@, tail as int, n)
                &&& c.new_tail == (tail + n) % (self.alloc@.len() as int)
                &&& c.spec_is_borrowed() == (tail + n <= self.alloc@.len())
            },
    {
        let alloc = self.alloc;
        let size = alloc.len();
        let head = head % (size as u64);
        if tail == head {
            return None;
        }
        let t = tail as usize;
        let lo_at = if size - t > 6 {
            t + 6
        } else {
            6 - (size - t)
        };
        let hi_at = if size - t > 7 {
            t + 7
        } else {
            7 - (size - t)
        };
        proof {
            lemma_mod_step(t as int, 6, size as int);
            lemma_mod_step(t as int, 7, size as int);
        }
        let n = alloc[lo_at] as usize + 256 * alloc[hi_at] as usize;
        let nm = n % size;
        let nt = if nm < size - t {
            t + nm
        } else {
            nm - (size - t)
        };
        proof {
            vstd::arithmetic::div_mod::lemma_small_mod(t as nat, size as nat);
            vstd::arithmetic::div_mod::lemma_add_mod_noop(t as int, n as int, size as int);
            lemma_mod_step(t as int, nm as int, size as int);
        }
        let new_tail = nt as u64;
        let chunk = take(alloc, t, n);
        Some(CowChunk { new_tail, chunk })
    }
}


/// The tail after popping the record at `t`.
pub open spec fn pop_tail(s: Seq<u8>, t: int) -> int {
    (t + header_size(s, t)) % (s.len() as int)
}

/// The tail after `k` pops from `t0`.
pub open spec fn tail_after(s: Seq<u8>, t0: int, k: nat) -> int
    decreases k,
{
    if k == 0 {
        t0
    } else {
        pop_tail(s, tail_after(s, t0, (k - 1) as nat))
    }
}

/// The total length of the first `k` records.
pub open spec fn prefix_len(recs: Seq<Seq<u8>>, k: int) -> int
    decreases k,
{
    if k <= 0 {
        0
    } else {
        prefix_len(recs, k - 1) + recs[k - 1].len()
    }
}

/// A record whose header's `size` field gives its length.
pub open spec fn well_framed(r: Seq<u8>) -> bool {
    r.len() >= 8 && r[6] as int + 256 * r[7] as int == r.len()
}

/// Whether ring `s` holds `recs` one after another from `t0`, wrapping.
pub open spec fn ring_holds(s: Seq<u8>, t0: int, recs: Seq<Seq<u8>>) -> bool {
    forall|k: int, i: int|
        0 <= k < recs.len() && 0 <= i < recs[k].len() ==> s[(t0 + prefix_len(recs, k) + i) % (
        s.len() as int)] == #[trigger] recs[k][i]
}

proof fn lemma_prefix_grows(recs: Seq<Seq<u8>>, k: int, n: int)
    requires
        0 <= k < n <= recs.len(),
        forall|j: int| 0 <= j < recs.len() ==> well_framed(#[trigger] recs[j]),
    ensures
        prefix_len(recs, k) + recs[k].len() <= prefix_len(recs, n),
        prefix_len(recs, k) >= 0,
    decreases n - k,
{
    if k + 1 < n {
        lemma_prefix_grows(recs, k + 1, n);
    }
    lemma_prefix_nonneg(recs, k);
}

proof fn lemma_prefix_nonneg(recs: Seq<Seq<u8>>, k: int)
    ensures
        prefix_len(recs, k) >= 0,
    decreases k,
{
    if k > 0 {
        lemma_prefix_nonneg(recs, k - 1);
    }
}

proof fn lemma_mod_shift(a: int, b: int, r: int)
    requires
        r > 0,
        a >= 0,
        b >= 0,
    ensures
        (a % r + b) % r == (a + b) % r,
{
    vstd::arithmetic::div_mod::lemma_add_mod_noop(a, b, r);
    vstd::arithmetic::div_mod::lemma_add_mod_noop(a % r, b, r);
    vstd::arithmetic::div_mod::lemma_mod_twice(a, r);
}

proof fn lemma_mod_distinct(a: int, b: int, r: int)
    requires
        r > 0,
        0 <= a < b,
        b - a < r,
    ensures
        a % r != b % r,
{
    vstd::arithmetic::div_mod::lemma_fundamental_div_mod(a, r);
    vstd::arithmetic::div_mod::lemma_fundamental_div_mod(b, r);
    if a % r == b % r {
        let qa = a / r;
        let qb = b / r;
        assert(b - a == (qb - qa) * r) by (nonlinear_arith)
            requires
                a == r * qa + a % r,
                b == r * qb + b % r,
                a % r == b % r,
        ;
        if qb - qa >= 1 {
            assert((qb - qa) * r >= r) by (nonlinear_arith)
                requires
                    qb - qa >= 1,
                    r > 0,
            ;
        } else {
            assert((qb - qa) * r <= 0) by (nonlinear_arith)
                requires
                    qb - qa <= 0,
                    r > 0,
            ;
        }
    }
}

/// Records that the kernel wrote one after another from tail `t0`, fewer bytes
/// in all than the ring holds, are read back one by one: the `k`-th pop starts
/// where the first `k` records end, finds the ring not empty, and yields the
/// `k`-th record byte for byte; after the last one the tail meets the head.
pub proof fn lemma_records_in_order(s: Seq<u8>, t0: int, recs: Seq<Seq<u8>>, k: nat)
    requires
        s.len() >= 8,
        0 <= t0 < s.len(),
        forall|j: int| 0 <= j < recs.len() ==> well_framed(#[trigger] recs[j]),
        prefix_len(recs, recs.len() as int) < s.len(),
        ring_holds(s, t0, recs),
        k <= recs.len(),
    ensures
        tail_after(s, t0, k) == (t0 + prefix_len(recs, k as int)) % (s.len() as int),
        k < recs.len() ==> tail_after(s, t0, k) != (t0 + prefix_len(recs, recs.len() as int)) % (
        s.len() as int),
        k < recs.len() ==> ring_read(s, tail_after(s, t0, k), header_size(s, tail_after(s, t0, k)))
            == recs[k as int],
    decreases k,
{
    let r = s.len() as int;
    let n = recs.len() as int;
    if k == 0 {
        vstd::arithmetic::div_mod::lemma_small_mod(t0 as nat, r as nat);
    } else {
        lemma_records_in_order(s, t0, recs, (k - 1) as nat);
        let t = tail_after(s, t0, (k - 1) as nat);
        let rec = recs[k - 1];
        lemma_prefix_nonneg(recs, k - 1);
        assert(ring_read(s, t, header_size(s, t)).len() == rec.len());
        assert(header_size(s, t) == rec.len());
        lemma_mod_shift(t0 + prefix_len(recs, k - 1), rec.len() as int, r);
    }
    if k < n {
        let t = tail_after(s, t0, k);
        let p = prefix_len(recs, k as int);
        let rec = recs[k as int];
        lemma_prefix_grows(recs, k as int, n);
        lemma_mod_distinct(t0 + p, t0 + prefix_len(recs, n), r);
        assert(well_framed(rec));
        lemma_mod_shift(t0 + p, 6, r);
        lemma_mod_shift(t0 + p, 7, r);
        assert(s[(t + 6) % r] == rec[6]);
        assert(s[(t + 7) % r] == rec[7]);
        assert(header_size(s, t) == rec.len());
        assert forall|i: int| 0 <= i < rec.len() implies #[trigger] ring_read(s, t, rec.len() as int)[i]
            == rec[i] by {
            lemma_mod_shift(t0 + p, i, r);
        }
        assert(ring_read(s, t, rec.len() as int) =~= rec);
    }
}

/// Releasing a lent chunk popped at tail `t`, `s` bytes long, publishes the
/// tail `(t + s) mod R`; a copied chunk publishes nothing on release.
pub proof fn lemma_release_publishes(alloc: Seq<u8>, t: int, c: CowChunk)
    requires
        alloc.len() > 0,
        c.new_tail == (t + c@.len()) % (alloc.len() as int),
    ensures
        c.spec_is_borrowed() ==> c.spec_release() == Some(((t + c@.len()) % (alloc.len() as int)) as u64),
        !c.spec_is_borrowed() ==> c.spec_release() is None,
{
}

} // verus!
