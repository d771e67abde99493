//! Little-endian integers in byte sequences.
use vstd::prelude::*;

verus! {

pub open spec fn pow256(n: nat) -> nat
    decreases n,
{
    if n == 0 {
        1
    } else {
        256 * pow256((n - 1) as nat)
    }
}

/// The `n` little-endian bytes of `v` (its low `n` bytes).
pub open spec fn le_bytes(v: nat, n: nat) -> Seq<u8>
    decreases n,
{
    if n == 0 {
        Seq::empty()
    } else {
        seq![(v % 256) as u8] + le_bytes(v / 256, (n - 1) as nat)
    }
}

/// The number that the little-endian bytes `s` stand for.
pub open spec fn le_val(s: Seq<u8>) -> nat
    decreases s.len(),
{
    if s.len() == 0 {
        0
    } else {
        s[0] as nat + 256 * le_val(s.skip(1))
    }
}

/// The little-endian number of `n` bytes at `pos` of `s`.
pub open spec fn le_at(s: Seq<u8>, pos: int, n: int) -> nat {
    le_val(s.subrange(pos, pos + n))
}

pub proof fn lemma_pow256_8()
    ensures
        pow256(8) == 0x1_0000_0000_0000_0000,
        pow256(4) == 0x1_0000_0000,
        pow256(2) == 0x1_0000,
        pow256(1) == 0x100,
{
    reveal_with_fuel(pow256, 9);
}

pub proof fn lemma_pow256_mono(a: nat, b: nat)
    requires
        a <= b,
    ensures
        pow256(a) <= pow256(b),
    decreases b,
{
    if a < b {
        lemma_pow256_mono(a, (b - 1) as nat);
    }
}

/// Reads the little-endian number of `n` bytes at `pos`.
pub fn read_le(b: &[u8], pos: usize, n: usize) -> (r: u64)
    requires
        n <= 8,
        pos + n <= b@.len(),
    ensures
        r as nat == le_at(b@, pos as int, n as int),
        r < pow256(n as nat),
{
    proof {
        lemma_pow256_8();
    }
    let len = b.len();
    assert(pos + n <= len);
    let mut v: u64 = 0;
    let mut i: usize = n;
    while i > 0
        invariant
            n <= 8,
            pos + n <= b@.len(),
            pos + n <= usize::MAX,
            i <= n,
            v as nat == le_at(b@, pos + i, n - i),
            v < pow256((n - i) as nat),
            pow256(8) == 0x1_0000_0000_0000_0000,
        decreases i,
    {
        let ghost s = b@.subrange(pos + i - 1, pos + n as int);
        proof {
            assert(s.skip(1) =~= b@.subrange(pos + i, pos + n as int));
            assert(s[0] == b@[pos + i - 1]);
            lemma_pow256_mono((n - i + 1) as nat, 8);
            let p = pow256((n - i) as nat);
            assert(v * 256 + 255 < 256 * p) by (nonlinear_arith)
                requires
                    v < p,
            ;
        }
        v = v * 256 + b[pos + (i - 1)] as u64;
        i = i - 1;
    }
    assert(b@.subrange(pos as int, pos + n as int) =~= b@.subrange(pos + 0, pos + n as int));
    v
}

/// Appends the `n` little-endian bytes of `v`.
pub fn push_le(buf: &mut Vec<u8>, v: u64, n: usize)
    requires
        n <= 8,
    ensures
        final(buf)@ == old(buf)@ + le_bytes(v as nat, n as nat),
{
    let mut x: u64 = v;
    let mut i: usize = 0;
    while i < n
        invariant
            i <= n,
            buf@ + le_bytes(x as nat, (n - i) as nat) == old(buf)@ + le_bytes(v as nat, n as nat),
        decreases n - i,
    {
        let ghost rest = le_bytes((x / 256) as nat, (n - i - 1) as nat);
        assert(le_bytes(x as nat, (n - i) as nat) == seq![(x % 256) as u8] + rest);
        buf.push((x % 256) as u8);
        assert(buf@ + rest =~= old(buf)@ + le_bytes(v as nat, n as nat));
        x = x / 256;
        i = i + 1;
    }
    assert(le_bytes(x as nat, 0) =~= Seq::empty());
    assert(buf@ + le_bytes(x as nat, 0) =~= buf@);
}

} // verus!
