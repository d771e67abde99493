//! What dynamic PMUs (kprobes, uprobes) advertise in sysfs: the PMU type, a
//! decimal line, and the bit of `config` that selects a return probe, written
//! `config:<bit>`.
use vstd::prelude::*;

use crate::event::dp::DynamicPmu;

verus! {

/// The bytes of `s` before its first newline.
pub open spec fn first_line(s: Seq<u8>) -> Seq<u8>
    decreases s.len(),
{
    if s.len() == 0 {
        s
    } else if s[0] == 10 {
        Seq::empty()
    } else {
        seq![s[0]] + first_line(s.skip(1))
    }
}

pub open spec fn is_digit(c: u8) -> bool {
    48 <= c <= 57
}

/// The number that the decimal digits `s` write.
pub open spec fn dec_val(s: Seq<u8>) -> nat
    decreases s.len(),
{
    if s.len() == 0 {
        0
    } else {
        dec_val(s.drop_last()) * 10 + (s.last() - 48) as nat
    }
}

/// The digits of a decimal number: an optional `+` dropped.
pub open spec fn digits(s: Seq<u8>) -> Seq<u8> {
    if s.len() > 0 && s[0] == 43 {
        s.skip(1)
    } else {
        s
    }
}

/// The number that a line writes in decimal, if it is one no larger than `max`.
pub open spec fn dec_line(s: Seq<u8>, max: u64) -> Option<u64> {
    let d = digits(first_line(s));
    if d.len() > 0 && (forall|i: int| 0 <= i < d.len() ==> is_digit(#[trigger] d[i])) && dec_val(d)
        <= max {
        Some(dec_val(d) as u64)
    } else {
        None
    }
}

/// The length of the first line of `s`.
fn line_len(s: &[u8]) -> (r: usize)
    ensures
        r <= s@.len(),
        first_line(s@) == s@.subrange(0, r as int),
{
    let mut i: usize = 0;
    let len = s.len();
    while i < len && s[i] != 10
        invariant
            i <= len == s@.len(),
            forall|k: int| 0 <= k < i ==> s@[k] != 10,
        decreases len - i,
    {
        i = i + 1;
    }
    proof {
        lemma_first_line(s@, i as int);
    }
    i
}

proof fn lemma_first_line(s: Seq<u8>, n: int)
    requires
        0 <= n <= s.len(),
        forall|k: int| 0 <= k < n ==> s[k] != 10,
        n == s.len() || s[n] == 10,
    ensures
        first_line(s) == s.subrange(0, n),
    decreases s.len(),
{
    if s.len() > 0 && n > 0 {
        lemma_first_line(s.skip(1), n - 1);
        assert(s.subrange(0, n) =~= seq![s[0]] + s.skip(1).subrange(0, n - 1));
    } else if n == 0 {
        assert(s.subrange(0, 0) =~= Seq::<u8>::empty());
    }
}

/// Parses the first line of `s` as a decimal number no larger than `max`.
pub fn parse_dec_line(s: &[u8], max: u64) -> (r: Option<u64>)
    ensures
        r == dec_line(s@, max),
{
    let n = line_len(s);
    let line = vstd::slice::slice_subrange(s, 0, n);
    let start: usize = if n > 0 && line[0] == 43 {
        1
    } else {
        0
    };
    let ghost d = digits(first_line(s@));
    assert(d =~= line@.subrange(start as int, n as int));
    if n == start {
        return None;
    }
    let mut v: u64 = 0;
    let mut i: usize = start;
    while i < n
        invariant
            start <= i <= n == line@.len(),
            d == line@.subrange(start as int, n as int),
            d == digits(first_line(s@)),
            forall|k: int| start <= k < i ==> is_digit(line@[k]),
            v == dec_val(line@.subrange(start as int, i as int)),
            v <= max,
        decreases n - i,
    {
        let c = line[i];
        if c < 48 || c > 57 {
            proof {
                let j = i - start;
                assert(d[j] == c);
                assert(!is_digit(d[j]));
            }
            return None;
        }
        let ghost pre = line@.subrange(start as int, i + 1);
        assert(pre.drop_last() =~= line@.subrange(start as int, i as int));
        let dgt = (c - 48) as u64;
        if v > max / 10 || max - v * 10 < dgt {
            proof {
                if v > max / 10 {
                    assert(v * 10 + dgt > max) by (nonlinear_arith)
                        requires
                            v > max / 10,
                    ;
                }
                assert(dec_val(pre) == v * 10 + dgt);
                assert(d.subrange(0, i + 1 - start) =~= pre);
                lemma_dec_prefix(d, (i + 1 - start) as int, max);
            }
            return None;
        }
        assert(v * 10 <= max) by (nonlinear_arith)
            requires
                v <= max / 10,
        ;
        v = v * 10 + dgt;
        i = i + 1;
    }
    assert(line@.subrange(start as int, n as int) =~= d);
    Some(v)
}

/// A decimal prefix larger than `max` makes the whole number larger.
proof fn lemma_dec_prefix(d: Seq<u8>, k: int, max: u64)
    requires
        0 <= k <= d.len(),
        dec_val(d.subrange(0, k)) > max,
    ensures
        dec_val(d) > max,
    decreases d.len() - k,
{
    if k < d.len() {
        let p = d.subrange(0, k + 1);
        assert(p.drop_last() =~= d.subrange(0, k));
        lemma_dec_prefix(d, k + 1, max);
    } else {
        assert(d.subrange(0, k) =~= d);
    }
}

/// The type that a PMU's `type` file holds.
pub fn parse_pmu_type(content: &[u8]) -> (r: Option<u32>)
    ensures
        r matches Some(t) ==> dec_line(content@, 0xffff_ffff) == Some(t as u64),
        r is None ==> dec_line(content@, 0xffff_ffff) is None,
{
    match parse_dec_line(content, 0xffff_ffff) {
        Some(v) => Some(v as u32),
        None => None,
    }
}

/// The retprobe bit that a `format/retprobe` file holds after its `config:`.
pub fn parse_retprobe_bit(content: &[u8]) -> (r: Option<u8>)
    ensures
        content@.len() < 7 ==> r is None,
        content@.len() >= 7 ==> r == match dec_line(content@.skip(7), 63) {
            Some(v) => Some(v as u8),
            None => None::<u8>,
        },
{
    if content.len() < 7 {
        return None;
    }
    let rest = vstd::slice::slice_subrange(content, 7, content.len());
    assert(rest@ =~= content@.skip(7));
    match parse_dec_line(rest, 63) {
        Some(v) => Some(v as u8),
        None => None,
    }
}

/// A probe event of PMU type `ty`; a return probe sets `config` bit
/// `retprobe_bit`. `config1` and `config2` hold what the probe names (a
/// symbol's or path's address and an offset, or an address).
pub fn probe(ty: u32, retprobe_bit: Option<u8>, config1: u64, config2: u64) -> (r: Option<DynamicPmu>)
    ensures
        r is None <==> (retprobe_bit matches Some(bit) && bit >= 64),
        r matches Some(d) ==> d.ty == ty && d.config1 == config1 && d.config2 == config2 && d.config3
            == 0 && d.config == match retprobe_bit {
            Some(bit) => (1u64 << bit) as u64,
            None => 0u64,
        },
{
    let config = match retprobe_bit {
        Some(bit) => {
            if bit >= 64 {
                return None;
            }
            1u64 << bit
        },
        None => 0,
    };
    Some(DynamicPmu { ty, config, config1, config2, config3: 0 })
}

} // verus!
