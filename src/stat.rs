//! Counter statistics: the payload of `read()` on a counter, whose layout
//! `read_format` decides.
use vstd::prelude::*;

use crate::bytes::{le_at, read_le};
use crate::config::has_bit;
use crate::uapi as b;

verus! {

/// A counter's statistics. With group statistics, `siblings` follow the leader
/// in the order they joined the group.
#[derive(Clone, Debug)]
pub struct Stat {
    pub count: u64,
    pub id: Option<u64>,
    pub time_enabled: Option<u64>,
    pub time_running: Option<u64>,
    pub lost_records: Option<u64>,
    pub siblings: Vec<SiblingStat>,
}

/// The statistics of one group member.
#[derive(Clone, Copy, Debug, PartialEq, Eq, Structural)]
pub struct SiblingStat {
    pub count: u64,
    pub id: Option<u64>,
    pub lost_records: Option<u64>,
}

/// 8 when `on`, else 0: the room of an optional `u64`.
pub open spec fn w(on: bool) -> int {
    if on {
        8
    } else {
        0
    }
}

/// The `u64` at `p`, when `on`.
pub open spec fn opt_at(s: Seq<u8>, p: int, on: bool) -> Option<u64> {
    if on {
        Some(le_at(s, p, 8) as u64)
    } else {
        None
    }
}

/// The room of one group member: value, then id and lost count when asked for.
pub open spec fn member_len(rf: u64) -> int {
    8 + w(has_bit(rf, b::PERF_FORMAT_ID)) + w(has_bit(rf, b::PERF_FORMAT_LOST))
}

/// The room before the first group member, or before the id of a lone counter.
pub open spec fn head_len(rf: u64) -> int {
    8 + w(has_bit(rf, b::PERF_FORMAT_TOTAL_TIME_ENABLED)) + w(has_bit(rf, b::PERF_FORMAT_TOTAL_TIME_RUNNING))
}

/// The group member whose value is at `p`.
pub open spec fn member_at(s: Seq<u8>, p: int, rf: u64) -> SiblingStat {
    SiblingStat {
        count: le_at(s, p, 8) as u64,
        id: opt_at(s, p + 8, has_bit(rf, b::PERF_FORMAT_ID)),
        lost_records: opt_at(s, p + 8 + w(has_bit(rf, b::PERF_FORMAT_ID)), has_bit(rf, b::PERF_FORMAT_LOST)),
    }
}

pub open spec fn is_group(rf: u64) -> bool {
    has_bit(rf, b::PERF_FORMAT_GROUP)
}

/// The number of members that a group payload at `pos` announces.
pub open spec fn nr_at(s: Seq<u8>, pos: int) -> int {
    le_at(s, pos, 8) as int
}

/// The length of the payload at `pos`.
pub open spec fn stat_len(s: Seq<u8>, pos: int, rf: u64) -> int {
    if is_group(rf) {
        head_len(rf) + nr_at(s, pos) * member_len(rf)
    } else {
        head_len(rf) + w(has_bit(rf, b::PERF_FORMAT_ID)) + w(has_bit(rf, b::PERF_FORMAT_LOST))
    }
}

/// Whether a whole payload lies at `pos`: a group payload names at least its leader.
pub open spec fn stat_fits(s: Seq<u8>, pos: int, rf: u64) -> bool {
    &&& pos + 8 <= s.len()
    &&& is_group(rf) ==> nr_at(s, pos) >= 1
    &&& pos + stat_len(s, pos, rf) <= s.len()
}

impl Stat {
    /// What the payload at `pos` says, field by field.
    pub open spec fn decodes(self, s: Seq<u8>, pos: int, rf: u64) -> bool {
        let te = has_bit(rf, b::PERF_FORMAT_TOTAL_TIME_ENABLED);
        let tr = has_bit(rf, b::PERF_FORMAT_TOTAL_TIME_RUNNING);
        let id = has_bit(rf, b::PERF_FORMAT_ID);
        let lost = has_bit(rf, b::PERF_FORMAT_LOST);
        &&& self.time_enabled == opt_at(s, pos + 8, te)
        &&& self.time_running == opt_at(s, pos + 8 + w(te), tr)
        &&& if is_group(rf) {
            let base = pos + head_len(rf);
            let m = member_at(s, base, rf);
            &&& self.count == m.count
            &&& self.id == m.id
            &&& self.lost_records == m.lost_records
            &&& self.siblings@.len() == nr_at(s, pos) - 1
            &&& forall|i: int|
                0 <= i < self.siblings@.len() ==> #[trigger] self.siblings@[i] == member_at(
                    s,
                    base + (i + 1) * member_len(rf),
                    rf,
                )
        } else {
            &&& self.count == le_at(s, pos, 8)
            &&& self.id == opt_at(s, pos + head_len(rf), id)
            &&& self.lost_records == opt_at(s, pos + head_len(rf) + w(id), lost)
            &&& self.siblings@.len() == 0
        }
    }

    /// The size of the buffer that a `read()` of a counter needs, for a group of
    /// `group_size` members.
    pub open spec fn spec_read_buf_size(group_size: int, rf: u64) -> int {
        8 + w(has_bit(rf, b::PERF_FORMAT_TOTAL_TIME_ENABLED)) + w(has_bit(rf, b::PERF_FORMAT_TOTAL_TIME_RUNNING))
            + if is_group(rf) {
            group_size * member_len(rf)
        } else {
            8 + w(has_bit(rf, b::PERF_FORMAT_ID)) + w(has_bit(rf, b::PERF_FORMAT_LOST))
        }
    }

    pub fn read_buf_size(group_size: usize, read_format: u64) -> (r: usize)
        requires
            group_size <= (usize::MAX - 24) / 24,
        ensures
            r == Self::spec_read_buf_size(group_size as int, read_format),
    {
        let id = read_format & b::PERF_FORMAT_ID != 0;
        let lost = read_format & b::PERF_FORMAT_LOST != 0;
        let mut size: usize = 8;
        if read_format & b::PERF_FORMAT_TOTAL_TIME_ENABLED != 0 {
            size = size + 8;
        }
        if read_format & b::PERF_FORMAT_TOTAL_TIME_RUNNING != 0 {
            size = size + 8;
        }
        let member: usize = 8 + (if id {
            8
        } else {
            0
        }) + (if lost {
            8
        } else {
            0
        });
        if read_format & b::PERF_FORMAT_GROUP != 0 {
            assert(group_size * member <= group_size * 24) by (nonlinear_arith)
                requires
                    member <= 24,
            ;
            size + group_size * member
        } else {
            size + member
        }
    }

    /// Decodes the payload at `pos`, returning it and where it ends; `None`
    /// when the bytes hold no whole payload.
    pub fn from_bytes(buf: &[u8], pos: usize, read_format: u64) -> (r: Option<(Stat, usize)>)
        ensures
            r is None <==> !stat_fits(buf@, pos as int, read_format),
            r matches Some((st, end)) ==> end == pos + stat_len(buf@, pos as int, read_format)
                && st.decodes(buf@, pos as int, read_format),
    {
        let rf = read_format;
        let len = buf.len();
        assert(len == buf@.len());
        if pos > len || len - pos < 8 {
            return None;
        }
        let te = rf & b::PERF_FORMAT_TOTAL_TIME_ENABLED != 0;
        let tr = rf & b::PERF_FORMAT_TOTAL_TIME_RUNNING != 0;
        let id = rf & b::PERF_FORMAT_ID != 0;
        let lost = rf & b::PERF_FORMAT_LOST != 0;
        let head: usize = 8 + (if te {
            8
        } else {
            0
        }) + (if tr {
            8
        } else {
            0
        });
        let m: usize = 8 + (if id {
            8
        } else {
            0
        }) + (if lost {
            8
        } else {
            0
        });
        let first = read_le(buf, pos, 8);
        if rf & b::PERF_FORMAT_GROUP == 0 {
            let need: usize = head + m - 8;
            if len - pos < need {
                return None;
            }
            let stat = Stat {
                count: first,
                time_enabled: if te {
                    Some(read_le(buf, pos + 8, 8))
                } else {
                    None
                },
                time_running: if tr {
                    Some(read_le(buf, pos + 8 + (head - 8 - 8 * (tr as usize)), 8))
                } else {
                    None
                },
                id: if id {
                    Some(read_le(buf, pos + head, 8))
                } else {
                    None
                },
                lost_records: if lost {
                    Some(read_le(buf, pos + head + (m - 8 - 8 * (lost as usize)), 8))
                } else {
                    None
                },
                siblings: Vec::new(),
            };
            return Some((stat, pos + need));
        }
        let nr = first;
        if len - pos < head {
            proof {
                assert(nr * member_len(rf) >= 0) by (nonlinear_arith)
                    requires
                        member_len(rf) >= 8,
                ;
            }
            return None;
        }
        if nr == 0 || nr > usize::MAX as u64 || (len - pos - head) / m < nr as usize {
            proof {
                if nr > usize::MAX as u64 {
                    assert(nr as int * m >= nr as int) by (nonlinear_arith)
                        requires
                            m > 0,
                    ;
                }
                if nr > 0 && nr <= usize::MAX as u64 {
                    let q = (len - pos - head) as int / m as int;
                    assert((len - pos - head) < (q + 1) * m) by (nonlinear_arith)
                        requires
                            q == (len - pos - head) as int / m as int,
                            m > 0,
                    ;
                    assert(nr as int * m >= (q + 1) * m) by (nonlinear_arith)
                        requires
                            nr as int >= q + 1,
                            m > 0,
                    ;
                }
            }
            return None;
        }
        let nr = nr as usize;
        proof {
            let q = (len - pos - head) as int / m as int;
            assert(q * m <= (len - pos - head)) by (nonlinear_arith)
                requires
                    q == (len - pos - head) as int / m as int,
                    m > 0,
            ;
            assert(nr * m <= q * m) by (nonlinear_arith)
                requires
                    nr <= q,
                    m >= 0,
            ;
        }
        let base = pos + head;
        let leader = Self::member(buf, base, id, lost);
        let mut siblings: Vec<SiblingStat> = Vec::new();
        let mut i: usize = 1;
        while i < nr
            invariant
                1 <= i <= nr,
                base == pos + head_len(rf),
                m == member_len(rf),
                id == has_bit(rf, b::PERF_FORMAT_ID),
                lost == has_bit(rf, b::PERF_FORMAT_LOST),
                base + nr * m <= buf@.len(),
                buf@.len() <= usize::MAX,
                siblings@.len() == i - 1,
                forall|k: int|
                    0 <= k < siblings@.len() ==> #[trigger] siblings@[k] == member_at(
                        buf@,
                        base + (k + 1) * m,
                        rf,
                    ),
            decreases nr - i,
        {
            proof {
                assert(i * m <= nr * m) by (nonlinear_arith)
                    requires
                        i <= nr,
                        m >= 0,
                ;
                assert((i + 1) * m <= nr * m) by (nonlinear_arith)
                    requires
                        i + 1 <= nr,
                        m >= 0,
                ;
                assert(i * m + m == (i + 1) * m) by (nonlinear_arith);
            }
            let s = Self::member(buf, base + i * m, id, lost);
            siblings.push(s);
            i = i + 1;
        }
        let stat = Stat {
            count: leader.count,
            id: leader.id,
            time_enabled: if te {
                Some(read_le(buf, pos + 8, 8))
            } else {
                None
            },
            time_running: if tr {
                Some(read_le(buf, pos + head - 8, 8))
            } else {
                None
            },
            lost_records: leader.lost_records,
            siblings,
        };
        Some((stat, base + nr * m))
    }

    fn member(buf: &[u8], p: usize, id: bool, lost: bool) -> (r: SiblingStat)
        requires
            p + 8 + w(id) + w(lost) <= buf@.len(),
        ensures
            r.count == le_at(buf@, p as int, 8),
            r.id == opt_at(buf@, p + 8, id),
            r.lost_records == opt_at(buf@, p + 8 + w(id), lost),
    {
        let len = buf.len();
        assert(p + 8 + w(id) + w(lost) <= len);
        SiblingStat {
            count: read_le(buf, p, 8),
            id: if id {
                Some(read_le(buf, p + 8, 8))
            } else {
                None
            },
            lost_records: if lost {
                Some(read_le(buf, p + 8 + (if id {
                    8
                } else {
                    0
                }), 8))
            } else {
                None
            },
        }
    }
}

/// With group statistics and ids, the buffer of a leader with `k` siblings holds
/// `8 + 2·8 + (k+1)·16` bytes when both times are asked for.
pub proof fn lemma_group_read_buf_size(k: int, rf: u64)
    requires
        k >= 0,
        has_bit(rf, b::PERF_FORMAT_GROUP),
        has_bit(rf, b::PERF_FORMAT_ID),
        !has_bit(rf, b::PERF_FORMAT_LOST),
        has_bit(rf, b::PERF_FORMAT_TOTAL_TIME_ENABLED),
        has_bit(rf, b::PERF_FORMAT_TOTAL_TIME_RUNNING),
    ensures
        Stat::spec_read_buf_size(k + 1, rf) == 8 + 2 * 8 + (k + 1) * 16,
{
}

} // verus!
