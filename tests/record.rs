use perf_event_open::parser::{Record, UnsafeParser};
use perf_event_open::record::ksymbol::State;
use perf_event_open::record::{Info, Priv, Switch, Task};
use perf_event_open::sample::{
    parse_data_source, parse_txn, to_entry, Abi, BranchPriv, BranchType, MemLevel2, Weight,
};

fn header(ty: u32, misc: u16, size: u16) -> Vec<u8> {
    let mut h = ty.to_le_bytes().to_vec();
    h.extend_from_slice(&misc.to_le_bytes());
    h.extend_from_slice(&size.to_le_bytes());
    h
}

fn parser(sample_type: u64, sample_id_all: bool) -> UnsafeParser {
    UnsafeParser {
        sample_id_all,
        sample_type,
        read_format: 0,
        user_regs: 0,
        intr_regs: 0,
        branch_sample_type: 0,
    }
}

fn finish(mut r: Vec<u8>) -> Vec<u8> {
    let size = r.len() as u16;
    r[6..8].copy_from_slice(&size.to_le_bytes());
    r
}

#[test]
fn lost_records() {
    let mut r = header(2, 2, 0);
    r.extend_from_slice(&5u64.to_le_bytes());
    r.extend_from_slice(&3u64.to_le_bytes());
    let r = finish(r);
    let (p, rec) = parser(0, false).parse(&r);
    assert_eq!(p, Priv::User);
    match rec {
        Record::LostRecords(x) => {
            assert_eq!(x.id, 5);
            assert_eq!(x.lost_records, 3);
            assert!(x.record_id.is_none());
        }
        _ => panic!("not a lost-records record"),
    }
}

#[test]
fn lost_records_with_trailer() {
    let mut r = header(2, 1, 0);
    r.extend_from_slice(&5u64.to_le_bytes());
    r.extend_from_slice(&3u64.to_le_bytes());
    // sample_id: time, then cpu and reserved
    r.extend_from_slice(&77u64.to_le_bytes());
    r.extend_from_slice(&4u32.to_le_bytes());
    r.extend_from_slice(&0u32.to_le_bytes());
    let r = finish(r);
    let (p, rec) = parser(0x4 | 0x80, true).parse(&r);
    assert_eq!(p, Priv::Kernel);
    match rec {
        Record::LostRecords(x) => {
            let id = x.record_id.unwrap();
            assert_eq!(id.time, Some(77));
            assert_eq!(id.cpu, Some(4));
            assert_eq!(id.task, None);
        }
        _ => panic!("not a lost-records record"),
    }
}

#[test]
fn comm_by_prctl() {
    let mut r = header(3, 0, 0);
    r.extend_from_slice(&10u32.to_le_bytes());
    r.extend_from_slice(&11u32.to_le_bytes());
    r.extend_from_slice(b"foo\0\0\0\0\0");
    let r = finish(r);
    match parser(0, false).parse(&r).1 {
        Record::Comm(x) => {
            assert_eq!(x.comm, b"foo".to_vec());
            assert!(!x.by_execve);
            assert_eq!(x.task, Task { pid: 10, tid: 11 });
        }
        _ => panic!("not a comm record"),
    }
    let mut r2 = r.clone();
    r2[4..6].copy_from_slice(&0x2000u16.to_le_bytes());
    match parser(0, false).parse(&r2).1 {
        Record::Comm(x) => assert!(x.by_execve),
        _ => panic!("not a comm record"),
    }
}

fn mmap_record(misc: u16) -> Vec<u8> {
    let mut r = header(1, misc, 0);
    r.extend_from_slice(&1u32.to_le_bytes());
    r.extend_from_slice(&1u32.to_le_bytes());
    r.extend_from_slice(&0x1000u64.to_le_bytes());
    r.extend_from_slice(&0x2000u64.to_le_bytes());
    r.extend_from_slice(&0u64.to_le_bytes());
    r.extend_from_slice(b"/lib\0\0\0\0");
    finish(r)
}

#[test]
fn mmap_code_and_data() {
    match parser(0, false).parse(&mmap_record(0)).1 {
        Record::Mmap(x) => {
            assert!(x.executable);
            assert_eq!((x.addr, x.len), (0x1000, 0x2000));
            assert_eq!(x.file, b"/lib".to_vec());
            assert!(x.ext.is_none());
        }
        _ => panic!("not an mmap record"),
    }
    match parser(0, false).parse(&mmap_record(0x2000)).1 {
        Record::Mmap(x) => assert!(!x.executable),
        _ => panic!("not an mmap record"),
    }
}

#[test]
fn mmap2_with_build_id() {
    let mut r = header(10, 0x4000 | 2, 0);
    r.extend_from_slice(&1u32.to_le_bytes());
    r.extend_from_slice(&2u32.to_le_bytes());
    r.extend_from_slice(&0x1000u64.to_le_bytes());
    r.extend_from_slice(&0x2000u64.to_le_bytes());
    r.extend_from_slice(&0u64.to_le_bytes());
    let mut id = [0u8; 24];
    id[0] = 3;
    id[4..7].copy_from_slice(&[0xab, 0xcd, 0xef]);
    r.extend_from_slice(&id);
    r.extend_from_slice(&5u32.to_le_bytes());
    r.extend_from_slice(&2u32.to_le_bytes());
    r.extend_from_slice(b"x\0\0\0\0\0\0\0");
    let r = finish(r);
    match parser(0, false).parse(&r).1 {
        Record::Mmap(x) => {
            let ext = x.ext.expect("mmap2 extension");
            assert_eq!((ext.prot, ext.flags), (5, 2));
            match ext.info {
                Info::BuildId(id) => assert_eq!(&id[..], &[0xab, 0xcd, 0xef]),
                _ => panic!("expected a build id"),
            }
            assert_eq!(x.file, b"x".to_vec());
        }
        _ => panic!("not an mmap record"),
    }
}

#[test]
fn unknown_and_cut_short_records_keep_their_bytes() {
    let r = finish(header(99, 0, 0));
    match parser(0, false).parse(&r).1 {
        Record::Unknown(b) => assert_eq!(b, r),
        _ => panic!("expected raw bytes"),
    }
    let mut r = header(2, 0, 0);
    r.extend_from_slice(&5u64.to_le_bytes());
    let r = finish(r);
    match parser(0, false).parse(&r).1 {
        Record::Unknown(b) => assert_eq!(b, r),
        _ => panic!("expected raw bytes"),
    }
    let (p, rec) = parser(0, false).parse(&[1, 2, 3]);
    assert_eq!(p, Priv::Unknown);
    assert!(matches!(rec, Record::Unknown(_)));
}

#[test]
fn sample_fields_follow_sample_type() {
    // ip | tid | period
    let mut r = header(9, 0x4000 | 2, 0);
    r.extend_from_slice(&0xdeadu64.to_le_bytes());
    r.extend_from_slice(&1u32.to_le_bytes());
    r.extend_from_slice(&2u32.to_le_bytes());
    r.extend_from_slice(&1000u64.to_le_bytes());
    let r = finish(r);
    match parser(0x1 | 0x2 | 0x100, false).parse(&r).1 {
        Record::Sample(s) => {
            assert_eq!(s.code_addr, Some((0xdead, true)));
            assert_eq!(s.record_id.task, Some(Task { pid: 1, tid: 2 }));
            assert_eq!(s.period, Some(1000));
            assert_eq!(s.record_id.time, None);
            assert!(s.call_chain.is_none());
        }
        _ => panic!("not a sample"),
    }
}

#[test]
fn sample_call_chain_and_raw() {
    // callchain | raw
    let mut r = header(9, 2, 0);
    r.extend_from_slice(&2u64.to_le_bytes());
    r.extend_from_slice(&10u64.to_le_bytes());
    r.extend_from_slice(&20u64.to_le_bytes());
    r.extend_from_slice(&4u32.to_le_bytes());
    r.extend_from_slice(&[1, 2, 3, 4]);
    let r = finish(r);
    match parser(0x20 | 0x400, false).parse(&r).1 {
        Record::Sample(s) => {
            assert_eq!(s.call_chain, Some(vec![10, 20]));
            assert_eq!(s.raw, Some(vec![1, 2, 3, 4]));
        }
        _ => panic!("not a sample"),
    }
}

#[test]
fn context_switch_out() {
    let mut r = header(15, 0x2000 | 0x4000, 0);
    r.extend_from_slice(&3u32.to_le_bytes());
    r.extend_from_slice(&4u32.to_le_bytes());
    let r = finish(r);
    match parser(0, false).parse(&r).1 {
        Record::CtxSwitch(x) => assert_eq!(
            x.info,
            Switch::OutTo { task: Some(Task { pid: 3, tid: 4 }), preempt: true }
        ),
        _ => panic!("not a switch record"),
    }
}

#[test]
fn ksymbol_unregister() {
    let mut r = header(17, 0, 0);
    r.extend_from_slice(&0xffffu64.to_le_bytes());
    r.extend_from_slice(&64u32.to_le_bytes());
    r.extend_from_slice(&1u16.to_le_bytes());
    r.extend_from_slice(&1u16.to_le_bytes());
    r.extend_from_slice(b"bpf\0\0\0\0\0");
    let r = finish(r);
    match parser(0, false).parse(&r).1 {
        Record::Ksymbol(x) => {
            assert_eq!(x.state, State::Unreg);
            assert_eq!(x.name, b"bpf".to_vec());
            assert_eq!(x.len, 64);
        }
        _ => panic!("not a ksymbol record"),
    }
}

#[test]
fn word_decoders() {
    let ds = parse_data_source(0x2 | (0x8 << 5) | (2u64 << 33));
    assert!(ds.op.load);
    assert!(!ds.op.store);
    assert!(ds.level.l1);
    assert_eq!(ds.level2, MemLevel2::L2);
    let e = to_entry(1, 2, 1 | (6 << 20) | (1 << 30), None);
    assert!(e.mis);
    assert!(!e.pred);
    assert_eq!(e.branch_type, BranchType::Ret);
    assert_eq!(e.branch_priv, BranchPriv::User);
    let e = to_entry(1, 2, (15 << 20) | (1 << 26), Some(9));
    assert_eq!(e.branch_type, BranchType::DataFault);
    assert_eq!(e.counter, Some(9));
    let t = parse_txn(0x0000_0005_0000_0003);
    assert!(t.elision && t.tx && !t.retry);
    assert_eq!(t.code, 5);
}

#[test]
fn sample_closing_fields() {
    let mut r = header(9, 2, 0);
    // branch stack: nr, hw index, one entry
    for w in [1u64, 7, 0x10, 0x20, 1 | (6 << 20)] {
        r.extend_from_slice(&w.to_le_bytes());
    }
    // user registers with an ABI this library does not know
    for w in [9u64, 5, 6] {
        r.extend_from_slice(&w.to_le_bytes());
    }
    // user stack: 8 bytes dumped, 3 of them valid
    r.extend_from_slice(&8u64.to_le_bytes());
    r.extend_from_slice(&[1, 2, 3, 4, 5, 6, 7, 8]);
    r.extend_from_slice(&3u64.to_le_bytes());
    // weight as three fields
    r.extend_from_slice(&0x11u32.to_le_bytes());
    r.extend_from_slice(&2u16.to_le_bytes());
    r.extend_from_slice(&3u16.to_le_bytes());
    // data source, transaction
    r.extend_from_slice(&0x2u64.to_le_bytes());
    r.extend_from_slice(&0x3u64.to_le_bytes());
    // aux
    r.extend_from_slice(&2u64.to_le_bytes());
    r.extend_from_slice(&[9, 8]);
    let r = finish(r);
    let p = UnsafeParser {
        sample_id_all: false,
        sample_type: 0x800 | 0x1000 | 0x2000 | (1 << 24) | 0x8000 | 0x20000 | 0x100000,
        read_format: 0,
        user_regs: 2,
        intr_regs: 0,
        branch_sample_type: 1 << 17,
    };
    match p.parse(&r).1 {
        Record::Sample(s) => {
            let lbr = s.lbr.as_ref().unwrap();
            assert_eq!(lbr.hw_index, Some(7));
            assert_eq!(lbr.entries.len(), 1);
            assert_eq!((lbr.entries[0].from, lbr.entries[0].to), (0x10, 0x20));
            assert!(lbr.entries[0].mis);
            assert_eq!(lbr.entries[0].branch_type, BranchType::Ret);
            assert_eq!(lbr.entries[0].counter, None);
            let (regs, abi) = s.user_regs.as_ref().unwrap();
            assert_eq!(regs, &vec![5, 6]);
            assert_eq!(*abi, Abi::Unknown);
            assert_eq!(s.user_stack, Some(vec![1, 2, 3]));
            assert_eq!(s.weight, Some(Weight::Vars { var1: 0x11, var2: 2, var3: 3 }));
            assert!(s.data_source.unwrap().op.load);
            assert!(s.txn.unwrap().tx);
            assert_eq!(s.aux, Some(vec![9, 8]));
            assert!(s.intr_regs.is_none());
        }
        _ => panic!("not a sample"),
    }
    // one byte short of the aux data: kept raw
    let mut cut = r[..r.len() - 1].to_vec();
    let n = cut.len() as u16;
    cut[6..8].copy_from_slice(&n.to_le_bytes());
    assert!(matches!(p.parse(&cut).1, Record::Unknown(_)));
}

#[test]
fn sample_with_empty_branch_stack_and_no_regs() {
    let mut r = header(9, 2, 0);
    r.extend_from_slice(&0u64.to_le_bytes());
    r.extend_from_slice(&0u64.to_le_bytes());
    let r = finish(r);
    match parser(0x800 | 0x1000, false).parse(&r).1 {
        Record::Sample(s) => {
            assert!(s.lbr.is_none());
            assert!(s.user_regs.is_none());
        }
        _ => panic!("not a sample"),
    }
}
