//! The sample record: up to about twenty optional fields, in the order the
//! kernel writes them, each present when its `sample_type` bit is set.
use vstd::prelude::*;

use crate::bytes::{le_at, lemma_pow256_8, read_le};
use crate::config::has_bit;
use crate::record::{align8, align8_exec, rd, task_at, RecordId, Task};
use crate::stat::{opt_at, stat_fits, stat_len, w, Stat};
use crate::uapi as b;

verus! {

/// A sample.
#[derive(Clone, Debug)]
pub struct Sample {
    pub record_id: RecordId,
    pub stat: Option<Stat>,
    pub period: Option<u64>,
    pub cgroup: Option<u64>,
    pub call_chain: Option<Vec<u64>>,
    pub user_stack: Option<Vec<u8>>,
    pub data_addr: Option<u64>,
    pub data_phys_addr: Option<u64>,
    pub data_page_size: Option<u64>,
    pub data_source: Option<DataSource>,
    /// The instruction address, and whether it is exact.
    pub code_addr: Option<(u64, bool)>,
    pub code_page_size: Option<u64>,
    pub user_regs: Option<(Vec<u64>, Abi)>,
    pub intr_regs: Option<(Vec<u64>, Abi)>,
    pub raw: Option<Vec<u8>>,
    pub lbr: Option<Lbr>,
    pub aux: Option<Vec<u8>>,
    pub txn: Option<Txn>,
    pub weight: Option<Weight>,
}

/// Last branch records.
#[derive(Clone, Debug)]
pub struct Lbr {
    pub hw_index: Option<u64>,
    pub entries: Vec<Entry>,
}

/// One branch.
#[derive(Clone, Copy, Debug, PartialEq, Eq, Structural)]
pub struct Entry {
    pub from: u64,
    pub to: u64,
    pub mis: bool,
    pub pred: bool,
    pub in_tx: bool,
    pub abort: bool,
    pub cycles: u16,
    pub branch_type: BranchType,
    pub branch_spec: BranchSpec,
    pub branch_priv: BranchPriv,
    pub counter: Option<u64>,
}

#[derive(Clone, Copy, Debug, PartialEq, Eq, Structural)]
pub enum BranchType {
    Unknown,
    Cond,
    Uncond,
    Ind,
    Call,
    IndCall,
    Ret,
    Syscall,
    Sysret,
    CondCall,
    CondRet,
    Eret,
    Irq,
    SysErr,
    NoTx,
    DataFault,
    AlignFault,
    InstrFault,
    Arch1,
    Arch2,
    Arch3,
    Arch4,
    Arch5,
}

#[derive(Clone, Copy, Debug, PartialEq, Eq, Structural)]
pub enum BranchSpec {
    Na,
    Wrong,
    Correct,
    NoSpecCorrect,
}

#[derive(Clone, Copy, Debug, PartialEq, Eq, Structural)]
pub enum BranchPriv {
    Unknown,
    User,
    Kernel,
    Hv,
}

#[derive(Clone, Copy, Debug, PartialEq, Eq, Structural)]
pub enum Weight {
    Full(u64),
    Vars { var1: u32, var2: u16, var3: u16 },
}

/// Transaction flags and abort code.
#[derive(Clone, Copy, Debug, PartialEq, Eq, Structural)]
pub struct Txn {
    pub elision: bool,
    pub tx: bool,
    pub is_sync: bool,
    pub is_async: bool,
    pub retry: bool,
    pub conflict: bool,
    pub capacity_read: bool,
    pub capacity_write: bool,
    pub code: u32,
}

/// The register set's ABI.
#[derive(Clone, Copy, Debug, PartialEq, Eq, Structural)]
pub enum Abi {
    _32,
    _64,
    /// An ABI this library does not know; the registers are still read.
    Unknown,
}

#[derive(Clone, Copy, Debug, PartialEq, Eq, Structural)]
pub struct DataSource {
    pub op: MemOp,
    pub level: MemLevel,
    pub snoop: MemSnoop,
    pub lock: MemLock,
    pub tlb: MemTlb,
    pub level2: MemLevel2,
    pub remote: bool,
    pub block: MemBlock,
    pub hops: MemHop,
}

#[derive(Clone, Copy, Debug, PartialEq, Eq, Structural)]
pub struct MemOp {
    pub na: bool,
    pub load: bool,
    pub store: bool,
    pub prefetch: bool,
    pub execute: bool,
}

#[derive(Clone, Copy, Debug, PartialEq, Eq, Structural)]
pub struct MemLevel {
    pub na: bool,
    pub hit: bool,
    pub miss: bool,
    pub l1: bool,
    pub lfb: bool,
    pub l2: bool,
    pub l3: bool,
    pub loc_ram: bool,
    pub rem_ram1: bool,
    pub rem_ram2: bool,
    pub rem_cce1: bool,
    pub rem_cce2: bool,
    pub io: bool,
    pub unc: bool,
}

#[derive(Clone, Copy, Debug, PartialEq, Eq, Structural)]
pub struct MemSnoop {
    pub na: bool,
    pub none: bool,
    pub hit: bool,
    pub miss: bool,
    pub hit_m: bool,
    pub fwd: bool,
    pub peer: bool,
}

#[derive(Clone, Copy, Debug, PartialEq, Eq, Structural)]
pub struct MemLock {
    pub na: bool,
    pub locked: bool,
}

#[derive(Clone, Copy, Debug, PartialEq, Eq, Structural)]
pub struct MemTlb {
    pub na: bool,
    pub hit: bool,
    pub miss: bool,
    pub l1: bool,
    pub l2: bool,
    pub walker: bool,
    pub fault: bool,
}

#[derive(Clone, Copy, Debug, PartialEq, Eq, Structural)]
pub enum MemLevel2 {
    L1,
    L2,
    L3,
    L4,
    L2Mhb,
    Msc,
    Unc,
    Cxl,
    Io,
    AnyCache,
    Lfb,
    Ram,
    Pmem,
    Na,
    Unknown,
}

#[derive(Clone, Copy, Debug, PartialEq, Eq, Structural)]
pub struct MemBlock {
    pub na: bool,
    pub data: bool,
    pub addr: bool,
}

#[derive(Clone, Copy, Debug, PartialEq, Eq, Structural)]
pub enum MemHop {
    Core,
    Node,
    Socket,
    Board,
    Unknown,
}

/// Whether field `f` of the data source is set, the field starting at `shift`.
pub open spec fn at(bits: u64, shift: u64, f: u64) -> bool {
    (bits >> shift) & f != 0
}

pub open spec fn level2_of(v: u64) -> MemLevel2 {
    if v == b::PERF_MEM_LVLNUM_L1 {
        MemLevel2::L1
    } else if v == b::PERF_MEM_LVLNUM_L2 {
        MemLevel2::L2
    } else if v == b::PERF_MEM_LVLNUM_L3 {
        MemLevel2::L3
    } else if v == b::PERF_MEM_LVLNUM_L4 {
        MemLevel2::L4
    } else if v == b::PERF_MEM_LVLNUM_L2_MHB {
        MemLevel2::L2Mhb
    } else if v == b::PERF_MEM_LVLNUM_MSC {
        MemLevel2::Msc
    } else if v == b::PERF_MEM_LVLNUM_UNC {
        MemLevel2::Unc
    } else if v == b::PERF_MEM_LVLNUM_CXL {
        MemLevel2::Cxl
    } else if v == b::PERF_MEM_LVLNUM_IO {
        MemLevel2::Io
    } else if v == b::PERF_MEM_LVLNUM_ANY_CACHE {
        MemLevel2::AnyCache
    } else if v == b::PERF_MEM_LVLNUM_LFB {
        MemLevel2::Lfb
    } else if v == b::PERF_MEM_LVLNUM_RAM {
        MemLevel2::Ram
    } else if v == b::PERF_MEM_LVLNUM_PMEM {
        MemLevel2::Pmem
    } else if v == b::PERF_MEM_LVLNUM_NA {
        MemLevel2::Na
    } else {
        MemLevel2::Unknown
    }
}

pub open spec fn hop_of(v: u64) -> MemHop {
    if v == b::PERF_MEM_HOPS_0 {
        MemHop::Core
    } else if v == b::PERF_MEM_HOPS_1 {
        MemHop::Node
    } else if v == b::PERF_MEM_HOPS_2 {
        MemHop::Socket
    } else if v == b::PERF_MEM_HOPS_3 {
        MemHop::Board
    } else {
        MemHop::Unknown
    }
}

/// The data source that a `data_src` word encodes, subfield by subfield.
pub open spec fn data_source_of(bits: u64) -> DataSource {
    let lvl = b::PERF_MEM_LVL_SHIFT;
    let snoop = b::PERF_MEM_SNOOP_SHIFT;
    let snoopx = b::PERF_MEM_SNOOPX_SHIFT;
    let lock = b::PERF_MEM_LOCK_SHIFT;
    let tlb = b::PERF_MEM_TLB_SHIFT;
    let blk = b::PERF_MEM_BLK_SHIFT;
    DataSource {
        op: MemOp {
            na: at(bits, 0, b::PERF_MEM_OP_NA),
            load: at(bits, 0, b::PERF_MEM_OP_LOAD),
            store: at(bits, 0, b::PERF_MEM_OP_STORE),
            prefetch: at(bits, 0, b::PERF_MEM_OP_PFETCH),
            execute: at(bits, 0, b::PERF_MEM_OP_EXEC),
        },
        level: MemLevel {
            na: at(bits, lvl, b::PERF_MEM_LVL_NA),
            hit: at(bits, lvl, b::PERF_MEM_LVL_HIT),
            miss: at(bits, lvl, b::PERF_MEM_LVL_MISS),
            l1: at(bits, lvl, b::PERF_MEM_LVL_L1),
            lfb: at(bits, lvl, b::PERF_MEM_LVL_LFB),
            l2: at(bits, lvl, b::PERF_MEM_LVL_L2),
            l3: at(bits, lvl, b::PERF_MEM_LVL_L3),
            loc_ram: at(bits, lvl, b::PERF_MEM_LVL_LOC_RAM),
            rem_ram1: at(bits, lvl, b::PERF_MEM_LVL_REM_RAM1),
            rem_ram2: at(bits, lvl, b::PERF_MEM_LVL_REM_RAM2),
            rem_cce1: at(bits, lvl, b::PERF_MEM_LVL_REM_CCE1),
            rem_cce2: at(bits, lvl, b::PERF_MEM_LVL_REM_CCE2),
            io: at(bits, lvl, b::PERF_MEM_LVL_IO),
            unc: at(bits, lvl, b::PERF_MEM_LVL_UNC),
        },
        snoop: MemSnoop {
            na: at(bits, snoop, b::PERF_MEM_SNOOP_NA),
            none: at(bits, snoop, b::PERF_MEM_SNOOP_NONE),
            hit: at(bits, snoop, b::PERF_MEM_SNOOP_HIT),
            miss: at(bits, snoop, b::PERF_MEM_SNOOP_MISS),
            hit_m: at(bits, snoop, b::PERF_MEM_SNOOP_HITM),
            fwd: at(bits, snoopx, b::PERF_MEM_SNOOPX_FWD),
            peer: at(bits, snoopx, b::PERF_MEM_SNOOPX_PEER),
        },
        lock: MemLock {
            na: at(bits, lock, b::PERF_MEM_LOCK_NA),
            locked: at(bits, lock, b::PERF_MEM_LOCK_LOCKED),
        },
        tlb: MemTlb {
            na: at(bits, tlb, b::PERF_MEM_TLB_NA),
            hit: at(bits, tlb, b::PERF_MEM_TLB_HIT),
            miss: at(bits, tlb, b::PERF_MEM_TLB_MISS),
            l1: at(bits, tlb, b::PERF_MEM_TLB_L1),
            l2: at(bits, tlb, b::PERF_MEM_TLB_L2),
            walker: at(bits, tlb, b::PERF_MEM_TLB_WK),
            fault: at(bits, tlb, b::PERF_MEM_TLB_OS),
        },
        level2: level2_of((bits >> b::PERF_MEM_LVLNUM_SHIFT) & 0xf),
        remote: (bits >> b::PERF_MEM_REMOTE_SHIFT) & 1 != 0,
        block: MemBlock {
            na: at(bits, blk, b::PERF_MEM_BLK_NA),
            data: at(bits, blk, b::PERF_MEM_BLK_DATA),
            addr: at(bits, blk, b::PERF_MEM_BLK_ADDR),
        },
        hops: hop_of((bits >> b::PERF_MEM_HOPS_SHIFT) & 0x7),
    }
}

fn at_exec(bits: u64, shift: u64, f: u64) -> (r: bool)
    requires
        shift < 64,
    ensures
        r == at(bits, shift, f),
{
    (bits >> shift) & f != 0
}

fn level2_exec(l2: u64) -> (r: MemLevel2)
    ensures
        r == level2_of(l2),
{
    if l2 == b::PERF_MEM_LVLNUM_L1 {
        MemLevel2::L1
    } else if l2 == b::PERF_MEM_LVLNUM_L2 {
        MemLevel2::L2
    } else if l2 == b::PERF_MEM_LVLNUM_L3 {
        MemLevel2::L3
    } else if l2 == b::PERF_MEM_LVLNUM_L4 {
        MemLevel2::L4
    } else if l2 == b::PERF_MEM_LVLNUM_L2_MHB {
        MemLevel2::L2Mhb
    } else if l2 == b::PERF_MEM_LVLNUM_MSC {
        MemLevel2::Msc
    } else if l2 == b::PERF_MEM_LVLNUM_UNC {
        MemLevel2::Unc
    } else if l2 == b::PERF_MEM_LVLNUM_CXL {
        MemLevel2::Cxl
    } else if l2 == b::PERF_MEM_LVLNUM_IO {
        MemLevel2::Io
    } else if l2 == b::PERF_MEM_LVLNUM_ANY_CACHE {
        MemLevel2::AnyCache
    } else if l2 == b::PERF_MEM_LVLNUM_LFB {
        MemLevel2::Lfb
    } else if l2 == b::PERF_MEM_LVLNUM_RAM {
        MemLevel2::Ram
    } else if l2 == b::PERF_MEM_LVLNUM_PMEM {
        MemLevel2::Pmem
    } else if l2 == b::PERF_MEM_LVLNUM_NA {
        MemLevel2::Na
    } else {
        MemLevel2::Unknown
    }
}

fn hop_exec(h: u64) -> (r: MemHop)
    ensures
        r == hop_of(h),
{
    if h == b::PERF_MEM_HOPS_0 {
        MemHop::Core
    } else if h == b::PERF_MEM_HOPS_1 {
        MemHop::Node
    } else if h == b::PERF_MEM_HOPS_2 {
        MemHop::Socket
    } else if h == b::PERF_MEM_HOPS_3 {
        MemHop::Board
    } else {
        MemHop::Unknown
    }
}

pub fn parse_data_source(bits: u64) -> (r: DataSource)
    ensures
        r == data_source_of(bits),
{
    let lvl = b::PERF_MEM_LVL_SHIFT;
    let snoop = b::PERF_MEM_SNOOP_SHIFT;
    let snoopx = b::PERF_MEM_SNOOPX_SHIFT;
    let lock = b::PERF_MEM_LOCK_SHIFT;
    let tlb = b::PERF_MEM_TLB_SHIFT;
    let blk = b::PERF_MEM_BLK_SHIFT;
    let level2 = level2_exec((bits >> b::PERF_MEM_LVLNUM_SHIFT) & 0xf);
    let hops = hop_exec((bits >> b::PERF_MEM_HOPS_SHIFT) & 0x7);
    DataSource {
        op: MemOp {
            na: at_exec(bits, 0, b::PERF_MEM_OP_NA),
            load: at_exec(bits, 0, b::PERF_MEM_OP_LOAD),
            store: at_exec(bits, 0, b::PERF_MEM_OP_STORE),
            prefetch: at_exec(bits, 0, b::PERF_MEM_OP_PFETCH),
            execute: at_exec(bits, 0, b::PERF_MEM_OP_EXEC),
        },
        level: MemLevel {
            na: at_exec(bits, lvl, b::PERF_MEM_LVL_NA),
            hit: at_exec(bits, lvl, b::PERF_MEM_LVL_HIT),
            miss: at_exec(bits, lvl, b::PERF_MEM_LVL_MISS),
            l1: at_exec(bits, lvl, b::PERF_MEM_LVL_L1),
            lfb: at_exec(bits, lvl, b::PERF_MEM_LVL_LFB),
            l2: at_exec(bits, lvl, b::PERF_MEM_LVL_L2),
            l3: at_exec(bits, lvl, b::PERF_MEM_LVL_L3),
            loc_ram: at_exec(bits, lvl, b::PERF_MEM_LVL_LOC_RAM),
            rem_ram1: at_exec(bits, lvl, b::PERF_MEM_LVL_REM_RAM1),
            rem_ram2: at_exec(bits, lvl, b::PERF_MEM_LVL_REM_RAM2),
            rem_cce1: at_exec(bits, lvl, b::PERF_MEM_LVL_REM_CCE1),
            rem_cce2: at_exec(bits, lvl, b::PERF_MEM_LVL_REM_CCE2),
            io: at_exec(bits, lvl, b::PERF_MEM_LVL_IO),
            unc: at_exec(bits, lvl, b::PERF_MEM_LVL_UNC),
        },
        snoop: MemSnoop {
            na: at_exec(bits, snoop, b::PERF_MEM_SNOOP_NA),
            none: at_exec(bits, snoop, b::PERF_MEM_SNOOP_NONE),
            hit: at_exec(bits, snoop, b::PERF_MEM_SNOOP_HIT),
            miss: at_exec(bits, snoop, b::PERF_MEM_SNOOP_MISS),
            hit_m: at_exec(bits, snoop, b::PERF_MEM_SNOOP_HITM),
            fwd: at_exec(bits, snoopx, b::PERF_MEM_SNOOPX_FWD),
            peer: at_exec(bits, snoopx, b::PERF_MEM_SNOOPX_PEER),
        },
        lock: MemLock {
            na: at_exec(bits, lock, b::PERF_MEM_LOCK_NA),
            locked: at_exec(bits, lock, b::PERF_MEM_LOCK_LOCKED),
        },
        tlb: MemTlb {
            na: at_exec(bits, tlb, b::PERF_MEM_TLB_NA),
            hit: at_exec(bits, tlb, b::PERF_MEM_TLB_HIT),
            miss: at_exec(bits, tlb, b::PERF_MEM_TLB_MISS),
            l1: at_exec(bits, tlb, b::PERF_MEM_TLB_L1),
            l2: at_exec(bits, tlb, b::PERF_MEM_TLB_L2),
            walker: at_exec(bits, tlb, b::PERF_MEM_TLB_WK),
            fault: at_exec(bits, tlb, b::PERF_MEM_TLB_OS),
        },
        level2,
        remote: (bits >> b::PERF_MEM_REMOTE_SHIFT) & 1 != 0,
        block: MemBlock {
            na: at_exec(bits, blk, b::PERF_MEM_BLK_NA),
            data: at_exec(bits, blk, b::PERF_MEM_BLK_DATA),
            addr: at_exec(bits, blk, b::PERF_MEM_BLK_ADDR),
        },
        hops,
    }
}

/// The transaction that a `transaction` word encodes.
pub open spec fn txn_of(bits: u64) -> Txn {
    Txn {
        elision: bits & b::PERF_TXN_ELISION != 0,
        tx: bits & b::PERF_TXN_TRANSACTION != 0,
        is_sync: bits & b::PERF_TXN_SYNC != 0,
        is_async: bits & b::PERF_TXN_ASYNC != 0,
        retry: bits & b::PERF_TXN_RETRY != 0,
        conflict: bits & b::PERF_TXN_CONFLICT != 0,
        capacity_read: bits & b::PERF_TXN_CAPACITY_READ != 0,
        capacity_write: bits & b::PERF_TXN_CAPACITY_WRITE != 0,
        code: (bits >> b::PERF_TXN_ABORT_SHIFT) as u32,
    }
}

pub fn parse_txn(bits: u64) -> (r: Txn)
    ensures
        r == txn_of(bits),
{
    Txn {
        elision: bits & b::PERF_TXN_ELISION != 0,
        tx: bits & b::PERF_TXN_TRANSACTION != 0,
        is_sync: bits & b::PERF_TXN_SYNC != 0,
        is_async: bits & b::PERF_TXN_ASYNC != 0,
        retry: bits & b::PERF_TXN_RETRY != 0,
        conflict: bits & b::PERF_TXN_CONFLICT != 0,
        capacity_read: bits & b::PERF_TXN_CAPACITY_READ != 0,
        capacity_write: bits & b::PERF_TXN_CAPACITY_WRITE != 0,
        code: (bits >> b::PERF_TXN_ABORT_SHIFT) as u32,
    }
}

/// The branch type of an entry: `ty` (bits 20-23), or when it says the ABI is
/// extended, `new_ty` (bits 26-29).
pub open spec fn branch_type_of(ty: u64, new_ty: u64) -> BranchType {
    if ty == b::PERF_BR_UNKNOWN {
        BranchType::Unknown
    } else if ty == b::PERF_BR_COND {
        BranchType::Cond
    } else if ty == b::PERF_BR_UNCOND {
        BranchType::Uncond
    } else if ty == b::PERF_BR_IND {
        BranchType::Ind
    } else if ty == b::PERF_BR_CALL {
        BranchType::Call
    } else if ty == b::PERF_BR_IND_CALL {
        BranchType::IndCall
    } else if ty == b::PERF_BR_RET {
        BranchType::Ret
    } else if ty == b::PERF_BR_SYSCALL {
        BranchType::Syscall
    } else if ty == b::PERF_BR_SYSRET {
        BranchType::Sysret
    } else if ty == b::PERF_BR_COND_CALL {
        BranchType::CondCall
    } else if ty == b::PERF_BR_COND_RET {
        BranchType::CondRet
    } else if ty == b::PERF_BR_ERET {
        BranchType::Eret
    } else if ty == b::PERF_BR_IRQ {
        BranchType::Irq
    } else if ty == b::PERF_BR_SERROR {
        BranchType::SysErr
    } else if ty == b::PERF_BR_NO_TX {
        BranchType::NoTx
    } else if ty == b::PERF_BR_EXTEND_ABI {
        if new_ty == b::PERF_BR_NEW_FAULT_DATA {
            BranchType::DataFault
        } else if new_ty == b::PERF_BR_NEW_FAULT_ALGN {
            BranchType::AlignFault
        } else if new_ty == b::PERF_BR_NEW_FAULT_INST {
            BranchType::InstrFault
        } else if new_ty == b::PERF_BR_NEW_ARCH_1 {
            BranchType::Arch1
        } else if new_ty == b::PERF_BR_NEW_ARCH_2 {
            BranchType::Arch2
        } else if new_ty == b::PERF_BR_NEW_ARCH_3 {
            BranchType::Arch3
        } else if new_ty == b::PERF_BR_NEW_ARCH_4 {
            BranchType::Arch4
        } else if new_ty == b::PERF_BR_NEW_ARCH_5 {
            BranchType::Arch5
        } else {
            BranchType::Unknown
        }
    } else {
        BranchType::Unknown
    }
}

pub open spec fn branch_spec_of(v: u64) -> BranchSpec {
    if v == b::PERF_BR_SPEC_WRONG_PATH {
        BranchSpec::Wrong
    } else if v == b::PERF_BR_NON_SPEC_CORRECT_PATH {
        BranchSpec::NoSpecCorrect
    } else if v == b::PERF_BR_SPEC_CORRECT_PATH {
        BranchSpec::Correct
    } else {
        BranchSpec::Na
    }
}

pub open spec fn branch_priv_of(v: u64) -> BranchPriv {
    if v == b::PERF_BR_PRIV_USER {
        BranchPriv::User
    } else if v == b::PERF_BR_PRIV_KERNEL {
        BranchPriv::Kernel
    } else if v == b::PERF_BR_PRIV_HV {
        BranchPriv::Hv
    } else {
        BranchPriv::Unknown
    }
}

/// The entry that a `from`, `to` and flags word encode: `mis`, `pred`,
/// `in_tx`, `abort` in bits 0-3, `cycles` in 4-19, the branch type in 20-23,
/// its speculation in 24-25, the extended type in 26-29, the privilege in 30-32.
pub open spec fn entry_of(from: u64, to: u64, bits: u64, counter: Option<u64>) -> Entry {
    Entry {
        from,
        to,
        mis: bits & 1 != 0,
        pred: bits & 2 != 0,
        in_tx: bits & 4 != 0,
        abort: bits & 8 != 0,
        cycles: (bits >> 4) as u16,
        branch_type: branch_type_of((bits >> 20) & 0xf, (bits >> 26) & 0xf),
        branch_spec: branch_spec_of((bits >> 24) & 0x3),
        branch_priv: branch_priv_of((bits >> 30) & 0x7),
        counter,
    }
}

pub fn to_entry(from: u64, to: u64, bits: u64, counter: Option<u64>) -> (r: Entry)
    ensures
        r == entry_of(from, to, bits, counter),
{
    let ty = (bits >> 20) & 0xf;
    let new_ty = (bits >> 26) & 0xf;
    let branch_type = if ty == b::PERF_BR_UNKNOWN {
        BranchType::Unknown
    } else if ty == b::PERF_BR_COND {
        BranchType::Cond
    } else if ty == b::PERF_BR_UNCOND {
        BranchType::Uncond
    } else if ty == b::PERF_BR_IND {
        BranchType::Ind
    } else if ty == b::PERF_BR_CALL {
        BranchType::Call
    } else if ty == b::PERF_BR_IND_CALL {
        BranchType::IndCall
    } else if ty == b::PERF_BR_RET {
        BranchType::Ret
    } else if ty == b::PERF_BR_SYSCALL {
        BranchType::Syscall
    } else if ty == b::PERF_BR_SYSRET {
        BranchType::Sysret
    } else if ty == b::PERF_BR_COND_CALL {
        BranchType::CondCall
    } else if ty == b::PERF_BR_COND_RET {
        BranchType::CondRet
    } else if ty == b::PERF_BR_ERET {
        BranchType::Eret
    } else if ty == b::PERF_BR_IRQ {
        BranchType::Irq
    } else if ty == b::PERF_BR_SERROR {
        BranchType::SysErr
    } else if ty == b::PERF_BR_NO_TX {
        BranchType::NoTx
    } else if ty == b::PERF_BR_EXTEND_ABI {
        if new_ty == b::PERF_BR_NEW_FAULT_DATA {
            BranchType::DataFault
        } else if new_ty == b::PERF_BR_NEW_FAULT_ALGN {
            BranchType::AlignFault
        } else if new_ty == b::PERF_BR_NEW_FAULT_INST {
            BranchType::InstrFault
        } else if new_ty == b::PERF_BR_NEW_ARCH_1 {
            BranchType::Arch1
        } else if new_ty == b::PERF_BR_NEW_ARCH_2 {
            BranchType::Arch2
        } else if new_ty == b::PERF_BR_NEW_ARCH_3 {
            BranchType::Arch3
        } else if new_ty == b::PERF_BR_NEW_ARCH_4 {
            BranchType::Arch4
        } else if new_ty == b::PERF_BR_NEW_ARCH_5 {
            BranchType::Arch5
        } else {
            BranchType::Unknown
        }
    } else {
        BranchType::Unknown
    };
    let sp = (bits >> 24) & 0x3;
    let branch_spec = if sp == b::PERF_BR_SPEC_WRONG_PATH {
        BranchSpec::Wrong
    } else if sp == b::PERF_BR_NON_SPEC_CORRECT_PATH {
        BranchSpec::NoSpecCorrect
    } else if sp == b::PERF_BR_SPEC_CORRECT_PATH {
        BranchSpec::Correct
    } else {
        BranchSpec::Na
    };
    let pv = (bits >> 30) & 0x7;
    let branch_priv = if pv == b::PERF_BR_PRIV_USER {
        BranchPriv::User
    } else if pv == b::PERF_BR_PRIV_KERNEL {
        BranchPriv::Kernel
    } else if pv == b::PERF_BR_PRIV_HV {
        BranchPriv::Hv
    } else {
        BranchPriv::Unknown
    };
    Entry {
        from,
        to,
        mis: bits & 1 != 0,
        pred: bits & 2 != 0,
        in_tx: bits & 4 != 0,
        abort: bits & 8 != 0,
        cycles: (bits >> 4) as u16,
        branch_type,
        branch_spec,
        branch_priv,
        counter,
    }
}


/// Reads the `u64` at `p` when `on`, returning it and the offset after it.
fn opt_word(b: &[u8], p: usize, on: bool) -> (r: Option<(Option<u64>, usize)>)
    ensures
        r matches Some((v, q)) ==> (v is Some) == on && (on ==> v == Some(le_at(b@, p as int, 8) as u64)
            && q == p + 8 && q <= b@.len()) && (!on ==> q == p),
        r is None ==> on && p + 8 > b@.len(),
{
    if !on {
        return Some((None, p));
    }
    match rd(b, p, 8) {
        Some(v) => Some((Some(v), p + 8)),
        None => None,
    }
}

/// Reads `n` words at `p`.
fn words(b: &[u8], p: usize, n: u64) -> (r: Option<(Vec<u64>, usize)>)
    ensures
        r matches Some((v, q)) ==> v@.len() == n && q == p + 8 * n && q <= b@.len() && forall|i: int|
            0 <= i < n ==> #[trigger] v@[i] == le_at(b@, p + 8 * i, 8),
        r is None ==> p + 8 * n > b@.len(),
{
    proof {
        lemma_pow256_8();
    }
    let len = b.len();
    if p > len || ((len - p) / 8) < n as usize || n > (usize::MAX / 8) as u64 {
        proof {
            if p <= len && n <= (usize::MAX / 8) as u64 {
                assert(8 * ((len - p) / 8) + (len - p) % 8 == len - p);
            }
        }
        return None;
    }
    let n = n as usize;
    let mut v: Vec<u64> = Vec::new();
    let mut i: usize = 0;
    while i < n
        invariant
            len == b@.len(),
            p + 8 * n <= len,
            i <= n,
            v@.len() == i,
            forall|k: int| 0 <= k < i ==> #[trigger] v@[k] == le_at(b@, p + 8 * k, 8),
        decreases n - i,
    {
        v.push(read_le(b, p + 8 * i, 8));
        i = i + 1;
    }
    Some((v, p + 8 * n))
}

/// Takes `n` bytes at `p`.
fn bytes_at(b: &[u8], p: usize, n: u64) -> (r: Option<(Vec<u8>, usize)>)
    ensures
        r matches Some((v, q)) ==> v@ == b@.subrange(p as int, p + n) && q == p + n && q <= b@.len(),
        r is None ==> p + n > b@.len(),
{
    let len = b.len();
    if p > len || ((len - p) as u64) < n {
        return None;
    }
    let n = n as usize;
    let v = vstd::slice::slice_to_vec(vstd::slice::slice_subrange(b, p, p + n));
    Some((v, p + n))
}

/// The `u64` word at `p`, as a number.
pub open spec fn lw(s: Seq<u8>, p: int) -> int {
    le_at(s, p, 8) as int
}

pub open spec fn abi_of(v: int) -> Abi {
    if v == b::PERF_SAMPLE_REGS_ABI_32 {
        Abi::_32
    } else if v == b::PERF_SAMPLE_REGS_ABI_64 {
        Abi::_64
    } else {
        Abi::Unknown
    }
}

/// A call chain at `p`: `nr`, then `nr` addresses.
pub open spec fn chain_end(s: Seq<u8>, p: int) -> int {
    p + 8 + 8 * lw(s, p)
}

pub open spec fn chain_fits(s: Seq<u8>, p: int) -> bool {
    p + 8 <= s.len() && chain_end(s, p) <= s.len()
}

pub open spec fn chain_val(v: Seq<u64>, s: Seq<u8>, p: int) -> bool {
    &&& v.len() == lw(s, p)
    &&& forall|i: int| 0 <= i < v.len() ==> #[trigger] v[i] == le_at(s, p + 8 + 8 * i, 8)
}

/// Raw data at `p`: a 4-byte size, that many bytes, padding to 8.
pub open spec fn raw_end(s: Seq<u8>, p: int) -> int {
    crate::record::align8(p + 4 + le_at(s, p, 4))
}

pub open spec fn raw_fits(s: Seq<u8>, p: int) -> bool {
    p + 4 <= s.len() && p + 4 + le_at(s, p, 4) <= s.len() && raw_end(s, p) <= usize::MAX
}

/// A branch stack at `p`: `nr`; when `nr` is not zero, the hardware index
/// when asked for, `nr` entries of three words, then `nr` counters when asked for.
pub open spec fn lbr_end(s: Seq<u8>, p: int, bst: u64) -> int {
    let nr = lw(s, p);
    if nr == 0 {
        p + 8
    } else {
        p + 8 + w(has_bit(bst, b::PERF_SAMPLE_BRANCH_HW_INDEX)) + 24 * nr + if has_bit(
            bst,
            b::PERF_SAMPLE_BRANCH_COUNTERS,
        ) {
            8 * nr
        } else {
            0
        }
    }
}

pub open spec fn lbr_fits(s: Seq<u8>, p: int, bst: u64) -> bool {
    p + 8 <= s.len() && lbr_end(s, p, bst) <= s.len()
}

pub open spec fn lbr_val(l: Option<Lbr>, s: Seq<u8>, p: int, bst: u64) -> bool {
    let nr = lw(s, p);
    let hw = has_bit(bst, b::PERF_SAMPLE_BRANCH_HW_INDEX);
    let cnt = has_bit(bst, b::PERF_SAMPLE_BRANCH_COUNTERS);
    let q = p + 8 + w(hw);
    if nr == 0 {
        l is None
    } else {
        &&& l is Some
        &&& l->Some_0.hw_index == opt_at(s, p + 8, hw)
        &&& l->Some_0.entries@.len() == nr
        &&& forall|i: int|
            0 <= i < nr ==> #[trigger] l->Some_0.entries@[i] == entry_of(
                le_at(s, q + 24 * i, 8) as u64,
                le_at(s, q + 24 * i + 8, 8) as u64,
                le_at(s, q + 24 * i + 16, 8) as u64,
                opt_at(s, q + 24 * nr + 8 * i, cnt),
            )
    }
}

/// A register set at `p`: the ABI word, then `n` registers unless the ABI is none.
pub open spec fn regs_end(s: Seq<u8>, p: int, n: int) -> int {
    if lw(s, p) == 0 {
        p + 8
    } else {
        p + 8 + 8 * n
    }
}

pub open spec fn regs_fits(s: Seq<u8>, p: int, n: int) -> bool {
    p + 8 <= s.len() && regs_end(s, p, n) <= s.len()
}

pub open spec fn regs_val(r: Option<(Vec<u64>, Abi)>, s: Seq<u8>, p: int, n: int) -> bool {
    if lw(s, p) == 0 {
        r is None
    } else {
        &&& r is Some
        &&& r->Some_0.1 == abi_of(lw(s, p))
        &&& r->Some_0.0@.len() == n
        &&& forall|i: int| 0 <= i < n ==> #[trigger] r->Some_0.0@[i] == le_at(s, p + 8 + 8 * i, 8)
    }
}

/// A user stack at `p`: its size, that many bytes, then when the size is not
/// zero the size actually dumped, which is no larger.
pub open spec fn stack_end(s: Seq<u8>, p: int) -> int {
    if lw(s, p) == 0 {
        p + 8
    } else {
        p + 16 + lw(s, p)
    }
}

pub open spec fn stack_dyn(s: Seq<u8>, p: int) -> int {
    if lw(s, p) == 0 {
        0
    } else {
        lw(s, p + 8 + lw(s, p))
    }
}

pub open spec fn stack_fits(s: Seq<u8>, p: int) -> bool {
    p + 8 <= s.len() && stack_end(s, p) <= s.len() && stack_dyn(s, p) <= lw(s, p)
}

/// The weight at `p`: one word, or three narrower fields in a word.
pub open spec fn weight_val(wt: Option<Weight>, s: Seq<u8>, p: int, st: u64) -> bool {
    if has_bit(st, b::PERF_SAMPLE_WEIGHT) {
        wt == Some(Weight::Full(le_at(s, p, 8) as u64))
    } else if has_bit(st, b::PERF_SAMPLE_WEIGHT_STRUCT) {
        wt == Some(
            Weight::Vars {
                var1: le_at(s, p, 4) as u32,
                var2: le_at(s, p + 4, 2) as u16,
                var3: le_at(s, p + 6, 2) as u16,
            },
        )
    } else {
        wt is None
    }
}

/// Aux data at `p`: a size, then that many bytes.
pub open spec fn aux_fits(s: Seq<u8>, p: int) -> bool {
    p + 8 <= s.len() && p + 8 + lw(s, p) <= s.len()
}

fn sec_stat(b: &[u8], p: usize, rf: u64, on: bool) -> (r: Option<(Option<Stat>, usize)>)
    ensures
        r is Some <==> (on ==> stat_fits(b@, p as int, rf)),
        r matches Some((v, q)) ==> q == (if on {
            p + stat_len(b@, p as int, rf)
        } else {
            p as int
        }) && (on ==> (v matches Some(t) && t.decodes(b@, p as int, rf))) && (!on ==> v is None),
{
    if !on {
        return Some((None, p));
    }
    match Stat::from_bytes(b, p, rf) {
        Some((t, q)) => Some((Some(t), q)),
        None => None,
    }
}

fn sec_chain(b: &[u8], p: usize, on: bool) -> (r: Option<(Option<Vec<u64>>, usize)>)
    ensures
        r is Some <==> (on ==> chain_fits(b@, p as int)),
        r matches Some((v, q)) ==> q == (if on {
            chain_end(b@, p as int)
        } else {
            p as int
        }) && (on ==> (v matches Some(c) && chain_val(c@, b@, p as int))) && (!on ==> v is None),
{
    if !on {
        return Some((None, p));
    }
    let nr = match rd(b, p, 8) {
        Some(v) => v,
        None => return None,
    };
    match words(b, p + 8, nr) {
        Some((v, q)) => Some((Some(v), q)),
        None => None,
    }
}

fn sec_raw(b: &[u8], p: usize, on: bool) -> (r: Option<(Option<Vec<u8>>, usize)>)
    ensures
        r is Some <==> (on ==> raw_fits(b@, p as int)),
        r matches Some((v, q)) ==> q == (if on {
            raw_end(b@, p as int)
        } else {
            p as int
        }) && (on ==> (v matches Some(d) && d@ == b@.subrange(p + 4, p + 4 + le_at(b@, p as int, 4))))
            && (!on ==> v is None),
{
    if !on {
        return Some((None, p));
    }
    let n = match rd(b, p, 4) {
        Some(v) => v,
        None => return None,
    };
    match bytes_at(b, p + 4, n) {
        Some((v, q)) => match crate::record::align8_exec(q) {
            Some(q) => Some((Some(v), q)),
            None => None,
        },
        None => None,
    }
}

fn abi_exec(v: u64) -> (r: Abi)
    ensures
        r == abi_of(v as int),
{
    if v == b::PERF_SAMPLE_REGS_ABI_32 {
        Abi::_32
    } else if v == b::PERF_SAMPLE_REGS_ABI_64 {
        Abi::_64
    } else {
        Abi::Unknown
    }
}

/// A register set: its ABI word, then `n` registers unless the ABI is none.
fn parse_regs(b: &[u8], p: usize, n: usize) -> (r: Option<(Option<(Vec<u64>, Abi)>, usize)>)
    ensures
        r is Some <==> regs_fits(b@, p as int, n as int),
        r matches Some((x, q)) ==> q == regs_end(b@, p as int, n as int) && regs_val(
            x,
            b@,
            p as int,
            n as int,
        ),
{
    let abi = match rd(b, p, 8) {
        Some(v) => v,
        None => return None,
    };
    if abi == b::PERF_SAMPLE_REGS_ABI_NONE {
        return Some((None, p + 8));
    }
    let a = abi_exec(abi);
    match words(b, p + 8, n as u64) {
        Some((v, q)) => Some((Some((v, a)), q)),
        None => None,
    }
}

fn sec_regs(b: &[u8], p: usize, n: usize, on: bool) -> (r: Option<(Option<(Vec<u64>, Abi)>, usize)>)
    ensures
        r is Some <==> (on ==> regs_fits(b@, p as int, n as int)),
        r matches Some((x, q)) ==> q == (if on {
            regs_end(b@, p as int, n as int)
        } else {
            p as int
        }) && (on ==> regs_val(x, b@, p as int, n as int)) && (!on ==> x is None),
{
    if !on {
        return Some((None, p));
    }
    parse_regs(b, p, n)
}

/// The branch stack: `nr`, the hardware index when asked for, `nr` entries
/// of three words, then `nr` counters when asked for. `nr == 0` means none.
fn parse_lbr(b: &[u8], p: usize, bst: u64) -> (r: Option<(Option<Lbr>, usize)>)
    ensures
        r is Some <==> lbr_fits(b@, p as int, bst),
        r matches Some((l, q)) ==> q == lbr_end(b@, p as int, bst) && lbr_val(l, b@, p as int, bst),
{
    let nr = match rd(b, p, 8) {
        Some(v) => v,
        None => return None,
    };
    proof {
        lemma_pow256_8();
    }
    if nr == 0 {
        return Some((None, p + 8));
    }
    let hw = bst & b::PERF_SAMPLE_BRANCH_HW_INDEX != 0;
    let (hw_index, q) = match opt_word(b, p + 8, hw) {
        Some(x) => x,
        None => return None,
    };
    if nr > (u64::MAX / 3) {
        proof {
            assert(24 * nr > u64::MAX) by (nonlinear_arith)
                requires
                    nr > u64::MAX / 3,
            ;
        }
        return None;
    }
    let (raw, q2) = match words(b, q, 3 * nr) {
        Some(x) => x,
        None => return None,
    };
    let has_counters = bst & b::PERF_SAMPLE_BRANCH_COUNTERS != 0;
    let (counters, q3) = if has_counters {
        match words(b, q2, nr) {
            Some(x) => x,
            None => return None,
        }
    } else {
        (Vec::new(), q2)
    };
    let n = nr as usize;
    let mut entries: Vec<Entry> = Vec::new();
    let mut i: usize = 0;
    while i < n
        invariant
            n == nr,
            raw@.len() == 3 * n,
            3 * n <= usize::MAX,
            q == p + 8 + w(hw),
            q2 == q + 24 * n,
            forall|k: int| 0 <= k < raw@.len() ==> #[trigger] raw@[k] == le_at(b@, q + 8 * k, 8),
            has_counters ==> counters@.len() == n,
            has_counters ==> forall|k: int|
                0 <= k < counters@.len() ==> #[trigger] counters@[k] == le_at(b@, q2 + 8 * k, 8),
            i <= n,
            entries@.len() == i,
            forall|k: int|
                0 <= k < i ==> #[trigger] entries@[k] == entry_of(
                    le_at(b@, q + 24 * k, 8) as u64,
                    le_at(b@, q + 24 * k + 8, 8) as u64,
                    le_at(b@, q + 24 * k + 16, 8) as u64,
                    opt_at(b@, q + 24 * n + 8 * k, has_counters),
                ),
        decreases n - i,
    {
        let counter = if has_counters {
            Some(counters[i])
        } else {
            None
        };
        proof {
            assert(raw@[3 * i] == le_at(b@, q + 24 * i, 8));
            assert(raw@[3 * i + 1] == le_at(b@, q + 24 * i + 8, 8));
            assert(raw@[3 * i + 2] == le_at(b@, q + 24 * i + 16, 8));
        }
        entries.push(to_entry(raw[3 * i], raw[3 * i + 1], raw[3 * i + 2], counter));
        i = i + 1;
    }
    Some((Some(Lbr { hw_index, entries }), q3))
}

fn sec_lbr(b: &[u8], p: usize, bst: u64, on: bool) -> (r: Option<(Option<Lbr>, usize)>)
    ensures
        r is Some <==> (on ==> lbr_fits(b@, p as int, bst)),
        r matches Some((l, q)) ==> q == (if on {
            lbr_end(b@, p as int, bst)
        } else {
            p as int
        }) && (on ==> lbr_val(l, b@, p as int, bst)) && (!on ==> l is None),
{
    if !on {
        return Some((None, p));
    }
    parse_lbr(b, p, bst)
}

fn sec_stack(b: &[u8], p: usize, on: bool) -> (r: Option<(Option<Vec<u8>>, usize)>)
    ensures
        r is Some <==> (on ==> stack_fits(b@, p as int)),
        r matches Some((v, q)) ==> q == (if on {
            stack_end(b@, p as int)
        } else {
            p as int
        }) && (on ==> (v matches Some(d) && d@ == b@.subrange(p + 8, p + 8 + stack_dyn(b@, p as int))))
            && (!on ==> v is None),
{
    if !on {
        return Some((None, p));
    }
    let n = match rd(b, p, 8) {
        Some(v) => v,
        None => return None,
    };
    let (data, q) = match bytes_at(b, p + 8, n) {
        Some(x) => x,
        None => return None,
    };
    if n == 0 {
        return Some((Some(data), q));
    }
    let dyn_size = match rd(b, q, 8) {
        Some(v) => v,
        None => return None,
    };
    if dyn_size > n {
        return None;
    }
    let kept = vstd::slice::slice_to_vec(vstd::slice::slice_subrange(data.as_slice(), 0, dyn_size as usize));
    assert(kept@ =~= b@.subrange(p + 8, p + 8 + stack_dyn(b@, p as int)));
    Some((Some(kept), q + 8))
}

fn sec_weight(b: &[u8], p: usize, st: u64) -> (r: Option<(Option<Weight>, usize)>)
    ensures
        r is Some <==> ((has_bit(st, b::PERF_SAMPLE_WEIGHT) || has_bit(st, b::PERF_SAMPLE_WEIGHT_STRUCT))
            ==> p + 8 <= b@.len()),
        r matches Some((v, q)) ==> q == p + w(
            has_bit(st, b::PERF_SAMPLE_WEIGHT) || has_bit(st, b::PERF_SAMPLE_WEIGHT_STRUCT),
        ) && weight_val(v, b@, p as int, st),
{
    proof {
        lemma_pow256_8();
    }
    if st & b::PERF_SAMPLE_WEIGHT != 0 {
        match rd(b, p, 8) {
            Some(v) => Some((Some(Weight::Full(v)), p + 8)),
            None => None,
        }
    } else if st & b::PERF_SAMPLE_WEIGHT_STRUCT != 0 {
        let len = b.len();
        if p > len || len - p < 8 {
            return None;
        }
        Some(
            (
                Some(
                    Weight::Vars {
                        var1: read_le(b, p, 4) as u32,
                        var2: read_le(b, p + 4, 2) as u16,
                        var3: read_le(b, p + 6, 2) as u16,
                    },
                ),
                p + 8,
            ),
        )
    } else {
        Some((None, p))
    }
}

fn sec_aux(b: &[u8], p: usize, on: bool) -> (r: Option<Option<Vec<u8>>>)
    ensures
        r is Some <==> (on ==> aux_fits(b@, p as int)),
        r matches Some(v) ==> (on ==> (v matches Some(d) && d@ == b@.subrange(p + 8, p + 8 + lw(b@, p as int))))
            && (!on ==> v is None),
{
    if !on {
        return Some(None);
    }
    let n = match rd(b, p, 8) {
        Some(v) => v,
        None => return None,
    };
    match bytes_at(b, p + 8, n) {
        Some((v, _)) => Some(Some(v)),
        None => None,
    }
}

/// The fixed-width fields that open a sample, each at the offset that the
/// fields before it leave: instruction pointer, task, time, data address, id,
/// stream id, cpu, period.
pub open spec fn head_matches(
    s: Seq<u8>,
    misc: u16,
    st: u64,
    code_addr: Option<(u64, bool)>,
    r: RecordId,
    data_addr: Option<u64>,
    period: Option<u64>,
) -> bool {
    let ip = has_bit(st, b::PERF_SAMPLE_IP);
    let tid = has_bit(st, b::PERF_SAMPLE_TID);
    let time = has_bit(st, b::PERF_SAMPLE_TIME);
    let addr = has_bit(st, b::PERF_SAMPLE_ADDR);
    let id = has_bit(st, b::PERF_SAMPLE_ID);
    let sid = has_bit(st, b::PERF_SAMPLE_STREAM_ID);
    let cpu = has_bit(st, b::PERF_SAMPLE_CPU);
    let o_tid = 8 + w(ip);
    let o_time = o_tid + w(tid);
    let o_addr = o_time + w(time);
    let o_id = o_addr + w(addr);
    let o_sid = o_id + w(id);
    let o_cpu = o_sid + w(sid);
    let o_period = o_cpu + w(cpu);
    &&& code_addr == if ip {
        Some((le_at(s, 8, 8) as u64, misc & b::PERF_RECORD_MISC_EXACT_IP != 0))
    } else {
        None
    }
    &&& r.task == if tid {
        Some(task_at(s, o_tid))
    } else {
        None
    }
    &&& r.time == opt_at(s, o_time, time)
    &&& data_addr == opt_at(s, o_addr, addr)
    &&& r.id == opt_at(s, o_id, id)
    &&& r.stream_id == opt_at(s, o_sid, sid)
    &&& r.cpu == if cpu {
        Some(le_at(s, o_cpu, 4) as u32)
    } else {
        None
    }
    &&& period == opt_at(s, o_period, has_bit(st, b::PERF_SAMPLE_PERIOD))
}

/// Where the fixed-width fields that open a sample end.
pub open spec fn head_end(st: u64) -> int {
    8 + w(has_bit(st, b::PERF_SAMPLE_IP)) + w(has_bit(st, b::PERF_SAMPLE_TID)) + w(
        has_bit(st, b::PERF_SAMPLE_TIME),
    ) + w(has_bit(st, b::PERF_SAMPLE_ADDR)) + w(has_bit(st, b::PERF_SAMPLE_ID)) + w(
        has_bit(st, b::PERF_SAMPLE_STREAM_ID),
    ) + w(has_bit(st, b::PERF_SAMPLE_CPU)) + w(has_bit(st, b::PERF_SAMPLE_PERIOD))
}

struct Head {
    code_addr: Option<(u64, bool)>,
    record_id: RecordId,
    data_addr: Option<u64>,
    period: Option<u64>,
}

#[verifier::spinoff_prover]
#[verifier::rlimit(100)]
fn head(b: &[u8], misc: u16, sample_type: u64) -> (r: Option<(Head, usize)>)
    ensures
        r matches Some((x, _)) ==> head_matches(
            b@,
            misc,
            sample_type,
            x.code_addr,
            x.record_id,
            x.data_addr,
            x.period,
        ) && r->Some_0.1 == head_end(sample_type),
        r is Some <==> head_end(sample_type) <= b@.len(),
{
    let st = sample_type;
    let end: usize = 8 + (if st & b::PERF_SAMPLE_IP != 0 {
        8
    } else {
        0
    }) + (if st & b::PERF_SAMPLE_TID != 0 {
        8
    } else {
        0
    }) + (if st & b::PERF_SAMPLE_TIME != 0 {
        8
    } else {
        0
    }) + (if st & b::PERF_SAMPLE_ADDR != 0 {
        8
    } else {
        0
    }) + (if st & b::PERF_SAMPLE_ID != 0 {
        8
    } else {
        0
    }) + (if st & b::PERF_SAMPLE_STREAM_ID != 0 {
        8
    } else {
        0
    }) + (if st & b::PERF_SAMPLE_CPU != 0 {
        8
    } else {
        0
    }) + (if st & b::PERF_SAMPLE_PERIOD != 0 {
        8
    } else {
        0
    });
    assert(end == head_end(st));
    if b.len() < end {
        return None;
    }
    proof {
        lemma_pow256_8();
    }
    let ip = st & b::PERF_SAMPLE_IP != 0;
    let tid = st & b::PERF_SAMPLE_TID != 0;
    let tm = st & b::PERF_SAMPLE_TIME != 0;
    let ad = st & b::PERF_SAMPLE_ADDR != 0;
    let idn = st & b::PERF_SAMPLE_ID != 0;
    let sid = st & b::PERF_SAMPLE_STREAM_ID != 0;
    let cp = st & b::PERF_SAMPLE_CPU != 0;
    let pd = st & b::PERF_SAMPLE_PERIOD != 0;
    let o_tid: usize = 8 + (if ip {
        8
    } else {
        0
    });
    let o_time: usize = o_tid + (if tid {
        8
    } else {
        0
    });
    let o_addr: usize = o_time + (if tm {
        8
    } else {
        0
    });
    let o_id: usize = o_addr + (if ad {
        8
    } else {
        0
    });
    let o_sid: usize = o_id + (if idn {
        8
    } else {
        0
    });
    let o_cpu: usize = o_sid + (if sid {
        8
    } else {
        0
    });
    let o_period: usize = o_cpu + (if cp {
        8
    } else {
        0
    });
    let code_addr = if ip {
        Some((read_le(b, 8, 8), misc & b::PERF_RECORD_MISC_EXACT_IP != 0))
    } else {
        None
    };
    let task = if tid {
        Some(Task { pid: read_le(b, o_tid, 4) as u32, tid: read_le(b, o_tid + 4, 4) as u32 })
    } else {
        None
    };
    let time = if tm {
        Some(read_le(b, o_time, 8))
    } else {
        None
    };
    let data_addr = if ad {
        Some(read_le(b, o_addr, 8))
    } else {
        None
    };
    let id = if idn {
        Some(read_le(b, o_id, 8))
    } else {
        None
    };
    let stream_id = if sid {
        Some(read_le(b, o_sid, 8))
    } else {
        None
    };
    let cpu = if cp {
        Some(read_le(b, o_cpu, 4) as u32)
    } else {
        None
    };
    let period = if pd {
        Some(read_le(b, o_period, 8))
    } else {
        None
    };
    let p = end;
    Some((Head { code_addr, record_id: RecordId { id, stream_id, cpu, task, time }, data_addr, period }, p))
}

/// Where each section after the fixed-width fields ends, from `p` on:
/// statistics, call chain, raw data, branch stack, user registers, user stack.
pub open spec fn mid_ends(s: Seq<u8>, p: int, rf: u64, st: u64, bst: u64, ur: int) -> Seq<int> {
    let e1 = if has_bit(st, b::PERF_SAMPLE_READ) {
        p + stat_len(s, p, rf)
    } else {
        p
    };
    let e2 = if has_bit(st, b::PERF_SAMPLE_CALLCHAIN) {
        chain_end(s, e1)
    } else {
        e1
    };
    let e3 = if has_bit(st, b::PERF_SAMPLE_RAW) {
        raw_end(s, e2)
    } else {
        e2
    };
    let e4 = if has_bit(st, b::PERF_SAMPLE_BRANCH_STACK) {
        lbr_end(s, e3, bst)
    } else {
        e3
    };
    let e5 = if has_bit(st, b::PERF_SAMPLE_REGS_USER) {
        regs_end(s, e4, ur)
    } else {
        e4
    };
    let e6 = if has_bit(st, b::PERF_SAMPLE_STACK_USER) {
        stack_end(s, e5)
    } else {
        e5
    };
    seq![p, e1, e2, e3, e4, e5, e6]
}

pub open spec fn mid_fits(s: Seq<u8>, p: int, rf: u64, st: u64, bst: u64, ur: int) -> bool {
    let e = mid_ends(s, p, rf, st, bst, ur);
    &&& has_bit(st, b::PERF_SAMPLE_READ) ==> stat_fits(s, e[0], rf)
    &&& has_bit(st, b::PERF_SAMPLE_CALLCHAIN) ==> chain_fits(s, e[1])
    &&& has_bit(st, b::PERF_SAMPLE_RAW) ==> raw_fits(s, e[2])
    &&& has_bit(st, b::PERF_SAMPLE_BRANCH_STACK) ==> lbr_fits(s, e[3], bst)
    &&& has_bit(st, b::PERF_SAMPLE_REGS_USER) ==> regs_fits(s, e[4], ur)
    &&& has_bit(st, b::PERF_SAMPLE_STACK_USER) ==> stack_fits(s, e[5])
}

pub open spec fn mid_vals(
    s: Seq<u8>,
    p: int,
    rf: u64,
    st: u64,
    bst: u64,
    ur: int,
    stat: Option<Stat>,
    call_chain: Option<Vec<u64>>,
    raw: Option<Vec<u8>>,
    lbr: Option<Lbr>,
    user_regs: Option<(Vec<u64>, Abi)>,
    user_stack: Option<Vec<u8>>,
) -> bool {
    let e = mid_ends(s, p, rf, st, bst, ur);
    &&& if has_bit(st, b::PERF_SAMPLE_READ) {
        stat matches Some(t) && t.decodes(s, e[0], rf)
    } else {
        stat is None
    }
    &&& if has_bit(st, b::PERF_SAMPLE_CALLCHAIN) {
        call_chain matches Some(c) && chain_val(c@, s, e[1])
    } else {
        call_chain is None
    }
    &&& if has_bit(st, b::PERF_SAMPLE_RAW) {
        raw matches Some(d) && d@ == s.subrange(e[2] + 4, e[2] + 4 + le_at(s, e[2], 4))
    } else {
        raw is None
    }
    &&& if has_bit(st, b::PERF_SAMPLE_BRANCH_STACK) {
        lbr_val(lbr, s, e[3], bst)
    } else {
        lbr is None
    }
    &&& if has_bit(st, b::PERF_SAMPLE_REGS_USER) {
        regs_val(user_regs, s, e[4], ur)
    } else {
        user_regs is None
    }
    &&& if has_bit(st, b::PERF_SAMPLE_STACK_USER) {
        user_stack matches Some(d) && d@ == s.subrange(e[5] + 8, e[5] + 8 + stack_dyn(s, e[5]))
    } else {
        user_stack is None
    }
}

pub open spec fn has_weight(st: u64) -> bool {
    has_bit(st, b::PERF_SAMPLE_WEIGHT) || has_bit(st, b::PERF_SAMPLE_WEIGHT_STRUCT)
}

/// Where each of the closing fields ends, from `p` on: weight, data source,
/// transaction, interrupt registers, physical address, cgroup, data page size,
/// code page size; the aux data starts at the last.
pub open spec fn rest_ends(s: Seq<u8>, p: int, st: u64, ir: int) -> Seq<int> {
    let f1 = p + w(has_weight(st));
    let f2 = f1 + w(has_bit(st, b::PERF_SAMPLE_DATA_SRC));
    let f3 = f2 + w(has_bit(st, b::PERF_SAMPLE_TRANSACTION));
    let f4 = if has_bit(st, b::PERF_SAMPLE_REGS_INTR) {
        regs_end(s, f3, ir)
    } else {
        f3
    };
    let f5 = f4 + w(has_bit(st, b::PERF_SAMPLE_PHYS_ADDR));
    let f6 = f5 + w(has_bit(st, b::PERF_SAMPLE_CGROUP));
    let f7 = f6 + w(has_bit(st, b::PERF_SAMPLE_DATA_PAGE_SIZE));
    let f8 = f7 + w(has_bit(st, b::PERF_SAMPLE_CODE_PAGE_SIZE));
    seq![p, f1, f2, f3, f4, f5, f6, f7, f8]
}

pub open spec fn rest_fits(s: Seq<u8>, p: int, st: u64, ir: int) -> bool {
    let e = rest_ends(s, p, st, ir);
    &&& has_weight(st) ==> e[0] + 8 <= s.len()
    &&& has_bit(st, b::PERF_SAMPLE_DATA_SRC) ==> e[1] + 8 <= s.len()
    &&& has_bit(st, b::PERF_SAMPLE_TRANSACTION) ==> e[2] + 8 <= s.len()
    &&& has_bit(st, b::PERF_SAMPLE_REGS_INTR) ==> regs_fits(s, e[3], ir)
    &&& has_bit(st, b::PERF_SAMPLE_PHYS_ADDR) ==> e[4] + 8 <= s.len()
    &&& has_bit(st, b::PERF_SAMPLE_CGROUP) ==> e[5] + 8 <= s.len()
    &&& has_bit(st, b::PERF_SAMPLE_DATA_PAGE_SIZE) ==> e[6] + 8 <= s.len()
    &&& has_bit(st, b::PERF_SAMPLE_CODE_PAGE_SIZE) ==> e[7] + 8 <= s.len()
    &&& has_bit(st, b::PERF_SAMPLE_AUX) ==> aux_fits(s, e[8])
}

pub open spec fn rest_vals(s: Seq<u8>, p: int, st: u64, ir: int, x: Rest) -> bool {
    let e = rest_ends(s, p, st, ir);
    &&& weight_val(x.weight, s, e[0], st)
    &&& x.data_source == if has_bit(st, b::PERF_SAMPLE_DATA_SRC) {
        Some(data_source_of(le_at(s, e[1], 8) as u64))
    } else {
        None
    }
    &&& x.txn == if has_bit(st, b::PERF_SAMPLE_TRANSACTION) {
        Some(txn_of(le_at(s, e[2], 8) as u64))
    } else {
        None
    }
    &&& if has_bit(st, b::PERF_SAMPLE_REGS_INTR) {
        regs_val(x.intr_regs, s, e[3], ir)
    } else {
        x.intr_regs is None
    }
    &&& x.data_phys_addr == opt_at(s, e[4], has_bit(st, b::PERF_SAMPLE_PHYS_ADDR))
    &&& x.cgroup == opt_at(s, e[5], has_bit(st, b::PERF_SAMPLE_CGROUP))
    &&& x.data_page_size == opt_at(s, e[6], has_bit(st, b::PERF_SAMPLE_DATA_PAGE_SIZE))
    &&& x.code_page_size == opt_at(s, e[7], has_bit(st, b::PERF_SAMPLE_CODE_PAGE_SIZE))
    &&& if has_bit(st, b::PERF_SAMPLE_AUX) {
        x.aux matches Some(d) && d@ == s.subrange(e[8] + 8, e[8] + 8 + lw(s, e[8]))
    } else {
        x.aux is None
    }
}

/// Whether a sample with these options lies whole in `s`.
pub open spec fn sample_fits(s: Seq<u8>, st: u64, rf: u64, bst: u64, ur: int, ir: int) -> bool {
    &&& head_end(st) <= s.len()
    &&& mid_fits(s, head_end(st), rf, st, bst, ur)
    &&& rest_fits(s, mid_ends(s, head_end(st), rf, st, bst, ur)[6], st, ir)
}

struct Middle {
    stat: Option<Stat>,
    call_chain: Option<Vec<u64>>,
    raw: Option<Vec<u8>>,
    lbr: Option<Lbr>,
    user_regs: Option<(Vec<u64>, Abi)>,
    user_stack: Option<Vec<u8>>,
}

/// The closing fields of a sample.
pub struct Rest {
    pub weight: Option<Weight>,
    pub data_source: Option<DataSource>,
    pub txn: Option<Txn>,
    pub intr_regs: Option<(Vec<u64>, Abi)>,
    pub data_phys_addr: Option<u64>,
    pub cgroup: Option<u64>,
    pub data_page_size: Option<u64>,
    pub code_page_size: Option<u64>,
    pub aux: Option<Vec<u8>>,
}

#[verifier::spinoff_prover]
#[verifier::rlimit(50)]
fn middle(b: &[u8], p: usize, rf: u64, st: u64, ur: usize, bst: u64) -> (r: Option<(Middle, usize)>)
    ensures
        r is Some <==> mid_fits(b@, p as int, rf, st, bst, ur as int),
        r matches Some((x, q)) ==> q == mid_ends(b@, p as int, rf, st, bst, ur as int)[6] && mid_vals(
            b@,
            p as int,
            rf,
            st,
            bst,
            ur as int,
            x.stat,
            x.call_chain,
            x.raw,
            x.lbr,
            x.user_regs,
            x.user_stack,
        ),
{
    let (stat, at1) = match sec_stat(b, p, rf, st & b::PERF_SAMPLE_READ != 0) {
        Some(x) => x,
        None => return None,
    };
    let (call_chain, at2) = match sec_chain(b, at1, st & b::PERF_SAMPLE_CALLCHAIN != 0) {
        Some(x) => x,
        None => return None,
    };
    let (raw, at3) = match sec_raw(b, at2, st & b::PERF_SAMPLE_RAW != 0) {
        Some(x) => x,
        None => return None,
    };
    let (lbr, at4) = match sec_lbr(b, at3, bst, st & b::PERF_SAMPLE_BRANCH_STACK != 0) {
        Some(x) => x,
        None => return None,
    };
    let (user_regs, at5) = match sec_regs(b, at4, ur, st & b::PERF_SAMPLE_REGS_USER != 0) {
        Some(x) => x,
        None => return None,
    };
    let (user_stack, at6) = match sec_stack(b, at5, st & b::PERF_SAMPLE_STACK_USER != 0) {
        Some(x) => x,
        None => return None,
    };
    Some((Middle { stat, call_chain, raw, lbr, user_regs, user_stack }, at6))
}

fn word_at(b: &[u8], p: usize, on: bool) -> (r: Option<(Option<u64>, usize)>)
    ensures
        r is Some <==> (on ==> p + 8 <= b@.len()),
        r matches Some((v, q)) ==> q == p + w(on) && v == opt_at(b@, p as int, on),
{
    opt_word(b, p, on)
}

#[verifier::spinoff_prover]
#[verifier::rlimit(50)]
fn rest(b: &[u8], p: usize, st: u64, ir: usize) -> (r: Option<Rest>)
    ensures
        r is Some <==> rest_fits(b@, p as int, st, ir as int),
        r matches Some(x) ==> rest_vals(b@, p as int, st, ir as int, x),
{
    let (weight, at1) = match sec_weight(b, p, st) {
        Some(x) => x,
        None => return None,
    };
    let (ds, at2) = match word_at(b, at1, st & b::PERF_SAMPLE_DATA_SRC != 0) {
        Some(x) => x,
        None => return None,
    };
    let (tx, at3) = match word_at(b, at2, st & b::PERF_SAMPLE_TRANSACTION != 0) {
        Some(x) => x,
        None => return None,
    };
    let (intr_regs, at4) = match sec_regs(b, at3, ir, st & b::PERF_SAMPLE_REGS_INTR != 0) {
        Some(x) => x,
        None => return None,
    };
    let (data_phys_addr, at5) = match word_at(b, at4, st & b::PERF_SAMPLE_PHYS_ADDR != 0) {
        Some(x) => x,
        None => return None,
    };
    let (cgroup, at6) = match word_at(b, at5, st & b::PERF_SAMPLE_CGROUP != 0) {
        Some(x) => x,
        None => return None,
    };
    let (data_page_size, at7) = match word_at(b, at6, st & b::PERF_SAMPLE_DATA_PAGE_SIZE != 0) {
        Some(x) => x,
        None => return None,
    };
    let (code_page_size, at8) = match word_at(b, at7, st & b::PERF_SAMPLE_CODE_PAGE_SIZE != 0) {
        Some(x) => x,
        None => return None,
    };
    let aux = match sec_aux(b, at8, st & b::PERF_SAMPLE_AUX != 0) {
        Some(x) => x,
        None => return None,
    };
    let data_source = match ds {
        Some(v) => Some(parse_data_source(v)),
        None => None,
    };
    let txn = match tx {
        Some(v) => Some(parse_txn(v)),
        None => None,
    };
    Some(
        Rest {
            weight,
            data_source,
            txn,
            intr_regs,
            data_phys_addr,
            cgroup,
            data_page_size,
            code_page_size,
            aux,
        },
    )
}

impl Sample {
    /// Whether the record's bytes `s` decode.
    pub open spec fn spec_ok(s: Seq<u8>, misc: u16, read_format: u64, sample_type: u64, user_regs: usize, intr_regs: usize, branch_sample_type: u64) -> bool {
        sample_fits(
                s,
                sample_type,
                read_format,
                branch_sample_type,
                user_regs as int,
                intr_regs as int,
            )
    }

    /// What the record's bytes `s` say, field by field.
    pub open spec fn spec_decoded(self, s: Seq<u8>, misc: u16, read_format: u64, sample_type: u64, user_regs: usize, intr_regs: usize, branch_sample_type: u64) -> bool {
        let st = sample_type;
        let p = head_end(st);
        let q = mid_ends(s, p, read_format, st, branch_sample_type, user_regs as int)[6];
        &&& head_matches(s, misc, st, self.code_addr, self.record_id, self.data_addr, self.period)
        &&& mid_vals(
            s,
            p,
            read_format,
            st,
            branch_sample_type,
            user_regs as int,
            self.stat,
            self.call_chain,
            self.raw,
            self.lbr,
            self.user_regs,
            self.user_stack,
        )
        &&& rest_vals(
            s,
            q,
            st,
            intr_regs as int,
            Rest {
                weight: self.weight,
                data_source: self.data_source,
                txn: self.txn,
                intr_regs: self.intr_regs,
                data_phys_addr: self.data_phys_addr,
                cgroup: self.cgroup,
                data_page_size: self.data_page_size,
                code_page_size: self.code_page_size,
                aux: self.aux,
            },
        )
    }

    /// Decodes the sample record `b`, header included, for the given sampling
    /// options: each field at the offset the fields before it leave, present
    /// exactly when its `sample_type` bit is set (an empty branch stack and a
    /// register set with no ABI are absent). `None` exactly when a field would
    /// reach past the record.
    #[verifier::spinoff_prover]
    #[verifier::rlimit(50)]
    pub fn parse(
        b: &[u8],
        misc: u16,
        read_format: u64,
        sample_type: u64,
        user_regs: usize,
        intr_regs: usize,
        branch_sample_type: u64,
    ) -> (r: Option<Sample>)
        ensures
            r is Some <==> Self::spec_ok(b@, misc, read_format, sample_type, user_regs, intr_regs, branch_sample_type),
            r matches Some(x) ==> x.spec_decoded(b@, misc, read_format, sample_type, user_regs, intr_regs, branch_sample_type),
    {
        let (h, p) = match head(b, misc, sample_type) {
            Some(x) => x,
            None => return None,
        };
        let (m, p) = match middle(b, p, read_format, sample_type, user_regs, branch_sample_type) {
            Some(x) => x,
            None => return None,
        };
        let t = match rest(b, p, sample_type, intr_regs) {
            Some(x) => x,
            None => return None,
        };
        Some(Sample {
            record_id: h.record_id,
            stat: m.stat,
            period: h.period,
            cgroup: t.cgroup,
            call_chain: m.call_chain,
            user_stack: m.user_stack,
            data_addr: h.data_addr,
            data_phys_addr: t.data_phys_addr,
            data_page_size: t.data_page_size,
            data_source: t.data_source,
            code_addr: h.code_addr,
            code_page_size: t.code_page_size,
            user_regs: m.user_regs,
            intr_regs: t.intr_regs,
            raw: m.raw,
            lbr: m.lbr,
            aux: t.aux,
            txn: t.txn,
            weight: t.weight,
        })
    }
}

} // verus!
