//! Named integers of the kernel's `perf_event` interface (`linux/perf_event.h`,
//! `linux/hw_breakpoint.h`, `linux/time.h`).
use vstd::prelude::*;

verus! {

// perf_type_id
pub const PERF_TYPE_HARDWARE: u32 = 0;
pub const PERF_TYPE_SOFTWARE: u32 = 1;
pub const PERF_TYPE_TRACEPOINT: u32 = 2;
pub const PERF_TYPE_HW_CACHE: u32 = 3;
pub const PERF_TYPE_RAW: u32 = 4;
pub const PERF_TYPE_BREAKPOINT: u32 = 5;

// perf_hw_id
pub const PERF_COUNT_HW_CPU_CYCLES: u64 = 0;
pub const PERF_COUNT_HW_INSTRUCTIONS: u64 = 1;
pub const PERF_COUNT_HW_CACHE_REFERENCES: u64 = 2;
pub const PERF_COUNT_HW_CACHE_MISSES: u64 = 3;
pub const PERF_COUNT_HW_BRANCH_INSTRUCTIONS: u64 = 4;
pub const PERF_COUNT_HW_BRANCH_MISSES: u64 = 5;
pub const PERF_COUNT_HW_BUS_CYCLES: u64 = 6;
pub const PERF_COUNT_HW_STALLED_CYCLES_FRONTEND: u64 = 7;
pub const PERF_COUNT_HW_STALLED_CYCLES_BACKEND: u64 = 8;
pub const PERF_COUNT_HW_REF_CPU_CYCLES: u64 = 9;

// perf_hw_cache_id, perf_hw_cache_op_id, perf_hw_cache_op_result_id
pub const PERF_COUNT_HW_CACHE_L1D: u64 = 0;
pub const PERF_COUNT_HW_CACHE_L1I: u64 = 1;
pub const PERF_COUNT_HW_CACHE_LL: u64 = 2;
pub const PERF_COUNT_HW_CACHE_DTLB: u64 = 3;
pub const PERF_COUNT_HW_CACHE_ITLB: u64 = 4;
pub const PERF_COUNT_HW_CACHE_BPU: u64 = 5;
pub const PERF_COUNT_HW_CACHE_NODE: u64 = 6;
pub const PERF_COUNT_HW_CACHE_OP_READ: u64 = 0;
pub const PERF_COUNT_HW_CACHE_OP_WRITE: u64 = 1;
pub const PERF_COUNT_HW_CACHE_OP_PREFETCH: u64 = 2;
pub const PERF_COUNT_HW_CACHE_RESULT_ACCESS: u64 = 0;
pub const PERF_COUNT_HW_CACHE_RESULT_MISS: u64 = 1;

// perf_sw_ids
pub const PERF_COUNT_SW_CPU_CLOCK: u64 = 0;
pub const PERF_COUNT_SW_TASK_CLOCK: u64 = 1;
pub const PERF_COUNT_SW_PAGE_FAULTS: u64 = 2;
pub const PERF_COUNT_SW_CONTEXT_SWITCHES: u64 = 3;
pub const PERF_COUNT_SW_CPU_MIGRATIONS: u64 = 4;
pub const PERF_COUNT_SW_PAGE_FAULTS_MIN: u64 = 5;
pub const PERF_COUNT_SW_PAGE_FAULTS_MAJ: u64 = 6;
pub const PERF_COUNT_SW_ALIGNMENT_FAULTS: u64 = 7;
pub const PERF_COUNT_SW_EMULATION_FAULTS: u64 = 8;
pub const PERF_COUNT_SW_DUMMY: u64 = 9;
pub const PERF_COUNT_SW_BPF_OUTPUT: u64 = 10;
pub const PERF_COUNT_SW_CGROUP_SWITCHES: u64 = 11;

// hw_breakpoint
pub const HW_BREAKPOINT_R: u32 = 1;
pub const HW_BREAKPOINT_W: u32 = 2;
pub const HW_BREAKPOINT_RW: u32 = 3;
pub const HW_BREAKPOINT_X: u32 = 4;

// perf_event_sample_format
pub const PERF_SAMPLE_IP: u64 = 0x1;
pub const PERF_SAMPLE_TID: u64 = 0x2;
pub const PERF_SAMPLE_TIME: u64 = 0x4;
pub const PERF_SAMPLE_ADDR: u64 = 0x8;
pub const PERF_SAMPLE_READ: u64 = 0x10;
pub const PERF_SAMPLE_CALLCHAIN: u64 = 0x20;
pub const PERF_SAMPLE_ID: u64 = 0x40;
pub const PERF_SAMPLE_CPU: u64 = 0x80;
pub const PERF_SAMPLE_PERIOD: u64 = 0x100;
pub const PERF_SAMPLE_STREAM_ID: u64 = 0x200;
pub const PERF_SAMPLE_RAW: u64 = 0x400;
pub const PERF_SAMPLE_BRANCH_STACK: u64 = 0x800;
pub const PERF_SAMPLE_REGS_USER: u64 = 0x1000;
pub const PERF_SAMPLE_STACK_USER: u64 = 0x2000;
pub const PERF_SAMPLE_WEIGHT: u64 = 0x4000;
pub const PERF_SAMPLE_DATA_SRC: u64 = 0x8000;
pub const PERF_SAMPLE_IDENTIFIER: u64 = 0x10000;
pub const PERF_SAMPLE_TRANSACTION: u64 = 0x20000;
pub const PERF_SAMPLE_REGS_INTR: u64 = 0x40000;
pub const PERF_SAMPLE_PHYS_ADDR: u64 = 0x80000;
pub const PERF_SAMPLE_AUX: u64 = 0x100000;
pub const PERF_SAMPLE_CGROUP: u64 = 0x200000;
pub const PERF_SAMPLE_DATA_PAGE_SIZE: u64 = 0x400000;
pub const PERF_SAMPLE_CODE_PAGE_SIZE: u64 = 0x800000;
pub const PERF_SAMPLE_WEIGHT_STRUCT: u64 = 0x1000000;

// perf_branch_sample_type
pub const PERF_SAMPLE_BRANCH_USER: u64 = 0x1;
pub const PERF_SAMPLE_BRANCH_KERNEL: u64 = 0x2;
pub const PERF_SAMPLE_BRANCH_HV: u64 = 0x4;
pub const PERF_SAMPLE_BRANCH_ANY: u64 = 0x8;
pub const PERF_SAMPLE_BRANCH_ANY_CALL: u64 = 0x10;
pub const PERF_SAMPLE_BRANCH_ANY_RETURN: u64 = 0x20;
pub const PERF_SAMPLE_BRANCH_IND_CALL: u64 = 0x40;
pub const PERF_SAMPLE_BRANCH_ABORT_TX: u64 = 0x80;
pub const PERF_SAMPLE_BRANCH_IN_TX: u64 = 0x100;
pub const PERF_SAMPLE_BRANCH_NO_TX: u64 = 0x200;
pub const PERF_SAMPLE_BRANCH_COND: u64 = 0x400;
pub const PERF_SAMPLE_BRANCH_CALL_STACK: u64 = 0x800;
pub const PERF_SAMPLE_BRANCH_IND_JUMP: u64 = 0x1000;
pub const PERF_SAMPLE_BRANCH_CALL: u64 = 0x2000;
pub const PERF_SAMPLE_BRANCH_NO_FLAGS: u64 = 0x4000;
pub const PERF_SAMPLE_BRANCH_NO_CYCLES: u64 = 0x8000;
pub const PERF_SAMPLE_BRANCH_TYPE_SAVE: u64 = 0x10000;
pub const PERF_SAMPLE_BRANCH_HW_INDEX: u64 = 0x20000;
pub const PERF_SAMPLE_BRANCH_PRIV_SAVE: u64 = 0x40000;
pub const PERF_SAMPLE_BRANCH_COUNTERS: u64 = 0x80000;

// perf_event_read_format
pub const PERF_FORMAT_TOTAL_TIME_ENABLED: u64 = 0x1;
pub const PERF_FORMAT_TOTAL_TIME_RUNNING: u64 = 0x2;
pub const PERF_FORMAT_ID: u64 = 0x4;
pub const PERF_FORMAT_GROUP: u64 = 0x8;
pub const PERF_FORMAT_LOST: u64 = 0x10;

// Bit positions of the single-bit options of perf_event_attr.
pub const ATTR_DISABLED: u64 = 0x1;
pub const ATTR_INHERIT: u64 = 0x2;
pub const ATTR_PINNED: u64 = 0x4;
pub const ATTR_EXCLUSIVE: u64 = 0x8;
pub const ATTR_EXCLUDE_USER: u64 = 0x10;
pub const ATTR_EXCLUDE_KERNEL: u64 = 0x20;
pub const ATTR_EXCLUDE_HV: u64 = 0x40;
pub const ATTR_EXCLUDE_IDLE: u64 = 0x80;
pub const ATTR_MMAP: u64 = 0x100;
pub const ATTR_COMM: u64 = 0x200;
pub const ATTR_FREQ: u64 = 0x400;
pub const ATTR_INHERIT_STAT: u64 = 0x800;
pub const ATTR_ENABLE_ON_EXEC: u64 = 0x1000;
pub const ATTR_TASK: u64 = 0x2000;
pub const ATTR_WATERMARK: u64 = 0x4000;
pub const ATTR_PRECISE_IP_SHIFT: u64 = 15;
pub const ATTR_MMAP_DATA: u64 = 0x20000;
pub const ATTR_SAMPLE_ID_ALL: u64 = 0x40000;
pub const ATTR_EXCLUDE_HOST: u64 = 0x80000;
pub const ATTR_EXCLUDE_GUEST: u64 = 0x100000;
pub const ATTR_EXCLUDE_CALLCHAIN_KERNEL: u64 = 0x200000;
pub const ATTR_EXCLUDE_CALLCHAIN_USER: u64 = 0x400000;
pub const ATTR_MMAP2: u64 = 0x800000;
pub const ATTR_COMM_EXEC: u64 = 0x1000000;
pub const ATTR_USE_CLOCKID: u64 = 0x2000000;
pub const ATTR_CONTEXT_SWITCH: u64 = 0x4000000;
pub const ATTR_WRITE_BACKWARD: u64 = 0x8000000;
pub const ATTR_NAMESPACES: u64 = 0x10000000;
pub const ATTR_KSYMBOL: u64 = 0x20000000;
pub const ATTR_BPF_EVENT: u64 = 0x40000000;
pub const ATTR_AUX_OUTPUT: u64 = 0x80000000;
pub const ATTR_CGROUP: u64 = 0x100000000;
pub const ATTR_TEXT_POKE: u64 = 0x200000000;
pub const ATTR_BUILD_ID: u64 = 0x400000000;
pub const ATTR_INHERIT_THREAD: u64 = 0x800000000;
pub const ATTR_REMOVE_ON_EXEC: u64 = 0x1000000000;
pub const ATTR_SIGTRAP: u64 = 0x2000000000;

// Aux action bits of perf_event_attr.
pub const ATTR_AUX_START_PAUSED: u32 = 0x1;
pub const ATTR_AUX_PAUSE: u32 = 0x2;
pub const ATTR_AUX_RESUME: u32 = 0x4;

/// `PERF_ATTR_SIZE_VER8`: the size of `perf_event_attr` with `config3`.
pub const PERF_ATTR_SIZE: u32 = 136;

// clock ids
pub const CLOCK_REALTIME: i32 = 0;
pub const CLOCK_MONOTONIC: i32 = 1;
pub const CLOCK_MONOTONIC_RAW: i32 = 4;
pub const CLOCK_BOOTTIME: i32 = 7;
pub const CLOCK_TAI: i32 = 11;

// perf_event_open flags
pub const PERF_FLAG_FD_CLOEXEC: u64 = 0x8;
pub const PERF_FLAG_PID_CGROUP: u64 = 0x4;

// perf_event_type
pub const PERF_RECORD_MMAP: u32 = 1;
pub const PERF_RECORD_LOST: u32 = 2;
pub const PERF_RECORD_COMM: u32 = 3;
pub const PERF_RECORD_EXIT: u32 = 4;
pub const PERF_RECORD_THROTTLE: u32 = 5;
pub const PERF_RECORD_UNTHROTTLE: u32 = 6;
pub const PERF_RECORD_FORK: u32 = 7;
pub const PERF_RECORD_READ: u32 = 8;
pub const PERF_RECORD_SAMPLE: u32 = 9;
pub const PERF_RECORD_MMAP2: u32 = 10;
pub const PERF_RECORD_AUX: u32 = 11;
pub const PERF_RECORD_ITRACE_START: u32 = 12;
pub const PERF_RECORD_LOST_SAMPLES: u32 = 13;
pub const PERF_RECORD_SWITCH: u32 = 14;
pub const PERF_RECORD_SWITCH_CPU_WIDE: u32 = 15;
pub const PERF_RECORD_NAMESPACES: u32 = 16;
pub const PERF_RECORD_KSYMBOL: u32 = 17;
pub const PERF_RECORD_BPF_EVENT: u32 = 18;
pub const PERF_RECORD_CGROUP: u32 = 19;
pub const PERF_RECORD_TEXT_POKE: u32 = 20;
pub const PERF_RECORD_AUX_OUTPUT_HW_ID: u32 = 21;

// perf_event_header::misc
pub const PERF_RECORD_MISC_CPUMODE_MASK: u16 = 7;
pub const PERF_RECORD_MISC_CPUMODE_UNKNOWN: u16 = 0;
pub const PERF_RECORD_MISC_KERNEL: u16 = 1;
pub const PERF_RECORD_MISC_USER: u16 = 2;
pub const PERF_RECORD_MISC_HYPERVISOR: u16 = 3;
pub const PERF_RECORD_MISC_GUEST_KERNEL: u16 = 4;
pub const PERF_RECORD_MISC_GUEST_USER: u16 = 5;
pub const PERF_RECORD_MISC_MMAP_DATA: u16 = 0x2000;
pub const PERF_RECORD_MISC_COMM_EXEC: u16 = 0x2000;
pub const PERF_RECORD_MISC_SWITCH_OUT: u16 = 0x2000;
pub const PERF_RECORD_MISC_EXACT_IP: u16 = 0x4000;
pub const PERF_RECORD_MISC_SWITCH_OUT_PREEMPT: u16 = 0x4000;
pub const PERF_RECORD_MISC_MMAP_BUILD_ID: u16 = 0x4000;

// perf_sample_regs_abi
pub const PERF_SAMPLE_REGS_ABI_NONE: u64 = 0;
pub const PERF_SAMPLE_REGS_ABI_32: u64 = 1;
pub const PERF_SAMPLE_REGS_ABI_64: u64 = 2;

// ksymbol and bpf event records
pub const PERF_RECORD_KSYMBOL_TYPE_BPF: u16 = 1;
pub const PERF_RECORD_KSYMBOL_TYPE_OOL: u16 = 2;
pub const PERF_RECORD_KSYMBOL_FLAGS_UNREGISTER: u16 = 1;
pub const PERF_BPF_EVENT_PROG_LOAD: u16 = 1;
pub const PERF_BPF_EVENT_PROG_UNLOAD: u16 = 2;
pub const BPF_TAG_SIZE: usize = 8;

// aux record flags
pub const PERF_AUX_FLAG_TRUNCATED: u64 = 0x1;
pub const PERF_AUX_FLAG_OVERWRITE: u64 = 0x2;
pub const PERF_AUX_FLAG_PARTIAL: u64 = 0x4;
pub const PERF_AUX_FLAG_COLLISION: u64 = 0x8;
pub const PERF_AUX_FLAG_PMU_FORMAT_TYPE_MASK: u64 = 0xff00;

// namespaces record
pub const NR_NAMESPACES: usize = 7;
pub const NET_NS_INDEX: usize = 0;
pub const UTS_NS_INDEX: usize = 1;
pub const IPC_NS_INDEX: usize = 2;
pub const PID_NS_INDEX: usize = 3;
pub const USER_NS_INDEX: usize = 4;
pub const MNT_NS_INDEX: usize = 5;
pub const CGROUP_NS_INDEX: usize = 6;

// transaction flags
pub const PERF_TXN_ELISION: u64 = 0x1;
pub const PERF_TXN_TRANSACTION: u64 = 0x2;
pub const PERF_TXN_SYNC: u64 = 0x4;
pub const PERF_TXN_ASYNC: u64 = 0x8;
pub const PERF_TXN_RETRY: u64 = 0x10;
pub const PERF_TXN_CONFLICT: u64 = 0x20;
pub const PERF_TXN_CAPACITY_WRITE: u64 = 0x40;
pub const PERF_TXN_CAPACITY_READ: u64 = 0x80;
pub const PERF_TXN_ABORT_SHIFT: u64 = 32;

// branch types of an LBR entry
pub const PERF_BR_UNKNOWN: u64 = 0;
pub const PERF_BR_COND: u64 = 1;
pub const PERF_BR_UNCOND: u64 = 2;
pub const PERF_BR_IND: u64 = 3;
pub const PERF_BR_CALL: u64 = 4;
pub const PERF_BR_IND_CALL: u64 = 5;
pub const PERF_BR_RET: u64 = 6;
pub const PERF_BR_SYSCALL: u64 = 7;
pub const PERF_BR_SYSRET: u64 = 8;
pub const PERF_BR_COND_CALL: u64 = 9;
pub const PERF_BR_COND_RET: u64 = 10;
pub const PERF_BR_ERET: u64 = 11;
pub const PERF_BR_IRQ: u64 = 12;
pub const PERF_BR_SERROR: u64 = 13;
pub const PERF_BR_NO_TX: u64 = 14;
pub const PERF_BR_EXTEND_ABI: u64 = 15;
pub const PERF_BR_NEW_FAULT_ALGN: u64 = 0;
pub const PERF_BR_NEW_FAULT_DATA: u64 = 1;
pub const PERF_BR_NEW_FAULT_INST: u64 = 2;
pub const PERF_BR_NEW_ARCH_1: u64 = 3;
pub const PERF_BR_NEW_ARCH_2: u64 = 4;
pub const PERF_BR_NEW_ARCH_3: u64 = 5;
pub const PERF_BR_NEW_ARCH_4: u64 = 6;
pub const PERF_BR_NEW_ARCH_5: u64 = 7;
pub const PERF_BR_SPEC_NA: u64 = 0;
pub const PERF_BR_SPEC_WRONG_PATH: u64 = 1;
pub const PERF_BR_NON_SPEC_CORRECT_PATH: u64 = 2;
pub const PERF_BR_SPEC_CORRECT_PATH: u64 = 3;
pub const PERF_BR_PRIV_UNKNOWN: u64 = 0;
pub const PERF_BR_PRIV_USER: u64 = 1;
pub const PERF_BR_PRIV_KERNEL: u64 = 2;
pub const PERF_BR_PRIV_HV: u64 = 3;

// data source (perf_mem_data_src)
pub const PERF_MEM_OP_NA: u64 = 0x01;
pub const PERF_MEM_OP_LOAD: u64 = 0x02;
pub const PERF_MEM_OP_STORE: u64 = 0x04;
pub const PERF_MEM_OP_PFETCH: u64 = 0x08;
pub const PERF_MEM_OP_EXEC: u64 = 0x10;
pub const PERF_MEM_LVL_SHIFT: u64 = 5;
pub const PERF_MEM_LVL_NA: u64 = 0x01;
pub const PERF_MEM_LVL_HIT: u64 = 0x02;
pub const PERF_MEM_LVL_MISS: u64 = 0x04;
pub const PERF_MEM_LVL_L1: u64 = 0x08;
pub const PERF_MEM_LVL_LFB: u64 = 0x10;
pub const PERF_MEM_LVL_L2: u64 = 0x20;
pub const PERF_MEM_LVL_L3: u64 = 0x40;
pub const PERF_MEM_LVL_LOC_RAM: u64 = 0x80;
pub const PERF_MEM_LVL_REM_RAM1: u64 = 0x100;
pub const PERF_MEM_LVL_REM_RAM2: u64 = 0x200;
pub const PERF_MEM_LVL_REM_CCE1: u64 = 0x400;
pub const PERF_MEM_LVL_REM_CCE2: u64 = 0x800;
pub const PERF_MEM_LVL_IO: u64 = 0x1000;
pub const PERF_MEM_LVL_UNC: u64 = 0x2000;
pub const PERF_MEM_SNOOP_SHIFT: u64 = 19;
pub const PERF_MEM_SNOOP_NA: u64 = 0x01;
pub const PERF_MEM_SNOOP_NONE: u64 = 0x02;
pub const PERF_MEM_SNOOP_HIT: u64 = 0x04;
pub const PERF_MEM_SNOOP_MISS: u64 = 0x08;
pub const PERF_MEM_SNOOP_HITM: u64 = 0x10;
pub const PERF_MEM_LOCK_SHIFT: u64 = 24;
pub const PERF_MEM_LOCK_NA: u64 = 0x01;
pub const PERF_MEM_LOCK_LOCKED: u64 = 0x02;
pub const PERF_MEM_TLB_SHIFT: u64 = 26;
pub const PERF_MEM_TLB_NA: u64 = 0x01;
pub const PERF_MEM_TLB_HIT: u64 = 0x02;
pub const PERF_MEM_TLB_MISS: u64 = 0x04;
pub const PERF_MEM_TLB_L1: u64 = 0x08;
pub const PERF_MEM_TLB_L2: u64 = 0x10;
pub const PERF_MEM_TLB_WK: u64 = 0x20;
pub const PERF_MEM_TLB_OS: u64 = 0x40;
pub const PERF_MEM_LVLNUM_SHIFT: u64 = 33;
pub const PERF_MEM_LVLNUM_L1: u64 = 0x01;
pub const PERF_MEM_LVLNUM_L2: u64 = 0x02;
pub const PERF_MEM_LVLNUM_L3: u64 = 0x03;
pub const PERF_MEM_LVLNUM_L4: u64 = 0x04;
pub const PERF_MEM_LVLNUM_L2_MHB: u64 = 0x05;
pub const PERF_MEM_LVLNUM_MSC: u64 = 0x06;
pub const PERF_MEM_LVLNUM_UNC: u64 = 0x08;
pub const PERF_MEM_LVLNUM_CXL: u64 = 0x09;
pub const PERF_MEM_LVLNUM_IO: u64 = 0x0a;
pub const PERF_MEM_LVLNUM_ANY_CACHE: u64 = 0x0b;
pub const PERF_MEM_LVLNUM_LFB: u64 = 0x0c;
pub const PERF_MEM_LVLNUM_RAM: u64 = 0x0d;
pub const PERF_MEM_LVLNUM_PMEM: u64 = 0x0e;
pub const PERF_MEM_LVLNUM_NA: u64 = 0x0f;
pub const PERF_MEM_REMOTE_SHIFT: u64 = 37;
pub const PERF_MEM_SNOOPX_SHIFT: u64 = 38;
pub const PERF_MEM_SNOOPX_FWD: u64 = 0x01;
pub const PERF_MEM_SNOOPX_PEER: u64 = 0x02;
pub const PERF_MEM_BLK_SHIFT: u64 = 40;
pub const PERF_MEM_BLK_NA: u64 = 0x01;
pub const PERF_MEM_BLK_DATA: u64 = 0x02;
pub const PERF_MEM_BLK_ADDR: u64 = 0x04;
pub const PERF_MEM_HOPS_SHIFT: u64 = 43;
pub const PERF_MEM_HOPS_0: u64 = 0x01;
pub const PERF_MEM_HOPS_1: u64 = 0x02;
pub const PERF_MEM_HOPS_2: u64 = 0x03;
pub const PERF_MEM_HOPS_3: u64 = 0x04;

} // verus!
