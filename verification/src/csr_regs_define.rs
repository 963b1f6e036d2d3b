use vstd::prelude::*;

verus! {

pub const MASK_ALL: u64 = 0xffff_ffff_ffff_ffff;

// Addresses.
pub const CSR_SSTATUS: u64 = 0x100;
pub const CSR_SIE: u64 = 0x104;
pub const CSR_STVEC: u64 = 0x105;
pub const CSR_SCOUNTEREN: u64 = 0x106;
pub const CSR_SSCRATCH: u64 = 0x140;
pub const CSR_SEPC: u64 = 0x141;
pub const CSR_SCAUSE: u64 = 0x142;
pub const CSR_STVAL: u64 = 0x143;
pub const CSR_SIP: u64 = 0x144;
pub const CSR_SATP: u64 = 0x180;
pub const CSR_MSTATUS: u64 = 0x300;
pub const CSR_MISA: u64 = 0x301;
pub const CSR_MEDELEG: u64 = 0x302;
pub const CSR_MIDELEG: u64 = 0x303;
pub const CSR_MIE: u64 = 0x304;
pub const CSR_MTVEC: u64 = 0x305;
pub const CSR_MCOUNTEREN: u64 = 0x306;
pub const CSR_MSCRATCH: u64 = 0x340;
pub const CSR_MEPC: u64 = 0x341;
pub const CSR_MCAUSE: u64 = 0x342;
pub const CSR_MTVAL: u64 = 0x343;
pub const CSR_MIP: u64 = 0x344;
pub const CSR_PMPCFG0: u64 = 0x3a0;
pub const CSR_PMPADDR0: u64 = 0x3b0;
pub const CSR_MCYCLE: u64 = 0xb00;
pub const CSR_MINSTRET: u64 = 0xb02;
pub const CSR_CYCLE: u64 = 0xc00;
pub const CSR_TIME: u64 = 0xc01;
pub const CSR_INSTRET: u64 = 0xc02;
pub const CSR_MVENDORID: u64 = 0xf11;
pub const CSR_MARCHID: u64 = 0xf12;
pub const CSR_MIMPID: u64 = 0xf13;
pub const CSR_MHARTID: u64 = 0xf14;

// Fields of mstatus.
pub const MSTATUS_SIE: u64 = 0x2;
pub const MSTATUS_MIE: u64 = 0x8;
pub const MSTATUS_SPIE: u64 = 0x20;
pub const MSTATUS_MPIE: u64 = 0x80;
pub const MSTATUS_SPP: u64 = 0x100;
pub const MSTATUS_MPP: u64 = 0x1800;
pub const MSTATUS_MPRV: u64 = 0x2_0000;
pub const MSTATUS_SUM: u64 = 0x4_0000;
pub const MSTATUS_MXR: u64 = 0x8_0000;
pub const MSTATUS_TVM: u64 = 0x10_0000;
pub const MSTATUS_TW: u64 = 0x20_0000;
pub const MSTATUS_TSR: u64 = 0x40_0000;
pub const MSTATUS_UXL: u64 = 0x3_0000_0000;
pub const MSTATUS_SXL: u64 = 0xc_0000_0000;

/// The bit position of the two-bit MPP field.
pub const MSTATUS_MPP_SHIFT: u64 = 11;

/// SIE, MIE, SPIE, MPIE, SPP, MPP, MPRV, SUM, MXR, TVM, TW and TSR.
pub const MSTATUS_WRITE_MASK: u64 = 0x7e_19aa;

/// SIE, SPIE, SPP, SUM, MXR and UXL: what `sstatus` shows of `mstatus`.
pub const SSTATUS_VIEW_MASK: u64 = 0x3_000c_0122;

/// UXL and SXL both read as 2: the hart is 64 bits wide in every mode.
pub const MSTATUS_RESET: u64 = 0xa_0000_0000;

/// RV64 with the extensions I, M, A, S and U.
pub const MISA_RESET: u64 = 0x8000_0000_0014_1101;

// Interrupt bits of mip, mie and mideleg.
pub const IP_SSIP: u64 = 0x2;
pub const IP_MSIP: u64 = 0x8;
pub const IP_STIP: u64 = 0x20;
pub const IP_MTIP: u64 = 0x80;
pub const IP_SEIP: u64 = 0x200;
pub const IP_MEIP: u64 = 0x800;

/// SSIP, STIP and SEIP.
pub const SUPERVISOR_INTERRUPTS: u64 = 0x222;

/// SSIP and STIP: the pending bits that software writes. The others are
/// driven by the interrupt controllers.
pub const SOFTWARE_PENDING: u64 = 0x22;

/// All six interrupt enables.
pub const MIE_WRITE_MASK: u64 = 0xaaa;

/// Every exception that can be delegated: all but the environment call
/// from machine mode and the reserved numbers.
pub const MEDELEG_WRITE_MASK: u64 = 0xb3ff;

/// A trap vector holds a base and a mode bit; bit 1 is reserved.
pub const TVEC_WRITE_MASK: u64 = 0xffff_ffff_ffff_fffd;

/// An exception pc is always four-byte aligned.
pub const EPC_WRITE_MASK: u64 = 0xffff_ffff_ffff_fffc;

/// CY, TM and IR.
pub const COUNTEREN_WRITE_MASK: u64 = 0x7;

/// The mode and the page number of the root table; no address-space ids.
pub const SATP_WRITE_MASK: u64 = 0xf000_0fff_ffff_ffff;

pub const SATP_MODE_BARE: u64 = 0;
pub const SATP_MODE_SV39: u64 = 8;
pub const SATP_PPN_MODULUS: u64 = 0x1000_0000_0000;

} // verus!
