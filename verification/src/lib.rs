//! A simulator of a 64-bit RISC-V hart and its platform: the integer
//! registers and the control-and-status registers, the decoder and the
//! instructions of RV64IMA with Zicsr and Zifencei, trap and interrupt
//! delivery, Sv39 address translation, the system bus with its devices,
//! the core-local interruptor and the platform-level interrupt controller.
//!
//! Every type has a mathematical model, and every function a contract
//! over those models. `cpu_core::cycle_spec` says what one cycle of a hart
//! is, and `CpuCore::execute` is proved to run exactly that; `theorems`
//! holds what follows for every hart.

pub mod bits;
pub mod bus;
pub mod cache_system;
pub mod cache_tags;
pub mod clint;
pub mod cpu_core;
pub mod cpu_dcache;
pub mod cpu_icache;
pub mod csr_regs;
pub mod csr_regs_define;
pub mod device_dram;
pub mod device_uart;
pub mod gpr;
pub mod inst_base;
pub mod inst_decode;
pub mod inst_rv64a;
pub mod inst_rv64i;
pub mod inst_rv64m;
pub mod inst_rv64z;
pub mod mmu;
pub mod plic;
pub mod privilege;
pub mod reservation;
pub mod theorems;
pub mod trace;
pub mod trap;
pub mod traptype;
