use vstd::prelude::*;

verus! {

/// The bit of a cause register that marks an interrupt.
pub const CAUSE_INTERRUPT: u64 = 0x8000_0000_0000_0000;

/// Every synchronous exception and asynchronous interrupt that a hart can
/// take. An exception that reports a value in `xtval` carries it.
#[derive(Clone, Copy, PartialEq, Eq, Structural, Debug)]
pub enum TrapType {
    InstructionAddressMisaligned(u64),
    InstructionAccessFault(u64),
    IllegalInstruction(u64),
    Breakpoint(u64),
    LoadAddressMisaligned(u64),
    LoadAccessFault(u64),
    StoreAddressMisaligned(u64),
    StoreAccessFault(u64),
    EnvironmentCallFromUMode,
    EnvironmentCallFromSMode,
    EnvironmentCallFromMMode,
    InstructionPageFault(u64),
    LoadPageFault(u64),
    StorePageFault(u64),
    SupervisorSoftwareInterrupt,
    MachineSoftwareInterrupt,
    SupervisorTimerInterrupt,
    MachineTimerInterrupt,
    SupervisorExternalInterrupt,
    MachineExternalInterrupt,
}

impl TrapType {
    /// Whether the trap is asynchronous.
    pub open spec fn is_interrupt(self) -> bool {
        match self {
            TrapType::SupervisorSoftwareInterrupt
            | TrapType::MachineSoftwareInterrupt
            | TrapType::SupervisorTimerInterrupt
            | TrapType::MachineTimerInterrupt
            | TrapType::SupervisorExternalInterrupt
            | TrapType::MachineExternalInterrupt => true,
            _ => false,
        }
    }

    /// Whether the trap reports an address that breaks an alignment rule.
    pub open spec fn is_misaligned(self) -> bool {
        match self {
            TrapType::InstructionAddressMisaligned(_)
            | TrapType::LoadAddressMisaligned(_)
            | TrapType::StoreAddressMisaligned(_) => true,
            _ => false,
        }
    }

    /// The exception or interrupt number: the cause without its top bit.
    pub open spec fn number(self) -> u64 {
        match self {
            TrapType::InstructionAddressMisaligned(_) => 0,
            TrapType::InstructionAccessFault(_) => 1,
            TrapType::IllegalInstruction(_) => 2,
            TrapType::Breakpoint(_) => 3,
            TrapType::LoadAddressMisaligned(_) => 4,
            TrapType::LoadAccessFault(_) => 5,
            TrapType::StoreAddressMisaligned(_) => 6,
            TrapType::StoreAccessFault(_) => 7,
            TrapType::EnvironmentCallFromUMode => 8,
            TrapType::EnvironmentCallFromSMode => 9,
            TrapType::EnvironmentCallFromMMode => 11,
            TrapType::InstructionPageFault(_) => 12,
            TrapType::LoadPageFault(_) => 13,
            TrapType::StorePageFault(_) => 15,
            TrapType::SupervisorSoftwareInterrupt => 1,
            TrapType::MachineSoftwareInterrupt => 3,
            TrapType::SupervisorTimerInterrupt => 5,
            TrapType::MachineTimerInterrupt => 7,
            TrapType::SupervisorExternalInterrupt => 9,
            TrapType::MachineExternalInterrupt => 11,
        }
    }

    /// The value written to a cause register: the number, with the top bit
    /// set exactly for interrupts.
    pub open spec fn cause(self) -> u64 {
        if self.is_interrupt() {
            (self.number() + CAUSE_INTERRUPT) as u64
        } else {
            self.number()
        }
    }

    /// The value written to `xtval`: the faulting address or instruction
    /// bits, and zero where the trap carries none.
    pub open spec fn tval(self) -> u64 {
        match self {
            TrapType::InstructionAddressMisaligned(v)
            | TrapType::InstructionAccessFault(v)
            | TrapType::IllegalInstruction(v)
            | TrapType::Breakpoint(v)
            | TrapType::LoadAddressMisaligned(v)
            | TrapType::LoadAccessFault(v)
            | TrapType::StoreAddressMisaligned(v)
            | TrapType::StoreAccessFault(v)
            | TrapType::InstructionPageFault(v)
            | TrapType::LoadPageFault(v)
            | TrapType::StorePageFault(v) => v,
            _ => 0,
        }
    }

    pub fn is_interrupt_type(self) -> (r: bool)
        ensures
            r == self.is_interrupt(),
    {
        match self {
            TrapType::SupervisorSoftwareInterrupt
            | TrapType::MachineSoftwareInterrupt
            | TrapType::SupervisorTimerInterrupt
            | TrapType::MachineTimerInterrupt
            | TrapType::SupervisorExternalInterrupt
            | TrapType::MachineExternalInterrupt => true,
            _ => false,
        }
    }

    pub fn get_exception_num(self) -> (r: u64)
        ensures
            r == self.number(),
            r < 16,
    {
        match self {
            TrapType::InstructionAddressMisaligned(_) => 0,
            TrapType::InstructionAccessFault(_) => 1,
            TrapType::IllegalInstruction(_) => 2,
            TrapType::Breakpoint(_) => 3,
            TrapType::LoadAddressMisaligned(_) => 4,
            TrapType::LoadAccessFault(_) => 5,
            TrapType::StoreAddressMisaligned(_) => 6,
            TrapType::StoreAccessFault(_) => 7,
            TrapType::EnvironmentCallFromUMode => 8,
            TrapType::EnvironmentCallFromSMode => 9,
            TrapType::EnvironmentCallFromMMode => 11,
            TrapType::InstructionPageFault(_) => 12,
            TrapType::LoadPageFault(_) => 13,
            TrapType::StorePageFault(_) => 15,
            TrapType::SupervisorSoftwareInterrupt => 1,
            TrapType::MachineSoftwareInterrupt => 3,
            TrapType::SupervisorTimerInterrupt => 5,
            TrapType::MachineTimerInterrupt => 7,
            TrapType::SupervisorExternalInterrupt => 9,
            TrapType::MachineExternalInterrupt => 11,
        }
    }

    pub fn idx(self) -> (r: u64)
        ensures
            r == self.cause(),
            (r >= CAUSE_INTERRUPT) == self.is_interrupt(),
    {
        let n: u64 = self.get_exception_num();
        if self.is_interrupt_type() {
            n + CAUSE_INTERRUPT
        } else {
            n
        }
    }

    pub fn get_tval(self) -> (r: u64)
        ensures
            r == self.tval(),
    {
        match self {
            TrapType::InstructionAddressMisaligned(v)
            | TrapType::InstructionAccessFault(v)
            | TrapType::IllegalInstruction(v)
            | TrapType::Breakpoint(v)
            | TrapType::LoadAddressMisaligned(v)
            | TrapType::LoadAccessFault(v)
            | TrapType::StoreAddressMisaligned(v)
            | TrapType::StoreAccessFault(v)
            | TrapType::InstructionPageFault(v)
            | TrapType::LoadPageFault(v)
            | TrapType::StorePageFault(v) => v,
            _ => 0,
        }
    }
}

} // verus!
