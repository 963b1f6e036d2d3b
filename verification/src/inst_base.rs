use crate::bits::{sign_extend, sign_extend_spec};
use crate::traptype::TrapType;
use vstd::prelude::*;

verus! {

/// The kinds of memory access. A fetch carries the pc that it fetches
/// for.
#[derive(Clone, Copy, PartialEq, Eq, Structural, Debug)]
pub enum AccessType {
    Fetch(u64),
    Load,
    Store,
    Amo,
}

impl AccessType {
    pub open spec fn is_fetch(self) -> bool {
        self is Fetch
    }

    /// Whether the access writes: stores and atomic operations do.
    pub open spec fn is_write(self) -> bool {
        self is Store || self is Amo
    }

    /// The trap for an access to `va` that translation refuses.
    pub open spec fn page_fault(self, va: u64) -> TrapType {
        match self {
            AccessType::Fetch(_) => TrapType::InstructionPageFault(va),
            AccessType::Load => TrapType::LoadPageFault(va),
            _ => TrapType::StorePageFault(va),
        }
    }

    /// The trap for an access to `va` that the bus does not serve.
    pub open spec fn access_fault(self, va: u64) -> TrapType {
        match self {
            AccessType::Fetch(_) => TrapType::InstructionAccessFault(va),
            AccessType::Load => TrapType::LoadAccessFault(va),
            _ => TrapType::StoreAccessFault(va),
        }
    }

    /// The trap for an access to `va` that crosses a natural boundary.
    pub open spec fn misaligned(self, va: u64) -> TrapType {
        match self {
            AccessType::Fetch(_) => TrapType::InstructionAddressMisaligned(va),
            AccessType::Load => TrapType::LoadAddressMisaligned(va),
            _ => TrapType::StoreAddressMisaligned(va),
        }
    }

    pub fn fetches(self) -> (r: bool)
        ensures
            r == self.is_fetch(),
    {
        match self {
            AccessType::Fetch(_) => true,
            _ => false,
        }
    }

    pub fn writes(self) -> (r: bool)
        ensures
            r == self.is_write(),
    {
        match self {
            AccessType::Store => true,
            AccessType::Amo => true,
            _ => false,
        }
    }

    pub fn page_fault_at(self, va: u64) -> (t: TrapType)
        ensures
            t == self.page_fault(va),
    {
        match self {
            AccessType::Fetch(_) => TrapType::InstructionPageFault(va),
            AccessType::Load => TrapType::LoadPageFault(va),
            _ => TrapType::StorePageFault(va),
        }
    }

    pub fn access_fault_at(self, va: u64) -> (t: TrapType)
        ensures
            t == self.access_fault(va),
    {
        match self {
            AccessType::Fetch(_) => TrapType::InstructionAccessFault(va),
            AccessType::Load => TrapType::LoadAccessFault(va),
            _ => TrapType::StoreAccessFault(va),
        }
    }

    pub fn misaligned_at(self, va: u64) -> (t: TrapType)
        ensures
            t == self.misaligned(va),
    {
        match self {
            AccessType::Fetch(_) => TrapType::InstructionAddressMisaligned(va),
            AccessType::Load => TrapType::LoadAddressMisaligned(va),
            _ => TrapType::StoreAddressMisaligned(va),
        }
    }
}

/// The operations of the integer and the multiply/divide instructions.
#[derive(Clone, Copy, PartialEq, Eq, Structural, Debug)]
pub enum AluOp {
    Add,
    Sub,
    Sll,
    Slt,
    Sltu,
    Xor,
    Srl,
    Sra,
    Or,
    And,
    Mul,
    Mulh,
    Mulhsu,
    Mulhu,
    Div,
    Divu,
    Rem,
    Remu,
}

/// The conditions of the branch instructions.
#[derive(Clone, Copy, PartialEq, Eq, Structural, Debug)]
pub enum BranchOp {
    Beq,
    Bne,
    Blt,
    Bge,
    Bltu,
    Bgeu,
}

/// The operations of the atomic memory instructions.
#[derive(Clone, Copy, PartialEq, Eq, Structural, Debug)]
pub enum AmoOp {
    Swap,
    Add,
    Xor,
    And,
    Or,
    Min,
    Max,
    Minu,
    Maxu,
}

/// What a CSR instruction does with its source: write it, set its bits
/// or clear its bits.
#[derive(Clone, Copy, PartialEq, Eq, Structural, Debug)]
pub enum CsrOp {
    ReadWrite,
    ReadSet,
    ReadClear,
}

/// What an instruction does. A load carries its width in bytes and
/// whether it sign-extends; a store, a load-reserved, a
/// store-conditional and an atomic operation carry their width; a CSR
/// instruction carries whether its source is an immediate.
#[derive(Clone, Copy, PartialEq, Eq, Structural, Debug)]
pub enum InstKind {
    Lui,
    Auipc,
    Jal,
    Jalr,
    Branch(BranchOp),
    Load(u64, bool),
    Store(u64),
    OpImm(AluOp),
    Op(AluOp),
    OpImmW(AluOp),
    OpW(AluOp),
    Fence,
    FenceI,
    Ecall,
    Ebreak,
    Mret,
    Sret,
    Wfi,
    SfenceVma,
    Csr(CsrOp, bool),
    Lr(u64),
    Sc(u64),
    Amo(AmoOp, u64),
}

/// The destination register field: bits 11 to 7.
pub open spec fn field_rd(inst: u32) -> u64 {
    ((inst / 0x80) % 32) as u64
}

/// The first source register field: bits 19 to 15. The CSR instructions
/// with an immediate hold their immediate here.
pub open spec fn field_rs1(inst: u32) -> u64 {
    ((inst / 0x8000) % 32) as u64
}

/// The second source register field: bits 24 to 20.
pub open spec fn field_rs2(inst: u32) -> u64 {
    ((inst / 0x10_0000) % 32) as u64
}

/// The CSR address field: bits 31 to 20.
pub open spec fn field_csr(inst: u32) -> u64 {
    (inst / 0x10_0000) as u64
}

/// The shift amount of the shifts by an immediate: bits 25 to 20.
pub open spec fn field_shamt(inst: u32) -> u64 {
    ((inst / 0x10_0000) % 64) as u64
}

/// The immediate of the I format: bits 31 to 20, sign-extended.
pub open spec fn imm_i(inst: u32) -> u64 {
    sign_extend_spec((inst / 0x10_0000) as u64, 0x1000)
}

/// The immediate of the S format: bits 31 to 25 and 11 to 7,
/// sign-extended.
pub open spec fn imm_s(inst: u32) -> u64 {
    sign_extend_spec(((inst / 0x200_0000) * 32 + (inst / 0x80) % 32) as u64, 0x1000)
}

/// The immediate of the B format, a multiple of two: bits 31, 7, 30 to
/// 25 and 11 to 8, sign-extended.
pub open spec fn imm_b(inst: u32) -> u64 {
    sign_extend_spec(
        ((inst / 0x8000_0000) * 0x1000 + ((inst / 0x80) % 2) * 0x800 + ((inst / 0x200_0000) % 64)
            * 32 + ((inst / 0x100) % 16) * 2) as u64,
        0x2000,
    )
}

/// The immediate of the U format: bits 31 to 12 in place, sign-extended
/// from 32 bits.
pub open spec fn imm_u(inst: u32) -> u64 {
    sign_extend_spec(((inst / 0x1000) * 0x1000) as u64, 0x1_0000_0000)
}

/// The immediate of the J format, a multiple of two: bits 31, 19 to 12,
/// 20 and 30 to 21, sign-extended.
pub open spec fn imm_j(inst: u32) -> u64 {
    sign_extend_spec(
        ((inst / 0x8000_0000) * 0x10_0000 + ((inst / 0x1000) % 256) * 0x1000 + ((inst / 0x10_0000)
            % 2) * 0x800 + ((inst / 0x20_0000) % 1024) * 2) as u64,
        0x20_0000,
    )
}

/// The fields of an instruction, each as its format places it.
#[derive(Clone, Copy, Debug)]
pub struct Fields {
    pub rd: u64,
    pub rs1: u64,
    pub rs2: u64,
    pub csr: u64,
    pub shamt: u64,
    pub imm_i: u64,
    pub imm_s: u64,
    pub imm_b: u64,
    pub imm_u: u64,
    pub imm_j: u64,
}

/// The fields of `inst`.
pub open spec fn fields_of(inst: u32) -> Fields {
    Fields {
        rd: field_rd(inst),
        rs1: field_rs1(inst),
        rs2: field_rs2(inst),
        csr: field_csr(inst),
        shamt: field_shamt(inst),
        imm_i: imm_i(inst),
        imm_s: imm_s(inst),
        imm_b: imm_b(inst),
        imm_u: imm_u(inst),
        imm_j: imm_j(inst),
    }
}

pub fn parse_fields(inst: u32) -> (f: Fields)
    ensures
        f == fields_of(inst),
        f.rd < 32,
        f.rs1 < 32,
        f.rs2 < 32,
        f.csr < 0x1000,
        f.shamt < 64,
{
    let w: u64 = inst as u64;
    Fields {
        rd: (w / 0x80) % 32,
        rs1: (w / 0x8000) % 32,
        rs2: (w / 0x10_0000) % 32,
        csr: w / 0x10_0000,
        shamt: (w / 0x10_0000) % 64,
        imm_i: sign_extend(w / 0x10_0000, 0x1000),
        imm_s: sign_extend((w / 0x200_0000) * 32 + (w / 0x80) % 32, 0x1000),
        imm_b: sign_extend(
            (w / 0x8000_0000) * 0x1000 + ((w / 0x80) % 2) * 0x800 + ((w / 0x200_0000) % 64) * 32
                + ((w / 0x100) % 16) * 2,
            0x2000,
        ),
        imm_u: sign_extend((w / 0x1000) * 0x1000, 0x1_0000_0000),
        imm_j: sign_extend(
            (w / 0x8000_0000) * 0x10_0000 + ((w / 0x1000) % 256) * 0x1000 + ((w / 0x10_0000) % 2)
                * 0x800 + ((w / 0x20_0000) % 1024) * 2,
            0x20_0000,
        ),
    }
}

/// The CSR instruction format of an encoding: the CSR address, the
/// source register or immediate, and the destination.
pub fn parse_format_csr(inst: u32) -> (f: Fields)
    ensures
        f == fields_of(inst),
{
    parse_fields(inst)
}

/// A value that the guest has written to the host interface. The top
/// byte names the device, the next byte the command, and the low 48
/// bits are the payload.
#[derive(Clone, Copy, PartialEq, Eq, Structural, Debug)]
pub struct FesvrCmd {
    pub value: u64,
}

impl FesvrCmd {
    pub open spec fn device(self) -> u64 {
        self.value / 0x100_0000_0000_0000
    }

    pub open spec fn command(self) -> u64 {
        (self.value / 0x1_0000_0000_0000) % 256
    }

    pub open spec fn payload(self) -> u64 {
        self.value % 0x1_0000_0000_0000
    }

    /// Whether the value is an exit request: device 0, command 0, and
    /// the lowest bit of the payload set.
    pub open spec fn is_exit(self) -> bool {
        self.device() == 0 && self.command() == 0 && self.payload() % 2 == 1
    }

    /// The exit code of an exit request: the payload without its lowest
    /// bit.
    pub open spec fn exit_code_spec(self) -> u64 {
        self.payload() / 2
    }

    /// The character of a request to the console: device 1, command 1,
    /// and the lowest byte of the payload is the character.
    pub open spec fn character(self) -> Option<u8> {
        if self.device() == 1 && self.command() == 1 {
            Some((self.payload() % 256) as u8)
        } else {
            None
        }
    }

    pub fn from(value: u64) -> (c: FesvrCmd)
        ensures
            c.value == value,
    {
        FesvrCmd { value }
    }

    /// For an exit request, whether the guest reports success: an exit
    /// code of zero. `None` for anything else.
    pub fn syscall_device(&self) -> (r: Option<bool>)
        ensures
            r == if self.is_exit() {
                Some(self.exit_code_spec() == 0)
            } else {
                None
            },
    {
        let device: u64 = self.value / 0x100_0000_0000_0000;
        let command: u64 = (self.value / 0x1_0000_0000_0000) % 256;
        let payload: u64 = self.value % 0x1_0000_0000_0000;
        if device == 0 && command == 0 && payload % 2 == 1 {
            Some(payload / 2 == 0)
        } else {
            None
        }
    }

    pub fn exit_code(&self) -> (r: u64)
        ensures
            r == self.exit_code_spec(),
    {
        (self.value % 0x1_0000_0000_0000) / 2
    }

    /// The character that the guest asks the console to print, if the
    /// value is such a request.
    pub fn character_device_write(&self) -> (r: Option<u8>)
        ensures
            r == self.character(),
    {
        let device: u64 = self.value / 0x100_0000_0000_0000;
        let command: u64 = (self.value / 0x1_0000_0000_0000) % 256;
        if device == 1 && command == 1 {
            Some(((self.value % 0x1_0000_0000_0000) % 256) as u8)
        } else {
            None
        }
    }
}

} // verus!
