use crate::inst_base::{AluOp, AmoOp, BranchOp, CsrOp, InstKind};
use vstd::prelude::*;

verus! {

/// The number of entries of the decode table.
pub const INSTRUCTION_COUNT: usize = 98;

/// An entry of the decode table: an encoding matches it when the bits
/// of `mask` are those of `match_data`.
#[derive(Clone, Copy, Debug)]
pub struct Instruction {
    pub mask: u32,
    pub match_data: u32,
    pub name: &'static str,
    pub kind: InstKind,
}

/// The mask, the match value and the kind of entry `i` of the decode
/// table. The table holds RV64I, M, A, Zicsr, Zifencei and the
/// privileged instructions.
pub open spec fn table_entry(i: int) -> (u32, u32, InstKind) {
    if i == 0 {
        (0x7f, 0x37, InstKind::Lui)
    } else if i == 1 {
        (0x7f, 0x17, InstKind::Auipc)
    } else if i == 2 {
        (0x7f, 0x6f, InstKind::Jal)
    } else if i == 3 {
        (0x707f, 0x67, InstKind::Jalr)
    } else if i == 4 {
        (0x707f, 0x63, InstKind::Branch(BranchOp::Beq))
    } else if i == 5 {
        (0x707f, 0x1063, InstKind::Branch(BranchOp::Bne))
    } else if i == 6 {
        (0x707f, 0x4063, InstKind::Branch(BranchOp::Blt))
    } else if i == 7 {
        (0x707f, 0x5063, InstKind::Branch(BranchOp::Bge))
    } else if i == 8 {
        (0x707f, 0x6063, InstKind::Branch(BranchOp::Bltu))
    } else if i == 9 {
        (0x707f, 0x7063, InstKind::Branch(BranchOp::Bgeu))
    } else if i == 10 {
        (0x707f, 0x3, InstKind::Load(1, true))
    } else if i == 11 {
        (0x707f, 0x1003, InstKind::Load(2, true))
    } else if i == 12 {
        (0x707f, 0x2003, InstKind::Load(4, true))
    } else if i == 13 {
        (0x707f, 0x3003, InstKind::Load(8, true))
    } else if i == 14 {
        (0x707f, 0x4003, InstKind::Load(1, false))
    } else if i == 15 {
        (0x707f, 0x5003, InstKind::Load(2, false))
    } else if i == 16 {
        (0x707f, 0x6003, InstKind::Load(4, false))
    } else if i == 17 {
        (0x707f, 0x23, InstKind::Store(1))
    } else if i == 18 {
        (0x707f, 0x1023, InstKind::Store(2))
    } else if i == 19 {
        (0x707f, 0x2023, InstKind::Store(4))
    } else if i == 20 {
        (0x707f, 0x3023, InstKind::Store(8))
    } else if i == 21 {
        (0x707f, 0x13, InstKind::OpImm(AluOp::Add))
    } else if i == 22 {
        (0x707f, 0x2013, InstKind::OpImm(AluOp::Slt))
    } else if i == 23 {
        (0x707f, 0x3013, InstKind::OpImm(AluOp::Sltu))
    } else if i == 24 {
        (0x707f, 0x4013, InstKind::OpImm(AluOp::Xor))
    } else if i == 25 {
        (0x707f, 0x6013, InstKind::OpImm(AluOp::Or))
    } else if i == 26 {
        (0x707f, 0x7013, InstKind::OpImm(AluOp::And))
    } else if i == 27 {
        (0xfc00707f, 0x1013, InstKind::OpImm(AluOp::Sll))
    } else if i == 28 {
        (0xfc00707f, 0x5013, InstKind::OpImm(AluOp::Srl))
    } else if i == 29 {
        (0xfc00707f, 0x40005013, InstKind::OpImm(AluOp::Sra))
    } else if i == 30 {
        (0xfe00707f, 0x33, InstKind::Op(AluOp::Add))
    } else if i == 31 {
        (0xfe00707f, 0x40000033, InstKind::Op(AluOp::Sub))
    } else if i == 32 {
        (0xfe00707f, 0x1033, InstKind::Op(AluOp::Sll))
    } else if i == 33 {
        (0xfe00707f, 0x2033, InstKind::Op(AluOp::Slt))
    } else if i == 34 {
        (0xfe00707f, 0x3033, InstKind::Op(AluOp::Sltu))
    } else if i == 35 {
        (0xfe00707f, 0x4033, InstKind::Op(AluOp::Xor))
    } else if i == 36 {
        (0xfe00707f, 0x5033, InstKind::Op(AluOp::Srl))
    } else if i == 37 {
        (0xfe00707f, 0x40005033, InstKind::Op(AluOp::Sra))
    } else if i == 38 {
        (0xfe00707f, 0x6033, InstKind::Op(AluOp::Or))
    } else if i == 39 {
        (0xfe00707f, 0x7033, InstKind::Op(AluOp::And))
    } else if i == 40 {
        (0xfe00707f, 0x2000033, InstKind::Op(AluOp::Mul))
    } else if i == 41 {
        (0xfe00707f, 0x2001033, InstKind::Op(AluOp::Mulh))
    } else if i == 42 {
        (0xfe00707f, 0x2002033, InstKind::Op(AluOp::Mulhsu))
    } else if i == 43 {
        (0xfe00707f, 0x2003033, InstKind::Op(AluOp::Mulhu))
    } else if i == 44 {
        (0xfe00707f, 0x2004033, InstKind::Op(AluOp::Div))
    } else if i == 45 {
        (0xfe00707f, 0x2005033, InstKind::Op(AluOp::Divu))
    } else if i == 46 {
        (0xfe00707f, 0x2006033, InstKind::Op(AluOp::Rem))
    } else if i == 47 {
        (0xfe00707f, 0x2007033, InstKind::Op(AluOp::Remu))
    } else if i == 48 {
        (0x707f, 0xf, InstKind::Fence)
    } else if i == 49 {
        (0x707f, 0x100f, InstKind::FenceI)
    } else if i == 50 {
        (0xffffffff, 0x73, InstKind::Ecall)
    } else if i == 51 {
        (0xffffffff, 0x100073, InstKind::Ebreak)
    } else if i == 52 {
        (0x707f, 0x1b, InstKind::OpImmW(AluOp::Add))
    } else if i == 53 {
        (0xfe00707f, 0x101b, InstKind::OpImmW(AluOp::Sll))
    } else if i == 54 {
        (0xfe00707f, 0x501b, InstKind::OpImmW(AluOp::Srl))
    } else if i == 55 {
        (0xfe00707f, 0x4000501b, InstKind::OpImmW(AluOp::Sra))
    } else if i == 56 {
        (0xfe00707f, 0x3b, InstKind::OpW(AluOp::Add))
    } else if i == 57 {
        (0xfe00707f, 0x4000003b, InstKind::OpW(AluOp::Sub))
    } else if i == 58 {
        (0xfe00707f, 0x103b, InstKind::OpW(AluOp::Sll))
    } else if i == 59 {
        (0xfe00707f, 0x503b, InstKind::OpW(AluOp::Srl))
    } else if i == 60 {
        (0xfe00707f, 0x4000503b, InstKind::OpW(AluOp::Sra))
    } else if i == 61 {
        (0xfe00707f, 0x200003b, InstKind::OpW(AluOp::Mul))
    } else if i == 62 {
        (0xfe00707f, 0x200403b, InstKind::OpW(AluOp::Div))
    } else if i == 63 {
        (0xfe00707f, 0x200503b, InstKind::OpW(AluOp::Divu))
    } else if i == 64 {
        (0xfe00707f, 0x200603b, InstKind::OpW(AluOp::Rem))
    } else if i == 65 {
        (0xfe00707f, 0x200703b, InstKind::OpW(AluOp::Remu))
    } else if i == 66 {
        (0xf9f0707f, 0x1000202f, InstKind::Lr(4))
    } else if i == 67 {
        (0xf800707f, 0x1800202f, InstKind::Sc(4))
    } else if i == 68 {
        (0xf800707f, 0x800202f, InstKind::Amo(AmoOp::Swap, 4))
    } else if i == 69 {
        (0xf800707f, 0x202f, InstKind::Amo(AmoOp::Add, 4))
    } else if i == 70 {
        (0xf800707f, 0x2000202f, InstKind::Amo(AmoOp::Xor, 4))
    } else if i == 71 {
        (0xf800707f, 0x6000202f, InstKind::Amo(AmoOp::And, 4))
    } else if i == 72 {
        (0xf800707f, 0x4000202f, InstKind::Amo(AmoOp::Or, 4))
    } else if i == 73 {
        (0xf800707f, 0x8000202f, InstKind::Amo(AmoOp::Min, 4))
    } else if i == 74 {
        (0xf800707f, 0xa000202f, InstKind::Amo(AmoOp::Max, 4))
    } else if i == 75 {
        (0xf800707f, 0xc000202f, InstKind::Amo(AmoOp::Minu, 4))
    } else if i == 76 {
        (0xf800707f, 0xe000202f, InstKind::Amo(AmoOp::Maxu, 4))
    } else if i == 77 {
        (0xf9f0707f, 0x1000302f, InstKind::Lr(8))
    } else if i == 78 {
        (0xf800707f, 0x1800302f, InstKind::Sc(8))
    } else if i == 79 {
        (0xf800707f, 0x800302f, InstKind::Amo(AmoOp::Swap, 8))
    } else if i == 80 {
        (0xf800707f, 0x302f, InstKind::Amo(AmoOp::Add, 8))
    } else if i == 81 {
        (0xf800707f, 0x2000302f, InstKind::Amo(AmoOp::Xor, 8))
    } else if i == 82 {
        (0xf800707f, 0x6000302f, InstKind::Amo(AmoOp::And, 8))
    } else if i == 83 {
        (0xf800707f, 0x4000302f, InstKind::Amo(AmoOp::Or, 8))
    } else if i == 84 {
        (0xf800707f, 0x8000302f, InstKind::Amo(AmoOp::Min, 8))
    } else if i == 85 {
        (0xf800707f, 0xa000302f, InstKind::Amo(AmoOp::Max, 8))
    } else if i == 86 {
        (0xf800707f, 0xc000302f, InstKind::Amo(AmoOp::Minu, 8))
    } else if i == 87 {
        (0xf800707f, 0xe000302f, InstKind::Amo(AmoOp::Maxu, 8))
    } else if i == 88 {
        (0x707f, 0x1073, InstKind::Csr(CsrOp::ReadWrite, false))
    } else if i == 89 {
        (0x707f, 0x2073, InstKind::Csr(CsrOp::ReadSet, false))
    } else if i == 90 {
        (0x707f, 0x3073, InstKind::Csr(CsrOp::ReadClear, false))
    } else if i == 91 {
        (0x707f, 0x5073, InstKind::Csr(CsrOp::ReadWrite, true))
    } else if i == 92 {
        (0x707f, 0x6073, InstKind::Csr(CsrOp::ReadSet, true))
    } else if i == 93 {
        (0x707f, 0x7073, InstKind::Csr(CsrOp::ReadClear, true))
    } else if i == 94 {
        (0xffffffff, 0x30200073, InstKind::Mret)
    } else if i == 95 {
        (0xffffffff, 0x10200073, InstKind::Sret)
    } else if i == 96 {
        (0xffffffff, 0x10500073, InstKind::Wfi)
    } else if i == 97 {
        (0xfe007fff, 0x12000073, InstKind::SfenceVma)
    } else {
        (0, 1, InstKind::Fence)
    }
}

/// The mnemonic of entry `i` of the decode table.
pub open spec fn table_name(i: int) -> Seq<char> {
    if i == 0 {
        "LUI"@
    } else if i == 1 {
        "AUIPC"@
    } else if i == 2 {
        "JAL"@
    } else if i == 3 {
        "JALR"@
    } else if i == 4 {
        "BEQ"@
    } else if i == 5 {
        "BNE"@
    } else if i == 6 {
        "BLT"@
    } else if i == 7 {
        "BGE"@
    } else if i == 8 {
        "BLTU"@
    } else if i == 9 {
        "BGEU"@
    } else if i == 10 {
        "LB"@
    } else if i == 11 {
        "LH"@
    } else if i == 12 {
        "LW"@
    } else if i == 13 {
        "LD"@
    } else if i == 14 {
        "LBU"@
    } else if i == 15 {
        "LHU"@
    } else if i == 16 {
        "LWU"@
    } else if i == 17 {
        "SB"@
    } else if i == 18 {
        "SH"@
    } else if i == 19 {
        "SW"@
    } else if i == 20 {
        "SD"@
    } else if i == 21 {
        "ADDI"@
    } else if i == 22 {
        "SLTI"@
    } else if i == 23 {
        "SLTIU"@
    } else if i == 24 {
        "XORI"@
    } else if i == 25 {
        "ORI"@
    } else if i == 26 {
        "ANDI"@
    } else if i == 27 {
        "SLLI"@
    } else if i == 28 {
        "SRLI"@
    } else if i == 29 {
        "SRAI"@
    } else if i == 30 {
        "ADD"@
    } else if i == 31 {
        "SUB"@
    } else if i == 32 {
        "SLL"@
    } else if i == 33 {
        "SLT"@
    } else if i == 34 {
        "SLTU"@
    } else if i == 35 {
        "XOR"@
    } else if i == 36 {
        "SRL"@
    } else if i == 37 {
        "SRA"@
    } else if i == 38 {
        "OR"@
    } else if i == 39 {
        "AND"@
    } else if i == 40 {
        "MUL"@
    } else if i == 41 {
        "MULH"@
    } else if i == 42 {
        "MULHSU"@
    } else if i == 43 {
        "MULHU"@
    } else if i == 44 {
        "DIV"@
    } else if i == 45 {
        "DIVU"@
    } else if i == 46 {
        "REM"@
    } else if i == 47 {
        "REMU"@
    } else if i == 48 {
        "FENCE"@
    } else if i == 49 {
        "FENCE_I"@
    } else if i == 50 {
        "ECALL"@
    } else if i == 51 {
        "EBREAK"@
    } else if i == 52 {
        "ADDIW"@
    } else if i == 53 {
        "SLLIW"@
    } else if i == 54 {
        "SRLIW"@
    } else if i == 55 {
        "SRAIW"@
    } else if i == 56 {
        "ADDW"@
    } else if i == 57 {
        "SUBW"@
    } else if i == 58 {
        "SLLW"@
    } else if i == 59 {
        "SRLW"@
    } else if i == 60 {
        "SRAW"@
    } else if i == 61 {
        "MULW"@
    } else if i == 62 {
        "DIVW"@
    } else if i == 63 {
        "DIVUW"@
    } else if i == 64 {
        "REMW"@
    } else if i == 65 {
        "REMUW"@
    } else if i == 66 {
        "LR_W"@
    } else if i == 67 {
        "SC_W"@
    } else if i == 68 {
        "AMOSWAP_W"@
    } else if i == 69 {
        "AMOADD_W"@
    } else if i == 70 {
        "AMOXOR_W"@
    } else if i == 71 {
        "AMOAND_W"@
    } else if i == 72 {
        "AMOOR_W"@
    } else if i == 73 {
        "AMOMIN_W"@
    } else if i == 74 {
        "AMOMAX_W"@
    } else if i == 75 {
        "AMOMINU_W"@
    } else if i == 76 {
        "AMOMAXU_W"@
    } else if i == 77 {
        "LR_D"@
    } else if i == 78 {
        "SC_D"@
    } else if i == 79 {
        "AMOSWAP_D"@
    } else if i == 80 {
        "AMOADD_D"@
    } else if i == 81 {
        "AMOXOR_D"@
    } else if i == 82 {
        "AMOAND_D"@
    } else if i == 83 {
        "AMOOR_D"@
    } else if i == 84 {
        "AMOMIN_D"@
    } else if i == 85 {
        "AMOMAX_D"@
    } else if i == 86 {
        "AMOMINU_D"@
    } else if i == 87 {
        "AMOMAXU_D"@
    } else if i == 88 {
        "CSRRW"@
    } else if i == 89 {
        "CSRRS"@
    } else if i == 90 {
        "CSRRC"@
    } else if i == 91 {
        "CSRRWI"@
    } else if i == 92 {
        "CSRRSI"@
    } else if i == 93 {
        "CSRRCI"@
    } else if i == 94 {
        "MRET"@
    } else if i == 95 {
        "SRET"@
    } else if i == 96 {
        "WFI"@
    } else if i == 97 {
        "SFENCE_VMA"@
    } else {
        Seq::empty()
    }
}

/// Whether the encoding `inst` matches entry `i` of the table.
pub open spec fn matches_entry(inst: u32, i: int) -> bool {
    0 <= i < INSTRUCTION_COUNT && inst & table_entry(i).0 == table_entry(i).1
}

/// Whether `i` is the first entry that `inst` matches.
pub open spec fn first_match(inst: u32, i: int) -> bool {
    matches_entry(inst, i) && forall|j: int| 0 <= j < i ==> !matches_entry(inst, j)
}

/// The kind of the instruction that `inst` encodes: that of the first
/// entry of the table that it matches, and `None` where it matches none.
pub open spec fn decode(inst: u32) -> Option<InstKind> {
    if exists|i: int| first_match(inst, i) {
        Some(table_entry(choose|i: int| first_match(inst, i)).2)
    } else {
        None
    }
}

/// Entry `i` of the decode table.
pub fn instruction(i: usize) -> (r: Instruction)
    requires
        i < INSTRUCTION_COUNT,
    ensures
        (r.mask, r.match_data, r.kind) == table_entry(i as int),
        r.name@ == table_name(i as int),
{
    match i {
        0 => Instruction { mask: 0x7f, match_data: 0x37, name: "LUI", kind: InstKind::Lui },
        1 => Instruction { mask: 0x7f, match_data: 0x17, name: "AUIPC", kind: InstKind::Auipc },
        2 => Instruction { mask: 0x7f, match_data: 0x6f, name: "JAL", kind: InstKind::Jal },
        3 => Instruction { mask: 0x707f, match_data: 0x67, name: "JALR", kind: InstKind::Jalr },
        4 => Instruction { mask: 0x707f, match_data: 0x63, name: "BEQ", kind: InstKind::Branch(BranchOp::Beq) },
        5 => Instruction { mask: 0x707f, match_data: 0x1063, name: "BNE", kind: InstKind::Branch(BranchOp::Bne) },
        6 => Instruction { mask: 0x707f, match_data: 0x4063, name: "BLT", kind: InstKind::Branch(BranchOp::Blt) },
        7 => Instruction { mask: 0x707f, match_data: 0x5063, name: "BGE", kind: InstKind::Branch(BranchOp::Bge) },
        8 => Instruction { mask: 0x707f, match_data: 0x6063, name: "BLTU", kind: InstKind::Branch(BranchOp::Bltu) },
        9 => Instruction { mask: 0x707f, match_data: 0x7063, name: "BGEU", kind: InstKind::Branch(BranchOp::Bgeu) },
        10 => Instruction { mask: 0x707f, match_data: 0x3, name: "LB", kind: InstKind::Load(1, true) },
        11 => Instruction { mask: 0x707f, match_data: 0x1003, name: "LH", kind: InstKind::Load(2, true) },
        12 => Instruction { mask: 0x707f, match_data: 0x2003, name: "LW", kind: InstKind::Load(4, true) },
        13 => Instruction { mask: 0x707f, match_data: 0x3003, name: "LD", kind: InstKind::Load(8, true) },
        14 => Instruction { mask: 0x707f, match_data: 0x4003, name: "LBU", kind: InstKind::Load(1, false) },
        15 => Instruction { mask: 0x707f, match_data: 0x5003, name: "LHU", kind: InstKind::Load(2, false) },
        16 => Instruction { mask: 0x707f, match_data: 0x6003, name: "LWU", kind: InstKind::Load(4, false) },
        17 => Instruction { mask: 0x707f, match_data: 0x23, name: "SB", kind: InstKind::Store(1) },
        18 => Instruction { mask: 0x707f, match_data: 0x1023, name: "SH", kind: InstKind::Store(2) },
        19 => Instruction { mask: 0x707f, match_data: 0x2023, name: "SW", kind: InstKind::Store(4) },
        20 => Instruction { mask: 0x707f, match_data: 0x3023, name: "SD", kind: InstKind::Store(8) },
        21 => Instruction { mask: 0x707f, match_data: 0x13, name: "ADDI", kind: InstKind::OpImm(AluOp::Add) },
        22 => Instruction { mask: 0x707f, match_data: 0x2013, name: "SLTI", kind: InstKind::OpImm(AluOp::Slt) },
        23 => Instruction { mask: 0x707f, match_data: 0x3013, name: "SLTIU", kind: InstKind::OpImm(AluOp::Sltu) },
        24 => Instruction { mask: 0x707f, match_data: 0x4013, name: "XORI", kind: InstKind::OpImm(AluOp::Xor) },
        25 => Instruction { mask: 0x707f, match_data: 0x6013, name: "ORI", kind: InstKind::OpImm(AluOp::Or) },
        26 => Instruction { mask: 0x707f, match_data: 0x7013, name: "ANDI", kind: InstKind::OpImm(AluOp::And) },
        27 => Instruction { mask: 0xfc00707f, match_data: 0x1013, name: "SLLI", kind: InstKind::OpImm(AluOp::Sll) },
        28 => Instruction { mask: 0xfc00707f, match_data: 0x5013, name: "SRLI", kind: InstKind::OpImm(AluOp::Srl) },
        29 => Instruction { mask: 0xfc00707f, match_data: 0x40005013, name: "SRAI", kind: InstKind::OpImm(AluOp::Sra) },
        30 => Instruction { mask: 0xfe00707f, match_data: 0x33, name: "ADD", kind: InstKind::Op(AluOp::Add) },
        31 => Instruction { mask: 0xfe00707f, match_data: 0x40000033, name: "SUB", kind: InstKind::Op(AluOp::Sub) },
        32 => Instruction { mask: 0xfe00707f, match_data: 0x1033, name: "SLL", kind: InstKind::Op(AluOp::Sll) },
        33 => Instruction { mask: 0xfe00707f, match_data: 0x2033, name: "SLT", kind: InstKind::Op(AluOp::Slt) },
        34 => Instruction { mask: 0xfe00707f, match_data: 0x3033, name: "SLTU", kind: InstKind::Op(AluOp::Sltu) },
        35 => Instruction { mask: 0xfe00707f, match_data: 0x4033, name: "XOR", kind: InstKind::Op(AluOp::Xor) },
        36 => Instruction { mask: 0xfe00707f, match_data: 0x5033, name: "SRL", kind: InstKind::Op(AluOp::Srl) },
        37 => Instruction { mask: 0xfe00707f, match_data: 0x40005033, name: "SRA", kind: InstKind::Op(AluOp::Sra) },
        38 => Instruction { mask: 0xfe00707f, match_data: 0x6033, name: "OR", kind: InstKind::Op(AluOp::Or) },
        39 => Instruction { mask: 0xfe00707f, match_data: 0x7033, name: "AND", kind: InstKind::Op(AluOp::And) },
        40 => Instruction { mask: 0xfe00707f, match_data: 0x2000033, name: "MUL", kind: InstKind::Op(AluOp::Mul) },
        41 => Instruction { mask: 0xfe00707f, match_data: 0x2001033, name: "MULH", kind: InstKind::Op(AluOp::Mulh) },
        42 => Instruction { mask: 0xfe00707f, match_data: 0x2002033, name: "MULHSU", kind: InstKind::Op(AluOp::Mulhsu) },
        43 => Instruction { mask: 0xfe00707f, match_data: 0x2003033, name: "MULHU", kind: InstKind::Op(AluOp::Mulhu) },
        44 => Instruction { mask: 0xfe00707f, match_data: 0x2004033, name: "DIV", kind: InstKind::Op(AluOp::Div) },
        45 => Instruction { mask: 0xfe00707f, match_data: 0x2005033, name: "DIVU", kind: InstKind::Op(AluOp::Divu) },
        46 => Instruction { mask: 0xfe00707f, match_data: 0x2006033, name: "REM", kind: InstKind::Op(AluOp::Rem) },
        47 => Instruction { mask: 0xfe00707f, match_data: 0x2007033, name: "REMU", kind: InstKind::Op(AluOp::Remu) },
        48 => Instruction { mask: 0x707f, match_data: 0xf, name: "FENCE", kind: InstKind::Fence },
        49 => Instruction { mask: 0x707f, match_data: 0x100f, name: "FENCE_I", kind: InstKind::FenceI },
        50 => Instruction { mask: 0xffffffff, match_data: 0x73, name: "ECALL", kind: InstKind::Ecall },
        51 => Instruction { mask: 0xffffffff, match_data: 0x100073, name: "EBREAK", kind: InstKind::Ebreak },
        52 => Instruction { mask: 0x707f, match_data: 0x1b, name: "ADDIW", kind: InstKind::OpImmW(AluOp::Add) },
        53 => Instruction { mask: 0xfe00707f, match_data: 0x101b, name: "SLLIW", kind: InstKind::OpImmW(AluOp::Sll) },
        54 => Instruction { mask: 0xfe00707f, match_data: 0x501b, name: "SRLIW", kind: InstKind::OpImmW(AluOp::Srl) },
        55 => Instruction { mask: 0xfe00707f, match_data: 0x4000501b, name: "SRAIW", kind: InstKind::OpImmW(AluOp::Sra) },
        56 => Instruction { mask: 0xfe00707f, match_data: 0x3b, name: "ADDW", kind: InstKind::OpW(AluOp::Add) },
        57 => Instruction { mask: 0xfe00707f, match_data: 0x4000003b, name: "SUBW", kind: InstKind::OpW(AluOp::Sub) },
        58 => Instruction { mask: 0xfe00707f, match_data: 0x103b, name: "SLLW", kind: InstKind::OpW(AluOp::Sll) },
        59 => Instruction { mask: 0xfe00707f, match_data: 0x503b, name: "SRLW", kind: InstKind::OpW(AluOp::Srl) },
        60 => Instruction { mask: 0xfe00707f, match_data: 0x4000503b, name: "SRAW", kind: InstKind::OpW(AluOp::Sra) },
        61 => Instruction { mask: 0xfe00707f, match_data: 0x200003b, name: "MULW", kind: InstKind::OpW(AluOp::Mul) },
        62 => Instruction { mask: 0xfe00707f, match_data: 0x200403b, name: "DIVW", kind: InstKind::OpW(AluOp::Div) },
        63 => Instruction { mask: 0xfe00707f, match_data: 0x200503b, name: "DIVUW", kind: InstKind::OpW(AluOp::Divu) },
        64 => Instruction { mask: 0xfe00707f, match_data: 0x200603b, name: "REMW", kind: InstKind::OpW(AluOp::Rem) },
        65 => Instruction { mask: 0xfe00707f, match_data: 0x200703b, name: "REMUW", kind: InstKind::OpW(AluOp::Remu) },
        66 => Instruction { mask: 0xf9f0707f, match_data: 0x1000202f, name: "LR_W", kind: InstKind::Lr(4) },
        67 => Instruction { mask: 0xf800707f, match_data: 0x1800202f, name: "SC_W", kind: InstKind::Sc(4) },
        68 => Instruction { mask: 0xf800707f, match_data: 0x800202f, name: "AMOSWAP_W", kind: InstKind::Amo(AmoOp::Swap, 4) },
        69 => Instruction { mask: 0xf800707f, match_data: 0x202f, name: "AMOADD_W", kind: InstKind::Amo(AmoOp::Add, 4) },
        70 => Instruction { mask: 0xf800707f, match_data: 0x2000202f, name: "AMOXOR_W", kind: InstKind::Amo(AmoOp::Xor, 4) },
        71 => Instruction { mask: 0xf800707f, match_data: 0x6000202f, name: "AMOAND_W", kind: InstKind::Amo(AmoOp::And, 4) },
        72 => Instruction { mask: 0xf800707f, match_data: 0x4000202f, name: "AMOOR_W", kind: InstKind::Amo(AmoOp::Or, 4) },
        73 => Instruction { mask: 0xf800707f, match_data: 0x8000202f, name: "AMOMIN_W", kind: InstKind::Amo(AmoOp::Min, 4) },
        74 => Instruction { mask: 0xf800707f, match_data: 0xa000202f, name: "AMOMAX_W", kind: InstKind::Amo(AmoOp::Max, 4) },
        75 => Instruction { mask: 0xf800707f, match_data: 0xc000202f, name: "AMOMINU_W", kind: InstKind::Amo(AmoOp::Minu, 4) },
        76 => Instruction { mask: 0xf800707f, match_data: 0xe000202f, name: "AMOMAXU_W", kind: InstKind::Amo(AmoOp::Maxu, 4) },
        77 => Instruction { mask: 0xf9f0707f, match_data: 0x1000302f, name: "LR_D", kind: InstKind::Lr(8) },
        78 => Instruction { mask: 0xf800707f, match_data: 0x1800302f, name: "SC_D", kind: InstKind::Sc(8) },
        79 => Instruction { mask: 0xf800707f, match_data: 0x800302f, name: "AMOSWAP_D", kind: InstKind::Amo(AmoOp::Swap, 8) },
        80 => Instruction { mask: 0xf800707f, match_data: 0x302f, name: "AMOADD_D", kind: InstKind::Amo(AmoOp::Add, 8) },
        81 => Instruction { mask: 0xf800707f, match_data: 0x2000302f, name: "AMOXOR_D", kind: InstKind::Amo(AmoOp::Xor, 8) },
        82 => Instruction { mask: 0xf800707f, match_data: 0x6000302f, name: "AMOAND_D", kind: InstKind::Amo(AmoOp::And, 8) },
        83 => Instruction { mask: 0xf800707f, match_data: 0x4000302f, name: "AMOOR_D", kind: InstKind::Amo(AmoOp::Or, 8) },
        84 => Instruction { mask: 0xf800707f, match_data: 0x8000302f, name: "AMOMIN_D", kind: InstKind::Amo(AmoOp::Min, 8) },
        85 => Instruction { mask: 0xf800707f, match_data: 0xa000302f, name: "AMOMAX_D", kind: InstKind::Amo(AmoOp::Max, 8) },
        86 => Instruction { mask: 0xf800707f, match_data: 0xc000302f, name: "AMOMINU_D", kind: InstKind::Amo(AmoOp::Minu, 8) },
        87 => Instruction { mask: 0xf800707f, match_data: 0xe000302f, name: "AMOMAXU_D", kind: InstKind::Amo(AmoOp::Maxu, 8) },
        88 => Instruction { mask: 0x707f, match_data: 0x1073, name: "CSRRW", kind: InstKind::Csr(CsrOp::ReadWrite, false) },
        89 => Instruction { mask: 0x707f, match_data: 0x2073, name: "CSRRS", kind: InstKind::Csr(CsrOp::ReadSet, false) },
        90 => Instruction { mask: 0x707f, match_data: 0x3073, name: "CSRRC", kind: InstKind::Csr(CsrOp::ReadClear, false) },
        91 => Instruction { mask: 0x707f, match_data: 0x5073, name: "CSRRWI", kind: InstKind::Csr(CsrOp::ReadWrite, true) },
        92 => Instruction { mask: 0x707f, match_data: 0x6073, name: "CSRRSI", kind: InstKind::Csr(CsrOp::ReadSet, true) },
        93 => Instruction { mask: 0x707f, match_data: 0x7073, name: "CSRRCI", kind: InstKind::Csr(CsrOp::ReadClear, true) },
        94 => Instruction { mask: 0xffffffff, match_data: 0x30200073, name: "MRET", kind: InstKind::Mret },
        95 => Instruction { mask: 0xffffffff, match_data: 0x10200073, name: "SRET", kind: InstKind::Sret },
        96 => Instruction { mask: 0xffffffff, match_data: 0x10500073, name: "WFI", kind: InstKind::Wfi },
        _ => Instruction { mask: 0xfe007fff, match_data: 0x12000073, name: "SFENCE_VMA", kind: InstKind::SfenceVma },
    }
}

/// At most one entry is the first that an encoding matches.
pub proof fn lemma_first_match_unique(inst: u32, i: int, j: int)
    requires
        first_match(inst, i),
        first_match(inst, j),
    ensures
        i == j,
{
    if i < j {
        assert(!matches_entry(inst, i));
    }
    if j < i {
        assert(!matches_entry(inst, j));
    }
}

/// The number of lines of the decode cache.
pub const DECODE_CACHE_LINES: usize = 1024;

/// The instruction decoder: the decode table, and in front of it a
/// direct-mapped cache of what was decoded last. The cache never changes
/// what an encoding decodes to, which depends on the encoding alone.
pub struct InstDecode {
    /// The encoding that each line holds.
    tags: [u32; 1024],
    /// For each line, one more than the index of the table entry of its
    /// encoding, and zero while the line is empty.
    slots: [usize; 1024],
}

impl View for InstDecode {
    type V = Seq<Option<u32>>;

    /// For each line of the cache, the encoding that it holds, if any. An
    /// encoding goes to the line of its low ten bits.
    closed spec fn view(&self) -> Seq<Option<u32>> {
        Seq::new(
            1024,
            |line: int|
                if self.slots@[line] != 0 {
                    Some(self.tags@[line])
                } else {
                    None
                },
        )
    }
}

/// The line of the decode cache that an encoding goes to.
pub open spec fn cache_line(inst: u32) -> int {
    (inst % 1024) as int
}

impl InstDecode {
    /// Every line that is not empty holds an encoding with the entry that
    /// it decodes to.
    pub closed spec fn wf(&self) -> bool {
        forall|line: int|
            0 <= line < 1024 && self.slots@[line] != 0 ==> first_match(
                self.tags@[line],
                #[trigger] self.slots@[line] - 1,
            )
    }

    /// A decoder with an empty cache.
    pub fn new() -> (d: InstDecode)
        ensures
            d.wf(),
            d@ == Seq::new(1024, |line: int| None::<u32>),
    {
        let d = InstDecode { tags: [0u32; 1024], slots: [0usize; 1024] };
        assert(d@ =~= Seq::new(1024, |line: int| None::<u32>));
        d
    }

    /// The index of the first entry of the table that `inst` matches.
    fn find(inst: u32) -> (r: Option<usize>)
        ensures
            match r {
                Some(i) => first_match(inst, i as int),
                None => forall|j: int| !matches_entry(inst, j),
            },
    {
        let mut i: usize = 0;
        while i < INSTRUCTION_COUNT
            invariant
                i <= INSTRUCTION_COUNT,
                forall|j: int| 0 <= j < i ==> !matches_entry(inst, j),
            decreases INSTRUCTION_COUNT - i,
        {
            let entry: Instruction = instruction(i);
            if inst & entry.mask == entry.match_data {
                return Some(i);
            }
            i = i + 1;
        }
        None
    }

    /// Looks `inst` up in the table, entry by entry.
    pub fn slow_path(&self, inst: u32) -> (r: Option<Instruction>)
        ensures
            match r {
                Some(found) => decode(inst) == Some(found.kind) && exists|i: int|
                    first_match(inst, i) && (found.mask, found.match_data, found.kind)
                        == table_entry(i) && found.name@ == table_name(i),
                None => decode(inst) is None,
            },
    {
        match Self::find(inst) {
            Some(i) => {
                proof {
                    lemma_first_match_unique(
                        inst,
                        i as int,
                        choose|c: int| first_match(inst, c),
                    );
                }
                Some(instruction(i))
            },
            None => {
                assert forall|c: int| !first_match(inst, c) by {
                    assert(!matches_entry(inst, c));
                }
                None
            },
        }
    }

    /// Looks `inst` up in the cache. A hit, where the line of `inst` holds
    /// `inst`, gives what the table gives; a miss gives `None`, whatever
    /// the table holds.
    pub fn fast_path(&self, inst: u32) -> (r: Option<Instruction>)
        requires
            self.wf(),
        ensures
            r is Some <==> self@[cache_line(inst)] == Some(inst),
            r matches Some(found) ==> decode(inst) == Some(found.kind) && exists|i: int|
                first_match(inst, i) && (found.mask, found.match_data, found.kind) == table_entry(
                    i,
                ) && found.name@ == table_name(i),
    {
        let line: usize = (inst % 1024) as usize;
        let slot: usize = self.slots[line];
        if slot != 0 && self.tags[line] == inst {
            proof {
                assert(first_match(self.tags@[line as int], self.slots@[line as int] - 1));
                lemma_first_match_unique(
                    inst,
                    slot - 1,
                    choose|c: int| first_match(inst, c),
                );
            }
            Some(instruction(slot - 1))
        } else {
            None
        }
    }

    /// Decodes `inst`: from the cache where it holds the encoding, and
    /// from the table otherwise. An encoding that the table knows is in
    /// the cache afterwards.
    pub fn lookup(&mut self, inst: u32) -> (r: Option<Instruction>)
        requires
            old(self).wf(),
        ensures
            final(self).wf(),
            final(self)@ == if r is Some {
                old(self)@.update(cache_line(inst), Some(inst))
            } else {
                old(self)@
            },
            match r {
                Some(found) => decode(inst) == Some(found.kind) && exists|i: int|
                    first_match(inst, i) && (found.mask, found.match_data, found.kind)
                        == table_entry(i) && found.name@ == table_name(i),
                None => decode(inst) is None,
            },
    {
        let hit = self.fast_path(inst);
        if hit.is_some() {
            assert(self@ =~= old(self)@.update(cache_line(inst), Some(inst)));
            return hit;
        }
        match Self::find(inst) {
            Some(i) => {
                let line: usize = (inst % 1024) as usize;
                self.tags[line] = inst;
                self.slots[line] = i + 1;
                assert(self@ =~= old(self)@.update(cache_line(inst), Some(inst)));
                proof {
                    lemma_first_match_unique(
                        inst,
                        i as int,
                        choose|c: int| first_match(inst, c),
                    );
                    assert forall|l: int|
                        0 <= l < 1024 && self.slots@[l] != 0 implies first_match(
                        self.tags@[l],
                        #[trigger] self.slots@[l] - 1,
                    ) by {
                        if l != line {
                            assert(self.slots@[l] == old(self).slots@[l]);
                            assert(first_match(old(self).tags@[l], old(self).slots@[l] - 1));
                        }
                    }
                }
                Some(instruction(i))
            },
            None => {
                assert forall|c: int| !first_match(inst, c) by {
                    assert(!matches_entry(inst, c));
                }
                None
            },
        }
    }
}

} // verus!
