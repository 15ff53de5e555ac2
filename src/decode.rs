use vstd::prelude::*;

verus! {

/// Register-register and register-immediate operations of RV32IM.
#[derive(Clone, Copy, Debug, PartialEq, Eq, Structural)]
pub enum AluOp {
    Add,
    Sub,
    Sll,
    Slt,
    Sltu,
    Xor,
    Srl,
    Sra,
    Or,
    And,
    Mul,
    Mulh,
    Mulhsu,
    Mulhu,
    Div,
    Divu,
    Rem,
    Remu,
}

/// Conditions of the conditional branches.
#[derive(Clone, Copy, Debug, PartialEq, Eq, Structural)]
pub enum BranchOp {
    Eq,
    Ne,
    Lt,
    Ge,
    Ltu,
    Geu,
}

/// Access widths of loads and stores; the unsigned ones zero-extend on load.
#[derive(Clone, Copy, Debug, PartialEq, Eq, Structural)]
pub enum Width {
    Byte,
    Half,
    Word,
    ByteU,
    HalfU,
}

/// A decoded instruction. Register indices are below 32; immediates are
/// already sign-extended to 32 bits.
#[derive(Clone, Copy, Debug, PartialEq, Eq, Structural)]
pub enum Instr {
    Lui { rd: u8, imm: u32 },
    Auipc { rd: u8, imm: u32 },
    Jal { rd: u8, offset: u32 },
    Jalr { rd: u8, rs1: u8, offset: u32 },
    Branch { op: BranchOp, rs1: u8, rs2: u8, offset: u32 },
    Load { width: Width, rd: u8, rs1: u8, offset: u32 },
    Store { width: Width, rs1: u8, rs2: u8, offset: u32 },
    OpImm { op: AluOp, rd: u8, rs1: u8, imm: u32 },
    Op { op: AluOp, rd: u8, rs1: u8, rs2: u8 },
    Fence,
    Ecall,
}

pub open spec fn opcode(w: u32) -> u32 {
    w & 0x7f
}

pub open spec fn rd_of(w: u32) -> u8 {
    ((w >> 7) & 0x1f) as u8
}

pub open spec fn rs1_of(w: u32) -> u8 {
    ((w >> 15) & 0x1f) as u8
}

pub open spec fn rs2_of(w: u32) -> u8 {
    ((w >> 20) & 0x1f) as u8
}

pub open spec fn funct3(w: u32) -> u32 {
    (w >> 12) & 0x7
}

pub open spec fn funct7(w: u32) -> u32 {
    w >> 25
}

pub open spec fn sign_bit(w: u32) -> bool {
    w & 0x8000_0000 != 0
}

/// Immediate of the I format: bits 31..20, sign-extended.
pub open spec fn imm_i(w: u32) -> u32 {
    if sign_bit(w) { (w >> 20) | 0xffff_f000 } else { w >> 20 }
}

/// Immediate of the S format: bits 31..25 and 11..7, sign-extended.
pub open spec fn imm_s(w: u32) -> u32 {
    let v = ((w >> 20) & 0xfe0) | ((w >> 7) & 0x1f);
    if sign_bit(w) { v | 0xffff_f000 } else { v }
}

/// Immediate of the B format: a multiple of two in [-4096, 4094].
pub open spec fn imm_b(w: u32) -> u32 {
    let v = ((w >> 19) & 0x1000) | ((w << 4) & 0x800) | ((w >> 20) & 0x7e0) | ((w >> 7) & 0x1e);
    if sign_bit(w) { v | 0xffff_e000 } else { v }
}

/// Immediate of the U format: the upper twenty bits in place.
pub open spec fn imm_u(w: u32) -> u32 {
    w & 0xffff_f000
}

/// Immediate of the J format: a multiple of two in [-2^20, 2^20 - 2].
pub open spec fn imm_j(w: u32) -> u32 {
    let v = ((w >> 11) & 0x10_0000) | (w & 0xf_f000) | ((w >> 9) & 0x800) | ((w >> 20) & 0x7fe);
    if sign_bit(w) { v | 0xffe0_0000 } else { v }
}

pub open spec fn alu_op_of(f3: u32, f7: u32, imm_form: bool) -> Option<AluOp> {
    if f7 == 1 && !imm_form {
        match f3 {
            0 => Some(AluOp::Mul),
            1 => Some(AluOp::Mulh),
            2 => Some(AluOp::Mulhsu),
            3 => Some(AluOp::Mulhu),
            4 => Some(AluOp::Div),
            5 => Some(AluOp::Divu),
            6 => Some(AluOp::Rem),
            _ => Some(AluOp::Remu),
        }
    } else if f3 == 0 {
        if imm_form || f7 == 0 {
            Some(AluOp::Add)
        } else if f7 == 0x20 {
            Some(AluOp::Sub)
        } else {
            None
        }
    } else if f3 == 1 {
        if f7 == 0 { Some(AluOp::Sll) } else { None }
    } else if f3 == 5 {
        if f7 == 0 {
            Some(AluOp::Srl)
        } else if f7 == 0x20 {
            Some(AluOp::Sra)
        } else {
            None
        }
    } else if !imm_form && f7 != 0 {
        None
    } else {
        match f3 {
            2 => Some(AluOp::Slt),
            3 => Some(AluOp::Sltu),
            4 => Some(AluOp::Xor),
            6 => Some(AluOp::Or),
            _ => Some(AluOp::And),
        }
    }
}

pub open spec fn branch_op_of(f3: u32) -> Option<BranchOp> {
    match f3 {
        0 => Some(BranchOp::Eq),
        1 => Some(BranchOp::Ne),
        4 => Some(BranchOp::Lt),
        5 => Some(BranchOp::Ge),
        6 => Some(BranchOp::Ltu),
        7 => Some(BranchOp::Geu),
        _ => None,
    }
}

pub open spec fn load_width_of(f3: u32) -> Option<Width> {
    match f3 {
        0 => Some(Width::Byte),
        1 => Some(Width::Half),
        2 => Some(Width::Word),
        4 => Some(Width::ByteU),
        5 => Some(Width::HalfU),
        _ => None,
    }
}

pub open spec fn store_width_of(f3: u32) -> Option<Width> {
    match f3 {
        0 => Some(Width::Byte),
        1 => Some(Width::Half),
        2 => Some(Width::Word),
        _ => None,
    }
}

/// What a 32-bit word means as an RV32IM instruction; `None` for an encoding
/// outside the supported set.
pub open spec fn decode_spec(w: u32) -> Option<Instr> {
    let op = opcode(w);
    if op == 0x37 {
        Some(Instr::Lui { rd: rd_of(w), imm: imm_u(w) })
    } else if op == 0x17 {
        Some(Instr::Auipc { rd: rd_of(w), imm: imm_u(w) })
    } else if op == 0x6f {
        Some(Instr::Jal { rd: rd_of(w), offset: imm_j(w) })
    } else if op == 0x67 {
        if funct3(w) == 0 {
            Some(Instr::Jalr { rd: rd_of(w), rs1: rs1_of(w), offset: imm_i(w) })
        } else {
            None
        }
    } else if op == 0x63 {
        match branch_op_of(funct3(w)) {
            Some(b) => Some(Instr::Branch { op: b, rs1: rs1_of(w), rs2: rs2_of(w), offset: imm_b(w) }),
            None => None,
        }
    } else if op == 0x03 {
        match load_width_of(funct3(w)) {
            Some(wd) => Some(Instr::Load { width: wd, rd: rd_of(w), rs1: rs1_of(w), offset: imm_i(w) }),
            None => None,
        }
    } else if op == 0x23 {
        match store_width_of(funct3(w)) {
            Some(wd) => Some(Instr::Store { width: wd, rs1: rs1_of(w), rs2: rs2_of(w), offset: imm_s(w) }),
            None => None,
        }
    } else if op == 0x13 {
        let f3 = funct3(w);
        let f7 = if f3 == 1 || f3 == 5 { funct7(w) } else { 0 };
        match alu_op_of(f3, f7, true) {
            Some(a) => {
                let imm = if f3 == 1 || f3 == 5 { (w >> 20) & 0x1f } else { imm_i(w) };
                Some(Instr::OpImm { op: a, rd: rd_of(w), rs1: rs1_of(w), imm })
            },
            None => None,
        }
    } else if op == 0x33 {
        match alu_op_of(funct3(w), funct7(w), false) {
            Some(a) => Some(Instr::Op { op: a, rd: rd_of(w), rs1: rs1_of(w), rs2: rs2_of(w) }),
            None => None,
        }
    } else if op == 0x0f {
        Some(Instr::Fence)
    } else if w == 0x73 {
        Some(Instr::Ecall)
    } else {
        None
    }
}

/// Register indices of an instruction are below 32.
pub open spec fn regs_in_range(i: Instr) -> bool {
    match i {
        Instr::Lui { rd, .. } => rd < 32,
        Instr::Auipc { rd, .. } => rd < 32,
        Instr::Jal { rd, .. } => rd < 32,
        Instr::Jalr { rd, rs1, .. } => rd < 32 && rs1 < 32,
        Instr::Branch { rs1, rs2, .. } => rs1 < 32 && rs2 < 32,
        Instr::Load { rd, rs1, .. } => rd < 32 && rs1 < 32,
        Instr::Store { rs1, rs2, .. } => rs1 < 32 && rs2 < 32,
        Instr::OpImm { rd, rs1, .. } => rd < 32 && rs1 < 32,
        Instr::Op { rd, rs1, rs2, .. } => rd < 32 && rs1 < 32 && rs2 < 32,
        Instr::Fence => true,
        Instr::Ecall => true,
    }
}

fn alu_op(f3: u32, f7: u32, imm_form: bool) -> (r: Option<AluOp>)
    ensures
        r == alu_op_of(f3, f7, imm_form),
{
    if f7 == 1 && !imm_form {
        match f3 {
            0 => Some(AluOp::Mul),
            1 => Some(AluOp::Mulh),
            2 => Some(AluOp::Mulhsu),
            3 => Some(AluOp::Mulhu),
            4 => Some(AluOp::Div),
            5 => Some(AluOp::Divu),
            6 => Some(AluOp::Rem),
            _ => Some(AluOp::Remu),
        }
    } else if f3 == 0 {
        if imm_form || f7 == 0 {
            Some(AluOp::Add)
        } else if f7 == 0x20 {
            Some(AluOp::Sub)
        } else {
            None
        }
    } else if f3 == 1 {
        if f7 == 0 { Some(AluOp::Sll) } else { None }
    } else if f3 == 5 {
        if f7 == 0 {
            Some(AluOp::Srl)
        } else if f7 == 0x20 {
            Some(AluOp::Sra)
        } else {
            None
        }
    } else if !imm_form && f7 != 0 {
        None
    } else {
        match f3 {
            2 => Some(AluOp::Slt),
            3 => Some(AluOp::Sltu),
            4 => Some(AluOp::Xor),
            6 => Some(AluOp::Or),
            _ => Some(AluOp::And),
        }
    }
}

fn branch_op(f3: u32) -> (r: Option<BranchOp>)
    ensures
        r == branch_op_of(f3),
{
    match f3 {
        0 => Some(BranchOp::Eq),
        1 => Some(BranchOp::Ne),
        4 => Some(BranchOp::Lt),
        5 => Some(BranchOp::Ge),
        6 => Some(BranchOp::Ltu),
        7 => Some(BranchOp::Geu),
        _ => None,
    }
}

fn load_width(f3: u32) -> (r: Option<Width>)
    ensures
        r == load_width_of(f3),
{
    match f3 {
        0 => Some(Width::Byte),
        1 => Some(Width::Half),
        2 => Some(Width::Word),
        4 => Some(Width::ByteU),
        5 => Some(Width::HalfU),
        _ => None,
    }
}

fn store_width(f3: u32) -> (r: Option<Width>)
    ensures
        r == store_width_of(f3),
{
    match f3 {
        0 => Some(Width::Byte),
        1 => Some(Width::Half),
        2 => Some(Width::Word),
        _ => None,
    }
}

fn field_bits_lemma(w: u32)
    ensures
        ((w >> 7) & 0x1f) < 32,
        ((w >> 15) & 0x1f) < 32,
        ((w >> 20) & 0x1f) < 32,
{
    assert(((w >> 7) & 0x1f) < 32) by (bit_vector);
    assert(((w >> 15) & 0x1f) < 32) by (bit_vector);
    assert(((w >> 20) & 0x1f) < 32) by (bit_vector);
}

/// Decodes one instruction word.
pub fn decode(w: u32) -> (r: Option<Instr>)
    ensures
        r == decode_spec(w),
        r matches Some(i) ==> regs_in_range(i),
{
    field_bits_lemma(w);
    let op = w & 0x7f;
    let rd = ((w >> 7) & 0x1f) as u8;
    let rs1 = ((w >> 15) & 0x1f) as u8;
    let rs2 = ((w >> 20) & 0x1f) as u8;
    let f3 = (w >> 12) & 0x7;
    let neg = w & 0x8000_0000 != 0;
    let imm_i = if neg { (w >> 20) | 0xffff_f000 } else { w >> 20 };
    if op == 0x37 {
        Some(Instr::Lui { rd, imm: w & 0xffff_f000 })
    } else if op == 0x17 {
        Some(Instr::Auipc { rd, imm: w & 0xffff_f000 })
    } else if op == 0x6f {
        let v = ((w >> 11) & 0x10_0000) | (w & 0xf_f000) | ((w >> 9) & 0x800) | ((w >> 20) & 0x7fe);
        Some(Instr::Jal { rd, offset: if neg { v | 0xffe0_0000 } else { v } })
    } else if op == 0x67 {
        if f3 == 0 {
            Some(Instr::Jalr { rd, rs1, offset: imm_i })
        } else {
            None
        }
    } else if op == 0x63 {
        let v = ((w >> 19) & 0x1000) | ((w << 4) & 0x800) | ((w >> 20) & 0x7e0) | ((w >> 7) & 0x1e);
        let offset = if neg { v | 0xffff_e000 } else { v };
        match branch_op(f3) {
            Some(b) => Some(Instr::Branch { op: b, rs1, rs2, offset }),
            None => None,
        }
    } else if op == 0x03 {
        match load_width(f3) {
            Some(wd) => Some(Instr::Load { width: wd, rd, rs1, offset: imm_i }),
            None => None,
        }
    } else if op == 0x23 {
        let v = ((w >> 20) & 0xfe0) | ((w >> 7) & 0x1f);
        let offset = if neg { v | 0xffff_f000 } else { v };
        match store_width(f3) {
            Some(wd) => Some(Instr::Store { width: wd, rs1, rs2, offset }),
            None => None,
        }
    } else if op == 0x13 {
        let shift_form = f3 == 1 || f3 == 5;
        let f7 = if shift_form { w >> 25 } else { 0 };
        match alu_op(f3, f7, true) {
            Some(a) => {
                let imm = if shift_form { (w >> 20) & 0x1f } else { imm_i };
                Some(Instr::OpImm { op: a, rd, rs1, imm })
            },
            None => None,
        }
    } else if op == 0x33 {
        match alu_op(f3, w >> 25, false) {
            Some(a) => Some(Instr::Op { op: a, rd, rs1, rs2 }),
            None => None,
        }
    } else if op == 0x0f {
        Some(Instr::Fence)
    } else if w == 0x73 {
        Some(Instr::Ecall)
    } else {
        None
    }
}

} // verus!
