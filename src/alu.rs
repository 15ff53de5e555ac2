use vstd::prelude::*;
use crate::decode::{AluOp, BranchOp};
use vstd::wrapping::u32_specs::{wrapping_add, wrapping_mul, wrapping_sub};

verus! {

pub open spec fn is_neg(a: u32) -> bool {
    a >= 0x8000_0000
}

/// Two's-complement negation.
pub open spec fn neg(a: u32) -> u32 {
    wrapping_sub(0, a)
}

/// Absolute value of `a` read as a signed word, as an unsigned word.
pub open spec fn magnitude(a: u32) -> u32 {
    if is_neg(a) { neg(a) } else { a }
}

/// Result of an RV32IM arithmetic or logical operation; all of them wrap.
pub open spec fn alu_spec(op: AluOp, a: u32, b: u32) -> u32 {
    match op {
        AluOp::Add => wrapping_add(a, b),
        AluOp::Sub => wrapping_sub(a, b),
        AluOp::Sll => a << (b & 31),
        AluOp::Slt => if (a as i32) < (b as i32) { 1 } else { 0 },
        AluOp::Sltu => if a < b { 1 } else { 0 },
        AluOp::Xor => a ^ b,
        AluOp::Srl => a >> (b & 31),
        AluOp::Sra => if is_neg(a) { !((!a) >> (b & 31)) } else { a >> (b & 31) },
        AluOp::Or => a | b,
        AluOp::And => a & b,
        AluOp::Mul => wrapping_mul(a, b),
        AluOp::Mulh => ((((a as i32) as int) * ((b as i32) as int)) as u64 / 0x1_0000_0000) as u32,
        AluOp::Mulhsu => ((((a as i32) as int) * (b as int)) as u64 / 0x1_0000_0000) as u32,
        AluOp::Mulhu => (((a as int) * (b as int)) / 0x1_0000_0000) as u32,
        AluOp::Div => if b == 0 {
            0xffff_ffff
        } else {
            let q = magnitude(a) / magnitude(b);
            if is_neg(a) != is_neg(b) { neg(q) } else { q }
        },
        AluOp::Divu => if b == 0 { 0xffff_ffff } else { a / b },
        AluOp::Rem => if b == 0 {
            a
        } else {
            let r = magnitude(a) % magnitude(b);
            if is_neg(a) { neg(r) } else { r }
        },
        AluOp::Remu => if b == 0 { a } else { a % b },
    }
}

/// Whether a conditional branch is taken.
pub open spec fn branch_spec(op: BranchOp, a: u32, b: u32) -> bool {
    match op {
        BranchOp::Eq => a == b,
        BranchOp::Ne => a != b,
        BranchOp::Lt => (a as i32) < (b as i32),
        BranchOp::Ge => (a as i32) >= (b as i32),
        BranchOp::Ltu => a < b,
        BranchOp::Geu => a >= b,
    }
}

fn negate(a: u32) -> (r: u32)
    ensures
        r == neg(a),
{
    0u32.wrapping_sub(a)
}

fn abs_word(a: u32) -> (r: u32)
    ensures
        r == magnitude(a),
{
    if a >= 0x8000_0000 { negate(a) } else { a }
}

proof fn mul_bounds(x: int, y: int, bx: int, by: int)
    requires
        -bx <= x <= bx,
        -by <= y <= by,
        0 <= bx,
        0 <= by,
    ensures
        -(bx * by) <= x * y <= bx * by,
{
    assert(-(bx * by) <= x * y <= bx * by) by (nonlinear_arith)
        requires
            -bx <= x <= bx,
            -by <= y <= by,
            0 <= bx,
            0 <= by,
    ;
}

fn as_signed(a: u32) -> (r: i32)
    ensures
        r == a as i32,
{
    #[verifier::truncate]
    (a as i32)
}

fn as_unsigned64(p: i64) -> (r: u64)
    ensures
        r == p as u64,
{
    #[verifier::truncate]
    (p as u64)
}

/// Computes an arithmetic or logical operation.
pub fn alu(op: AluOp, a: u32, b: u32) -> (r: u32)
    ensures
        r == alu_spec(op, a, b),
{
    assert(b & 31 < 32) by (bit_vector);
    match op {
        AluOp::Add => a.wrapping_add(b),
        AluOp::Sub => a.wrapping_sub(b),
        AluOp::Sll => a << (b & 31),
        AluOp::Slt => if as_signed(a) < as_signed(b) { 1 } else { 0 },
        AluOp::Sltu => if a < b { 1 } else { 0 },
        AluOp::Xor => a ^ b,
        AluOp::Srl => a >> (b & 31),
        AluOp::Sra => if a >= 0x8000_0000 { !((!a) >> (b & 31)) } else { a >> (b & 31) },
        AluOp::Or => a | b,
        AluOp::And => a & b,
        AluOp::Mul => a.wrapping_mul(b),
        AluOp::Mulh => {
            let x: i64 = as_signed(a) as i64;
            let y: i64 = as_signed(b) as i64;
            proof { mul_bounds(x as int, y as int, 0x8000_0000, 0x8000_0000); }
            let p: i64 = x * y;
            let hi: u64 = as_unsigned64(p) / 0x1_0000_0000;
            #[verifier::truncate]
            (hi as u32)
        },
        AluOp::Mulhsu => {
            let x: i64 = as_signed(a) as i64;
            let y: i64 = b as i64;
            proof { mul_bounds(x as int, y as int, 0x8000_0000, 0xffff_ffff); }
            let p: i64 = x * y;
            let hi: u64 = as_unsigned64(p) / 0x1_0000_0000;
            #[verifier::truncate]
            (hi as u32)
        },
        AluOp::Mulhu => {
            proof { mul_bounds(a as int, b as int, 0xffff_ffff, 0xffff_ffff); }
            let p: u64 = (a as u64) * (b as u64);
            let hi: u64 = p / 0x1_0000_0000;
            #[verifier::truncate]
            (hi as u32)
        },
        AluOp::Div => if b == 0 {
            0xffff_ffff
        } else {
            let q = abs_word(a) / abs_word(b);
            if (a >= 0x8000_0000) != (b >= 0x8000_0000) { negate(q) } else { q }
        },
        AluOp::Divu => if b == 0 { 0xffff_ffff } else { a / b },
        AluOp::Rem => if b == 0 {
            a
        } else {
            let r = abs_word(a) % abs_word(b);
            if a >= 0x8000_0000 { negate(r) } else { r }
        },
        AluOp::Remu => if b == 0 { a } else { a % b },
    }
}

/// Decides a conditional branch.
pub fn branch_taken(op: BranchOp, a: u32, b: u32) -> (r: bool)
    ensures
        r == branch_spec(op, a, b),
{
    match op {
        BranchOp::Eq => a == b,
        BranchOp::Ne => a != b,
        BranchOp::Lt => as_signed(a) < as_signed(b),
        BranchOp::Ge => as_signed(a) >= as_signed(b),
        BranchOp::Ltu => a < b,
        BranchOp::Geu => a >= b,
    }
}

} // verus!
