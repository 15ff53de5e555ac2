use vstd::prelude::*;
use crate::alu::{alu, alu_spec};
use crate::decode::{AluOp, BranchOp, Instr, Width};
use crate::image::{width_bytes, ImageView, ProgramImage};
use crate::machine::{width_len, MachineState, MachineView};

verus! {

/// One operation of the stack language the on-chain side can run.
#[derive(Clone, Copy, Debug, PartialEq, Eq, Structural)]
pub enum ScriptOp {
    /// Pushes a constant.
    Push(u32),
    /// Pops `b` then `a` and pushes the operation's result on `a` and `b`.
    Arith(AluOp),
    /// Pops two values and pushes 1 when they are equal, else 0.
    Equal,
    /// Pops a condition, then `f`, then `t`, and pushes `t` when the
    /// condition is non-zero, else `f`.
    Select,
}

/// The stack after one operation; `None` when the stack is too short.
pub open spec fn op_spec(op: ScriptOp, st: Seq<u32>) -> Option<Seq<u32>> {
    let n = st.len();
    match op {
        ScriptOp::Push(v) => Some(st.push(v)),
        ScriptOp::Arith(a) => if n >= 2 {
            Some(st.subrange(0, n - 2).push(alu_spec(a, st[n - 2], st[n - 1])))
        } else {
            None
        },
        ScriptOp::Equal => if n >= 2 {
            Some(st.subrange(0, n - 2).push(if st[n - 2] == st[n - 1] { 1u32 } else { 0u32 }))
        } else {
            None
        },
        ScriptOp::Select => if n >= 3 {
            Some(st.subrange(0, n - 3).push(if st[n - 1] != 0 { st[n - 3] } else { st[n - 2] }))
        } else {
            None
        },
    }
}

/// The stack after running `ops` from left to right on `st`.
pub open spec fn run_script(ops: Seq<ScriptOp>, st: Seq<u32>) -> Option<Seq<u32>>
    decreases ops.len(),
{
    if ops.len() == 0 {
        Some(st)
    } else {
        match op_spec(ops[0], st) {
            Some(s2) => run_script(ops.drop_first(), s2),
            None => None,
        }
    }
}

/// The single value a script leaves on an empty start stack.
pub open spec fn eval_spec(ops: Seq<ScriptOp>) -> Option<u32> {
    match run_script(ops, seq![]) {
        Some(st) => if st.len() == 1 { Some(st[0]) } else { None },
        None => None,
    }
}

fn apply_op(op: ScriptOp, st: &mut Vec<u32>) -> (ok: bool)
    ensures
        ok <==> op_spec(op, old(st)@) is Some,
        ok ==> final(st)@ == op_spec(op, old(st)@)->Some_0,
{
    let n = st.len();
    match op {
        ScriptOp::Push(v) => {
            st.push(v);
            true
        },
        ScriptOp::Arith(a) => {
            if n < 2 {
                return false;
            }
            let y = st.pop().unwrap();
            let x = st.pop().unwrap();
            st.push(alu(a, x, y));
            proof {
                assert(final(st)@ =~= old(st)@.subrange(0, n - 2).push(alu_spec(a, old(st)@[n - 2], old(st)@[n - 1])));
            }
            true
        },
        ScriptOp::Equal => {
            if n < 2 {
                return false;
            }
            let y = st.pop().unwrap();
            let x = st.pop().unwrap();
            st.push(if x == y { 1 } else { 0 });
            proof {
                assert(final(st)@ =~= old(st)@.subrange(0, n - 2).push(
                    if old(st)@[n - 2] == old(st)@[n - 1] { 1u32 } else { 0u32 },
                ));
            }
            true
        },
        ScriptOp::Select => {
            if n < 3 {
                return false;
            }
            let c = st.pop().unwrap();
            let f = st.pop().unwrap();
            let t = st.pop().unwrap();
            st.push(if c != 0 { t } else { f });
            proof {
                assert(final(st)@ =~= old(st)@.subrange(0, n - 3).push(
                    if old(st)@[n - 1] != 0 { old(st)@[n - 3] } else { old(st)@[n - 2] },
                ));
            }
            true
        },
    }
}

/// Runs a script from an empty stack and returns the one value it leaves.
pub fn eval(ops: &Vec<ScriptOp>) -> (r: Option<u32>)
    ensures
        r == eval_spec(ops@),
{
    let mut st: Vec<u32> = Vec::new();
    let mut k: usize = 0;
    proof {
        assert(ops@.subrange(0, ops@.len() as int) =~= ops@);
        assert(st@ =~= seq![]);
    }
    while k < ops.len()
        invariant
            k <= ops@.len(),
            run_script(ops@, seq![]) == run_script(ops@.subrange(k as int, ops@.len() as int), st@),
        decreases ops@.len() - k,
    {
        proof {
            assert(ops@.subrange(k as int, ops@.len() as int).drop_first() =~= ops@.subrange(
                k + 1,
                ops@.len() as int,
            ));
        }
        if !apply_op(ops[k], &mut st) {
            return None;
        }
        k = k + 1;
    }
    proof {
        assert(ops@.subrange(k as int, ops@.len() as int) =~= Seq::<ScriptOp>::empty());
    }
    if st.len() == 1 {
        Some(st[0])
    } else {
        None
    }
}

/// Script for `a op b`.
pub open spec fn binary_script(op: AluOp, a: u32, b: u32) -> Seq<ScriptOp> {
    seq![ScriptOp::Push(a), ScriptOp::Push(b), ScriptOp::Arith(op)]
}

/// Script for the address of the next instruction in sequence.
pub open spec fn fallthrough_script(pc: u32) -> Seq<ScriptOp> {
    binary_script(AluOp::Add, pc, 4)
}

/// Script that leaves 1 when the branch condition holds, else 0.
pub open spec fn condition_script(op: BranchOp, a: u32, b: u32) -> Seq<ScriptOp> {
    match op {
        BranchOp::Eq => seq![ScriptOp::Push(a), ScriptOp::Push(b), ScriptOp::Equal],
        BranchOp::Ne => seq![
            ScriptOp::Push(a),
            ScriptOp::Push(b),
            ScriptOp::Equal,
            ScriptOp::Push(1),
            ScriptOp::Arith(AluOp::Xor),
        ],
        BranchOp::Lt => binary_script(AluOp::Slt, a, b),
        BranchOp::Ge => binary_script(AluOp::Slt, a, b) + seq![ScriptOp::Push(1), ScriptOp::Arith(AluOp::Xor)],
        BranchOp::Ltu => binary_script(AluOp::Sltu, a, b),
        BranchOp::Geu => binary_script(AluOp::Sltu, a, b) + seq![ScriptOp::Push(1), ScriptOp::Arith(AluOp::Xor)],
    }
}

/// Script for the target of a conditional branch.
pub open spec fn branch_script(op: BranchOp, pc: u32, offset: u32, a: u32, b: u32) -> Seq<ScriptOp> {
    binary_script(AluOp::Add, pc, offset) + fallthrough_script(pc) + condition_script(op, a, b)
        + seq![ScriptOp::Select]
}

/// Script for the target of an indirect jump: the low bit is cleared.
pub open spec fn jalr_script(base: u32, offset: u32) -> Seq<ScriptOp> {
    binary_script(AluOp::Add, base, offset) + seq![ScriptOp::Push(0xffff_fffe), ScriptOp::Arith(AluOp::And)]
}

/// Script that widens a raw loaded value: the signed widths shift it to the
/// top of the word and arithmetically back.
pub open spec fn extend_script(w: Width, raw: u32) -> Seq<ScriptOp> {
    match w {
        Width::Byte => seq![
            ScriptOp::Push(raw),
            ScriptOp::Push(24),
            ScriptOp::Arith(AluOp::Sll),
            ScriptOp::Push(24),
            ScriptOp::Arith(AluOp::Sra),
        ],
        Width::Half => seq![
            ScriptOp::Push(raw),
            ScriptOp::Push(16),
            ScriptOp::Arith(AluOp::Sll),
            ScriptOp::Push(16),
            ScriptOp::Arith(AluOp::Sra),
        ],
        _ => seq![ScriptOp::Push(raw)],
    }
}

pub open spec fn width_mask(w: Width) -> u32 {
    match w {
        Width::Byte | Width::ByteU => 0xff,
        Width::Half | Width::HalfU => 0xffff,
        Width::Word => 0xffff_ffff,
    }
}

/// Script for the part of a register that a store writes.
pub open spec fn store_script(w: Width, v: u32) -> Seq<ScriptOp> {
    binary_script(AluOp::And, v, width_mask(w))
}

/// Whether the destination register holds what the script computed; writes
/// to register 0 are discarded, so nothing is compared there.
pub open spec fn dest_matches(post: MachineView, rd: u8, script: Seq<ScriptOp>) -> bool {
    rd == 0 || eval_spec(script) == Some(post.reg(rd))
}

pub open spec fn pc_matches(post: MachineView, script: Seq<ScriptOp>) -> bool {
    eval_spec(script) == Some(post.pc)
}

/// Whether the step from `pre` to `post` (with image `m` afterwards) agrees
/// with the script encoding of `i`.
pub open spec fn verify_spec(i: Instr, pre: MachineView, post: MachineView, m: ImageView) -> bool {
    let pc = pre.pc;
    match i {
        Instr::Lui { rd, imm } => dest_matches(post, rd, extend_script(Width::Word, imm)) && pc_matches(
            post,
            fallthrough_script(pc),
        ),
        Instr::Auipc { rd, imm } => dest_matches(post, rd, binary_script(AluOp::Add, pc, imm))
            && pc_matches(post, fallthrough_script(pc)),
        Instr::Jal { rd, offset } => dest_matches(post, rd, fallthrough_script(pc)) && pc_matches(
            post,
            binary_script(AluOp::Add, pc, offset),
        ),
        Instr::Jalr { rd, rs1, offset } => dest_matches(post, rd, fallthrough_script(pc))
            && pc_matches(post, jalr_script(pre.reg(rs1), offset)),
        Instr::Branch { op, rs1, rs2, offset } => pc_matches(
            post,
            branch_script(op, pc, offset, pre.reg(rs1), pre.reg(rs2)),
        ),
        Instr::Load { width, rd, rs1, offset } => match eval_spec(
            binary_script(AluOp::Add, pre.reg(rs1), offset),
        ) {
            Some(addr) => match m.read(addr, width_bytes(width)) {
                Some(raw) => dest_matches(post, rd, extend_script(width, raw)) && pc_matches(
                    post,
                    fallthrough_script(pc),
                ),
                None => false,
            },
            None => false,
        },
        Instr::Store { width, rs1, rs2, offset } => match eval_spec(
            binary_script(AluOp::Add, pre.reg(rs1), offset),
        ) {
            Some(addr) => match m.read(addr, width_bytes(width)) {
                Some(stored) => eval_spec(store_script(width, pre.reg(rs2))) == Some(stored)
                    && pc_matches(post, fallthrough_script(pc)),
                None => false,
            },
            None => false,
        },
        Instr::OpImm { op, rd, rs1, imm } => dest_matches(
            post,
            rd,
            binary_script(op, pre.reg(rs1), imm),
        ) && pc_matches(post, fallthrough_script(pc)),
        Instr::Op { op, rd, rs1, rs2 } => dest_matches(
            post,
            rd,
            binary_script(op, pre.reg(rs1), pre.reg(rs2)),
        ) && pc_matches(post, fallthrough_script(pc)),
        Instr::Fence => pc_matches(post, fallthrough_script(pc)),
        Instr::Ecall => post.pc == pc,
    }
}

fn binary(op: AluOp, a: u32, b: u32) -> (r: Vec<ScriptOp>)
    ensures
        r@ == binary_script(op, a, b),
{
    let r = vec![ScriptOp::Push(a), ScriptOp::Push(b), ScriptOp::Arith(op)];
    proof {
        assert(r@ =~= binary_script(op, a, b));
    }
    r
}

fn append(x: &mut Vec<ScriptOp>, y: Vec<ScriptOp>)
    ensures
        final(x)@ == old(x)@ + y@,
{
    let mut y = y;
    x.append(&mut y);
}

fn condition(op: BranchOp, a: u32, b: u32) -> (r: Vec<ScriptOp>)
    ensures
        r@ == condition_script(op, a, b),
{
    let r = match op {
        BranchOp::Eq => vec![ScriptOp::Push(a), ScriptOp::Push(b), ScriptOp::Equal],
        BranchOp::Ne => vec![
            ScriptOp::Push(a),
            ScriptOp::Push(b),
            ScriptOp::Equal,
            ScriptOp::Push(1),
            ScriptOp::Arith(AluOp::Xor),
        ],
        BranchOp::Lt => binary(AluOp::Slt, a, b),
        BranchOp::Ge => {
            let mut r = binary(AluOp::Slt, a, b);
            append(&mut r, vec![ScriptOp::Push(1), ScriptOp::Arith(AluOp::Xor)]);
            r
        },
        BranchOp::Ltu => binary(AluOp::Sltu, a, b),
        BranchOp::Geu => {
            let mut r = binary(AluOp::Sltu, a, b);
            append(&mut r, vec![ScriptOp::Push(1), ScriptOp::Arith(AluOp::Xor)]);
            r
        },
    };
    proof {
        assert(r@ =~= condition_script(op, a, b));
    }
    r
}

fn branch(op: BranchOp, pc: u32, offset: u32, a: u32, b: u32) -> (r: Vec<ScriptOp>)
    ensures
        r@ == branch_script(op, pc, offset, a, b),
{
    let mut r = binary(AluOp::Add, pc, offset);
    append(&mut r, binary(AluOp::Add, pc, 4));
    append(&mut r, condition(op, a, b));
    append(&mut r, vec![ScriptOp::Select]);
    proof {
        assert(r@ =~= branch_script(op, pc, offset, a, b));
    }
    r
}

fn jalr(base: u32, offset: u32) -> (r: Vec<ScriptOp>)
    ensures
        r@ == jalr_script(base, offset),
{
    let mut r = binary(AluOp::Add, base, offset);
    append(&mut r, vec![ScriptOp::Push(0xffff_fffe), ScriptOp::Arith(AluOp::And)]);
    proof {
        assert(r@ =~= jalr_script(base, offset));
    }
    r
}

fn extend(w: Width, raw: u32) -> (r: Vec<ScriptOp>)
    ensures
        r@ == extend_script(w, raw),
{
    let r = match w {
        Width::Byte => vec![
            ScriptOp::Push(raw),
            ScriptOp::Push(24),
            ScriptOp::Arith(AluOp::Sll),
            ScriptOp::Push(24),
            ScriptOp::Arith(AluOp::Sra),
        ],
        Width::Half => vec![
            ScriptOp::Push(raw),
            ScriptOp::Push(16),
            ScriptOp::Arith(AluOp::Sll),
            ScriptOp::Push(16),
            ScriptOp::Arith(AluOp::Sra),
        ],
        _ => vec![ScriptOp::Push(raw)],
    };
    proof {
        assert(r@ =~= extend_script(w, raw));
    }
    r
}

fn mask(w: Width) -> (r: u32)
    ensures
        r == width_mask(w),
{
    match w {
        Width::Byte | Width::ByteU => 0xff,
        Width::Half | Width::HalfU => 0xffff,
        Width::Word => 0xffff_ffff,
    }
}

fn dest_ok(post: &MachineState, rd: u8, script: Vec<ScriptOp>) -> (r: bool)
    requires
        post@.wf(),
        rd < 32,
    ensures
        r == dest_matches(post@, rd, script@),
{
    rd == 0 || eval(&script) == Some(post.reg(rd))
}

fn pc_ok(post: &MachineState, script: Vec<ScriptOp>) -> (r: bool)
    ensures
        r == pc_matches(post@, script@),
{
    eval(&script) == Some(post.pc)
}

/// Checks one executed instruction against its script encoding: the script
/// is fed the operand values of `pre` and its results are compared with the
/// destination register, program counter or stored memory of `post` and
/// `img`. Only observes; changes nothing.
pub fn verify(i: Instr, pre: &MachineState, post: &MachineState, img: &ProgramImage) -> (r: bool)
    requires
        pre@.wf(),
        post@.wf(),
        img.wf(),
        crate::decode::regs_in_range(i),
    ensures
        r == verify_spec(i, pre@, post@, img@),
{
    let pc = pre.pc;
    match i {
        Instr::Lui { rd, imm } => dest_ok(post, rd, extend(Width::Word, imm)) && pc_ok(
            post,
            binary(AluOp::Add, pc, 4),
        ),
        Instr::Auipc { rd, imm } => dest_ok(post, rd, binary(AluOp::Add, pc, imm)) && pc_ok(
            post,
            binary(AluOp::Add, pc, 4),
        ),
        Instr::Jal { rd, offset } => dest_ok(post, rd, binary(AluOp::Add, pc, 4)) && pc_ok(
            post,
            binary(AluOp::Add, pc, offset),
        ),
        Instr::Jalr { rd, rs1, offset } => dest_ok(post, rd, binary(AluOp::Add, pc, 4)) && pc_ok(
            post,
            jalr(pre.reg(rs1), offset),
        ),
        Instr::Branch { op, rs1, rs2, offset } => pc_ok(
            post,
            branch(op, pc, offset, pre.reg(rs1), pre.reg(rs2)),
        ),
        Instr::Load { width, rd, rs1, offset } => match eval(&binary(AluOp::Add, pre.reg(rs1), offset)) {
            Some(addr) => match img.read(addr, width_len(width)) {
                Some(raw) => dest_ok(post, rd, extend(width, raw)) && pc_ok(post, binary(AluOp::Add, pc, 4)),
                None => false,
            },
            None => false,
        },
        Instr::Store { width, rs1, rs2, offset } => match eval(&binary(AluOp::Add, pre.reg(rs1), offset)) {
            Some(addr) => match img.read(addr, width_len(width)) {
                Some(stored) => eval(&binary(AluOp::And, pre.reg(rs2), mask(width))) == Some(stored)
                    && pc_ok(post, binary(AluOp::Add, pc, 4)),
                None => false,
            },
            None => false,
        },
        Instr::OpImm { op, rd, rs1, imm } => dest_ok(post, rd, binary(op, pre.reg(rs1), imm))
            && pc_ok(post, binary(AluOp::Add, pc, 4)),
        Instr::Op { op, rd, rs1, rs2 } => dest_ok(post, rd, binary(op, pre.reg(rs1), pre.reg(rs2)))
            && pc_ok(post, binary(AluOp::Add, pc, 4)),
        Instr::Fence => pc_ok(post, binary(AluOp::Add, pc, 4)),
        Instr::Ecall => post.pc == pc,
    }
}

} // verus!
