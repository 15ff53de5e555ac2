use vstd::prelude::*;
use crate::alu::{alu_spec, branch_spec};
use crate::decode::{regs_in_range, AluOp, BranchOp, Instr, Width};
use crate::engine::{
    entries, inject, limit_of, next_hash, prepend, run_spec, ExecutionResult, FailConfiguration, FaultTarget,
    RunConfig,
};
use crate::image::{width_bytes, ImageView};
use crate::machine::{
    apply, effect_address, execute_spec, extend, fetch_decode_spec, Fault, MachineView, Outcome,
};
use crate::script::{
    binary_script, branch_script, condition_script, eval_spec, extend_script, jalr_script, op_spec,
    run_script, store_script, verify_spec, width_mask, ScriptOp,
};
use crate::machine::NUM_REGS;
use crate::trace::{chain, chain_step, serialize, u32_le, words_le};

verus! {

/// Runs are deterministic: the same configuration, state, image and chain
/// hash give the same result, trace, final state, image and hash.
pub proof fn lemma_run_deterministic(
    c: RunConfig,
    s1: MachineView,
    s2: MachineView,
    m1: ImageView,
    m2: ImageView,
    h1: Seq<u8>,
    h2: Seq<u8>,
)
    requires
        s1 == s2,
        m1 == m2,
        h1 == h2,
    ensures
        run_spec(c, s1, m1, h1) == run_spec(c, s2, m2, h2),
{
}

/// The chain has one hash per state, and each hash after the first is the
/// hash of its predecessor followed by its own state.
pub proof fn lemma_chain_link(start: Seq<u8>, states: Seq<MachineView>, i: int)
    requires
        0 <= i < states.len(),
    ensures
        chain(start, states).len() == states.len(),
        i == 0 ==> chain(start, states)[i] == chain_step(start, states[0]),
        i > 0 ==> chain(start, states)[i] == chain_step(chain(start, states)[i - 1], states[i]),
    decreases states.len(),
{
    lemma_chain_len(start, states);
    if i < states.len() - 1 {
        lemma_chain_link(start, states.drop_last(), i);
    } else {
        lemma_chain_len(start, states.drop_last());
    }
}

proof fn lemma_chain_len(start: Seq<u8>, states: Seq<MachineView>)
    ensures
        chain(start, states).len() == states.len(),
    decreases states.len(),
{
    if states.len() > 0 {
        lemma_chain_len(start, states.drop_last());
    }
}

proof fn lemma_chain_prefix(start: Seq<u8>, states: Seq<MachineView>, n: int)
    requires
        0 <= n <= states.len(),
    ensures
        chain(start, states.subrange(0, n)) == chain(start, states).subrange(0, n),
    decreases states.len(),
{
    lemma_chain_len(start, states);
    if n == states.len() {
        assert(states.subrange(0, n) =~= states);
        assert(chain(start, states).subrange(0, n) =~= chain(start, states));
    } else {
        lemma_chain_prefix(start, states.drop_last(), n);
        assert(states.drop_last().subrange(0, n) =~= states.subrange(0, n));
        assert(chain(start, states.drop_last()).subrange(0, n) =~= chain(start, states).subrange(0, n));
    }
}

/// Hashes before a changed state are untouched: two state sequences that
/// agree before index `k` have chains that agree before index `k`.
pub proof fn lemma_chain_unchanged_before(
    start: Seq<u8>,
    a: Seq<MachineView>,
    b: Seq<MachineView>,
    k: int,
)
    requires
        0 <= k <= a.len(),
        k <= b.len(),
        forall|j: int| 0 <= j < k ==> a[j] == b[j],
    ensures
        forall|j: int| 0 <= j < k ==> chain(start, a)[j] == chain(start, b)[j],
{
    lemma_chain_len(start, a);
    lemma_chain_len(start, b);
    lemma_chain_prefix(start, a, k);
    lemma_chain_prefix(start, b, k);
    assert(a.subrange(0, k) =~= b.subrange(0, k));
    assert forall|j: int| 0 <= j < k implies chain(start, a)[j] == chain(start, b)[j] by {
        assert(chain(start, a).subrange(0, k)[j] == chain(start, a)[j]);
        assert(chain(start, b).subrange(0, k)[j] == chain(start, b)[j]);
    }
}

proof fn lemma_run_concat(x: Seq<ScriptOp>, y: Seq<ScriptOp>, st: Seq<u32>)
    ensures
        run_script(x + y, st) == match run_script(x, st) {
            Some(s2) => run_script(y, s2),
            None => None,
        },
    decreases x.len(),
{
    if x.len() == 0 {
        assert(x + y =~= y);
    } else {
        assert((x + y).drop_first() =~= x.drop_first() + y);
        assert((x + y)[0] == x[0]);
        match op_spec(x[0], st) {
            Some(s2) => lemma_run_concat(x.drop_first(), y, s2),
            None => {},
        }
    }
}

proof fn lemma_binary(op: AluOp, a: u32, b: u32, st: Seq<u32>)
    ensures
        run_script(binary_script(op, a, b), st) == Some(st.push(alu_spec(op, a, b))),
{
    let s2 = st.push(a).push(b);
    assert(s2.subrange(0, s2.len() - 2) =~= st);
    reveal_with_fuel(run_script, 4);
}

proof fn lemma_binary_eval(op: AluOp, a: u32, b: u32)
    ensures
        eval_spec(binary_script(op, a, b)) == Some(alu_spec(op, a, b)),
{
    lemma_binary(op, a, b, seq![]);
}

proof fn lemma_flip(st: Seq<u32>, v: u32)
    requires
        v == 0 || v == 1,
    ensures
        run_script(seq![ScriptOp::Push(1), ScriptOp::Arith(AluOp::Xor)], st.push(v)) == Some(
            st.push(if v == 0 { 1u32 } else { 0u32 }),
        ),
{
    let s2 = st.push(v).push(1);
    assert(s2.subrange(0, s2.len() - 2) =~= st);
    assert(0u32 ^ 1u32 == 1u32) by (bit_vector);
    assert(1u32 ^ 1u32 == 0u32) by (bit_vector);
    reveal_with_fuel(run_script, 3);
}

proof fn lemma_condition(op: BranchOp, a: u32, b: u32, st: Seq<u32>)
    ensures
        run_script(condition_script(op, a, b), st) == Some(
            st.push(if branch_spec(op, a, b) { 1u32 } else { 0u32 }),
        ),
{
    let flip = seq![ScriptOp::Push(1), ScriptOp::Arith(AluOp::Xor)];
    match op {
        BranchOp::Eq => {
            let s2 = st.push(a).push(b);
            assert(s2.subrange(0, s2.len() - 2) =~= st);
            reveal_with_fuel(run_script, 4);
        },
        BranchOp::Ne => {
            let eq = seq![ScriptOp::Push(a), ScriptOp::Push(b), ScriptOp::Equal];
            assert(condition_script(op, a, b) =~= eq + flip);
            let s2 = st.push(a).push(b);
            assert(s2.subrange(0, s2.len() - 2) =~= st);
            assert(run_script(eq, st) == Some(st.push(if a == b { 1u32 } else { 0u32 }))) by {
                reveal_with_fuel(run_script, 4);
            }
            lemma_run_concat(eq, flip, st);
            lemma_flip(st, if a == b { 1u32 } else { 0u32 });
        },
        BranchOp::Lt => {
            lemma_binary(AluOp::Slt, a, b, st);
        },
        BranchOp::Ge => {
            lemma_binary(AluOp::Slt, a, b, st);
            lemma_run_concat(binary_script(AluOp::Slt, a, b), flip, st);
            lemma_flip(st, alu_spec(AluOp::Slt, a, b));
        },
        BranchOp::Ltu => {
            lemma_binary(AluOp::Sltu, a, b, st);
        },
        BranchOp::Geu => {
            lemma_binary(AluOp::Sltu, a, b, st);
            lemma_run_concat(binary_script(AluOp::Sltu, a, b), flip, st);
            lemma_flip(st, alu_spec(AluOp::Sltu, a, b));
        },
    }
}

proof fn lemma_branch(op: BranchOp, pc: u32, offset: u32, a: u32, b: u32)
    ensures
        eval_spec(branch_script(op, pc, offset, a, b)) == Some(
            if branch_spec(op, a, b) {
                alu_spec(AluOp::Add, pc, offset)
            } else {
                alu_spec(AluOp::Add, pc, 4)
            },
        ),
{
    let e: Seq<u32> = seq![];
    let p1 = binary_script(AluOp::Add, pc, offset);
    let p2 = binary_script(AluOp::Add, pc, 4);
    let p3 = condition_script(op, a, b);
    let p4 = seq![ScriptOp::Select];
    let t = alu_spec(AluOp::Add, pc, offset);
    let f = alu_spec(AluOp::Add, pc, 4);
    let c: u32 = if branch_spec(op, a, b) { 1 } else { 0 };
    lemma_binary(AluOp::Add, pc, offset, e);
    lemma_binary(AluOp::Add, pc, 4, e.push(t));
    lemma_condition(op, a, b, e.push(t).push(f));
    lemma_run_concat(p1, p2, e);
    lemma_run_concat(p1 + p2, p3, e);
    lemma_run_concat(p1 + p2 + p3, p4, e);
    let s3 = e.push(t).push(f).push(c);
    assert(s3.subrange(0, s3.len() - 3) =~= e);
    reveal_with_fuel(run_script, 2);
    assert(run_script(p4, s3) == Some(e.push(if c != 0 { t } else { f })));
}

proof fn lemma_jalr(base: u32, offset: u32)
    ensures
        eval_spec(jalr_script(base, offset)) == Some(alu_spec(AluOp::Add, base, offset) & 0xffff_fffe),
{
    let e: Seq<u32> = seq![];
    let v = alu_spec(AluOp::Add, base, offset);
    let tail = seq![ScriptOp::Push(0xffff_fffe), ScriptOp::Arith(AluOp::And)];
    lemma_binary(AluOp::Add, base, offset, e);
    lemma_run_concat(binary_script(AluOp::Add, base, offset), tail, e);
    let s2 = e.push(v).push(0xffff_fffe);
    assert(s2.subrange(0, s2.len() - 2) =~= e);
    reveal_with_fuel(run_script, 3);
}

proof fn lemma_extend(w: Width, raw: u32)
    requires
        (w == Width::Byte || w == Width::ByteU) ==> raw < 0x100,
        (w == Width::Half || w == Width::HalfU) ==> raw < 0x1_0000,
    ensures
        eval_spec(extend_script(w, raw)) == Some(extend(w, raw)),
{
    let e: Seq<u32> = seq![];
    match w {
        Width::Byte => {
            let x = alu_spec(AluOp::Sll, raw, 24);
            let s2 = e.push(raw).push(24);
            let s4 = e.push(x).push(24);
            assert(s2.subrange(0, s2.len() - 2) =~= e);
            assert(s4.subrange(0, s4.len() - 2) =~= e);
            assert(24u32 & 31 == 24) by (bit_vector);
            let y = alu_spec(AluOp::Sra, x, 24);
            assert(y == (if raw & 0x80 != 0 { raw | 0xffff_ff00 } else { raw })) by (bit_vector)
                requires
                    raw < 0x100,
                    x == raw << 24,
                    y == (if x >= 0x8000_0000 { !((!x) >> 24) } else { x >> 24 }),
            ;
            reveal_with_fuel(run_script, 6);
        },
        Width::Half => {
            let x = alu_spec(AluOp::Sll, raw, 16);
            let s2 = e.push(raw).push(16);
            let s4 = e.push(x).push(16);
            assert(s2.subrange(0, s2.len() - 2) =~= e);
            assert(s4.subrange(0, s4.len() - 2) =~= e);
            assert(16u32 & 31 == 16) by (bit_vector);
            let y = alu_spec(AluOp::Sra, x, 16);
            assert(y == (if raw & 0x8000 != 0 { raw | 0xffff_0000 } else { raw })) by (bit_vector)
                requires
                    raw < 0x1_0000,
                    x == raw << 16,
                    y == (if x >= 0x8000_0000 { !((!x) >> 16) } else { x >> 16 }),
            ;
            reveal_with_fuel(run_script, 6);
        },
        _ => {
            reveal_with_fuel(run_script, 2);
        },
    }
}

proof fn lemma_read_bounds(m: ImageView, addr: u32, n: nat)
    requires
        m.read(addr, n) is Some,
    ensures
        n == 1 ==> m.read(addr, n)->Some_0 < 0x100,
        n == 2 ==> m.read(addr, n)->Some_0 < 0x1_0000,
{
    let id = m.locate(addr, n)->Some_0;
    let d = m.region(id).data;
    let off = addr - m.region(id).base;
    if n == 2 {
        let b0 = d[off];
        let b1 = d[off + 1];
        assert((b0 as u32 | (b1 as u32) << 8) < 0x1_0000) by (bit_vector);
    }
}

proof fn lemma_read_after_write(m: ImageView, addr: u32, n: nat, v: u32)
    requires
        n == 1 || n == 2 || n == 4,
        m.write(addr, n, v) is Some,
    ensures
        m.write(addr, n, v)->Some_0.read(addr, n) == Some(
            if n == 1 { v & 0xff } else if n == 2 { v & 0xffff } else { v },
        ),
{
    let m2 = m.write(addr, n, v)->Some_0;
    let id = m.locate(addr, n)->Some_0;
    let off = addr - m.region(id).base;
    let d2 = m2.region(id).data;
    assert(m2.input.data.len() == m.input.data.len());
    assert(m2.output.data.len() == m.output.data.len());
    assert(m2.ram.data.len() == m.ram.data.len());
    assert(m2.locate(addr, n) == Some(id));
    if n == 1 {
        assert(d2[off] == v as u8);
        assert((v as u8) as u32 == v & 0xff) by (bit_vector);
    } else if n == 2 {
        assert(d2[off] == v as u8);
        assert(d2[off + 1] == (v >> 8) as u8);
        assert(((v as u8) as u32 | (((v >> 8) as u8) as u32) << 8) == v & 0xffff) by (bit_vector);
    } else {
        assert(d2[off] == v as u8);
        assert(d2[off + 1] == (v >> 8) as u8);
        assert(d2[off + 2] == (v >> 16) as u8);
        assert(d2[off + 3] == (v >> 24) as u8);
        assert(((v as u8) as u32 | (((v >> 8) as u8) as u32) << 8 | (((v >> 16) as u8) as u32) << 16
            | (((v >> 24) as u8) as u32) << 24) == v) by (bit_vector);
    }
}

/// With no fault injected, every instruction that completes agrees with its
/// script encoding: the verifier accepts the state and image it leaves.
pub proof fn lemma_script_equivalence(i: Instr, s: MachineView, m: ImageView)
    requires
        s.wf(),
        m.wf(),
        regs_in_range(i),
        !(execute_spec(i, s, m).outcome is Fault),
    ensures
        verify_spec(i, s, apply(s, execute_spec(i, s, m)), execute_spec(i, s, m).mem),
{
    let t = execute_spec(i, s, m);
    let post = apply(s, t);
    lemma_binary_eval(AluOp::Add, s.pc, 4);
    match i {
        Instr::Lui { rd, imm } => {
            lemma_extend(Width::Word, imm);
        },
        Instr::Auipc { rd, imm } => {
            lemma_binary_eval(AluOp::Add, s.pc, imm);
        },
        Instr::Jal { rd, offset } => {
            lemma_binary_eval(AluOp::Add, s.pc, offset);
        },
        Instr::Jalr { rd, rs1, offset } => {
            lemma_jalr(s.reg(rs1), offset);
        },
        Instr::Branch { op, rs1, rs2, offset } => {
            lemma_branch(op, s.pc, offset, s.reg(rs1), s.reg(rs2));
        },
        Instr::Load { width, rd, rs1, offset } => {
            let addr = effect_address(s, rs1, offset);
            lemma_binary_eval(AluOp::Add, s.reg(rs1), offset);
            lemma_read_bounds(m, addr, width_bytes(width));
            lemma_extend(width, m.read(addr, width_bytes(width))->Some_0);
        },
        Instr::Store { width, rs1, rs2, offset } => {
            let addr = effect_address(s, rs1, offset);
            lemma_binary_eval(AluOp::Add, s.reg(rs1), offset);
            lemma_binary_eval(AluOp::And, s.reg(rs2), width_mask(width));
            lemma_read_after_write(m, addr, width_bytes(width), s.reg(rs2));
            let v = s.reg(rs2);
            assert(v & 0xffff_ffff == v) by (bit_vector);
        },
        Instr::OpImm { op, rd, rs1, imm } => {
            lemma_binary_eval(op, s.reg(rs1), imm);
        },
        Instr::Op { op, rd, rs1, rs2 } => {
            lemma_binary_eval(op, s.reg(rs1), s.reg(rs2));
        },
        Instr::Fence => {},
        Instr::Ecall => {},
    }
}

/// Stopping a run at step `k` and running on, with the same options, from
/// the state, image and chain hash it left (what a checkpoint holds) ends
/// exactly as the uninterrupted run: same result, final state, image and
/// hash, and the two traces joined give the uninterrupted trace.
pub proof fn lemma_resume(c: RunConfig, k: u64, s: MachineView, m: ImageView, h: Seq<u8>)
    requires
        k <= limit_of(c),
        run_spec(RunConfig { step_limit: Some(k), ..c }, s, m, h).result
            == ExecutionResult::StepLimitReached(k),
    ensures
        ({
            let first = run_spec(RunConfig { step_limit: Some(k), ..c }, s, m, h);
            run_spec(c, s, m, h) == prepend(first.trace, run_spec(c, first.state, first.mem, first.hash))
        }),
    decreases k - s.step,
{
    let c1 = RunConfig { step_limit: Some(k), ..c };
    let first = run_spec(c1, s, m, h);
    if s.halted {
    } else if s.step >= k {
        let rest = run_spec(c, s, m, h);
        assert(first.trace + rest.trace =~= rest.trace);
    } else {
        match fetch_decode_spec(s, m) {
            Err(f) => {},
            Ok(i) => {
                let t = execute_spec(i, s, m);
                match t.outcome {
                    Outcome::Fault(f) => {},
                    _ => {
                        let s2 = inject(c.fail, apply(s, t), t.mem).0;
                        let m2 = inject(c.fail, apply(s, t), t.mem).1;
                        let h2 = next_hash(c, h, s2);
                        let e = entries(c, h, s2);
                        if c.verify && !verify_spec(i, s, s2, m2) {
                        } else if let Outcome::Halt(code) = t.outcome {
                        } else {
                            lemma_resume(c, k, s2, m2, h2);
                            let mid = run_spec(c1, s2, m2, h2);
                            let rest = run_spec(c, mid.state, mid.mem, mid.hash);
                            assert(e + (mid.trace + rest.trace) =~= (e + mid.trace) + rest.trace);
                        }
                    },
                }
            },
        }
    }
}

/// A run whose step counter already stands at the limit executes nothing:
/// it reports the limit and leaves state, image, hash and trace untouched.
pub proof fn lemma_limit_reached(c: RunConfig, s: MachineView, m: ImageView, h: Seq<u8>)
    requires
        !s.halted,
        s.step >= limit_of(c),
    ensures
        run_spec(c, s, m, h).result == ExecutionResult::StepLimitReached(s.step),
        run_spec(c, s, m, h).mem == m,
        run_spec(c, s, m, h).state == s,
        run_spec(c, s, m, h).hash == h,
        run_spec(c, s, m, h).trace.len() == 0,
{
}

/// A register corruption changes the targeted register and nothing else of
/// the state or the image.
pub proof fn lemma_injection_is_local(f: FailConfiguration, s: MachineView, m: ImageView, r: u8)
    requires
        s.wf(),
        f.enabled,
        f.target_step == Some(s.step),
        f.target == FaultTarget::Register(r),
        0 < r < 32,
    ensures
        inject(f, s, m).0.regs[r as int] == f.corrupted_value,
        forall|j: int| 0 <= j < 32 && j != r ==> inject(f, s, m).0.regs[j] == s.regs[j],
        inject(f, s, m).0.pc == s.pc,
        inject(f, s, m).0.step == s.step,
        inject(f, s, m).0.halted == s.halted,
        inject(f, s, m).1 == m,
{
}

/// The destination register of an instruction, for those that write one.
pub open spec fn dest_of(i: Instr) -> Option<u8> {
    match i {
        Instr::Lui { rd, .. } => Some(rd),
        Instr::Auipc { rd, .. } => Some(rd),
        Instr::Jal { rd, .. } => Some(rd),
        Instr::Jalr { rd, .. } => Some(rd),
        Instr::Load { rd, .. } => Some(rd),
        Instr::OpImm { rd, .. } => Some(rd),
        Instr::Op { rd, .. } => Some(rd),
        _ => None,
    }
}

/// With verification on, corrupting the destination register of the
/// instruction that completes step `k` with a value other than the correct
/// one ends the run at step `k` with a verification mismatch: the
/// divergence is reported at the faulted step, never later.
pub proof fn lemma_fault_detected(c: RunConfig, s: MachineView, m: ImageView, h: Seq<u8>, i: Instr, rd: u8)
    requires
        s.wf(),
        m.wf(),
        !s.halted,
        s.step < limit_of(c),
        c.verify,
        fetch_decode_spec(s, m) == Ok::<Instr, Fault>(i),
        regs_in_range(i),
        !(execute_spec(i, s, m).outcome is Fault),
        dest_of(i) == Some(rd),
        0 < rd,
        c.fail.enabled,
        c.fail.target_step == Some((s.step + 1) as u64),
        c.fail.target == FaultTarget::Register(rd),
        c.fail.corrupted_value != apply(s, execute_spec(i, s, m)).regs[rd as int],
    ensures
        run_spec(c, s, m, h).result == ExecutionResult::VerificationMismatch((s.step + 1) as u64, i),
{
    let t = execute_spec(i, s, m);
    lemma_script_equivalence(i, s, m);
    let post = apply(s, t);
    let bad = inject(c.fail, post, t.mem).0;
    assert(bad.reg(rd) != post.reg(rd));
    assert(!verify_spec(i, s, bad, t.mem));
}

proof fn lemma_u32_le_injective(x: u32, y: u32)
    requires
        u32_le(x) == u32_le(y),
    ensures
        x == y,
{
    assert(u32_le(x)[0] == u32_le(y)[0]);
    assert(u32_le(x)[1] == u32_le(y)[1]);
    assert(u32_le(x)[2] == u32_le(y)[2]);
    assert(u32_le(x)[3] == u32_le(y)[3]);
    assert(((x as u8) as u32 | (((x >> 8) as u8) as u32) << 8 | (((x >> 16) as u8) as u32) << 16
        | (((x >> 24) as u8) as u32) << 24) == x) by (bit_vector);
    assert(((y as u8) as u32 | (((y >> 8) as u8) as u32) << 8 | (((y >> 16) as u8) as u32) << 16
        | (((y >> 24) as u8) as u32) << 24) == y) by (bit_vector);
}

proof fn lemma_words_le_len(ws: Seq<u32>)
    ensures
        words_le(ws).len() == 4 * ws.len(),
    decreases ws.len(),
{
    if ws.len() > 0 {
        lemma_words_le_len(ws.drop_last());
    }
}

proof fn lemma_words_le_injective(a: Seq<u32>, b: Seq<u32>)
    requires
        a.len() == b.len(),
        words_le(a) == words_le(b),
    ensures
        a == b,
    decreases a.len(),
{
    if a.len() > 0 {
        let n = a.len() - 1;
        lemma_words_le_len(a.drop_last());
        lemma_words_le_len(b.drop_last());
        let wa = words_le(a);
        assert(words_le(a.drop_last()) =~= wa.subrange(0, 4 * n));
        assert(words_le(b.drop_last()) =~= wa.subrange(0, 4 * n));
        assert(u32_le(a.last()) =~= wa.subrange(4 * n, 4 * n + 4));
        assert(u32_le(b.last()) =~= wa.subrange(4 * n, 4 * n + 4));
        lemma_words_le_injective(a.drop_last(), b.drop_last());
        lemma_u32_le_injective(a.last(), b.last());
        assert(a =~= a.drop_last().push(a.last()));
        assert(b =~= b.drop_last().push(b.last()));
    } else {
        assert(a =~= b);
    }
}

/// The state encoding is injective: two states with 32 registers and equal
/// encodings have the same registers, program counter and step counter. A
/// changed state therefore always changes the input of the next chain hash.
pub proof fn lemma_serialize_injective(a: MachineView, b: MachineView)
    requires
        a.wf(),
        b.wf(),
        serialize(a) == serialize(b),
    ensures
        a.regs == b.regs,
        a.pc == b.pc,
        a.step == b.step,
{
    lemma_words_le_len(a.regs);
    lemma_words_le_len(b.regs);
    let sa = serialize(a);
    let k = 4 * NUM_REGS as int;
    assert(words_le(a.regs) =~= sa.subrange(0, k));
    assert(words_le(b.regs) =~= sa.subrange(0, k));
    lemma_words_le_injective(a.regs, b.regs);
    assert(u32_le(a.pc) =~= sa.subrange(k, k + 4));
    assert(u32_le(b.pc) =~= sa.subrange(k, k + 4));
    lemma_u32_le_injective(a.pc, b.pc);
    assert(u32_le(a.step as u32) =~= sa.subrange(k + 4, k + 8));
    assert(u32_le(b.step as u32) =~= sa.subrange(k + 4, k + 8));
    assert(u32_le((a.step >> 32) as u32) =~= sa.subrange(k + 8, k + 12));
    assert(u32_le((b.step >> 32) as u32) =~= sa.subrange(k + 8, k + 12));
    lemma_u32_le_injective(a.step as u32, b.step as u32);
    lemma_u32_le_injective((a.step >> 32) as u32, (b.step >> 32) as u32);
    let (x, y) = (a.step, b.step);
    assert(x == y) by (bit_vector)
        requires
            x as u32 == y as u32,
            (x >> 32) as u32 == (y >> 32) as u32,
    ;
}

} // verus!
