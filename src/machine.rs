use vstd::prelude::*;
use crate::alu::{alu, alu_spec, branch_spec, branch_taken};
use crate::decode::{decode, decode_spec, regs_in_range, Instr, Width};
use crate::image::{width_bytes, ImageView, ProgramImage};
use vstd::wrapping::u32_specs::wrapping_add;

verus! {

/// Number of general-purpose registers.
pub const NUM_REGS: usize = 32;

/// Register holding the system-call number.
pub const REG_SYSCALL: u8 = 17;

/// Register holding the first system-call argument.
pub const REG_ARG0: u8 = 10;

/// System-call number that ends the program.
pub const SYS_EXIT: u32 = 93;

/// Architectural state: 32 registers, the program counter, the number of
/// instructions executed so far and whether the program has ended.
pub struct MachineState {
    pub registers: Vec<u32>,
    pub pc: u32,
    pub step: u64,
    pub halted: bool,
}

pub struct MachineView {
    pub regs: Seq<u32>,
    pub pc: u32,
    pub step: u64,
    pub halted: bool,
}

impl View for MachineState {
    type V = MachineView;

    open spec fn view(&self) -> MachineView {
        MachineView { regs: self.registers@, pc: self.pc, step: self.step, halted: self.halted }
    }
}

impl MachineView {
    pub open spec fn wf(self) -> bool {
        self.regs.len() == NUM_REGS
    }

    /// Value of register `i`; register 0 always reads as zero.
    pub open spec fn reg(self, i: u8) -> u32 {
        if i == 0 { 0 } else { self.regs[i as int] }
    }
}

/// Register file after writing `v` to `rd`; writes to register 0 are dropped.
pub open spec fn with_reg(regs: Seq<u32>, rd: u8, v: u32) -> Seq<u32> {
    if rd == 0 { regs } else { regs.update(rd as int, v) }
}

/// Why a run stopped abnormally.
#[derive(Clone, Copy, Debug, PartialEq, Eq, Structural)]
pub enum Fault {
    /// No code word at this program counter.
    Fetch(u32),
    /// This word is not a supported instruction.
    Decode(u32),
    /// Unaligned or unmapped data access at this address.
    MemoryAccess(u32),
    /// Unsupported system-call number.
    Syscall(u32),
    /// The program had already ended.
    Halted,
}

/// What one instruction did.
#[derive(Clone, Copy, Debug, PartialEq, Eq, Structural)]
pub enum Outcome {
    Next,
    Halt(u32),
    Fault(Fault),
}

/// The effect of an instruction: registers, program counter and image
/// afterwards, and its outcome.
pub struct Transition {
    pub regs: Seq<u32>,
    pub pc: u32,
    pub mem: ImageView,
    pub outcome: Outcome,
}

/// A loaded value widened to 32 bits: sign-extended for the signed widths.
pub open spec fn extend(w: Width, v: u32) -> u32 {
    match w {
        Width::Byte => if v & 0x80 != 0 { v | 0xffff_ff00 } else { v },
        Width::Half => if v & 0x8000 != 0 { v | 0xffff_0000 } else { v },
        _ => v,
    }
}

pub open spec fn next_pc(pc: u32) -> u32 {
    wrapping_add(pc, 4)
}

pub open spec fn effect_address(s: MachineView, rs1: u8, offset: u32) -> u32 {
    wrapping_add(s.reg(rs1), offset)
}

/// The effect of executing `i` in state `s` over image `m`.
pub open spec fn execute_spec(i: Instr, s: MachineView, m: ImageView) -> Transition {
    let go = |regs: Seq<u32>, pc: u32| Transition { regs, pc, mem: m, outcome: Outcome::Next };
    let fault = |f: Fault| Transition { regs: s.regs, pc: s.pc, mem: m, outcome: Outcome::Fault(f) };
    match i {
        Instr::Lui { rd, imm } => go(with_reg(s.regs, rd, imm), next_pc(s.pc)),
        Instr::Auipc { rd, imm } => go(with_reg(s.regs, rd, wrapping_add(s.pc, imm)), next_pc(s.pc)),
        Instr::Jal { rd, offset } => go(with_reg(s.regs, rd, next_pc(s.pc)), wrapping_add(s.pc, offset)),
        Instr::Jalr { rd, rs1, offset } => go(
            with_reg(s.regs, rd, next_pc(s.pc)),
            effect_address(s, rs1, offset) & 0xffff_fffe,
        ),
        Instr::Branch { op, rs1, rs2, offset } => go(
            s.regs,
            if branch_spec(op, s.reg(rs1), s.reg(rs2)) {
                wrapping_add(s.pc, offset)
            } else {
                next_pc(s.pc)
            },
        ),
        Instr::Load { width, rd, rs1, offset } => {
            let addr = effect_address(s, rs1, offset);
            match m.read(addr, width_bytes(width)) {
                Some(v) => go(with_reg(s.regs, rd, extend(width, v)), next_pc(s.pc)),
                None => fault(Fault::MemoryAccess(addr)),
            }
        },
        Instr::Store { width, rs1, rs2, offset } => {
            let addr = effect_address(s, rs1, offset);
            match m.write(addr, width_bytes(width), s.reg(rs2)) {
                Some(m2) => Transition { regs: s.regs, pc: next_pc(s.pc), mem: m2, outcome: Outcome::Next },
                None => fault(Fault::MemoryAccess(addr)),
            }
        },
        Instr::OpImm { op, rd, rs1, imm } => go(
            with_reg(s.regs, rd, alu_spec(op, s.reg(rs1), imm)),
            next_pc(s.pc),
        ),
        Instr::Op { op, rd, rs1, rs2 } => go(
            with_reg(s.regs, rd, alu_spec(op, s.reg(rs1), s.reg(rs2))),
            next_pc(s.pc),
        ),
        Instr::Fence => go(s.regs, next_pc(s.pc)),
        Instr::Ecall => if s.reg(REG_SYSCALL) == SYS_EXIT {
            Transition { regs: s.regs, pc: s.pc, mem: m, outcome: Outcome::Halt(s.reg(REG_ARG0)) }
        } else {
            fault(Fault::Syscall(s.reg(REG_SYSCALL)))
        },
    }
}

/// The state after a transition: the step counter advances unless the
/// instruction faulted, and a halt sets the halted flag.
pub open spec fn apply(s: MachineView, t: Transition) -> MachineView {
    match t.outcome {
        Outcome::Next => MachineView { regs: t.regs, pc: t.pc, step: (s.step + 1) as u64, halted: false },
        Outcome::Halt(_) => MachineView { step: (s.step + 1) as u64, halted: true, ..s },
        Outcome::Fault(_) => s,
    }
}

/// The instruction at the program counter, or the fault that stops its fetch
/// or decode.
pub open spec fn fetch_decode_spec(s: MachineView, m: ImageView) -> Result<Instr, Fault> {
    match m.fetch(s.pc) {
        None => Err(Fault::Fetch(s.pc)),
        Some(w) => match decode_spec(w) {
            Some(i) => Ok(i),
            None => Err(Fault::Decode(w)),
        },
    }
}

impl MachineState {
    /// All registers zero, the program counter at `entry`, no step taken.
    pub fn new(entry: u32) -> (r: MachineState)
        ensures
            r@.wf(),
            r@.pc == entry,
            r@.step == 0,
            !r@.halted,
            forall|i: int| 0 <= i < NUM_REGS ==> r@.regs[i] == 0,
    {
        let mut registers: Vec<u32> = Vec::new();
        let mut k: usize = 0;
        while k < NUM_REGS
            invariant
                k <= NUM_REGS,
                registers@.len() == k,
                forall|i: int| 0 <= i < k ==> registers@[i] == 0,
            decreases NUM_REGS - k,
        {
            registers.push(0);
            k = k + 1;
        }
        MachineState { registers, pc: entry, step: 0, halted: false }
    }

    /// Reads a register; register 0 reads as zero.
    pub fn reg(&self, i: u8) -> (r: u32)
        requires
            self@.wf(),
            i < 32,
        ensures
            r == self@.reg(i),
    {
        if i == 0 { 0 } else { self.registers[i as usize] }
    }

    fn set_reg(&mut self, rd: u8, v: u32)
        requires
            old(self)@.wf(),
            rd < 32,
        ensures
            final(self)@ == (MachineView { regs: with_reg(old(self)@.regs, rd, v), ..old(self)@ }),
    {
        if rd != 0 {
            self.registers.set(rd as usize, v);
        }
    }

    /// A copy of the state.
    pub fn copy(&self) -> (r: MachineState)
        ensures
            r@ == self@,
    {
        MachineState { registers: self.registers.clone(), pc: self.pc, step: self.step, halted: self.halted }
    }
}

fn extend_value(w: Width, v: u32) -> (r: u32)
    ensures
        r == extend(w, v),
{
    match w {
        Width::Byte => if v & 0x80 != 0 { v | 0xffff_ff00 } else { v },
        Width::Half => if v & 0x8000 != 0 { v | 0xffff_0000 } else { v },
        _ => v,
    }
}

pub fn width_len(w: Width) -> (r: u32)
    ensures
        r as nat == width_bytes(w),
        r == 1 || r == 2 || r == 4,
{
    match w {
        Width::Byte | Width::ByteU => 1,
        Width::Half | Width::HalfU => 2,
        Width::Word => 4,
    }
}

/// Fetches and decodes the instruction at the program counter.
pub fn fetch_decode(st: &MachineState, img: &ProgramImage) -> (r: Result<Instr, Fault>)
    requires
        img.wf(),
    ensures
        r == fetch_decode_spec(st@, img@),
        r matches Ok(i) ==> regs_in_range(i),
{
    match img.fetch(st.pc) {
        None => Err(Fault::Fetch(st.pc)),
        Some(w) => match decode(w) {
            Some(i) => Ok(i),
            None => Err(Fault::Decode(w)),
        },
    }
}

/// Executes one decoded instruction, updating registers, memory, the program
/// counter and the step counter.
pub fn execute(i: Instr, st: &mut MachineState, img: &mut ProgramImage) -> (r: Outcome)
    requires
        old(st)@.wf(),
        old(img).wf(),
        regs_in_range(i),
        !old(st)@.halted,
        old(st)@.step < u64::MAX,
    ensures
        final(st)@.wf(),
        final(img).wf(),
        r == execute_spec(i, old(st)@, old(img)@).outcome,
        final(st)@ == apply(old(st)@, execute_spec(i, old(st)@, old(img)@)),
        final(img)@ == execute_spec(i, old(st)@, old(img)@).mem,
{
    let pc4 = st.pc.wrapping_add(4);
    let r = match i {
        Instr::Lui { rd, imm } => {
            st.set_reg(rd, imm);
            st.pc = pc4;
            Outcome::Next
        },
        Instr::Auipc { rd, imm } => {
            let v = st.pc.wrapping_add(imm);
            st.set_reg(rd, v);
            st.pc = pc4;
            Outcome::Next
        },
        Instr::Jal { rd, offset } => {
            let target = st.pc.wrapping_add(offset);
            st.set_reg(rd, pc4);
            st.pc = target;
            Outcome::Next
        },
        Instr::Jalr { rd, rs1, offset } => {
            let target = st.reg(rs1).wrapping_add(offset) & 0xffff_fffe;
            st.set_reg(rd, pc4);
            st.pc = target;
            Outcome::Next
        },
        Instr::Branch { op, rs1, rs2, offset } => {
            if branch_taken(op, st.reg(rs1), st.reg(rs2)) {
                st.pc = st.pc.wrapping_add(offset);
            } else {
                st.pc = pc4;
            }
            Outcome::Next
        },
        Instr::Load { width, rd, rs1, offset } => {
            let addr = st.reg(rs1).wrapping_add(offset);
            match img.read(addr, width_len(width)) {
                Some(v) => {
                    st.set_reg(rd, extend_value(width, v));
                    st.pc = pc4;
                    Outcome::Next
                },
                None => Outcome::Fault(Fault::MemoryAccess(addr)),
            }
        },
        Instr::Store { width, rs1, rs2, offset } => {
            let addr = st.reg(rs1).wrapping_add(offset);
            if img.write(addr, width_len(width), st.reg(rs2)) {
                st.pc = pc4;
                Outcome::Next
            } else {
                Outcome::Fault(Fault::MemoryAccess(addr))
            }
        },
        Instr::OpImm { op, rd, rs1, imm } => {
            let v = alu(op, st.reg(rs1), imm);
            st.set_reg(rd, v);
            st.pc = pc4;
            Outcome::Next
        },
        Instr::Op { op, rd, rs1, rs2 } => {
            let v = alu(op, st.reg(rs1), st.reg(rs2));
            st.set_reg(rd, v);
            st.pc = pc4;
            Outcome::Next
        },
        Instr::Fence => {
            st.pc = pc4;
            Outcome::Next
        },
        Instr::Ecall => {
            let num = st.reg(REG_SYSCALL);
            if num == SYS_EXIT {
                Outcome::Halt(st.reg(REG_ARG0))
            } else {
                Outcome::Fault(Fault::Syscall(num))
            }
        },
    };
    match r {
        Outcome::Next => {
            st.step = st.step + 1;
        },
        Outcome::Halt(_) => {
            st.step = st.step + 1;
            st.halted = true;
        },
        Outcome::Fault(_) => {},
    }
    r
}

} // verus!
