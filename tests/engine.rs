use rvtrace::engine::{run, ExecutionResult, FailConfiguration, FaultTarget, RunConfig, StepRange};
use rvtrace::checkpoint::{load, save, CheckpointError, CheckpointState};
use rvtrace::decode::{AluOp, Instr};
use rvtrace::image::{LoadError, ProgramImage, Region, RegionId};
use rvtrace::machine::{execute, Fault, MachineState, Outcome};
use rvtrace::memory::read_output;
use rvtrace::script::verify;
use rvtrace::trace::{genesis, to_hex};

const CODE_BASE: u32 = 0x1000;

fn image(code: Vec<u32>) -> ProgramImage {
    ProgramImage::new(
        CODE_BASE,
        code,
        Region { base: 0xA000_1000, data: vec![0; 64] },
        Region { base: 0xA000_2000, data: vec![0; 64] },
        Region { base: 0x8000_0000, data: vec![0; 256] },
    )
    .unwrap()
}

fn config(limit: Option<u64>) -> RunConfig {
    RunConfig { step_limit: limit, verify: true, trace: true, no_hash: false, trace_steps: None, fail: FailConfiguration::disabled() }
}

fn addi(rd: u32, rs1: u32, imm: u32) -> u32 {
    (imm << 20) | (rs1 << 15) | (rd << 7) | 0x13
}

fn exit_program(code: u32) -> Vec<u32> {
    vec![addi(10, 0, code), addi(17, 0, 93), 0x73]
}

#[test]
fn halts_with_exit_code() {
    let mut img = image(exit_program(5));
    let r = run(&mut img, MachineState::new(CODE_BASE), genesis(), &config(None));
    assert_eq!(r.result, ExecutionResult::Halt(5, 3));
    assert_eq!(r.trace.len(), 3);
    assert_eq!(r.trace[2].step, 3);
    let hex = String::from_utf8(to_hex(&r.hash)).unwrap();
    assert_eq!(hex.len(), 40);
    assert!(hex.chars().all(|c| c.is_ascii_hexdigit()));
}

#[test]
fn zero_step_limit_stops_at_once() {
    let mut img = image(exit_program(5));
    let r = run(&mut img, MachineState::new(CODE_BASE), genesis(), &config(Some(0)));
    assert_eq!(r.result, ExecutionResult::StepLimitReached(0));
    assert!(r.trace.is_empty());
    assert_eq!(r.state.pc, CODE_BASE);
    assert_eq!(r.hash, genesis());
    assert_eq!(img.read(0xA000_2000, 4), Some(0));
}

#[test]
fn runs_are_deterministic() {
    let mut a = image(exit_program(7));
    let mut b = image(exit_program(7));
    let ra = run(&mut a, MachineState::new(CODE_BASE), genesis(), &config(None));
    let rb = run(&mut b, MachineState::new(CODE_BASE), genesis(), &config(None));
    assert_eq!(ra.result, rb.result);
    assert_eq!(ra.hash, rb.hash);
    for (x, y) in ra.trace.iter().zip(rb.trace.iter()) {
        assert_eq!(x.state_hash, y.state_hash);
    }
}

#[test]
fn injected_fault_is_detected_at_its_step() {
    let mut img = image(exit_program(5));
    let mut cfg = config(None);
    cfg.fail = FailConfiguration {
        enabled: true,
        target_step: Some(1),
        target: FaultTarget::Register(10),
        corrupted_value: 99,
    };
    let r = run(&mut img, MachineState::new(CODE_BASE), genesis(), &cfg);
    match r.result {
        ExecutionResult::VerificationMismatch(step, _) => assert_eq!(step, 1),
        other => panic!("unexpected result {:?}", other),
    }
}

fn no_fail(limit: Option<u64>, trace: bool, no_hash: bool) -> RunConfig {
    RunConfig { step_limit: limit, verify: true, trace, no_hash, trace_steps: None, fail: FailConfiguration::disabled() }
}

fn finish(code: &mut Vec<u32>) {
    code.push(addi(17, 0, 93));
    code.push(0x73);
}

const LUI_X5_OUTPUT: u32 = 0xA000_22B7;

#[test]
fn store_then_load_through_output_window() {
    let mut code = vec![
        LUI_X5_OUTPUT,
        addi(6, 0, 77),
        (6 << 20) | (5 << 15) | (2 << 12) | 0x23,
        (5 << 15) | (2 << 12) | (10 << 7) | 0x03,
    ];
    finish(&mut code);
    let mut img = image(code);
    let r = run(&mut img, MachineState::new(CODE_BASE), genesis(), &config(None));
    assert_eq!(r.result, ExecutionResult::Halt(77, 6));
    assert_eq!(img.read(0xA000_2000, 4), Some(77));
}

#[test]
fn signed_byte_load_extends() {
    let mut code = vec![
        LUI_X5_OUTPUT,
        0xfff0_0313,
        (6 << 20) | (5 << 15) | (4 << 7) | 0x23,
        (4 << 20) | (5 << 15) | (10 << 7) | 0x03,
    ];
    finish(&mut code);
    let mut img = image(code);
    let r = run(&mut img, MachineState::new(CODE_BASE), genesis(), &config(None));
    assert_eq!(r.result, ExecutionResult::Halt(0xffff_ffff, 6));
    assert_eq!(img.read(0xA000_2004, 1), Some(0xff));
}

#[test]
fn unmapped_and_unaligned_accesses_fault() {
    let mut img = image(vec![(5 << 15) | (2 << 12) | (10 << 7) | 0x03]);
    let r = run(&mut img, MachineState::new(CODE_BASE), genesis(), &config(None));
    assert_eq!(r.result, ExecutionResult::Fault(0, Fault::MemoryAccess(0)));
    let mut img = image(vec![LUI_X5_OUTPUT, (1 << 20) | (5 << 15) | (2 << 12) | (10 << 7) | 0x03]);
    let r = run(&mut img, MachineState::new(CODE_BASE), genesis(), &config(None));
    assert_eq!(r.result, ExecutionResult::Fault(1, Fault::MemoryAccess(0xA000_2001)));
}

#[test]
fn illegal_word_is_a_decode_fault() {
    let mut img = image(vec![0xffff_ffff]);
    let r = run(&mut img, MachineState::new(CODE_BASE), genesis(), &config(None));
    assert_eq!(r.result, ExecutionResult::Fault(0, Fault::Decode(0xffff_ffff)));
}

#[test]
fn jump_outside_code_is_a_fetch_fault() {
    let mut img = image(vec![0x1000_006f]);
    let r = run(&mut img, MachineState::new(CODE_BASE), genesis(), &config(None));
    assert_eq!(r.result, ExecutionResult::Fault(1, Fault::Fetch(0x1100)));
}

#[test]
fn unknown_system_call_faults() {
    let mut img = image(vec![addi(17, 0, 1), 0x73]);
    let r = run(&mut img, MachineState::new(CODE_BASE), genesis(), &config(None));
    assert_eq!(r.result, ExecutionResult::Fault(1, Fault::Syscall(1)));
}

#[test]
fn halted_state_runs_nothing() {
    let mut img = image(exit_program(5));
    let mut st = MachineState::new(CODE_BASE);
    st.halted = true;
    let r = run(&mut img, st, genesis(), &config(None));
    assert_eq!(r.result, ExecutionResult::Fault(0, Fault::Halted));
    assert!(r.trace.is_empty());
}

#[test]
fn no_hash_mode_records_steps_without_hashes() {
    let mut img = image(exit_program(5));
    let r = run(&mut img, MachineState::new(CODE_BASE), genesis(), &no_fail(None, true, true));
    assert_eq!(r.result, ExecutionResult::Halt(5, 3));
    assert_eq!(r.trace.len(), 3);
    assert!(r.trace.iter().all(|e| e.state_hash.is_empty()));
    assert_eq!(r.hash, genesis());
}

#[test]
fn disabled_trace_records_nothing() {
    let mut img = image(exit_program(5));
    let r = run(&mut img, MachineState::new(CODE_BASE), genesis(), &no_fail(None, false, false));
    assert_eq!(r.result, ExecutionResult::Halt(5, 3));
    assert!(r.trace.is_empty());
}

#[test]
fn memory_fault_injection_changes_the_word() {
    let mut img = image(exit_program(5));
    let mut cfg = config(None);
    cfg.fail = FailConfiguration {
        enabled: true,
        target_step: Some(1),
        target: FaultTarget::Memory(0xA000_2000),
        corrupted_value: 0x55,
    };
    let r = run(&mut img, MachineState::new(CODE_BASE), genesis(), &cfg);
    assert_eq!(r.result, ExecutionResult::Halt(5, 3));
    assert_eq!(img.read(0xA000_2000, 4), Some(0x55));
}

#[test]
fn faulted_trace_diverges_at_the_target_step() {
    let mut clean = image(exit_program(5));
    let mut dirty = image(exit_program(5));
    let mut cfg = no_fail(None, true, false);
    cfg.verify = false;
    let a = run(&mut clean, MachineState::new(CODE_BASE), genesis(), &cfg);
    cfg.fail = FailConfiguration {
        enabled: true,
        target_step: Some(2),
        target: FaultTarget::Register(3),
        corrupted_value: 1,
    };
    let b = run(&mut dirty, MachineState::new(CODE_BASE), genesis(), &cfg);
    assert_eq!(a.trace[0].state_hash, b.trace[0].state_hash);
    assert_ne!(a.trace[1].state_hash, b.trace[1].state_hash);
    assert_ne!(a.trace[2].state_hash, b.trace[2].state_hash);
}

#[test]
fn checkpoint_resume_matches_uninterrupted_run() {
    let mut whole = image(exit_program(5));
    let full = run(&mut whole, MachineState::new(CODE_BASE), genesis(), &config(None));
    let mut img = image(exit_program(5));
    let first = run(&mut img, MachineState::new(CODE_BASE), genesis(), &config(Some(2)));
    assert_eq!(first.result, ExecutionResult::StepLimitReached(2));
    let cp = save(2, &first.state, &img, &first.hash);
    let (st, mut img2, h) = match load(cp) {
        Ok(x) => x,
        Err(e) => panic!("load failed: {:?}", e),
    };
    let rest = run(&mut img2, st, h, &config(None));
    assert_eq!(rest.result, full.result);
    assert_eq!(rest.hash, full.hash);
    assert_eq!(first.trace.len() + rest.trace.len(), full.trace.len());
    assert_eq!(rest.trace[0].state_hash, full.trace[2].state_hash);
}

fn load_error(cp: CheckpointState) -> CheckpointError {
    match load(cp) {
        Ok(_) => panic!("checkpoint unexpectedly accepted"),
        Err(e) => e,
    }
}

#[test]
fn checkpoint_errors_are_reported() {
    let img = image(exit_program(5));
    let st = MachineState::new(CODE_BASE);
    let mut cp = save(0, &st, &img, &genesis());
    cp.version = 2;
    assert_eq!(load_error(cp), CheckpointError::Version(2));
    let cp = save(4, &st, &img, &genesis());
    assert_eq!(load_error(cp), CheckpointError::StepMismatch);
    let cp = save(0, &st, &img, &vec![1, 2, 3]);
    assert_eq!(load_error(cp), CheckpointError::BadHash);
    let short = MachineState { registers: vec![0; 3], pc: CODE_BASE, step: 0, halted: false };
    let cp = save(0, &short, &img, &genesis());
    assert_eq!(load_error(cp), CheckpointError::BadRegisters);
}

#[test]
fn images_past_the_address_space_are_refused() {
    let r = ProgramImage::new(
        0xffff_fff0,
        vec![0; 8],
        Region { base: 0, data: vec![] },
        Region { base: 0, data: vec![] },
        Region { base: 0, data: vec![] },
    );
    assert_eq!(r.err(), Some(LoadError::CodeOutOfRange));
    let r = ProgramImage::new(
        0,
        vec![0; 4],
        Region { base: 0x100, data: vec![0; 4] },
        Region { base: 0x200, data: vec![0; 4] },
        Region { base: 0xffff_fff0, data: vec![0; 32] },
    );
    assert_eq!(r.err(), Some(LoadError::RegionOutOfRange(RegionId::Ram)));
}

#[test]
fn verifier_rejects_a_tampered_destination() {
    let img = image(exit_program(5));
    let pre = MachineState::new(CODE_BASE);
    let mut post = MachineState::new(CODE_BASE + 4);
    post.registers[10] = 5;
    post.step = 1;
    let i = Instr::OpImm { op: AluOp::Add, rd: 10, rs1: 0, imm: 5 };
    assert!(verify(i, &pre, &post, &img));
    post.registers[10] = 6;
    assert!(!verify(i, &pre, &post, &img));
}

#[test]
fn trace_filter_keeps_selected_steps_and_the_chain() {
    let mut all = image(exit_program(5));
    let full = run(&mut all, MachineState::new(CODE_BASE), genesis(), &config(None));
    let mut img = image(exit_program(5));
    let mut cfg = config(None);
    cfg.trace_steps = Some(StepRange { first: 2, last: 2 });
    let r = run(&mut img, MachineState::new(CODE_BASE), genesis(), &cfg);
    assert_eq!(r.trace.len(), 1);
    assert_eq!(r.trace[0].step, 2);
    assert_eq!(r.trace[0].state_hash, full.trace[1].state_hash);
    assert_eq!(r.hash, full.hash);
}

#[test]
fn native_and_script_agree_on_random_operands() {
    let ops = [
        AluOp::Add, AluOp::Sub, AluOp::Sll, AluOp::Slt, AluOp::Sltu, AluOp::Xor, AluOp::Srl, AluOp::Sra,
        AluOp::Or, AluOp::And, AluOp::Mul, AluOp::Mulh, AluOp::Mulhsu, AluOp::Mulhu, AluOp::Div,
        AluOp::Divu, AluOp::Rem, AluOp::Remu,
    ];
    let mut seed: u64 = 0x2545_f491_4f6c_dd1d;
    let mut next = || {
        seed = seed.wrapping_mul(6364136223846793005).wrapping_add(1442695040888963407);
        (seed >> 32) as u32
    };
    for op in ops {
        for _ in 0..50 {
            let mut img = image(vec![0x13]);
            let mut st = MachineState::new(CODE_BASE);
            st.registers[1] = next();
            st.registers[2] = if next() % 8 == 0 { 0 } else { next() };
            let pre = st.copy();
            let i = Instr::Op { op, rd: 3, rs1: 1, rs2: 2 };
            assert_eq!(execute(i, &mut st, &mut img), Outcome::Next);
            assert!(verify(i, &pre, &st, &img));
        }
    }
}

fn sw(rs2: u32, rs1: u32, off: u32) -> u32 {
    ((off >> 5) << 25) | (rs2 << 20) | (rs1 << 15) | (2 << 12) | ((off & 31) << 7) | 0x23
}

#[test]
fn output_window_is_read_up_to_the_marker() {
    let mut code = vec![
        LUI_X5_OUTPUT,
        addi(6, 0, 11),
        sw(6, 5, 0),
        addi(6, 0, 22),
        sw(6, 5, 4),
        addi(6, 0, 33),
        sw(6, 5, 8),
        0xDEAD_C3B7,
        (0xEEF << 20) | (7 << 15) | (7 << 7) | 0x13,
        sw(7, 5, 12),
    ];
    finish(&mut code);
    let mut img = image(code);
    let r = run(&mut img, MachineState::new(CODE_BASE), genesis(), &config(None));
    assert_eq!(r.result, ExecutionResult::Halt(0, 12));
    assert_eq!(read_output(&img, 3), Some(vec![11, 22, 33]));
    assert_eq!(read_output(&img, 2), None);
}
