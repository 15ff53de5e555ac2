use rvtrace::alu::{alu, branch_taken};
use rvtrace::decode::{decode, AluOp, BranchOp, Instr, Width};
use rvtrace::option::{calculate_call_option, calculate_put_option, execute_option_settlement, main_calculation};
use rvtrace::sample::{input_or_default, my_core_calculation, CalculationResult};
use rvtrace::script::{eval, ScriptOp};
use rvtrace::trace::{genesis, record, to_hex};
use rvtrace::machine::MachineState;
use rvtrace::{max, min, safe_div, OptionContract, OptionType};

#[test]
fn max_min_pick_the_right_value() {
    assert_eq!(max(3, 9), 9);
    assert_eq!(max(9, 3), 9);
    assert_eq!(min(3, 9), 3);
    assert_eq!(min(7, 7), 7);
}

#[test]
fn safe_div_by_zero_is_zero() {
    assert_eq!(safe_div(10, 0), 0);
    assert_eq!(safe_div(10, 3), 3);
}

fn contract(kind: OptionType, current: u32, strike: u32) -> OptionContract {
    OptionContract {
        option_type: kind,
        current_price: current,
        strike_price: strike,
        contract_size: 100_000_000,
        premium_paid: 300_000,
        expiry_timestamp: 1_640_995_200,
    }
}

#[test]
fn call_in_the_money_settles() {
    let r = calculate_call_option(&contract(OptionType::Call, 4_500_000, 4_200_000));
    assert_eq!(r.settlement_amount, 6_666_666);
    assert_eq!(r.profit_loss, 300_000);
    assert_eq!(r.is_in_money, 1);
    assert_eq!(r.option_type, 1);
    assert_eq!(r.intrinsic_value, 300_000);
    assert_eq!(r.execution_status, 0);
}

#[test]
fn call_out_of_the_money_is_zero() {
    let r = calculate_call_option(&contract(OptionType::Call, 4_200_000, 4_200_000));
    assert_eq!(r.is_in_money, 0);
    assert_eq!(r.settlement_amount, 0);
    assert_eq!(r.option_type, 1);
}

#[test]
fn put_in_the_money_settles() {
    let r = calculate_put_option(&contract(OptionType::Put, 3_800_000, 4_200_000));
    assert_eq!(r.intrinsic_value, 400_000);
    assert_eq!(r.settlement_amount, 10_526_315);
    assert_eq!(r.option_type, 2);
    let r2 = execute_option_settlement(&contract(OptionType::Put, 3_800_000, 4_200_000));
    assert_eq!(r, r2);
}

#[test]
fn sample_settlement_output_values() {
    let r = main_calculation();
    assert_eq!(r.settlement_amount, 6_666_666);
    assert_eq!(r.profit_loss, 300_000);
    assert_eq!(r.is_in_money, 1);
    assert_eq!(r.option_type, 1);
}

#[test]
fn core_calculation_values() {
    assert_eq!(my_core_calculation(123, 456), 56_130);
    assert_eq!(my_core_calculation(2_000_000, 3), 3_000_021);
    assert_eq!(my_core_calculation(70_000, 70_000), 605_032_746);
    assert_eq!(input_or_default(0, 0), (123, 456));
    assert_eq!(input_or_default(0, 5), (0, 5));
    assert_eq!(
        rvtrace::sample::main_calculation(0, 0),
        CalculationResult { result_value: 56_130, input_hash: 0xd778_4d6b, status_code: 0, checksum: 0xe9ad_7f25 }
    );
}

#[test]
fn decodes_immediates_and_registers() {
    assert_eq!(decode(0x0050_0513), Some(Instr::OpImm { op: AluOp::Add, rd: 10, rs1: 0, imm: 5 }));
    assert_eq!(decode(0xfff0_0093), Some(Instr::OpImm { op: AluOp::Add, rd: 1, rs1: 0, imm: 0xffff_ffff }));
    assert_eq!(decode(0xfe00_0ee3), Some(Instr::Branch { op: BranchOp::Eq, rs1: 0, rs2: 0, offset: 0xffff_fffc }));
    assert_eq!(decode(0x0020_9463), Some(Instr::Branch { op: BranchOp::Ne, rs1: 1, rs2: 2, offset: 8 }));
    assert_eq!(decode(0xff9f_f0ef), Some(Instr::Jal { rd: 1, offset: 0xffff_fff8 }));
    assert_eq!(decode(0x1000_006f), Some(Instr::Jal { rd: 0, offset: 0x100 }));
    assert_eq!(decode(0xfe20_ae23), Some(Instr::Store { width: Width::Word, rs1: 1, rs2: 2, offset: 0xffff_fffc }));
    assert_eq!(decode(0x1234_5537), Some(Instr::Lui { rd: 10, imm: 0x1234_5000 }));
    assert_eq!(decode(0x0000_0073), Some(Instr::Ecall));
    assert_eq!(decode(0x0220_81b3), Some(Instr::Op { op: AluOp::Mul, rd: 3, rs1: 1, rs2: 2 }));
    assert_eq!(decode(0x4020_81b3), Some(Instr::Op { op: AluOp::Sub, rd: 3, rs1: 1, rs2: 2 }));
    assert_eq!(decode(0xffff_ffff), None);
    assert_eq!(decode(0), None);
}

#[test]
fn alu_operations_wrap_and_follow_signedness() {
    assert_eq!(alu(AluOp::Add, 0xffff_ffff, 2), 1);
    assert_eq!(alu(AluOp::Sub, 1, 2), 0xffff_ffff);
    assert_eq!(alu(AluOp::Sll, 1, 33), 2);
    assert_eq!(alu(AluOp::Srl, 0x8000_0000, 31), 1);
    assert_eq!(alu(AluOp::Sra, 0x8000_0000, 31), 0xffff_ffff);
    assert_eq!(alu(AluOp::Slt, 0xffff_ffff, 0), 1);
    assert_eq!(alu(AluOp::Sltu, 0xffff_ffff, 0), 0);
    assert_eq!(alu(AluOp::Mul, 0x1_0000, 0x1_0000), 0);
    assert_eq!(alu(AluOp::Mulh, 0xffff_ffff, 0xffff_ffff), 0);
    assert_eq!(alu(AluOp::Mulh, 0x8000_0000, 2), 0xffff_ffff);
    assert_eq!(alu(AluOp::Mulhsu, 0xffff_ffff, 0xffff_ffff), 0xffff_ffff);
    assert_eq!(alu(AluOp::Mulhu, 0xffff_ffff, 0xffff_ffff), 0xffff_fffe);
    assert_eq!(alu(AluOp::Div, (-7i32) as u32, 2), (-3i32) as u32);
    assert_eq!(alu(AluOp::Rem, (-7i32) as u32, 2), (-1i32) as u32);
    assert_eq!(alu(AluOp::Div, 5, 0), 0xffff_ffff);
    assert_eq!(alu(AluOp::Rem, 5, 0), 5);
    assert_eq!(alu(AluOp::Div, 0x8000_0000, 0xffff_ffff), 0x8000_0000);
    assert_eq!(alu(AluOp::Rem, 0x8000_0000, 0xffff_ffff), 0);
    assert_eq!(alu(AluOp::Divu, 7, 2), 3);
    assert_eq!(alu(AluOp::Remu, 7, 0), 7);
    assert!(branch_taken(BranchOp::Lt, 0xffff_ffff, 0));
    assert!(!branch_taken(BranchOp::Ltu, 0xffff_ffff, 0));
    assert!(branch_taken(BranchOp::Geu, 5, 5));
}

#[test]
fn scripts_evaluate_on_a_stack() {
    let s = vec![ScriptOp::Push(6), ScriptOp::Push(7), ScriptOp::Arith(AluOp::Mul)];
    assert_eq!(eval(&s), Some(42));
    let sel = vec![ScriptOp::Push(10), ScriptOp::Push(20), ScriptOp::Push(0), ScriptOp::Select];
    assert_eq!(eval(&sel), Some(20));
    assert_eq!(eval(&vec![ScriptOp::Arith(AluOp::Add)]), None);
    assert_eq!(eval(&vec![ScriptOp::Push(1), ScriptOp::Push(2)]), None);
}

#[test]
fn hashes_render_as_hex() {
    assert_eq!(to_hex(&vec![0xab, 0x01]), b"ab01".to_vec());
    let g = genesis();
    assert_eq!(g, vec![0u8; 20]);
    assert_eq!(to_hex(&g).len(), 40);
}

#[test]
fn record_chains_sha1_over_prior_hash_and_state() {
    let mut st = MachineState::new(0x1000);
    st.step = 1;
    let (h, entry) = record(&genesis(), &st);
    assert_eq!(String::from_utf8(to_hex(&h)).unwrap(), "cd6b19eb6220ba71c9ecdf88858df8f3bca78721");
    assert_eq!(entry.step, 1);
    assert_eq!(entry.state_hash, h);
}
