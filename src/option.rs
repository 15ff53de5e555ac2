use vstd::prelude::*;

verus! {

/// Kind of a one-way option.
#[derive(Clone, Copy, Debug, PartialEq, Eq, Structural)]
pub enum OptionType {
    Call,
    Put,
}

impl OptionType {
    pub open spec fn spec_tag(self) -> u32 {
        match self {
            OptionType::Call => 1,
            OptionType::Put => 2,
        }
    }

    /// The numeric tag under which the kind is stored in guest memory.
    pub fn tag(self) -> (r: u32)
        ensures
            r == self.spec_tag(),
    {
        match self {
            OptionType::Call => 1,
            OptionType::Put => 2,
        }
    }
}

/// Terms of an option contract; prices in cents, size in satoshi.
#[derive(Clone, Copy, Debug, PartialEq, Eq, Structural)]
pub struct OptionContract {
    pub option_type: OptionType,
    pub current_price: u32,
    pub strike_price: u32,
    pub contract_size: u32,
    pub premium_paid: u32,
    pub expiry_timestamp: u32,
}

/// Outcome of settling a contract.
#[derive(Clone, Copy, Debug, PartialEq, Eq, Structural)]
pub struct SettlementResult {
    pub settlement_amount: u32,
    pub profit_loss: u32,
    pub is_in_money: u32,
    pub option_type: u32,
    pub intrinsic_value: u32,
    pub execution_status: u32,
}

/// Intrinsic value converted to satoshi at the current price, truncated to 32 bits.
pub open spec fn settlement_of(intrinsic: u32, size: u32, price: u32) -> u32 {
    ((intrinsic as int * size as int) / price as int) as u32
}

/// Settlement of a contract whose payoff is `gain` when `in_money` holds.
pub open spec fn settle(kind: OptionType, in_money: bool, gain: u32, c: OptionContract) -> SettlementResult {
    if in_money {
        SettlementResult {
            settlement_amount: settlement_of(gain, c.contract_size, c.current_price),
            profit_loss: gain,
            is_in_money: 1,
            option_type: kind.spec_tag(),
            intrinsic_value: gain,
            execution_status: 0,
        }
    } else {
        SettlementResult {
            settlement_amount: 0,
            profit_loss: 0,
            is_in_money: 0,
            option_type: kind.spec_tag(),
            intrinsic_value: 0,
            execution_status: 0,
        }
    }
}

pub open spec fn call_spec(c: OptionContract) -> SettlementResult {
    settle(
        OptionType::Call,
        c.current_price > c.strike_price,
        (c.current_price - c.strike_price) as u32,
        c,
    )
}

pub open spec fn put_spec(c: OptionContract) -> SettlementResult {
    settle(
        OptionType::Put,
        c.strike_price > c.current_price,
        (c.strike_price - c.current_price) as u32,
        c,
    )
}

fn settlement_amount(intrinsic: u32, size: u32, price: u32) -> (r: u32)
    requires
        price > 0,
    ensures
        r == settlement_of(intrinsic, size, price),
{
    assert(intrinsic as int * size as int <= 0xffff_ffffint * 0xffff_ffffint) by (nonlinear_arith)
        requires
            0 <= intrinsic <= 0xffff_ffff,
            0 <= size <= 0xffff_ffff,
    ;
    let prod: u64 = intrinsic as u64 * size as u64;
    let q: u64 = prod / price as u64;
    #[verifier::truncate]
    (q as u32)
}

/// Settles a call: in the money when the current price is above the strike.
pub fn calculate_call_option(contract: &OptionContract) -> (r: SettlementResult)
    ensures
        r == call_spec(*contract),
{
    let mut result = SettlementResult {
        settlement_amount: 0,
        profit_loss: 0,
        is_in_money: 0,
        option_type: OptionType::Call.tag(),
        intrinsic_value: 0,
        execution_status: 0,
    };
    if contract.current_price > contract.strike_price {
        result.is_in_money = 1;
        result.intrinsic_value = contract.current_price - contract.strike_price;
        result.settlement_amount = settlement_amount(
            result.intrinsic_value,
            contract.contract_size,
            contract.current_price,
        );
        result.profit_loss = result.intrinsic_value;
    }
    result
}

/// Settles a put: in the money when the strike is above the current price.
/// A put in the money at a current price of zero has no settlement.
pub fn calculate_put_option(contract: &OptionContract) -> (r: SettlementResult)
    requires
        contract.strike_price > contract.current_price ==> contract.current_price > 0,
    ensures
        r == put_spec(*contract),
{
    let mut result = SettlementResult {
        settlement_amount: 0,
        profit_loss: 0,
        is_in_money: 0,
        option_type: OptionType::Put.tag(),
        intrinsic_value: 0,
        execution_status: 0,
    };
    if contract.strike_price > contract.current_price {
        result.is_in_money = 1;
        result.intrinsic_value = contract.strike_price - contract.current_price;
        result.settlement_amount = settlement_amount(
            result.intrinsic_value,
            contract.contract_size,
            contract.current_price,
        );
        result.profit_loss = result.intrinsic_value;
    }
    result
}

/// Settles a contract according to its kind.
pub fn execute_option_settlement(contract: &OptionContract) -> (r: SettlementResult)
    requires
        contract.option_type == OptionType::Put && contract.strike_price > contract.current_price
            ==> contract.current_price > 0,
    ensures
        r == match contract.option_type {
            OptionType::Call => call_spec(*contract),
            OptionType::Put => put_spec(*contract),
        },
{
    match contract.option_type {
        OptionType::Call => calculate_call_option(contract),
        OptionType::Put => calculate_put_option(contract),
    }
}

/// The sample workload: settles a bull-market call and a bear-market put on
/// one bitcoin and returns the call's settlement.
pub fn main_calculation() -> (r: SettlementResult)
    ensures
        r.settlement_amount == 6666666,
        r.profit_loss == 300000,
        r.is_in_money == 1,
        r.option_type == 1,
        r.intrinsic_value == 300000,
        r.execution_status == 0,
{
    let call_contract = OptionContract {
        option_type: OptionType::Call,
        current_price: 4500000,
        strike_price: 4200000,
        contract_size: 100000000,
        premium_paid: 300000,
        expiry_timestamp: 1640995200,
    };
    let put_contract = OptionContract {
        option_type: OptionType::Put,
        current_price: 3800000,
        strike_price: 4200000,
        contract_size: 100000000,
        premium_paid: 400000,
        expiry_timestamp: 1640995200,
    };
    let call_result = execute_option_settlement(&call_contract);
    let _put_result = execute_option_settlement(&put_contract);
    assert(300000int * 100000000int == 30000000000000int) by (nonlinear_arith);
    assert(30000000000000int / 4500000int == 6666666int) by (nonlinear_arith);
    call_result
}

} // verus!
