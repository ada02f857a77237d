use cpbond::checks::{amount_of_purchases_check, purchase_funds_check};
use cpbond::contract::{execute_purchase, instantiate, add_sale_funds, resume_purchasing};
use cpbond::error::{ArithmeticStep, ContractError, ValidationReason};
use cpbond::math::{calc_juno_amt, third_dec_ceil, third_dec_floor};
use cpbond::msg::InstantiateMsg;
use cpbond::report::here;
use cpbond::state::{Coin, Purchase};
use cpbond::vesting::{calc_amt_vested, claim_vestable_checks};
use cpbond::{FAKE_PRICE, MAX_PURCHASE_AMOUNT};

fn purchase(period: u8, expiration: u64, amount: u128, claimed: u128, last: u64) -> Purchase {
    Purchase {
        vest_period: period,
        vest_expiration: expiration,
        amount_purchased: amount,
        already_claimed: claimed,
        last_claim: last,
    }
}

#[test]
fn ceil_adds_a_unit_to_exact_multiples() {
    assert_eq!(third_dec_ceil(1000), Ok(2000));
    assert_eq!(third_dec_ceil(0), Ok(1000));
    assert_eq!(third_dec_ceil(12_345_678), Ok(12_346_000));
    assert_eq!(third_dec_ceil(5_000_000), Ok(5_001_000));
    assert_eq!(third_dec_ceil(u128::MAX - 1000), Ok(u128::MAX - u128::MAX % 1000));
    assert_eq!(third_dec_ceil(u128::MAX - 999), Err(ContractError::ArithmeticOverflow(ArithmeticStep::RoundCeil)));
}

#[test]
fn floor_drops_the_remainder() {
    assert_eq!(third_dec_floor(12_345_678), Ok(12_345_000));
    assert_eq!(third_dec_floor(999), Ok(0));
    assert_eq!(third_dec_floor(200_000_000), Ok(200_000_000));
    assert_eq!(third_dec_floor(u128::MAX), Ok(u128::MAX - u128::MAX % 1000));
}

#[test]
fn round_trip_never_returns_the_input() {
    for x in [0u128, 1, 999, 1000, 1001, 12_345_678, 5_000_000] {
        let up = third_dec_ceil(x).unwrap();
        let back = third_dec_floor(up).unwrap();
        assert_eq!(back, up);
        assert!(back > x);
        assert!(back <= x + 1000);
    }
    assert_eq!(third_dec_floor(third_dec_ceil(1000).unwrap()), Ok(2000));
}

#[test]
fn conversion_with_discount() {
    let rounded_rate = third_dec_ceil(5_000_000).unwrap();
    let floored = third_dec_floor(200_000_000).unwrap();
    assert_eq!(rounded_rate, 5_001_000);
    assert_eq!(floored, 200_000_000);
    let before_discount = 1_000_000 * floored / rounded_rate;
    assert_eq!(before_discount, 39_992_001);
    assert_eq!(calc_juno_amt(0, 5_000_000, 200_000_000), Ok(39_992_001));
    assert_eq!(calc_juno_amt(10, 5_000_000, 200_000_000), Ok(43_991_201));
    assert_eq!(calc_juno_amt(10, FAKE_PRICE, 1_000_000), Ok(219_956));
    assert_eq!(calc_juno_amt(52, FAKE_PRICE, MAX_PURCHASE_AMOUNT), Ok(151_969_604));
}

#[test]
fn conversion_errors() {
    assert_eq!(calc_juno_amt(10, 5_000_000, 100_000_900), Err(ContractError::Validation(ValidationReason::NotRounded)));
    assert_eq!(calc_juno_amt(10, u128::MAX, 1000), Err(ContractError::ArithmeticOverflow(ArithmeticStep::RoundCeil)));
    let big = u128::MAX - u128::MAX % 1000;
    assert_eq!(calc_juno_amt(0, 0, big), Err(ContractError::ArithmeticOverflow(ArithmeticStep::BeforeDiscount)));
    assert_eq!(calc_juno_amt(u128::MAX, 5_000_000, 1000), Err(ContractError::ArithmeticOverflow(ArithmeticStep::AfterDiscount)));
    assert_eq!(calc_juno_amt(u128::MAX - 100, 0, 1000), Err(ContractError::ArithmeticOverflow(ArithmeticStep::AfterDiscount)));
}

#[test]
fn half_window_claim_truncates_per_block() {
    // 1_100_000 over 10 weeks of 100_000 blocks vests 1 per block
    let p = purchase(10, 1_012_345, 1_100_000, 0, 12_345);
    assert_eq!(calc_amt_vested(&p, 12_345 + 500_000), Ok((500_000, false)));
    // with no truncation, half the window releases half the purchase
    let q = purchase(10, 1_012_345, 2_000_000, 0, 12_345);
    assert_eq!(calc_amt_vested(&q, 12_345 + 500_000), Ok((1_000_000, false)));
}

#[test]
fn mature_claim_releases_the_rest() {
    let p = purchase(10, 1_012_345, 1_100_000, 500_000, 512_345);
    assert_eq!(calc_amt_vested(&p, 1_012_345), Ok((600_000, true)));
    assert_eq!(calc_amt_vested(&p, 2_000_000), Ok((600_000, true)));
}

#[test]
fn vesting_errors() {
    let over = purchase(10, 100, 10, 11, 0);
    assert_eq!(calc_amt_vested(&over, 50), Err(ContractError::ArithmeticOverflow(ArithmeticStep::AmountLeft)));
    let done = purchase(10, 100, 10, 10, 0);
    assert_eq!(calc_amt_vested(&done, 100), Err(ContractError::AlreadyFullyVested));
    let zero = purchase(0, 100, 10, 0, 0);
    assert_eq!(calc_amt_vested(&zero, 50), Err(ContractError::ArithmeticOverflow(ArithmeticStep::VestPerBlock)));
    let p = purchase(1, 100, 1_000_000, 0, 40);
    assert_eq!(calc_amt_vested(&p, 40), Err(ContractError::TimingViolation));
    assert_eq!(calc_amt_vested(&p, 30), Err(ContractError::TimingViolation));
    let huge = purchase(1, u64::MAX, u128::MAX, 0, 0);
    assert_eq!(calc_amt_vested(&huge, u64::MAX - 1), Err(ContractError::ArithmeticOverflow(ArithmeticStep::ClaimAmount)));
}

#[test]
fn claim_checks() {
    assert_eq!(claim_vestable_checks(&purchase(1, 100, 10, 10, 0), 50), Err(ContractError::AlreadyFullyVested));
    assert_eq!(claim_vestable_checks(&purchase(1, 100, 10, 0, 50), 50), Err(ContractError::TimingViolation));
    assert_eq!(claim_vestable_checks(&purchase(1, 100, 10, 0, 50), 51), Ok(()));
}

#[test]
fn funds_checks() {
    let usdc = "usdcx".to_string();
    let c = |amount: u128, denom: &str| Coin { denom: denom.to_string(), amount };
    assert_eq!(purchase_funds_check(&usdc, &[]), Err(ContractError::Validation(ValidationReason::FundsEmpty)));
    assert_eq!(purchase_funds_check(&usdc, &[c(1, "usdcx"), c(1, "usdcx")]), Err(ContractError::Validation(ValidationReason::MoreThanOneCoin)));
    assert_eq!(purchase_funds_check(&usdc, &[c(1, "fakex")]), Err(ContractError::Validation(ValidationReason::WrongDenom)));
    assert_eq!(purchase_funds_check(&usdc, &[c(MAX_PURCHASE_AMOUNT + 1, "usdcx")]), Err(ContractError::Validation(ValidationReason::AboveMaxPurchase)));
    assert_eq!(purchase_funds_check(&usdc, &[c(MAX_PURCHASE_AMOUNT, "usdcx")]), Ok(()));
}

#[test]
fn purchase_count_check() {
    let admin = "admin".to_string();
    let msg = InstantiateMsg {
        admin: None,
        beingsold_denom: "ujunox".to_string(),
        cost_denom: "usdcx".to_string(),
    };
    let mut ledger = instantiate(&admin, msg);
    resume_purchasing(&mut ledger, &admin).unwrap();
    add_sale_funds(&mut ledger, &admin, &[Coin { denom: "usdcx".to_string(), amount: 1_000_000_000 }]).unwrap();
    let john = "john".to_string();
    for _ in 0..4 {
        execute_purchase(&mut ledger, 1, &john, &[Coin { denom: "usdcx".to_string(), amount: 1_000_000 }], 1).unwrap();
    }
    assert_eq!(amount_of_purchases_check(&john, &ledger), Ok(()));
    execute_purchase(&mut ledger, 1, &john, &[Coin { denom: "usdcx".to_string(), amount: 1_000_000 }], 1).unwrap();
    assert_eq!(amount_of_purchases_check(&john, &ledger), Err(ContractError::Validation(ValidationReason::TooManyPurchases)));
    assert_eq!(amount_of_purchases_check(&"sam".to_string(), &ledger), Ok(()));
}

#[test]
fn here_frames_the_context() {
    assert_eq!(
        here("Vest a purchase", 312, 5),
        "~~~~~~~~~~~~~~~~~~~ \n \n Vest a purchase \n line 312 | column 5 \n ________________________"
    );
    assert_eq!(
        here("", 0, 4_294_967_295),
        "~~~~~~~~~~~~~~~~~~~ \n \n  \n line 0 | column 4294967295 \n ________________________"
    );
}
