//! Fixed-point rounding and the conversion of a payment into sold units.

use vstd::prelude::*;

use crate::error::{ArithmeticStep, ContractError, ValidationReason};

verus! {

/// Granularity to which prices and payments are quantized.
pub const ROUNDING_UNIT: u128 = 1000;

/// `ROUNDING_UNIT`-rounding "up": `((x + unit) / unit) * unit`.
///
/// On an exact multiple this adds a whole unit (1000 gives 2000); the formula
/// is kept as it is, since prices are always rounded this way.
pub open spec fn ceil_spec(x: int) -> int {
    ((x + ROUNDING_UNIT) / (ROUNDING_UNIT as int)) * ROUNDING_UNIT
}

/// `ROUNDING_UNIT`-rounding down: `(x / unit) * unit`.
pub open spec fn floor_spec(x: int) -> int {
    (x / (ROUNDING_UNIT as int)) * ROUNDING_UNIT
}

/// Rounds a price up to the rounding unit, as [`ceil_spec`] states; fails only
/// when `num + ROUNDING_UNIT` does not fit in 128 bits.
pub fn third_dec_ceil(num: u128) -> (r: Result<u128, ContractError>)
    ensures
        r == (if num + ROUNDING_UNIT > u128::MAX {
            Err(ContractError::ArithmeticOverflow(ArithmeticStep::RoundCeil))
        } else {
            Ok(ceil_spec(num as int) as u128)
        }),
{
    match num.checked_add(ROUNDING_UNIT) {
        None => Err(ContractError::ArithmeticOverflow(ArithmeticStep::RoundCeil)),
        Some(sum) => {
            let units: u128 = sum / ROUNDING_UNIT;
            assert(units * 1000 <= sum) by (nonlinear_arith)
                requires
                    units == sum / 1000,
            ;
            Ok(units * ROUNDING_UNIT)
        },
    }
}

/// Rounds an amount down to the rounding unit; this never fails.
pub fn third_dec_floor(num: u128) -> (r: Result<u128, ContractError>)
    ensures
        r == Ok::<u128, ContractError>(floor_spec(num as int) as u128),
{
    let units: u128 = num / ROUNDING_UNIT;
    assert(units * 1000 <= num) by (nonlinear_arith)
        requires
            units == num / 1000,
    ;
    Ok(units * ROUNDING_UNIT)
}

/// Fixed-point unit of the conversion: one sold unit has six decimals.
pub const PRICE_SCALE: u128 = 1_000_000;

/// Relies on cosmwasm_std's `Uint128::checked_multiply_ratio`: `a * num / den`,
/// floored, computed through a 256-bit product; it fails when `den` is zero or
/// when the quotient does not fit in 128 bits.
#[verifier::external_body]
fn checked_multiply_ratio(a: u128, num: u128, den: u128) -> (r: Option<u128>)
    ensures
        r == (if den == 0 || (a as int) * (num as int) / (den as int) > u128::MAX {
            None::<u128>
        } else {
            Some(((a as int) * (num as int) / (den as int)) as u128)
        }),
{
    match cosmwasm_std::Uint128::new(a).checked_multiply_ratio(num, den) {
        Ok(v) => Some(v.u128()),
        Err(_) => None,
    }
}

/// Amount of the sold asset bought by `funds` at `base_rate` (payment units per
/// sold unit), with a bonus of `discount` percent.
pub open spec fn juno_amt_spec(discount: u128, base_rate: u128, funds: u128) -> Result<
    u128,
    ContractError,
> {
    if funds % ROUNDING_UNIT != 0 {
        Err(ContractError::Validation(ValidationReason::NotRounded))
    } else if base_rate + ROUNDING_UNIT > u128::MAX {
        Err(ContractError::ArithmeticOverflow(ArithmeticStep::RoundCeil))
    } else {
        let before = PRICE_SCALE * floor_spec(funds as int) / ceil_spec(base_rate as int);
        if before > u128::MAX {
            Err(ContractError::ArithmeticOverflow(ArithmeticStep::BeforeDiscount))
        } else if 100 + discount > u128::MAX || before * (100 + discount) / 100 > u128::MAX {
            Err(ContractError::ArithmeticOverflow(ArithmeticStep::AfterDiscount))
        } else {
            Ok((before * (100 + discount) / 100) as u128)
        }
    }
}

/// A rounded price is at least one rounding unit.
proof fn lemma_ceil_positive(x: int)
    requires
        x >= 0,
    ensures
        ceil_spec(x) >= ROUNDING_UNIT,
{
    assert(((x + 1000) / 1000) * 1000 >= 1000) by (nonlinear_arith)
        requires
            x >= 0,
    ;
}

/// Converts a payment into the sold asset: the payment must be a multiple of
/// the rounding unit, the rate is rounded up, and `discount` percent is added.
pub fn calc_juno_amt(discount: u128, base_rate: u128, user_funds: u128) -> (r: Result<
    u128,
    ContractError,
>)
    ensures
        r == juno_amt_spec(discount, base_rate, user_funds),
{
    if user_funds % ROUNDING_UNIT != 0 {
        return Err(ContractError::Validation(ValidationReason::NotRounded));
    }
    let rounded_price = match third_dec_ceil(base_rate) {
        Ok(p) => p,
        Err(e) => return Err(e),
    };
    let floored_funds = match third_dec_floor(user_funds) {
        Ok(f) => f,
        Err(e) => return Err(e),
    };
    proof {
        lemma_ceil_positive(base_rate as int);
    }
    let before_discount = match checked_multiply_ratio(PRICE_SCALE, floored_funds, rounded_price) {
        Some(b) => b,
        None => return Err(ContractError::ArithmeticOverflow(ArithmeticStep::BeforeDiscount)),
    };
    let bonus = match discount.checked_add(100) {
        Some(b) => b,
        None => return Err(ContractError::ArithmeticOverflow(ArithmeticStep::AfterDiscount)),
    };
    match checked_multiply_ratio(before_discount, bonus, 100) {
        Some(a) => Ok(a),
        None => Err(ContractError::ArithmeticOverflow(ArithmeticStep::AfterDiscount)),
    }
}

} // verus!
