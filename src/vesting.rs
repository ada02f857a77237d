//! How much of a purchase can be released at a given height.

use vstd::prelude::*;

use crate::error::{ArithmeticStep, ContractError};
use crate::state::Purchase;
use crate::BLOCKS_IN_WEEK;

verus! {

/// Amount that vests per block: the purchase spread over its vesting blocks,
/// truncated (the remainder is released at maturity).
pub open spec fn vest_per_block(p: Purchase) -> int {
    if p.vest_period == 0 {
        0
    } else {
        p.amount_purchased as int / (BLOCKS_IN_WEEK * p.vest_period) as int
    }
}

/// What a claim at `height` releases, and whether the purchase is then done.
pub open spec fn vested_spec(p: Purchase, height: u64) -> Result<(u128, bool), ContractError> {
    if p.already_claimed > p.amount_purchased {
        Err(ContractError::ArithmeticOverflow(ArithmeticStep::AmountLeft))
    } else if height >= p.vest_expiration {
        if p.amount_purchased == p.already_claimed {
            Err(ContractError::AlreadyFullyVested)
        } else {
            Ok(((p.amount_purchased - p.already_claimed) as u128, true))
        }
    } else if p.vest_period == 0 {
        Err(ContractError::ArithmeticOverflow(ArithmeticStep::VestPerBlock))
    } else if height <= p.last_claim {
        Err(ContractError::TimingViolation)
    } else if (height - p.last_claim) * vest_per_block(p) > u128::MAX {
        Err(ContractError::ArithmeticOverflow(ArithmeticStep::ClaimAmount))
    } else {
        Ok((((height - p.last_claim) * vest_per_block(p)) as u128, false))
    }
}

/// The checks made before a claim.
pub open spec fn claim_checks_spec(p: Purchase, height: u64) -> Result<(), ContractError> {
    if p.already_claimed >= p.amount_purchased {
        Err(ContractError::AlreadyFullyVested)
    } else if height <= p.last_claim {
        Err(ContractError::TimingViolation)
    } else {
        Ok(())
    }
}

/// Refuses a claim on a purchase with nothing left, or at a height that is not
/// past the last claim.
pub fn claim_vestable_checks(purchase: &Purchase, current_block: u64) -> (r: Result<
    (),
    ContractError,
>)
    ensures
        r == claim_checks_spec(*purchase, current_block),
{
    if purchase.already_claimed >= purchase.amount_purchased {
        return Err(ContractError::AlreadyFullyVested);
    }
    if current_block <= purchase.last_claim {
        return Err(ContractError::TimingViolation);
    }
    Ok(())
}

/// Computes what a claim at `current_block` releases: everything left once the
/// purchase has matured (and `true`, the purchase is done), otherwise the
/// blocks since the last claim times the amount vested per block.
pub fn calc_amt_vested(purchase: &Purchase, current_block: u64) -> (r: Result<
    (u128, bool),
    ContractError,
>)
    ensures
        r == vested_spec(*purchase, current_block),
{
    let amount_left = match purchase.amount_purchased.checked_sub(purchase.already_claimed) {
        Some(a) => a,
        None => return Err(ContractError::ArithmeticOverflow(ArithmeticStep::AmountLeft)),
    };
    if current_block >= purchase.vest_expiration {
        if amount_left == 0 {
            return Err(ContractError::AlreadyFullyVested);
        } else {
            return Ok((amount_left, true));
        }
    }
    let total_blocks: u128 = BLOCKS_IN_WEEK * (purchase.vest_period as u128);
    if total_blocks == 0 {
        return Err(ContractError::ArithmeticOverflow(ArithmeticStep::VestPerBlock));
    }
    let vest_per_block: u128 = purchase.amount_purchased / total_blocks;
    let blocks_to_claim_for: u64 = current_block.saturating_sub(purchase.last_claim);
    if blocks_to_claim_for == 0 {
        return Err(ContractError::TimingViolation);
    }
    match (blocks_to_claim_for as u128).checked_mul(vest_per_block) {
        Some(claim_amount) => Ok((claim_amount, false)),
        None => Err(ContractError::ArithmeticOverflow(ArithmeticStep::ClaimAmount)),
    }
}

} // verus!
