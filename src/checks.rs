//! Checks on attached funds and on how many purchases an owner holds.

use vstd::prelude::*;

use crate::error::{ContractError, ValidationReason};
use crate::state::{has_key, key_index, keys_unique, owner_count, Coin, Ledger};
use crate::{MAX_OPEN_PURCHASES, MAX_PURCHASE_AMOUNT};

verus! {

/// Outcome of the checks on the funds attached to a purchase.
pub open spec fn funds_check_spec(cost_denom: Seq<char>, funds: Seq<Coin>) -> Result<
    (),
    ContractError,
> {
    if funds.len() == 0 {
        Err(ContractError::Validation(ValidationReason::FundsEmpty))
    } else if funds.len() != 1 {
        Err(ContractError::Validation(ValidationReason::MoreThanOneCoin))
    } else if funds[0].denom@ != cost_denom {
        Err(ContractError::Validation(ValidationReason::WrongDenom))
    } else if funds[0].amount > MAX_PURCHASE_AMOUNT {
        Err(ContractError::Validation(ValidationReason::AboveMaxPurchase))
    } else {
        Ok(())
    }
}

/// Accepts exactly one coin, of the payment denomination, of at most the
/// maximum purchase amount.
pub fn purchase_funds_check(cost_denom: &String, funds: &[Coin]) -> (r: Result<(), ContractError>)
    ensures
        r == funds_check_spec(cost_denom@, funds@),
{
    if funds.len() == 0 {
        return Err(ContractError::Validation(ValidationReason::FundsEmpty));
    }
    if funds.len() != 1 {
        return Err(ContractError::Validation(ValidationReason::MoreThanOneCoin));
    }
    if funds[0].denom != *cost_denom {
        return Err(ContractError::Validation(ValidationReason::WrongDenom));
    }
    if funds[0].amount > MAX_PURCHASE_AMOUNT {
        return Err(ContractError::Validation(ValidationReason::AboveMaxPurchase));
    }
    Ok(())
}

/// Number of open purchases held by `wallet`.
pub fn count_purchases(wallet: &String, ledger: &Ledger) -> (n: usize)
    ensures
        n == owner_count(ledger@.purchases, wallet@),
{
    let ghost recs = ledger@.purchases;
    let mut n: usize = 0;
    let mut i: usize = 0;
    while i < ledger.purchases.len()
        invariant
            recs == ledger@.purchases,
            i <= ledger.purchases.len(),
            n <= i,
            n == owner_count(recs.take(i as int), wallet@),
        decreases ledger.purchases.len() - i,
    {
        assert(recs.take(i + 1).drop_last() =~= recs.take(i as int));
        if ledger.purchases[i].owner == *wallet {
            n = n + 1;
        }
        i = i + 1;
    }
    assert(recs.take(i as int) =~= recs);
    n
}

/// Refuses a new purchase when `wallet` already holds the maximum number of
/// open purchases.
pub fn amount_of_purchases_check(wallet: &String, ledger: &Ledger) -> (r: Result<
    (),
    ContractError,
>)
    ensures
        r == (if owner_count(ledger@.purchases, wallet@) >= MAX_OPEN_PURCHASES {
            Err(ContractError::Validation(ValidationReason::TooManyPurchases))
        } else {
            Ok(())
        }),
{
    if count_purchases(wallet, ledger) >= MAX_OPEN_PURCHASES {
        Err(ContractError::Validation(ValidationReason::TooManyPurchases))
    } else {
        Ok(())
    }
}

/// Position of the purchase filed under `(owner, uuid)`, if there is one.
pub fn find_purchase(ledger: &Ledger, owner: &String, uuid: u64) -> (r: Option<usize>)
    requires
        keys_unique(ledger@.purchases),
    ensures
        r is None <==> !has_key(ledger@.purchases, owner@, uuid),
        r matches Some(i) ==> i == key_index(ledger@.purchases, owner@, uuid),
{
    let ghost recs = ledger@.purchases;
    let mut i: usize = 0;
    while i < ledger.purchases.len()
        invariant
            recs == ledger@.purchases,
            keys_unique(recs),
            i <= ledger.purchases.len(),
            forall|j: int| 0 <= j < i ==> !(#[trigger] recs[j].owner == owner@ && recs[j].uuid == uuid),
        decreases ledger.purchases.len() - i,
    {
        if ledger.purchases[i].uuid == uuid && ledger.purchases[i].owner == *owner {
            assert(recs[i as int].owner == owner@ && recs[i as int].uuid == uuid);
            assert(has_key(recs, owner@, uuid));
            let ghost k = key_index(recs, owner@, uuid);
            assert(0 <= k < recs.len() && recs[k].owner == owner@ && recs[k].uuid == uuid);
            assert(k == i);
            return Some(i);
        }
        i = i + 1;
    }
    None
}

} // verus!
