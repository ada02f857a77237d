//! The operations on the ledger, each committing all of its effects or none.

use vstd::prelude::*;

use crate::checks::{
    amount_of_purchases_check, find_purchase, funds_check_spec, purchase_funds_check,
};
use crate::error::{ArithmeticStep, ContractError, ValidationReason};
use crate::laws::{lemma_claim_preserves_wf, lemma_partial_claim_wf, lemma_purchase_preserves_wf};
use crate::math::{calc_juno_amt, juno_amt_spec};
use crate::msg::{ExecuteMsg, InstantiateMsg};
use crate::state::{
    has_key, key_index, owner_count, purchase_wf, Coin, Config, ConfigView, Ledger, LedgerView,
    Purchase, PurchaseEntry, Record,
};
use crate::vesting::{calc_amt_vested, claim_checks_spec, claim_vestable_checks, vested_spec};
use crate::{BLOCKS_IN_WEEK, FAKE_PRICE, MAX_OPEN_PURCHASES, MAX_VEST};

verus! {

/// The ledger as created: paused, with nothing to sell, and ids starting at 1.
pub open spec fn instantiate_spec(sender: Seq<char>, msg: InstantiateMsg) -> LedgerView {
    LedgerView {
        config: ConfigView {
            admin: match msg.admin {
                Some(a) => a@,
                None => sender,
            },
            beingsold_denom: msg.beingsold_denom@,
            cost_denom: msg.cost_denom@,
        },
        paused: true,
        balance: 0,
        purchase_count: 1,
        purchases: Seq::empty(),
    }
}

/// Sets the pause flag to `paused`, for the administrator only.
pub open spec fn set_paused_spec(l: LedgerView, sender: Seq<char>, paused: bool) -> Result<
    LedgerView,
    ContractError,
> {
    if sender != l.config.admin {
        Err(ContractError::Unauthorized)
    } else {
        Ok(LedgerView { paused, ..l })
    }
}

/// Credits one coin of the payment denomination to the available balance.
pub open spec fn add_funds_spec(l: LedgerView, funds: Seq<Coin>) -> Result<
    LedgerView,
    ContractError,
> {
    if funds.len() == 0 {
        Err(ContractError::Validation(ValidationReason::FundsEmpty))
    } else if funds.len() != 1 {
        Err(ContractError::Validation(ValidationReason::MoreThanOneCoin))
    } else if funds[0].denom@ != l.config.cost_denom {
        Err(ContractError::Validation(ValidationReason::WrongDenom))
    } else if l.balance + funds[0].amount > u128::MAX {
        Err(ContractError::ArithmeticOverflow(ArithmeticStep::BalanceAdd))
    } else {
        Ok(LedgerView { balance: (l.balance + funds[0].amount) as u128, ..l })
    }
}

/// The id after `c`: one more, except that `u64::MAX - 1` and above go back to 1.
pub open spec fn next_count(c: u64) -> u64 {
    if c >= u64::MAX - 1 {
        1
    } else {
        (c + 1) as u64
    }
}

/// Files `r` under its key, replacing a record already filed there.
pub open spec fn put_record(s: Seq<Record>, r: Record) -> Seq<Record> {
    if has_key(s, r.owner, r.uuid) {
        s.update(key_index(s, r.owner, r.uuid), r)
    } else {
        s.push(r)
    }
}

/// Block height at which a purchase made at `height` for `weeks` weeks matures.
pub open spec fn expiration_spec(height: u64, weeks: u128) -> int {
    height + weeks * BLOCKS_IN_WEEK
}

/// Amount of the sold asset that `funds` buy with a vesting period of `weeks`.
pub open spec fn sale_amount_spec(funds: Seq<Coin>, weeks: u128) -> Result<u128, ContractError> {
    juno_amt_spec(weeks, FAKE_PRICE, funds[0].amount)
}

/// A purchase by `owner` paying `funds`, vesting over `weeks` weeks from `height`.
pub open spec fn purchase_spec(
    l: LedgerView,
    owner: Seq<char>,
    funds: Seq<Coin>,
    weeks: u128,
    height: u64,
) -> Result<LedgerView, ContractError> {
    if l.paused {
        Err(ContractError::Validation(ValidationReason::PurchasingPaused))
    } else if weeks > MAX_VEST {
        Err(ContractError::Validation(ValidationReason::VestPeriodTooLong))
    } else if owner_count(l.purchases, owner) >= MAX_OPEN_PURCHASES {
        Err(ContractError::Validation(ValidationReason::TooManyPurchases))
    } else if funds_check_spec(l.config.cost_denom, funds) is Err {
        Err(funds_check_spec(l.config.cost_denom, funds)->Err_0)
    } else if expiration_spec(height, weeks) > u64::MAX {
        Err(ContractError::ArithmeticOverflow(ArithmeticStep::VestExpiration))
    } else {
        match sale_amount_spec(funds, weeks) {
            Err(e) => Err(e),
            Ok(sale) => if sale >= l.balance {
                Err(ContractError::InsufficientBalance)
            } else {
                let p = Purchase {
                    vest_period: weeks as u8,
                    vest_expiration: expiration_spec(height, weeks) as u64,
                    amount_purchased: sale,
                    already_claimed: 0,
                    last_claim: height,
                };
                Ok(
                    LedgerView {
                        balance: (l.balance - sale) as u128,
                        purchase_count: next_count(l.purchase_count),
                        purchases: put_record(
                            l.purchases,
                            Record { owner, uuid: l.purchase_count, purchase: p },
                        ),
                        ..l
                    },
                )
            },
        }
    }
}

/// A claim by `owner` on purchase `uuid` at `height`: the new ledger and the
/// amount released.
pub open spec fn claim_spec(l: LedgerView, owner: Seq<char>, uuid: u64, height: u64) -> Result<
    (LedgerView, u128),
    ContractError,
> {
    if !has_key(l.purchases, owner, uuid) {
        Err(ContractError::NotFound)
    } else {
        let i = key_index(l.purchases, owner, uuid);
        let p = l.purchases[i].purchase;
        if claim_checks_spec(p, height) is Err {
            Err(claim_checks_spec(p, height)->Err_0)
        } else {
            match vested_spec(p, height) {
                Err(e) => Err(e),
                Ok((amount, close)) => if close {
                    Ok((LedgerView { purchases: l.purchases.remove(i), ..l }, amount))
                } else {
                    let q = Purchase {
                        already_claimed: (p.already_claimed + amount) as u128,
                        last_claim: height,
                        ..p
                    };
                    Ok(
                        (
                            LedgerView {
                                purchases: l.purchases.update(i, Record { purchase: q, ..l.purchases[i] }),
                                ..l
                            },
                            amount,
                        ),
                    )
                },
            }
        }
    }
}

/// Creates the ledger: the administrator is the one named, else the caller.
pub fn instantiate(sender: &String, msg: InstantiateMsg) -> (l: Ledger)
    ensures
        l@ == instantiate_spec(sender@, msg),
        l.wf(),
{
    let admin = match msg.admin {
        Some(a) => a,
        None => sender.clone(),
    };
    let l = Ledger {
        config: Config { admin, beingsold_denom: msg.beingsold_denom, cost_denom: msg.cost_denom },
        paused: true,
        balance: 0,
        purchase_count: 1,
        purchases: Vec::new(),
    };
    assert(l@.purchases =~= Seq::<Record>::empty());
    assert(forall|o: Seq<char>| #[trigger] owner_count(l@.purchases, o) == 0);
    l
}

/// Stops purchases; only the administrator may, and doing it twice is no error.
pub fn pause_purchasing(ledger: &mut Ledger, sender: &String) -> (r: Result<(), ContractError>)
    requires
        old(ledger).wf(),
    ensures
        final(ledger).wf(),
        match set_paused_spec(old(ledger)@, sender@, true) {
            Ok(v) => r is Ok && final(ledger)@ == v,
            Err(e) => r == Err::<(), ContractError>(e) && *final(ledger) == *old(ledger),
        },
{
    if *sender != ledger.config.admin {
        return Err(ContractError::Unauthorized);
    }
    ledger.paused = true;
    Ok(())
}

/// Lets purchases through again; only the administrator may.
pub fn resume_purchasing(ledger: &mut Ledger, sender: &String) -> (r: Result<(), ContractError>)
    requires
        old(ledger).wf(),
    ensures
        final(ledger).wf(),
        match set_paused_spec(old(ledger)@, sender@, false) {
            Ok(v) => r is Ok && final(ledger)@ == v,
            Err(e) => r == Err::<(), ContractError>(e) && *final(ledger) == *old(ledger),
        },
{
    if *sender != ledger.config.admin {
        return Err(ContractError::Unauthorized);
    }
    ledger.paused = false;
    Ok(())
}

/// Credits one coin to the amount available for sale. The coin is checked
/// against the payment denomination, not the sold one, and deposits are not
/// restricted to the administrator: any caller may add funds.
pub fn add_sale_funds(ledger: &mut Ledger, _sender: &String, funds: &[Coin]) -> (r: Result<
    (),
    ContractError,
>)
    requires
        old(ledger).wf(),
    ensures
        final(ledger).wf(),
        match add_funds_spec(old(ledger)@, funds@) {
            Ok(v) => r is Ok && final(ledger)@ == v,
            Err(e) => r == Err::<(), ContractError>(e) && *final(ledger) == *old(ledger),
        },
{
    if funds.len() == 0 {
        return Err(ContractError::Validation(ValidationReason::FundsEmpty));
    }
    if funds.len() != 1 {
        return Err(ContractError::Validation(ValidationReason::MoreThanOneCoin));
    }
    if funds[0].denom != ledger.config.cost_denom {
        return Err(ContractError::Validation(ValidationReason::WrongDenom));
    }
    match ledger.balance.checked_add(funds[0].amount) {
        Some(b) => {
            ledger.balance = b;
            Ok(())
        },
        None => Err(ContractError::ArithmeticOverflow(ArithmeticStep::BalanceAdd)),
    }
}

/// Sells to `user_wallet` what `user_funds` buy, vesting over `vesting_period`
/// weeks from `height`. Refused while paused, above the maximum vesting period,
/// when the buyer already holds the maximum number of open purchases, on funds
/// that fail [`purchase_funds_check`], and when the sale amount is not below
/// the available balance: a sale of the whole balance is refused too. On
/// success the purchase is filed under the next id and the sale amount leaves
/// the available balance. Once the id counter has wrapped around, a purchase
/// whose id the same owner still holds replaces that older purchase.
pub fn execute_purchase(
    ledger: &mut Ledger,
    height: u64,
    user_wallet: &String,
    user_funds: &[Coin],
    vesting_period: u128,
) -> (r: Result<(), ContractError>)
    requires
        old(ledger).wf(),
    ensures
        final(ledger).wf(),
        match purchase_spec(old(ledger)@, user_wallet@, user_funds@, vesting_period, height) {
            Ok(v) => r is Ok && final(ledger)@ == v,
            Err(e) => r == Err::<(), ContractError>(e) && *final(ledger) == *old(ledger),
        },
{
    if ledger.paused {
        return Err(ContractError::Validation(ValidationReason::PurchasingPaused));
    }
    if vesting_period > MAX_VEST {
        return Err(ContractError::Validation(ValidationReason::VestPeriodTooLong));
    }
    if let Err(e) = amount_of_purchases_check(user_wallet, ledger) {
        return Err(e);
    }
    if let Err(e) = purchase_funds_check(&ledger.config.cost_denom, user_funds) {
        return Err(e);
    }
    let vesting_blocks: u128 = vesting_period * BLOCKS_IN_WEEK;
    let fully_vested: u128 = vesting_blocks + height as u128;
    if fully_vested > u64::MAX as u128 {
        return Err(ContractError::ArithmeticOverflow(ArithmeticStep::VestExpiration));
    }
    let sale = match calc_juno_amt(vesting_period, FAKE_PRICE, user_funds[0].amount) {
        Ok(a) => a,
        Err(e) => return Err(e),
    };
    if sale >= ledger.balance {
        return Err(ContractError::InsufficientBalance);
    }
    let ghost before = ledger@;
    let uuid = ledger.purchase_count;
    let purchase = Purchase {
        vest_period: vesting_period as u8,
        vest_expiration: fully_vested as u64,
        amount_purchased: sale,
        already_claimed: 0,
        last_claim: height,
    };
    let entry = PurchaseEntry { owner: user_wallet.clone(), uuid, purchase };
    match find_purchase(ledger, user_wallet, uuid) {
        Some(i) => {
            ledger.purchases[i] = entry;
            assert(ledger@.purchases =~= before.purchases.update(i as int, entry@));
        },
        None => {
            ledger.purchases.push(entry);
            assert(ledger@.purchases =~= before.purchases.push(entry@));
        },
    }
    ledger.balance = ledger.balance - sale;
    ledger.purchase_count = if uuid >= u64::MAX - 1 {
        1
    } else {
        uuid + 1
    };
    proof {
        lemma_purchase_preserves_wf(before, user_wallet@, user_funds@, vesting_period, height);
    }
    Ok(())
}

/// Releases to `user_wallet` what purchase `uuid` has vested by `height`, and
/// returns that amount. A purchase that has matured is paid out in full and
/// removed; otherwise the claimed amount and the height of the last claim are
/// updated.
pub fn claim_available(ledger: &mut Ledger, height: u64, user_wallet: &String, uuid: u64) -> (r:
    Result<u128, ContractError>)
    requires
        old(ledger).wf(),
    ensures
        final(ledger).wf(),
        match claim_spec(old(ledger)@, user_wallet@, uuid, height) {
            Ok((v, amount)) => r == Ok::<u128, ContractError>(amount) && final(ledger)@ == v,
            Err(e) => r == Err::<u128, ContractError>(e) && *final(ledger) == *old(ledger),
        },
{
    let ghost before = ledger@;
    let i = match find_purchase(ledger, user_wallet, uuid) {
        Some(i) => i,
        None => return Err(ContractError::NotFound),
    };
    let purchase = ledger.purchases[i].purchase;
    if let Err(e) = claim_vestable_checks(&purchase, height) {
        return Err(e);
    }
    let (amount, close) = match calc_amt_vested(&purchase, height) {
        Ok(v) => v,
        Err(e) => return Err(e),
    };
    assert(purchase_wf(before.purchases[i as int].purchase));
    if close {
        ledger.purchases.remove(i);
        assert(ledger@.purchases =~= before.purchases.remove(i as int));
    } else {
        proof {
            lemma_partial_claim_wf(purchase, height, amount);
        }
        ledger.purchases[i].purchase.already_claimed = purchase.already_claimed + amount;
        ledger.purchases[i].purchase.last_claim = height;
        assert(ledger@.purchases =~= before.purchases.update(
            i as int,
            Record {
                purchase: Purchase {
                    already_claimed: (purchase.already_claimed + amount) as u128,
                    last_claim: height,
                    ..purchase
                },
                ..before.purchases[i as int]
            },
        ));
    }
    proof {
        lemma_claim_preserves_wf(before, user_wallet@, uuid, height);
    }
    Ok(amount)
}

/// The ledger after a request `msg` sent by `sender` with `funds` attached at
/// `height`.
pub open spec fn execute_spec(
    l: LedgerView,
    height: u64,
    sender: Seq<char>,
    funds: Seq<Coin>,
    msg: ExecuteMsg,
) -> Result<LedgerView, ContractError> {
    match msg {
        ExecuteMsg::PausePurchasing => set_paused_spec(l, sender, true),
        ExecuteMsg::ResumePurchasing => set_paused_spec(l, sender, false),
        ExecuteMsg::AddSaleFunds => add_funds_spec(l, funds),
        ExecuteMsg::Purchase { vesting_period } => purchase_spec(
            l,
            sender,
            funds,
            vesting_period,
            height,
        ),
        ExecuteMsg::ClaimAvailable { uuid } => match claim_spec(l, sender, uuid, height) {
            Ok((v, _)) => Ok(v),
            Err(e) => Err(e),
        },
    }
}

/// Carries out one request against the ledger.
pub fn execute(
    ledger: &mut Ledger,
    height: u64,
    sender: &String,
    funds: &[Coin],
    msg: ExecuteMsg,
) -> (r: Result<(), ContractError>)
    requires
        old(ledger).wf(),
    ensures
        final(ledger).wf(),
        match execute_spec(old(ledger)@, height, sender@, funds@, msg) {
            Ok(v) => r is Ok && final(ledger)@ == v,
            Err(e) => r == Err::<(), ContractError>(e) && *final(ledger) == *old(ledger),
        },
{
    match msg {
        ExecuteMsg::PausePurchasing => pause_purchasing(ledger, sender),
        ExecuteMsg::ResumePurchasing => resume_purchasing(ledger, sender),
        ExecuteMsg::AddSaleFunds => add_sale_funds(ledger, sender, funds),
        ExecuteMsg::Purchase { vesting_period } => execute_purchase(
            ledger,
            height,
            sender,
            funds,
            vesting_period,
        ),
        ExecuteMsg::ClaimAvailable { uuid } => match claim_available(ledger, height, sender, uuid) {
            Ok(_) => Ok(()),
            Err(e) => Err(e),
        },
    }
}

} // verus!
