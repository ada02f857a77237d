//! What holds of the ledger across operations.

use vstd::prelude::*;

use crate::contract::{
    claim_spec, execute_spec, expiration_spec, instantiate_spec, purchase_spec, put_record,
    sale_amount_spec,
};
use crate::error::ContractError;
use crate::math::{ceil_spec, floor_spec};
use crate::msg::{ExecuteMsg, InstantiateMsg};
use crate::state::{
    has_key, key_index, lemma_count_push, lemma_count_remove, lemma_count_update, owner_count,
    purchase_wf, Coin, LedgerView, Purchase, Record,
};
use crate::vesting::{vest_per_block, vested_spec};
use crate::{BLOCKS_IN_WEEK, MAX_OPEN_PURCHASES, MAX_VEST};

verus! {

/// A fresh purchase can release at most what it holds.
proof fn lemma_new_purchase_wf(p: Purchase, height: u64, weeks: u128)
    requires
        weeks <= MAX_VEST,
        p.vest_period == weeks,
        p.last_claim == height,
        p.vest_expiration == expiration_spec(height, weeks),
        p.already_claimed == 0,
    ensures
        purchase_wf(p),
{
    if weeks > 0 {
        let d = (BLOCKS_IN_WEEK * p.vest_period) as int;
        let a = p.amount_purchased as int;
        assert(d * (a / d) <= a) by (nonlinear_arith)
            requires
                d > 0,
                a >= 0,
        ;
        assert((p.vest_expiration - p.last_claim) == d);
    }
}

/// A successful purchase keeps the ledger invariant: keys stay unique, no
/// owner goes above the limit of open purchases, and every purchase can still
/// release no more than it holds.
pub proof fn lemma_purchase_preserves_wf(
    l: LedgerView,
    owner: Seq<char>,
    funds: Seq<Coin>,
    weeks: u128,
    height: u64,
)
    requires
        l.wf(),
        purchase_spec(l, owner, funds, weeks, height) is Ok,
    ensures
        purchase_spec(l, owner, funds, weeks, height)->Ok_0.wf(),
{
    let sale = sale_amount_spec(funds, weeks)->Ok_0;
    let p = Purchase {
        vest_period: weeks as u8,
        vest_expiration: expiration_spec(height, weeks) as u64,
        amount_purchased: sale,
        already_claimed: 0,
        last_claim: height,
    };
    let r = Record { owner, uuid: l.purchase_count, purchase: p };
    let s = l.purchases;
    let s2 = put_record(s, r);
    assert(purchase_spec(l, owner, funds, weeks, height)->Ok_0.purchases == s2);
    lemma_new_purchase_wf(p, height, weeks);
    if has_key(s, owner, l.purchase_count) {
        let i = key_index(s, owner, l.purchase_count);
        assert(s2 == s.update(i, r));
        assert forall|o: Seq<char>| #[trigger] owner_count(s2, o) <= MAX_OPEN_PURCHASES by {
            lemma_count_update(s, i, r, o);
            assert(owner_count(s, o) <= MAX_OPEN_PURCHASES);
        }
        assert forall|a: int, b: int|
            0 <= a < s2.len() && 0 <= b < s2.len() && #[trigger] s2[a].owner == #[trigger] s2[b].owner
                && s2[a].uuid == s2[b].uuid implies a == b by {
            if a != i && b != i {
                assert(s[a].owner == s[b].owner);
            } else if a == i && b != i {
                assert(s[b].owner == s[i].owner);
            } else if a != i && b == i {
                assert(s[a].owner == s[i].owner);
            }
        }
        assert forall|k: int| 0 <= k < s2.len() implies purchase_wf(#[trigger] s2[k].purchase) by {
            if k != i {
                assert(purchase_wf(s[k].purchase));
            }
        }
    } else {
        assert(s2 == s.push(r));
        assert forall|o: Seq<char>| #[trigger] owner_count(s2, o) <= MAX_OPEN_PURCHASES by {
            lemma_count_push(s, r, o);
            assert(owner_count(s, o) <= MAX_OPEN_PURCHASES);
        }
        assert forall|a: int, b: int|
            0 <= a < s2.len() && 0 <= b < s2.len() && #[trigger] s2[a].owner == #[trigger] s2[b].owner
                && s2[a].uuid == s2[b].uuid implies a == b by {
            if a < s.len() && b < s.len() {
                assert(s[a].owner == s[b].owner);
            } else if a < s.len() {
                assert(s[a].owner == owner && s[a].uuid == l.purchase_count);
            } else if b < s.len() {
                assert(s[b].owner == owner && s[b].uuid == l.purchase_count);
            }
        }
        assert forall|k: int| 0 <= k < s2.len() implies purchase_wf(#[trigger] s2[k].purchase) by {
            if k < s.len() {
                assert(purchase_wf(s[k].purchase));
            }
        }
    }
}

/// A partial claim keeps the purchase able to release no more than it holds.
pub proof fn lemma_partial_claim_wf(p: Purchase, height: u64, amount: u128)
    requires
        purchase_wf(p),
        vested_spec(p, height) == Ok::<(u128, bool), ContractError>((amount, false)),
    ensures
        p.already_claimed + amount <= p.amount_purchased,
        purchase_wf(
            Purchase {
                already_claimed: (p.already_claimed + amount) as u128,
                last_claim: height,
                ..p
            },
        ),
{
    let v = vest_per_block(p);
    let e = p.vest_expiration as int;
    let t = p.last_claim as int;
    let h = height as int;
    assert(v >= 0) by (nonlinear_arith)
        requires
            v == p.amount_purchased as int / (BLOCKS_IN_WEEK * p.vest_period) as int,
            p.vest_period > 0,
    ;
    assert((h - t) * v + (e - h) * v == (e - t) * v && (e - h) * v >= 0) by (nonlinear_arith)
        requires
            t < h < e,
            v >= 0,
    ;
}

/// A successful claim keeps the ledger invariant.
pub proof fn lemma_claim_preserves_wf(l: LedgerView, owner: Seq<char>, uuid: u64, height: u64)
    requires
        l.wf(),
        claim_spec(l, owner, uuid, height) is Ok,
    ensures
        claim_spec(l, owner, uuid, height)->Ok_0.0.wf(),
{
    let s = l.purchases;
    let i = key_index(s, owner, uuid);
    let p = s[i].purchase;
    assert(purchase_wf(p));
    let (amount, close) = vested_spec(p, height)->Ok_0;
    let s2 = claim_spec(l, owner, uuid, height)->Ok_0.0.purchases;
    if close {
        assert(s2 == s.remove(i));
        assert forall|o: Seq<char>| #[trigger] owner_count(s2, o) <= MAX_OPEN_PURCHASES by {
            lemma_count_remove(s, i, o);
            assert(owner_count(s, o) <= MAX_OPEN_PURCHASES);
        }
        assert forall|a: int, b: int|
            0 <= a < s2.len() && 0 <= b < s2.len() && #[trigger] s2[a].owner == #[trigger] s2[b].owner
                && s2[a].uuid == s2[b].uuid implies a == b by {
            let a1 = if a < i { a } else { a + 1 };
            let b1 = if b < i { b } else { b + 1 };
            assert(s[a1].owner == s[b1].owner);
        }
        assert forall|k: int| 0 <= k < s2.len() implies purchase_wf(#[trigger] s2[k].purchase) by {
            let k1 = if k < i { k } else { k + 1 };
            assert(purchase_wf(s[k1].purchase));
        }
    } else {
        lemma_partial_claim_wf(p, height, amount);
        let q = Purchase {
            already_claimed: (p.already_claimed + amount) as u128,
            last_claim: height,
            ..p
        };
        let r = Record { purchase: q, ..s[i] };
        assert(s2 == s.update(i, r));
        assert forall|o: Seq<char>| #[trigger] owner_count(s2, o) <= MAX_OPEN_PURCHASES by {
            lemma_count_update(s, i, r, o);
            assert(owner_count(s, o) <= MAX_OPEN_PURCHASES);
        }
        assert forall|a: int, b: int|
            0 <= a < s2.len() && 0 <= b < s2.len() && #[trigger] s2[a].owner == #[trigger] s2[b].owner
                && s2[a].uuid == s2[b].uuid implies a == b by {
            assert(s[a].owner == s[b].owner);
        }
        assert forall|k: int| 0 <= k < s2.len() implies purchase_wf(#[trigger] s2[k].purchase) by {
            if k != i {
                assert(purchase_wf(s[k].purchase));
            }
        }
    }
}

/// One request: its height, sender, attached funds and message.
pub ghost struct Request {
    pub height: u64,
    pub sender: Seq<char>,
    pub funds: Seq<Coin>,
    pub msg: ExecuteMsg,
}

/// The ledger after `l` has answered `q`; a refused request changes nothing.
pub open spec fn step(l: LedgerView, q: Request) -> LedgerView {
    match execute_spec(l, q.height, q.sender, q.funds, q.msg) {
        Ok(v) => v,
        Err(_) => l,
    }
}

/// The ledger after `l` has answered the requests of `reqs` in order.
pub open spec fn run(l: LedgerView, reqs: Seq<Request>) -> LedgerView
    decreases reqs.len(),
{
    if reqs.len() == 0 {
        l
    } else {
        step(run(l, reqs.drop_last()), reqs.last())
    }
}

/// What `q` adds to the available balance when `l` accepts it as a deposit.
pub open spec fn deposited(l: LedgerView, q: Request) -> int {
    if q.msg is AddSaleFunds && execute_spec(l, q.height, q.sender, q.funds, q.msg) is Ok {
        q.funds[0].amount as int
    } else {
        0
    }
}

/// What `q` sells when `l` accepts it as a purchase.
pub open spec fn sold(l: LedgerView, q: Request) -> int {
    match q.msg {
        ExecuteMsg::Purchase { vesting_period } => if execute_spec(
            l,
            q.height,
            q.sender,
            q.funds,
            q.msg,
        ) is Ok {
            sale_amount_spec(q.funds, vesting_period)->Ok_0 as int
        } else {
            0
        },
        _ => 0,
    }
}

/// Sum of the deposits accepted along `reqs`.
pub open spec fn total_deposited(l: LedgerView, reqs: Seq<Request>) -> int
    decreases reqs.len(),
{
    if reqs.len() == 0 {
        0
    } else {
        total_deposited(l, reqs.drop_last()) + deposited(run(l, reqs.drop_last()), reqs.last())
    }
}

/// Sum of the sale amounts of the purchases accepted along `reqs`.
pub open spec fn total_sold(l: LedgerView, reqs: Seq<Request>) -> int
    decreases reqs.len(),
{
    if reqs.len() == 0 {
        0
    } else {
        total_sold(l, reqs.drop_last()) + sold(run(l, reqs.drop_last()), reqs.last())
    }
}

/// A fresh ledger satisfies the invariant.
pub proof fn lemma_instantiate_wf(sender: Seq<char>, msg: InstantiateMsg)
    ensures
        instantiate_spec(sender, msg).wf(),
{
    let l = instantiate_spec(sender, msg);
    assert forall|o: Seq<char>| #[trigger] owner_count(l.purchases, o) <= MAX_OPEN_PURCHASES by {
        assert(owner_count(l.purchases, o) == 0);
    }
}

/// Every accepted request keeps the invariant.
pub proof fn lemma_step_preserves_wf(l: LedgerView, q: Request)
    requires
        l.wf(),
    ensures
        step(l, q).wf(),
{
    if execute_spec(l, q.height, q.sender, q.funds, q.msg) is Ok {
        match q.msg {
            ExecuteMsg::Purchase { vesting_period } => {
                lemma_purchase_preserves_wf(l, q.sender, q.funds, vesting_period, q.height);
            },
            ExecuteMsg::ClaimAvailable { uuid } => {
                lemma_claim_preserves_wf(l, q.sender, uuid, q.height);
            },
            _ => {},
        }
    }
}

/// Any run of requests from a ledger that satisfies the invariant keeps it.
pub proof fn lemma_run_preserves_wf(l: LedgerView, reqs: Seq<Request>)
    requires
        l.wf(),
    ensures
        run(l, reqs).wf(),
    decreases reqs.len(),
{
    if reqs.len() > 0 {
        lemma_run_preserves_wf(l, reqs.drop_last());
        lemma_step_preserves_wf(run(l, reqs.drop_last()), reqs.last());
    }
}

/// In every ledger reachable from creation, each open purchase has released
/// no more than it holds.
pub proof fn lemma_claimed_within_purchased(
    sender: Seq<char>,
    msg: InstantiateMsg,
    reqs: Seq<Request>,
    i: int,
)
    requires
        0 <= i < run(instantiate_spec(sender, msg), reqs).purchases.len(),
    ensures
        run(instantiate_spec(sender, msg), reqs).purchases[i].purchase.already_claimed
            <= run(instantiate_spec(sender, msg), reqs).purchases[i].purchase.amount_purchased,
{
    lemma_instantiate_wf(sender, msg);
    let l = run(instantiate_spec(sender, msg), reqs);
    lemma_run_preserves_wf(instantiate_spec(sender, msg), reqs);
    let p = l.purchases[i].purchase;
    assert(purchase_wf(p));
    let d = (p.vest_expiration - p.last_claim) as int;
    let v = vest_per_block(p);
    assert(v >= 0) by (nonlinear_arith)
        requires
            p.vest_period > 0 ==> v == p.amount_purchased as int / (BLOCKS_IN_WEEK
                * p.vest_period) as int,
            p.vest_period == 0 ==> v == 0,
    ;
    assert(d * v >= 0) by (nonlinear_arith)
        requires
            d >= 0,
            v >= 0,
    ;
}

/// In every ledger reachable from creation, no owner holds more than the
/// maximum number of open purchases.
pub proof fn lemma_open_purchases_limited(
    sender: Seq<char>,
    msg: InstantiateMsg,
    reqs: Seq<Request>,
    owner: Seq<char>,
)
    ensures
        owner_count(run(instantiate_spec(sender, msg), reqs).purchases, owner)
            <= MAX_OPEN_PURCHASES,
{
    lemma_instantiate_wf(sender, msg);
    lemma_run_preserves_wf(instantiate_spec(sender, msg), reqs);
}

/// An accepted purchase sells strictly less than the balance available when it
/// was checked.
pub proof fn lemma_sale_below_balance(l: LedgerView, q: Request)
    requires
        q.msg is Purchase,
        execute_spec(l, q.height, q.sender, q.funds, q.msg) is Ok,
    ensures
        sold(l, q) < l.balance,
{
}

/// After any run of requests, the available balance is the starting balance
/// plus every accepted deposit minus every accepted sale.
pub proof fn lemma_balance_accounting(l: LedgerView, reqs: Seq<Request>)
    ensures
        run(l, reqs).balance == l.balance + total_deposited(l, reqs) - total_sold(l, reqs),
    decreases reqs.len(),
{
    if reqs.len() > 0 {
        lemma_balance_accounting(l, reqs.drop_last());
    }
}

/// Pausing twice in a row leaves the sale paused, and the second pause
/// changes nothing.
pub proof fn lemma_pause_twice(l: LedgerView, q: Request)
    requires
        q.msg is PausePurchasing,
    ensures
        step(step(l, q), q) == step(l, q),
        execute_spec(l, q.height, q.sender, q.funds, q.msg) is Ok ==> step(l, q).paused,
{
}

/// Rounding up and then down gives the rounded-up value, which is always above
/// `x`: the round trip never returns `x`, and an exact multiple gains a whole
/// rounding unit.
pub proof fn lemma_round_trip(x: int)
    requires
        x >= 0,
    ensures
        floor_spec(ceil_spec(x)) == ceil_spec(x),
        x < ceil_spec(x) <= x + 1000,
        x % 1000 == 0 ==> ceil_spec(x) == x + 1000,
{
    let q = (x + 1000) / 1000;
    assert((q * 1000) / 1000 == q) by (nonlinear_arith);
    assert(x < q * 1000 <= x + 1000) by (nonlinear_arith)
        requires
            q == (x + 1000) / 1000,
            x >= 0,
    ;
    if x % 1000 == 0 {
        assert(q * 1000 == x + 1000) by (nonlinear_arith)
            requires
                q == (x + 1000) / 1000,
                x % 1000 == 0,
        ;
    }
}

} // verus!
