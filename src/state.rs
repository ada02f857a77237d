//! The data the ledger owns, and its mathematical model.

use vstd::prelude::*;

use crate::vesting::vest_per_block;
use crate::MAX_OPEN_PURCHASES;

verus! {

/// A coin attached to a request: a denomination and an amount.
#[derive(Debug, Clone)]
pub struct Coin {
    pub denom: String,
    pub amount: u128,
}

/// Set once when the ledger is created.
#[derive(Debug, Clone)]
pub struct Config {
    /// The only identity allowed to pause and resume purchasing.
    pub admin: String,
    /// Denomination of the asset being sold.
    pub beingsold_denom: String,
    /// Denomination buyers pay in.
    pub cost_denom: String,
}

/// One purchase, vesting linearly until `vest_expiration`.
#[derive(Debug, Clone, Copy, PartialEq, Eq, Structural)]
pub struct Purchase {
    /// Vesting period in weeks.
    pub vest_period: u8,
    /// Block height at which the purchase is fully vested.
    pub vest_expiration: u64,
    /// Amount of the sold asset bought.
    pub amount_purchased: u128,
    /// Amount released so far.
    pub already_claimed: u128,
    /// Height of the last claim; the purchase height before the first one.
    pub last_claim: u64,
}

/// A purchase under its key: the owner and the purchase id.
#[derive(Debug, Clone)]
pub struct PurchaseEntry {
    pub owner: String,
    pub uuid: u64,
    pub purchase: Purchase,
}

/// Model of a [`PurchaseEntry`].
pub ghost struct Record {
    pub owner: Seq<char>,
    pub uuid: u64,
    pub purchase: Purchase,
}

impl View for PurchaseEntry {
    type V = Record;

    open spec fn view(&self) -> Record {
        Record { owner: self.owner@, uuid: self.uuid, purchase: self.purchase }
    }
}

/// Model of a [`Config`].
pub ghost struct ConfigView {
    pub admin: Seq<char>,
    pub beingsold_denom: Seq<char>,
    pub cost_denom: Seq<char>,
}

impl View for Config {
    type V = ConfigView;

    open spec fn view(&self) -> ConfigView {
        ConfigView {
            admin: self.admin@,
            beingsold_denom: self.beingsold_denom@,
            cost_denom: self.cost_denom@,
        }
    }
}

/// Everything the sale keeps between calls.
#[derive(Debug, Clone)]
pub struct Ledger {
    pub config: Config,
    /// While true, purchases are refused.
    pub paused: bool,
    /// Amount of the sold asset still available for sale.
    pub balance: u128,
    /// The id that the next purchase receives.
    pub purchase_count: u64,
    /// The open purchases of all owners.
    pub purchases: Vec<PurchaseEntry>,
}

/// Model of a [`Ledger`].
pub ghost struct LedgerView {
    pub config: ConfigView,
    pub paused: bool,
    pub balance: u128,
    pub purchase_count: u64,
    pub purchases: Seq<Record>,
}

impl View for Ledger {
    type V = LedgerView;

    open spec fn view(&self) -> LedgerView {
        LedgerView {
            config: self.config@,
            paused: self.paused,
            balance: self.balance,
            purchase_count: self.purchase_count,
            purchases: self.purchases@.map_values(|e: PurchaseEntry| e@),
        }
    }
}

/// Number of records held by `owner`.
pub open spec fn owner_count(s: Seq<Record>, owner: Seq<char>) -> nat
    decreases s.len(),
{
    if s.len() == 0 {
        0
    } else {
        owner_count(s.drop_last(), owner) + if s.last().owner == owner {
            1nat
        } else {
            0nat
        }
    }
}

/// Some record is filed under `(owner, uuid)`.
pub open spec fn has_key(s: Seq<Record>, owner: Seq<char>, uuid: u64) -> bool {
    exists|i: int| 0 <= i < s.len() && #[trigger] s[i].owner == owner && s[i].uuid == uuid
}

/// Position of the record filed under `(owner, uuid)`, or -1 when there is none.
pub open spec fn key_index(s: Seq<Record>, owner: Seq<char>, uuid: u64) -> int {
    if has_key(s, owner, uuid) {
        choose|i: int| 0 <= i < s.len() && #[trigger] s[i].owner == owner && s[i].uuid == uuid
    } else {
        -1
    }
}

/// No two records share a key.
pub open spec fn keys_unique(s: Seq<Record>) -> bool {
    forall|i: int, j: int|
        0 <= i < s.len() && 0 <= j < s.len() && #[trigger] s[i].owner == #[trigger] s[j].owner
            && s[i].uuid == s[j].uuid ==> i == j
}

/// A purchase can never release more than it holds: what was claimed plus what
/// the remaining blocks will release stays within the amount purchased.
pub open spec fn purchase_wf(p: Purchase) -> bool {
    &&& p.last_claim <= p.vest_expiration
    &&& (p.vest_period == 0 ==> p.last_claim == p.vest_expiration)
    &&& p.already_claimed + (p.vest_expiration - p.last_claim) * vest_per_block(p)
        <= p.amount_purchased
}

impl LedgerView {
    /// The invariant that every operation keeps.
    pub open spec fn wf(self) -> bool {
        &&& keys_unique(self.purchases)
        &&& forall|owner: Seq<char>|
            #[trigger] owner_count(self.purchases, owner) <= MAX_OPEN_PURCHASES
        &&& forall|i: int|
            0 <= i < self.purchases.len() ==> purchase_wf(#[trigger] self.purchases[i].purchase)
        &&& self.purchase_count >= 1
    }
}

impl Ledger {
    pub open spec fn wf(&self) -> bool {
        self@.wf()
    }
}

/// Adding a record counts once for its owner.
pub proof fn lemma_count_push(s: Seq<Record>, r: Record, owner: Seq<char>)
    ensures
        owner_count(s.push(r), owner) == owner_count(s, owner) + if r.owner == owner {
            1nat
        } else {
            0nat
        },
{
    assert(s.push(r).drop_last() =~= s);
}

/// Replacing a record by one of the same owner keeps every count.
pub proof fn lemma_count_update(s: Seq<Record>, i: int, r: Record, owner: Seq<char>)
    requires
        0 <= i < s.len(),
        s[i].owner == r.owner,
    ensures
        owner_count(s.update(i, r), owner) == owner_count(s, owner),
    decreases s.len(),
{
    if i == s.len() - 1 {
        assert(s.update(i, r).drop_last() =~= s.drop_last());
    } else {
        assert(s.update(i, r).drop_last() =~= s.drop_last().update(i, r));
        lemma_count_update(s.drop_last(), i, r, owner);
    }
}

/// Removing a record takes it off its owner's count.
pub proof fn lemma_count_remove(s: Seq<Record>, i: int, owner: Seq<char>)
    requires
        0 <= i < s.len(),
    ensures
        owner_count(s.remove(i), owner) + (if s[i].owner == owner {
            1nat
        } else {
            0nat
        }) == owner_count(s, owner),
    decreases s.len(),
{
    if i == s.len() - 1 {
        assert(s.remove(i) =~= s.drop_last());
    } else {
        assert(s.remove(i).drop_last() =~= s.drop_last().remove(i));
        lemma_count_remove(s.drop_last(), i, owner);
    }
}

} // verus!
