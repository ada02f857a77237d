//! Read-only questions about the ledger.

use vstd::prelude::*;

use crate::msg::QueryMsg;
use crate::state::{has_key, keys_unique, Config, Ledger, Purchase, Record};

verus! {

/// The administrator's identity.
#[derive(Debug, Clone)]
pub struct AdminResponse {
    pub admin: String,
}

/// The configuration set at creation.
#[derive(Debug, Clone)]
pub struct ConfigResponse {
    pub config: Config,
}

/// The ids of an owner's open purchases, ascending.
#[derive(Debug, Clone)]
pub struct UserPurchaseIds {
    pub uuids: Vec<u64>,
}

/// An owner's open purchases with their ids, ascending by id.
#[derive(Debug, Clone)]
pub struct UserPurchaseInfos {
    pub purchase_infos: Vec<(u64, Purchase)>,
}

/// The answer to a [`QueryMsg`].
#[derive(Debug, Clone)]
pub enum QueryResponse {
    Admin(AdminResponse),
    Config(ConfigResponse),
    PurchaseIds(UserPurchaseIds),
    PurchaseInfos(UserPurchaseInfos),
}

/// `id` comes after the bound `last` (everything does when there is none).
pub open spec fn after(last: Option<u64>, id: u64) -> bool {
    match last {
        None => true,
        Some(v) => id > v,
    }
}

/// `r` is filed under `owner`.
pub open spec fn owned_by(r: Record, owner: Seq<char>) -> bool {
    r.owner == owner
}

/// `out` lists exactly the purchases that `owner` holds in `recs`, each once,
/// in strictly ascending order of id.
pub open spec fn lists_owner_purchases(
    recs: Seq<Record>,
    owner: Seq<char>,
    out: Seq<(u64, Purchase)>,
) -> bool {
    &&& forall|a: int, b: int| 0 <= a < b < out.len() ==> (#[trigger] out[a]).0 < (#[trigger] out[b]).0
    &&& forall|k: int|
        0 <= k < out.len() ==> exists|i: int|
            0 <= i < recs.len() && #[trigger] recs[i].owner == owner && recs[i].uuid == (
            #[trigger] out[k]).0 && recs[i].purchase == out[k].1
    &&& forall|i: int|
        0 <= i < recs.len() && #[trigger] owned_by(recs[i], owner) ==> exists|k: int|
            0 <= k < out.len() && #[trigger] out[k] == (recs[i].uuid, recs[i].purchase)
}

/// Position of the purchase of `owner` with the smallest id after `last`.
fn first_after(ledger: &Ledger, owner: &String, last: Option<u64>) -> (best: Option<usize>)
    ensures
        best matches Some(b) ==> b < ledger@.purchases.len() && ledger@.purchases[b as int].owner
            == owner@ && after(last, ledger@.purchases[b as int].uuid),
        forall|t: int|
            0 <= t < ledger@.purchases.len() && #[trigger] ledger@.purchases[t].owner == owner@
                && after(last, ledger@.purchases[t].uuid) ==> (best matches Some(b)
                && ledger@.purchases[b as int].uuid <= ledger@.purchases[t].uuid),
{
    let ghost recs = ledger@.purchases;
    let n = ledger.purchases.len();
    let mut best: Option<usize> = None;
    let mut j: usize = 0;
    while j < n
        invariant
            recs == ledger@.purchases,
            n == recs.len(),
            j <= n,
            best matches Some(b) ==> b < j && recs[b as int].owner == owner@ && after(
                last,
                recs[b as int].uuid,
            ),
            forall|t: int|
                0 <= t < j && #[trigger] recs[t].owner == owner@ && after(last, recs[t].uuid)
                    ==> (best matches Some(b) && recs[b as int].uuid <= recs[t].uuid),
        decreases n - j,
    {
        let e = &ledger.purchases[j];
        let fresh = match last {
            None => true,
            Some(v) => e.uuid > v,
        };
        if fresh && e.owner == *owner {
            let better = match best {
                None => true,
                Some(b) => e.uuid < ledger.purchases[b].uuid,
            };
            if better {
                best = Some(j);
            }
        }
        j = j + 1;
    }
    best
}

/// The purchases of `owner`, ascending by id.
pub fn user_purchases(ledger: &Ledger, owner: &String) -> (out: Vec<(u64, Purchase)>)
    requires
        keys_unique(ledger@.purchases),
    ensures
        lists_owner_purchases(ledger@.purchases, owner@, out@),
{
    let ghost recs = ledger@.purchases;
    let n = ledger.purchases.len();
    let mut out: Vec<(u64, Purchase)> = Vec::new();
    let mut last: Option<u64> = None;
    loop
        invariant
            recs == ledger@.purchases,
            n == recs.len(),
            keys_unique(recs),
            forall|a: int, b: int|
                0 <= a < b < out@.len() ==> (#[trigger] out@[a]).0 < (#[trigger] out@[b]).0,
            forall|k: int|
                0 <= k < out@.len() ==> exists|i: int|
                    0 <= i < recs.len() && #[trigger] recs[i].owner == owner@ && recs[i].uuid == (
                    #[trigger] out@[k]).0 && recs[i].purchase == out@[k].1,
            last is None ==> out@.len() == 0,
            last matches Some(v) ==> out@.len() > 0 && out@.last().0 == v,
            forall|i: int|
                0 <= i < recs.len() && #[trigger] owned_by(recs[i], owner@) && !after(
                    last,
                    recs[i].uuid,
                ) ==> exists|k: int|
                    0 <= k < out@.len() && #[trigger] out@[k] == (recs[i].uuid, recs[i].purchase),
        ensures
            lists_owner_purchases(recs, owner@, out@),
        decreases
                (match last {
                    None => u64::MAX + 1,
                    Some(v) => u64::MAX - v,
                }),
    {
        let best = first_after(ledger, owner, last);
        match best {
            None => {
                assert forall|i: int|
                    0 <= i < recs.len() && #[trigger] owned_by(recs[i], owner@) implies exists|k: int|
                        0 <= k < out@.len() && #[trigger] out@[k] == (
                            recs[i].uuid,
                            recs[i].purchase,
                        ) by {
                    assert(recs[i].owner == owner@);
                    assert(!after(last, recs[i].uuid));
                }
                break ;
            },
            Some(b) => {
                let ghost old_out = out@;
                let ghost old_last = last;
                let e = &ledger.purchases[b];
                out.push((e.uuid, e.purchase));
                last = Some(e.uuid);
                assert(out@[old_out.len() as int] == (recs[b as int].uuid, recs[b as int].purchase));
                assert forall|k: int| 0 <= k < old_out.len() implies out@[k] == old_out[k] by {}
                assert forall|i: int|
                    0 <= i < recs.len() && #[trigger] owned_by(recs[i], owner@) && !after(
                        last,
                        recs[i].uuid,
                    ) implies exists|k: int|
                        0 <= k < out@.len() && #[trigger] out@[k] == (
                            recs[i].uuid,
                            recs[i].purchase,
                        ) by {
                    assert(recs[i].owner == owner@);
                    if !after(old_last, recs[i].uuid) {
                        let k = choose|k: int|
                            0 <= k < old_out.len() && #[trigger] old_out[k] == (
                                recs[i].uuid,
                                recs[i].purchase,
                            );
                        assert(out@[k] == old_out[k]);
                    } else {
                        assert(recs[b as int].uuid <= recs[i].uuid);
                        assert(recs[i].owner == recs[b as int].owner);
                        assert(i == b);
                        assert(out@[old_out.len() as int] == (recs[i].uuid, recs[i].purchase));
                    }
                }
                assert forall|k: int| 0 <= k < out@.len() implies exists|i: int|
                    0 <= i < recs.len() && #[trigger] recs[i].owner == owner@ && recs[i].uuid == (
                    #[trigger] out@[k]).0 && recs[i].purchase == out@[k].1 by {
                    if k < old_out.len() {
                        assert(out@[k] == old_out[k]);
                    } else {
                        assert(recs[b as int].owner == owner@);
                    }
                }
            },
        }
    }
    out
}

/// `ids` are exactly the ids of the purchases that `owner` holds in `recs`,
/// each once, ascending.
pub open spec fn lists_owner_ids(recs: Seq<Record>, owner: Seq<char>, ids: Seq<u64>) -> bool {
    &&& forall|a: int, b: int| 0 <= a < b < ids.len() ==> #[trigger] ids[a] < #[trigger] ids[b]
    &&& forall|k: int| 0 <= k < ids.len() ==> has_key(recs, owner, #[trigger] ids[k])
    &&& forall|i: int|
        0 <= i < recs.len() && #[trigger] owned_by(recs[i], owner) ==> ids.contains(recs[i].uuid)
}

/// The administrator's identity.
pub fn get_admin(ledger: &Ledger) -> (r: AdminResponse)
    ensures
        r.admin@ == ledger.config.admin@,
{
    AdminResponse { admin: ledger.config.admin.clone() }
}

/// The configuration set at creation.
pub fn get_config(ledger: &Ledger) -> (r: ConfigResponse)
    ensures
        r.config@ == ledger.config@,
{
    let config = Config {
        admin: ledger.config.admin.clone(),
        beingsold_denom: ledger.config.beingsold_denom.clone(),
        cost_denom: ledger.config.cost_denom.clone(),
    };
    ConfigResponse { config }
}

/// The ids of the open purchases of `user_wallet`, ascending.
pub fn get_user_purchase_ids(ledger: &Ledger, user_wallet: &String) -> (r: UserPurchaseIds)
    requires
        ledger.wf(),
    ensures
        lists_owner_ids(ledger@.purchases, user_wallet@, r.uuids@),
{
    let ghost recs = ledger@.purchases;
    let infos = user_purchases(ledger, user_wallet);
    let mut uuids: Vec<u64> = Vec::new();
    let mut j: usize = 0;
    while j < infos.len()
        invariant
            j <= infos@.len(),
            uuids@.len() == j,
            forall|k: int| 0 <= k < j ==> uuids@[k] == (#[trigger] infos@[k]).0,
        decreases infos@.len() - j,
    {
        uuids.push(infos[j].0);
        j = j + 1;
    }
    let ghost out = infos@;
    assert forall|a: int, b: int| 0 <= a < b < uuids@.len() implies #[trigger] uuids@[a]
        < #[trigger] uuids@[b] by {
        assert(out[a].0 < out[b].0);
    }
    assert forall|k: int| 0 <= k < uuids@.len() implies has_key(
        recs,
        user_wallet@,
        #[trigger] uuids@[k],
    ) by {
        assert(uuids@[k] == out[k].0);
    }
    assert forall|i: int|
        0 <= i < recs.len() && #[trigger] owned_by(recs[i], user_wallet@) implies uuids@.contains(
        recs[i].uuid,
    ) by {
        let k = choose|k: int| 0 <= k < out.len() && #[trigger] out[k] == (recs[i].uuid, recs[i].purchase);
        assert(uuids@[k] == out[k].0);
    }
    UserPurchaseIds { uuids }
}

/// The open purchases of `user_wallet` with their ids, ascending by id.
pub fn get_user_purchase_infos(ledger: &Ledger, user_wallet: &String) -> (r: UserPurchaseInfos)
    requires
        ledger.wf(),
    ensures
        lists_owner_purchases(ledger@.purchases, user_wallet@, r.purchase_infos@),
{
    UserPurchaseInfos { purchase_infos: user_purchases(ledger, user_wallet) }
}

/// Answers one question about the ledger.
pub fn query(ledger: &Ledger, msg: QueryMsg) -> (r: QueryResponse)
    requires
        ledger.wf(),
    ensures
        match msg {
            QueryMsg::GetAdmin => r matches QueryResponse::Admin(a) && a.admin@
                == ledger.config.admin@,
            QueryMsg::GetConfig => r matches QueryResponse::Config(c) && c.config@ == ledger.config@,
            QueryMsg::GetUserPurchaseIds { user_wallet } => r matches QueryResponse::PurchaseIds(p)
                && lists_owner_ids(ledger@.purchases, user_wallet@, p.uuids@),
            QueryMsg::GetUserPurchaseInfos { user_wallet } => r matches QueryResponse::PurchaseInfos(
                p,
            ) && lists_owner_purchases(ledger@.purchases, user_wallet@, p.purchase_infos@),
        },
{
    match msg {
        QueryMsg::GetAdmin => QueryResponse::Admin(get_admin(ledger)),
        QueryMsg::GetConfig => QueryResponse::Config(get_config(ledger)),
        QueryMsg::GetUserPurchaseIds { user_wallet } => QueryResponse::PurchaseIds(
            get_user_purchase_ids(ledger, &user_wallet),
        ),
        QueryMsg::GetUserPurchaseInfos { user_wallet } => QueryResponse::PurchaseInfos(
            get_user_purchase_infos(ledger, &user_wallet),
        ),
    }
}

} // verus!
