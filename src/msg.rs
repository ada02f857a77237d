//! The requests the ledger answers.

use vstd::prelude::*;

verus! {

/// Creates a ledger; the administrator defaults to the creating caller.
#[derive(Debug, Clone)]
pub struct InstantiateMsg {
    pub admin: Option<String>,
    pub beingsold_denom: String,
    pub cost_denom: String,
}

/// The operations that change the ledger.
#[derive(Debug, Clone, PartialEq, Eq, Structural)]
pub enum ExecuteMsg {
    PausePurchasing,
    AddSaleFunds,
    ResumePurchasing,
    Purchase { vesting_period: u128 },
    ClaimAvailable { uuid: u64 },
}

/// The read-only questions.
#[derive(Debug, Clone)]
pub enum QueryMsg {
    GetAdmin,
    GetConfig,
    GetUserPurchaseIds { user_wallet: String },
    GetUserPurchaseInfos { user_wallet: String },
}

} // verus!
