//! What the pallet asks of the runtime that hosts it: the ledger, the check of
//! privileged callers, and the prices of assets.

use vstd::prelude::*;
use crate::types::{
    AccountId,
    AssetId,
    Balance,
    DispatchError,
    LedgerCall,
    LedgerError,
    Origin,
    Params,
    RawOrigin,
};

verus! {

/// Converts an amount of one asset into another, and values an asset in USD.
pub trait AssetPriceLookup {
    /// The amount of asset `asset_b_id` that `asset_a_amount` of asset `asset_a_id` is
    /// worth.
    fn price_lookup(
        &self,
        asset_a_id: AssetId,
        asset_a_amount: Balance,
        asset_b_id: AssetId,
    ) -> Balance;

    /// The value in USD of `amount` of asset `asset_id`.
    fn usd_price(&self, asset_id: &AssetId, amount: Balance) -> Balance;
}

/// The runtime that hosts the pallet. The pallet promises nothing about what a
/// runtime answers; it records each answer and acts on it.
///
/// A runtime treats each operation of the pallet as one transaction: when the
/// operation fails, the runtime undoes what the ledger did in its course.
pub trait Config: AssetPriceLookup {
    /// Whether `origin` may approve proposals, confirm their completion and exchange
    /// the treasury's funds.
    fn ensure_governance(&self, origin: &RawOrigin) -> bool;

    /// Carries out `call` on the ledger, or declines it and leaves the ledger as it was.
    fn ledger(&mut self, call: &LedgerCall) -> Result<(), LedgerError>;
}

/// The account that signed, if `origin` is a signed one.
pub open spec fn signed_account(origin: RawOrigin) -> Result<AccountId, DispatchError> {
    match origin {
        RawOrigin::Signed(who) => Ok(who),
        _ => Err(DispatchError::BadOrigin),
    }
}

/// The account that signed, if `origin` is a signed one.
pub fn ensure_signed(origin: &RawOrigin) -> (r: Result<AccountId, DispatchError>)
    ensures
        r == signed_account(*origin),
{
    match origin {
        RawOrigin::Signed(who) => Ok(*who),
        _ => Err(DispatchError::BadOrigin),
    }
}

/// The size class of a proposal: small if its value in USD is within the small
/// threshold, else medium if its amount is within the medium threshold, else big.
pub open spec fn spender_class(price_in_usd: Balance, amount: Balance, params: Params) -> Origin {
    if price_in_usd <= params.small_spender_threshold {
        Origin::SmallSpender
    } else if amount <= params.medium_spender_threshold {
        Origin::MediumSpender
    } else {
        Origin::BigSpender
    }
}

/// The size class of a proposal.
pub fn spender_type(price_in_usd: Balance, amount: Balance, params: &Params) -> (r: Origin)
    ensures
        r == spender_class(price_in_usd, amount, *params),
{
    if price_in_usd <= params.small_spender_threshold {
        Origin::SmallSpender
    } else if amount <= params.medium_spender_threshold {
        Origin::MediumSpender
    } else {
        Origin::BigSpender
    }
}

/// What an operation answers when the ledger answered `result`.
pub open spec fn dispatched(result: Result<(), LedgerError>) -> Result<(), DispatchError> {
    match result {
        Ok(()) => Ok(()),
        Err(e) => Err(DispatchError::Ledger(e)),
    }
}

} // verus!
