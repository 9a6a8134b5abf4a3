//! The pallet's only way to its runtime: every question is put through a `Host`,
//! which keeps the record of what was asked and what was answered.

use vstd::prelude::*;
use crate::config::Config;
use crate::types::{AssetId, Balance, Interaction, LedgerCall, LedgerError, RawOrigin};

verus! {

/// A runtime together with the record of every question that the pallet has put to
/// it. Nothing but the four methods below adds to the record, and each of them adds
/// exactly the question it asked and the answer it got.
pub struct Host<T: Config> {
    /// The runtime itself.
    pub runtime: T,
    asked: Ghost<Seq<Interaction>>,
}

impl<T: Config> Host<T> {
    /// Every question put to the runtime so far, with its answer, oldest first.
    pub closed spec fn asked(&self) -> Seq<Interaction> {
        self.asked@
    }

    /// A host that has asked nothing yet.
    pub fn new(runtime: T) -> (r: Self)
        ensures
            r.asked() == Seq::<Interaction>::empty(),
    {
        Host { runtime, asked: Ghost(Seq::empty()) }
    }

    /// Asks the runtime whether `origin` is the governance.
    pub fn ensure_governance(&mut self, origin: RawOrigin) -> (authorized: bool)
        ensures
            final(self).asked() == old(self).asked().push(
                Interaction::EnsureGovernance { origin, authorized },
            ),
    {
        let authorized = self.runtime.ensure_governance(&origin);
        proof {
            self.asked@ = self.asked@.push(Interaction::EnsureGovernance { origin, authorized });
        }
        authorized
    }

    /// Puts `call` to the ledger.
    pub fn ledger(&mut self, call: LedgerCall) -> (result: Result<(), LedgerError>)
        ensures
            final(self).asked() == old(self).asked().push(Interaction::Ledger { call, result }),
    {
        let result = self.runtime.ledger(&call);
        proof {
            self.asked@ = self.asked@.push(Interaction::Ledger { call, result });
        }
        result
    }

    /// Asks the runtime what `amount_a` of `asset_a` is worth in `asset_b`.
    pub fn price_lookup(&mut self, asset_a: AssetId, amount_a: Balance, asset_b: AssetId) -> (amount_b:
        Balance)
        ensures
            final(self).asked() == old(self).asked().push(
                Interaction::PriceLookup { asset_a, amount_a, asset_b, amount_b },
            ),
    {
        let amount_b = self.runtime.price_lookup(asset_a, amount_a, asset_b);
        proof {
            self.asked@ = self.asked@.push(
                Interaction::PriceLookup { asset_a, amount_a, asset_b, amount_b },
            );
        }
        amount_b
    }

    /// Asks the runtime what `amount` of `asset_id` is worth in USD.
    pub fn usd_price(&mut self, asset_id: AssetId, amount: Balance) -> (price: Balance)
        ensures
            final(self).asked() == old(self).asked().push(
                Interaction::UsdPrice { asset_id, amount, price },
            ),
    {
        let price = self.runtime.usd_price(&asset_id, amount);
        proof {
            self.asked@ = self.asked@.push(Interaction::UsdPrice { asset_id, amount, price });
        }
        price
    }
}

} // verus!
