//! Spending proposals and the notifications that the pallet emits.

use vstd::prelude::*;
use crate::bounded::BoundedBytes;
use crate::types::{
    AccountId,
    AssetId,
    Balance,
    BlockNumber,
    Origin,
    PayoutType,
    MAX_DESCRIPTION_LEN,
    MAX_TITLE_LEN,
};

verus! {

/// The title of a proposal.
pub type Title = BoundedBytes<MAX_TITLE_LEN>;

/// The description of a proposal.
pub type Description = BoundedBytes<MAX_DESCRIPTION_LEN>;

/// A request to pay a beneficiary from the treasury. It is identified by its proposer
/// and its sequence index among that proposer's proposals.
#[derive(Debug)]
pub struct SpendingProposal {
    pub title: Title,
    pub description: Description,
    pub proposer: AccountId,
    pub beneficiary: AccountId,
    pub amount: Balance,
    pub asset_id: AssetId,
    pub spender_type: Origin,
    pub payout_type: PayoutType,
    pub approved: bool,
    pub completed: bool,
}

impl SpendingProposal {
    /// This proposal, approved.
    pub open spec fn as_approved(self) -> SpendingProposal {
        SpendingProposal { approved: true, ..self }
    }

    /// This proposal, completed.
    pub open spec fn as_completed(self) -> SpendingProposal {
        SpendingProposal { completed: true, ..self }
    }
}

/// What the pallet tells the outside world.
#[derive(Debug, PartialEq, Eq)]
pub enum Event {
    /// A proposal was stored. `index_count` is its sequence index, starting from 0.
    AddedProposal { proposer: AccountId, index_count: u16, amount: Balance, title: Title },
    /// A payout could not be made and was moved to a later block.
    PayoutMovedForward {
        curr_block_number: BlockNumber,
        moved_to_block_number: BlockNumber,
        proposer: AccountId,
        beneficiary: AccountId,
        asset_id: AssetId,
        amount: Balance,
    },
}

} // verus!
