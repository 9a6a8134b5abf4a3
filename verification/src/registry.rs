//! The proposal registry: every proposal ever made, by proposer and sequence index.

use vstd::prelude::*;
use std::collections::HashMap;
use crate::percent::percentage_of;
use crate::planner::{completion_amount, pays_on_completion, PayoutTerms};
use crate::proposal::SpendingProposal;
use crate::types::{
    AccountId,
    Balance,
    DispatchError,
    PayoutType,
    PeriodicPayoutInstance,
    StateError,
};

verus! {

broadcast use vstd::std_specs::hash::group_hash_axioms;

/// The proposals of each proposer, in the order in which they were made. Every
/// account has an entry; the sequence index of a proposal is its position.
pub type Proposals = Map<AccountId, Seq<SpendingProposal>>;

/// No proposals at all.
pub open spec fn no_proposals() -> Proposals {
    Map::total(|proposer: AccountId| Seq::<SpendingProposal>::empty())
}

/// The proposal that `proposer` made with sequence index `index`, if there is one.
pub open spec fn proposal_at(proposals: Proposals, proposer: AccountId, index: int) -> Option<
    SpendingProposal,
> {
    if 0 <= index < proposals[proposer].len() {
        Some(proposals[proposer][index])
    } else {
        None
    }
}

/// `proposals` with `proposal` added behind the others of its proposer.
pub open spec fn with_added(proposals: Proposals, proposal: SpendingProposal) -> Proposals {
    proposals.insert(proposal.proposer, proposals[proposal.proposer].push(proposal))
}

/// `proposals` with the one at (`proposer`, `index`) replaced by `proposal`.
pub open spec fn with_replaced(
    proposals: Proposals,
    proposer: AccountId,
    index: int,
    proposal: SpendingProposal,
) -> Proposals {
    proposals.insert(proposer, proposals[proposer].update(index, proposal))
}

/// The terms of `proposal` that the planner reads.
pub open spec fn terms_of(proposal: SpendingProposal) -> PayoutTerms {
    PayoutTerms {
        proposer: proposal.proposer,
        beneficiary: proposal.beneficiary,
        asset_id: proposal.asset_id,
        amount: proposal.amount,
        payout_type: proposal.payout_type,
    }
}

/// What is due to the beneficiary of `proposal` at full completion.
pub open spec fn completion_payment(proposal: SpendingProposal) -> PeriodicPayoutInstance {
    PeriodicPayoutInstance {
        proposer: proposal.proposer,
        beneficiary: proposal.beneficiary,
        asset_id: proposal.asset_id,
        amount: completion_amount(proposal.payout_type, proposal.amount as nat) as Balance,
    }
}

/// What is decided of an approval once the runtime has said whether the caller is
/// the governance: a caller who is not is turned away; then the proposal must exist;
/// then it must still be pending. If all holds, its terms go to the planner.
pub open spec fn approval_decision(
    proposals: Proposals,
    authorized: bool,
    proposer: AccountId,
    index: u16,
) -> Result<PayoutTerms, DispatchError> {
    if !authorized {
        Err(DispatchError::BadOrigin)
    } else {
        match proposal_at(proposals, proposer, index as int) {
            None => Err(DispatchError::State(StateError::ProposalNotFound)),
            Some(proposal) => if proposal.approved {
                Err(DispatchError::State(StateError::AlreadyApproved))
            } else {
                Ok(terms_of(proposal))
            },
        }
    }
}

/// What is decided of a confirmation of full completion once the runtime has said
/// whether the caller is the governance: a caller who is not is turned away; then
/// the proposal must exist; then it must be approved; then it must not be completed
/// yet. If all holds, the payment due at completion is handed out, if the policy has
/// one.
pub open spec fn completion_decision(
    proposals: Proposals,
    authorized: bool,
    proposer: AccountId,
    index: u16,
) -> Result<Option<PeriodicPayoutInstance>, DispatchError> {
    if !authorized {
        Err(DispatchError::BadOrigin)
    } else {
        match proposal_at(proposals, proposer, index as int) {
            None => Err(DispatchError::State(StateError::ProposalNotFound)),
            Some(proposal) => if !proposal.approved {
                Err(DispatchError::State(StateError::NotApproved))
            } else if proposal.completed {
                Err(DispatchError::State(StateError::AlreadyCompleted))
            } else if pays_on_completion(proposal.payout_type) {
                Ok(Some(completion_payment(proposal)))
            } else {
                Ok(None)
            },
        }
    }
}

/// Every proposal ever made. Proposals are never removed, so a sequence index is
/// never used twice.
pub struct Registry {
    by_proposer: HashMap<AccountId, Vec<SpendingProposal>>,
}

impl View for Registry {
    type V = Proposals;

    closed spec fn view(&self) -> Proposals {
        Map::total(
            |proposer: AccountId|
                if self.by_proposer@.contains_key(proposer) {
                    self.by_proposer@[proposer]@
                } else {
                    Seq::<SpendingProposal>::empty()
                },
        )
    }
}

impl Registry {
    /// An empty registry.
    pub fn new() -> (r: Self)
        ensures
            r@ == no_proposals(),
    {
        let r = Registry { by_proposer: HashMap::new() };
        assert(r@ =~= no_proposals());
        r
    }

    /// Every account has an entry.
    pub proof fn lemma_total(self)
        ensures
            forall|proposer: AccountId| self@.dom().contains(proposer),
    {
    }

    /// The number of proposals that `proposer` has made.
    pub fn count(&self, proposer: AccountId) -> (n: usize)
        ensures
            n == self@[proposer].len(),
    {
        match self.by_proposer.get(&proposer) {
            Some(list) => list.len(),
            None => 0,
        }
    }

    /// The proposal that `proposer` made with sequence index `index`.
    pub fn get(&self, proposer: AccountId, index: u16) -> (r: Option<&SpendingProposal>)
        ensures
            r is Some <==> index < self@[proposer].len(),
            r is Some ==> *r->0 == self@[proposer][index as int],
    {
        match self.by_proposer.get(&proposer) {
            Some(list) => {
                if (index as usize) < list.len() {
                    Some(&list[index as usize])
                } else {
                    None
                }
            },
            None => None,
        }
    }

    /// Decides an approval, given whether the caller is the governance.
    pub fn approval_terms(&self, authorized: bool, proposer: AccountId, index: u16) -> (r: Result<
        PayoutTerms,
        DispatchError,
    >)
        ensures
            r == approval_decision(self@, authorized, proposer, index),
    {
        if !authorized {
            return Err(DispatchError::BadOrigin);
        }
        match self.get(proposer, index) {
            None => Err(DispatchError::State(StateError::ProposalNotFound)),
            Some(proposal) => {
                if proposal.approved {
                    Err(DispatchError::State(StateError::AlreadyApproved))
                } else {
                    Ok(
                        PayoutTerms {
                            proposer: proposal.proposer,
                            beneficiary: proposal.beneficiary,
                            asset_id: proposal.asset_id,
                            amount: proposal.amount,
                            payout_type: proposal.payout_type,
                        },
                    )
                }
            },
        }
    }

    /// Decides a confirmation of full completion, given whether the caller is the
    /// governance.
    pub fn completion_due(&self, authorized: bool, proposer: AccountId, index: u16) -> (r: Result<
        Option<PeriodicPayoutInstance>,
        DispatchError,
    >)
        ensures
            r == completion_decision(self@, authorized, proposer, index),
    {
        if !authorized {
            return Err(DispatchError::BadOrigin);
        }
        match self.get(proposer, index) {
            None => Err(DispatchError::State(StateError::ProposalNotFound)),
            Some(proposal) => {
                if !proposal.approved {
                    return Err(DispatchError::State(StateError::NotApproved));
                }
                if proposal.completed {
                    return Err(DispatchError::State(StateError::AlreadyCompleted));
                }
                match proposal.payout_type {
                    PayoutType::Periodic(payout) => {
                        if payout.after_fully_complete > 0 {
                            Ok(
                                Some(
                                    PeriodicPayoutInstance {
                                        proposer: proposal.proposer,
                                        beneficiary: proposal.beneficiary,
                                        asset_id: proposal.asset_id,
                                        amount: percentage_of(
                                            payout.after_fully_complete,
                                            proposal.amount,
                                        ),
                                    },
                                ),
                            )
                        } else {
                            Ok(None)
                        }
                    },
                    PayoutType::Instant => Ok(None),
                }
            },
        }
    }

    /// Stores `proposal` behind the others of its proposer and returns its position.
    pub fn add(&mut self, proposal: SpendingProposal) -> (index: usize)
        ensures
            index == old(self)@[proposal.proposer].len(),
            final(self)@ == with_added(old(self)@, proposal),
    {
        let proposer = proposal.proposer;
        let mut list = match self.by_proposer.remove(&proposer) {
            Some(list) => list,
            None => Vec::new(),
        };
        let index = list.len();
        list.push(proposal);
        self.by_proposer.insert(proposer, list);
        assert(self@ =~= with_added(old(self)@, proposal));
        index
    }

    /// Marks the proposal at (`proposer`, `index`) as approved.
    pub fn set_approved(&mut self, proposer: AccountId, index: u16)
        requires
            index < old(self)@[proposer].len(),
        ensures
            final(self)@ == with_replaced(
                old(self)@,
                proposer,
                index as int,
                old(self)@[proposer][index as int].as_approved(),
            ),
    {
        let mut list = match self.by_proposer.remove(&proposer) {
            Some(list) => list,
            None => Vec::new(),
        };
        let mut proposal = list.remove(index as usize);
        proposal.approved = true;
        list.insert(index as usize, proposal);
        self.by_proposer.insert(proposer, list);
        assert(self@[proposer] =~= old(self)@[proposer].update(
            index as int,
            old(self)@[proposer][index as int].as_approved(),
        ));
        assert(self@ =~= with_replaced(
            old(self)@,
            proposer,
            index as int,
            old(self)@[proposer][index as int].as_approved(),
        ));
    }

    /// Marks the proposal at (`proposer`, `index`) as completed.
    pub fn set_completed(&mut self, proposer: AccountId, index: u16)
        requires
            index < old(self)@[proposer].len(),
        ensures
            final(self)@ == with_replaced(
                old(self)@,
                proposer,
                index as int,
                old(self)@[proposer][index as int].as_completed(),
            ),
    {
        let mut list = match self.by_proposer.remove(&proposer) {
            Some(list) => list,
            None => Vec::new(),
        };
        let mut proposal = list.remove(index as usize);
        proposal.completed = true;
        list.insert(index as usize, proposal);
        self.by_proposer.insert(proposer, list);
        assert(self@[proposer] =~= old(self)@[proposer].update(
            index as int,
            old(self)@[proposer][index as int].as_completed(),
        ));
        assert(self@ =~= with_replaced(
            old(self)@,
            proposer,
            index as int,
            old(self)@[proposer][index as int].as_completed(),
        ));
    }
}

} // verus!
