use pallet_treasury::account::treasury_account_id;
use pallet_treasury::config::{AssetPriceLookup, Config};
use pallet_treasury::pallet::Pallet;
use pallet_treasury::proposal::{Description, Event, SpendingProposal, Title};
use pallet_treasury::types::{
    DispatchError, Fortitude, HoldReason, LedgerCall, LedgerError, NumOfPeriodicPayouts, Params,
    PayoutType, PeriodicPayoutInstance, PeriodicPayoutPercentage, Precision, Preservation,
    RawOrigin,
};
use std::collections::VecDeque;

const NATIVE: u32 = 42;

/// A runtime that answers from a script and remembers what it was asked.
struct Scripted {
    governance: bool,
    answers: VecDeque<Result<(), LedgerError>>,
    asked: Vec<LedgerCall>,
    rate: u128,
}

impl AssetPriceLookup for Scripted {
    fn price_lookup(&self, _asset_a_id: u32, asset_a_amount: u128, _asset_b_id: u32) -> u128 {
        asset_a_amount * self.rate
    }

    fn usd_price(&self, _asset_id: &u32, amount: u128) -> u128 {
        amount / 2
    }
}

impl Config for Scripted {
    fn ensure_governance(&self, _origin: &RawOrigin) -> bool {
        self.governance
    }

    fn ledger(&mut self, call: &LedgerCall) -> Result<(), LedgerError> {
        self.asked.push(*call);
        self.answers.pop_front().unwrap_or(Ok(()))
    }
}

fn pallet(governance: bool, answers: Vec<Result<(), LedgerError>>) -> Pallet<Scripted> {
    Pallet::new(
        Scripted {
            governance,
            answers: answers.into_iter().collect(),
            asked: Vec::new(),
            rate: 3,
        },
        Params {
            native_asset_id: NATIVE,
            small_spender_threshold: 10,
            medium_spender_threshold: 100,
            amount_held_on_proposal: 70,
        },
    )
}

fn propose(treasury: &mut Pallet<Scripted>, asset_id: u32, amount: u128, payout_type: PayoutType) {
    assert_eq!(
        treasury.propose_spend(
            RawOrigin::Signed(5),
            Title::truncate_from(b"Title".to_vec()),
            Description::truncate_from(b"Description".to_vec()),
            asset_id,
            amount,
            6,
            7,
            payout_type
        ),
        Ok(())
    );
}

fn five_installments(upfront: u8, periodic: u8, after_fully_complete: u8) -> PayoutType {
    PayoutType::Periodic(PeriodicPayoutPercentage {
        upfront,
        periodic,
        after_fully_complete,
        num_of_periodic_payouts: NumOfPeriodicPayouts::Five,
        payment_each_n_blocks: 2,
    })
}

fn transfer(asset_id: u32, dest: u64, amount: u128) -> LedgerCall {
    if asset_id == NATIVE {
        LedgerCall::TransferNative {
            source: treasury_account_id(),
            dest,
            amount,
            preservation: Preservation::Expendable,
        }
    } else {
        LedgerCall::TransferAsset {
            asset_id,
            source: treasury_account_id(),
            dest,
            amount,
            preservation: Preservation::Expendable,
        }
    }
}

fn same_terms(a: &SpendingProposal, b: &SpendingProposal) -> bool {
    a.title == b.title
        && a.description == b.description
        && a.proposer == b.proposer
        && a.beneficiary == b.beneficiary
        && a.amount == b.amount
        && a.asset_id == b.asset_id
        && a.spender_type == b.spender_type
        && a.payout_type == b.payout_type
}

#[test]
fn propose_spend_asks_for_the_deposit_of_the_proposer() {
    let mut treasury = pallet(false, vec![]);
    propose(&mut treasury, 1, 1000, PayoutType::Instant);
    assert_eq!(
        treasury.host.runtime.asked,
        vec![LedgerCall::Hold {
            reason: HoldReason::SpendingProposal,
            who: 6,
            amount: 70
        }]
    );
    let stored = treasury.proposal(6, 0).unwrap();
    assert_eq!(stored.proposer, 6);
    assert_eq!(stored.beneficiary, 7);
    assert_eq!(stored.asset_id, 1);
    assert_eq!(stored.amount, 1000);
    assert_eq!(stored.payout_type, PayoutType::Instant);
    assert_eq!(stored.title.to_vec(), b"Title".to_vec());
    assert_eq!(stored.description.to_vec(), b"Description".to_vec());
    assert_eq!(stored.approved, false);
    assert_eq!(stored.completed, false);
    // The signer need not be the proposer
    assert!(treasury.proposal(5, 0).is_none());
}

#[test]
fn proposals_are_classified_by_usd_value_then_by_amount() {
    let mut treasury = pallet(false, vec![]);
    // Worth 10 USD
    propose(&mut treasury, 1, 20, PayoutType::Instant);
    // Worth 11 USD, amount within 100
    propose(&mut treasury, 1, 22, PayoutType::Instant);
    propose(&mut treasury, 1, 100, PayoutType::Instant);
    // Amount above 100
    propose(&mut treasury, 1, 101, PayoutType::Instant);
    let class = |i: u16| treasury.proposal(6, i).unwrap().spender_type;
    assert_eq!(class(0), pallet_treasury::types::Origin::SmallSpender);
    assert_eq!(class(1), pallet_treasury::types::Origin::MediumSpender);
    assert_eq!(class(2), pallet_treasury::types::Origin::MediumSpender);
    assert_eq!(class(3), pallet_treasury::types::Origin::BigSpender);
}

#[test]
fn approve_proposal_pays_then_releases() {
    let mut treasury = pallet(true, vec![]);
    propose(&mut treasury, NATIVE, 1000, five_installments(10, 60, 30));
    treasury.host.runtime.asked.clear();
    assert_eq!(treasury.approve_proposal(RawOrigin::Unsigned, 6, 0, 100), Ok(()));
    assert_eq!(
        treasury.host.runtime.asked,
        vec![
            transfer(NATIVE, 7, 100),
            LedgerCall::Release {
                reason: HoldReason::SpendingProposal,
                who: 6,
                amount: 70,
                precision: Precision::BestEffort,
            },
        ]
    );
    assert_eq!(treasury.proposal(6, 0).unwrap().approved, true);
    let instance =
        PeriodicPayoutInstance { proposer: 6, beneficiary: 7, asset_id: NATIVE, amount: 120 };
    for i in 1..=5u64 {
        assert_eq!(treasury.payout_instances(100 + 2 * i), vec![instance]);
        assert!(treasury.payout_instances(100 + 2 * i - 1).is_empty());
    }
    assert!(treasury.payout_instances(112).is_empty());
}

#[test]
fn approve_proposal_is_all_or_nothing_when_the_release_fails() {
    let mut treasury =
        pallet(true, vec![Ok(()), Ok(()), Err(LedgerError::ReleaseFailed)]);
    propose(&mut treasury, 9, 1000, five_installments(10, 60, 30));
    assert_eq!(
        treasury.approve_proposal(RawOrigin::Root, 6, 0, 100),
        Err(DispatchError::Ledger(LedgerError::ReleaseFailed))
    );
    assert_eq!(treasury.host.runtime.asked.len(), 3);
    assert_eq!(treasury.host.runtime.asked[1], transfer(9, 7, 100));
    assert_eq!(treasury.proposal(6, 0).unwrap().approved, false);
    for block in 100..=112u64 {
        assert!(treasury.payout_instances(block).is_empty());
    }
    assert_eq!(treasury.events().len(), 1);
    // It can be approved later
    assert_eq!(treasury.approve_proposal(RawOrigin::Root, 6, 0, 200), Ok(()));
    assert_eq!(treasury.proposal(6, 0).unwrap().approved, true);
    assert_eq!(treasury.payout_instances(202).len(), 1);
}

#[test]
fn approve_proposal_stops_at_a_failed_payment() {
    let mut treasury = pallet(true, vec![Ok(()), Err(LedgerError::TransferFailed)]);
    propose(&mut treasury, 9, 1000, PayoutType::Instant);
    assert_eq!(
        treasury.approve_proposal(RawOrigin::Root, 6, 0, 100),
        Err(DispatchError::Ledger(LedgerError::TransferFailed))
    );
    // The release was not even asked for
    assert_eq!(treasury.host.runtime.asked.len(), 2);
    assert_eq!(treasury.host.runtime.asked[1], transfer(9, 7, 1000));
    assert_eq!(treasury.proposal(6, 0).unwrap().approved, false);
}

#[test]
fn an_unauthorized_caller_changes_nothing() {
    let mut treasury = pallet(true, vec![]);
    propose(&mut treasury, 9, 1000, five_installments(10, 60, 30));
    treasury.host.runtime.governance = false;
    treasury.host.runtime.asked.clear();
    assert_eq!(
        treasury.approve_proposal(RawOrigin::Signed(6), 6, 0, 1),
        Err(DispatchError::BadOrigin)
    );
    assert_eq!(
        treasury.confirm_full_completion(RawOrigin::Signed(6), 6, 0),
        Err(DispatchError::BadOrigin)
    );
    assert_eq!(
        treasury.exchange_funds_in_treasury(RawOrigin::Signed(6), 1, 10, 2),
        Err(DispatchError::BadOrigin)
    );
    assert!(treasury.host.runtime.asked.is_empty());
    assert_eq!(treasury.proposal(6, 0).unwrap().approved, false);
    assert_eq!(treasury.events().len(), 1);
}

#[test]
fn approving_and_confirming_change_the_flags_only() {
    let mut treasury = pallet(true, vec![]);
    propose(&mut treasury, 9, 1000, five_installments(10, 60, 30));
    propose(&mut treasury, 9, 2000, PayoutType::Instant);
    let before = SpendingProposal {
        title: Title::truncate_from(b"Title".to_vec()),
        description: Description::truncate_from(b"Description".to_vec()),
        proposer: 6,
        beneficiary: 7,
        amount: 1000,
        asset_id: 9,
        spender_type: pallet_treasury::types::Origin::BigSpender,
        payout_type: five_installments(10, 60, 30),
        approved: false,
        completed: false,
    };
    assert!(same_terms(treasury.proposal(6, 0).unwrap(), &before));
    assert_eq!(treasury.approve_proposal(RawOrigin::Root, 6, 0, 1), Ok(()));
    assert!(same_terms(treasury.proposal(6, 0).unwrap(), &before));
    assert_eq!(treasury.confirm_full_completion(RawOrigin::Root, 6, 0), Ok(()));
    assert!(same_terms(treasury.proposal(6, 0).unwrap(), &before));
    assert_eq!(treasury.proposal(6, 0).unwrap().approved, true);
    assert_eq!(treasury.proposal(6, 0).unwrap().completed, true);
    // The other proposal is untouched
    assert_eq!(treasury.proposal(6, 1).unwrap().approved, false);
    assert_eq!(treasury.proposal(6, 1).unwrap().completed, false);
    assert_eq!(treasury.num_of_proposals(6), 2);
}

#[test]
fn confirm_full_completion_pays_the_last_share() {
    let mut treasury = pallet(true, vec![]);
    propose(&mut treasury, 9, 1999, five_installments(10, 60, 30));
    assert_eq!(treasury.approve_proposal(RawOrigin::Root, 6, 0, 1), Ok(()));
    treasury.host.runtime.asked.clear();
    assert_eq!(treasury.confirm_full_completion(RawOrigin::Root, 6, 0), Ok(()));
    // floor(30 * 1999 / 100) = 599
    assert_eq!(treasury.host.runtime.asked, vec![transfer(9, 7, 599)]);
}

#[test]
fn exchange_mints_what_the_price_lookup_answers() {
    let mut treasury = pallet(true, vec![]);
    assert_eq!(treasury.exchange_funds_in_treasury(RawOrigin::Root, 1, 10, NATIVE), Ok(()));
    let who = treasury_account_id();
    assert_eq!(
        treasury.host.runtime.asked,
        vec![
            LedgerCall::BurnAsset {
                asset_id: 1,
                who,
                amount: 10,
                preservation: Preservation::Preserve,
                precision: Precision::Exact,
                force: Fortitude::Polite,
            },
            LedgerCall::MintNative { who, amount: 30 },
        ]
    );
}

#[test]
fn exchange_stops_at_a_failed_burn() {
    let mut treasury = pallet(true, vec![Err(LedgerError::InsufficientBalance)]);
    assert_eq!(
        treasury.exchange_funds_in_treasury(RawOrigin::Root, NATIVE, 10, 2),
        Err(DispatchError::Ledger(LedgerError::InsufficientBalance))
    );
    assert_eq!(treasury.host.runtime.asked.len(), 1);
}

#[test]
fn tick_attempts_each_payout_once_in_order() {
    let mut treasury = pallet(true, vec![]);
    for amount in [500u128, 1000, 1500] {
        propose(&mut treasury, 9, amount, five_installments(0, 100, 0));
        let index = (amount / 500 - 1) as u16;
        assert_eq!(treasury.approve_proposal(RawOrigin::Root, 6, index, 10), Ok(()));
    }
    treasury.host.runtime.asked.clear();
    treasury.host.runtime.answers =
        vec![Err(LedgerError::TransferFailed), Ok(()), Err(LedgerError::InsufficientBalance)]
            .into_iter()
            .collect();
    let events_before = treasury.events().len();
    treasury.on_initialize(12);
    assert_eq!(
        treasury.host.runtime.asked,
        vec![transfer(9, 7, 100), transfer(9, 7, 200), transfer(9, 7, 300)]
    );
    let instance = |amount: u128| PeriodicPayoutInstance {
        proposer: 6,
        beneficiary: 7,
        asset_id: 9,
        amount,
    };
    assert!(treasury.payout_instances(12).is_empty());
    assert_eq!(treasury.payout_instances(22), vec![instance(100), instance(300)]);
    // The later installments are where they were
    assert_eq!(
        treasury.payout_instances(14),
        vec![instance(100), instance(200), instance(300)]
    );
    let moved = |amount: u128| Event::PayoutMovedForward {
        curr_block_number: 12,
        moved_to_block_number: 22,
        proposer: 6,
        beneficiary: 7,
        asset_id: 9,
        amount,
    };
    assert_eq!(treasury.events()[events_before..], [moved(100), moved(300)]);
}
