//! The state of the pallet as the contracts speak of it, and what each operation
//! makes of a state and of the answers that the runtime gives.

use vstd::prelude::*;
use crate::account::treasury_account;
use crate::config::{dispatched, signed_account, spender_class};
use crate::planner::{
    planned_installments,
    policy_check,
    schedulable,
    upfront_amount,
    PayoutTerms,
};
use crate::proposal::{Description, Event, SpendingProposal, Title};
use crate::queue::{
    declined,
    enqueued,
    honoured,
    moved_forward_events,
    settled_schedule,
    Schedule,
};
use crate::registry::{
    approval_decision,
    completion_decision,
    proposal_at,
    with_added,
    with_replaced,
    Proposals,
};
use crate::types::{
    AccountId,
    AssetId,
    Balance,
    BlockNumber,
    DispatchError,
    DispatchResult,
    Fortitude,
    HoldReason,
    Interaction,
    LedgerCall,
    Params,
    PayoutType,
    PeriodicPayoutInstance,
    Precision,
    Preservation,
    RawOrigin,
    MAX_PROPOSALS,
};

verus! {

/// The state of the pallet, as the contracts speak of it.
pub struct PalletView {
    /// The values that the runtime configured.
    pub params: Params,
    /// Every proposal ever made.
    pub proposals: Proposals,
    /// The pending payout instances.
    pub payouts: Schedule,
    /// The notifications emitted so far, oldest first.
    pub events: Seq<Event>,
    /// Every question put to the runtime so far, with its answer, oldest first.
    pub trace: Seq<Interaction>,
}

impl PalletView {
    /// This state after one more question to the runtime.
    pub open spec fn asked(self, interaction: Interaction) -> PalletView {
        PalletView { trace: self.trace.push(interaction), ..self }
    }

    /// The proposal that `proposer` made with sequence index `index`, if there is one.
    pub open spec fn proposal(self, proposer: AccountId, index: u16) -> Option<SpendingProposal> {
        proposal_at(self.proposals, proposer, index as int)
    }

    /// The answer to question number `k` that was asked after `self.trace`, as `later`
    /// recorded it.
    pub open spec fn answer(self, later: PalletView, k: int) -> Interaction {
        later.trace[self.trace.len() + k]
    }
}

/// The request to move `amount` of `asset_id` from `source` to `dest`: the native
/// currency moves by a native transfer, anything else by a transfer of that asset.
pub open spec fn transfer_call(
    params: Params,
    asset_id: AssetId,
    source: AccountId,
    dest: AccountId,
    amount: Balance,
) -> LedgerCall {
    if asset_id == params.native_asset_id {
        LedgerCall::TransferNative { source, dest, amount, preservation: Preservation::Expendable }
    } else {
        LedgerCall::TransferAsset {
            asset_id,
            source,
            dest,
            amount,
            preservation: Preservation::Expendable,
        }
    }
}

/// The request that pays `instance` from the treasury.
pub open spec fn payout_call(params: Params, instance: PeriodicPayoutInstance) -> LedgerCall {
    transfer_call(
        params,
        instance.asset_id,
        treasury_account(),
        instance.beneficiary,
        instance.amount,
    )
}

/// `post` is `pre` after the one request `call` to the ledger, and `r` is what the
/// ledger answered.
pub open spec fn ledger_outcome(
    pre: PalletView,
    call: LedgerCall,
    post: PalletView,
    r: DispatchResult,
) -> bool {
    let result = pre.answer(post, 0)->result;
    &&& post == pre.asked(Interaction::Ledger { call, result })
    &&& r == dispatched(result)
}

/// What funding the treasury with native currency does: a native transfer of
/// `amount` from the signer to the treasury, asked of the ledger if and only if the
/// origin is signed.
pub open spec fn fund_native_outcome(
    pre: PalletView,
    origin: RawOrigin,
    amount: Balance,
    post: PalletView,
    r: DispatchResult,
) -> bool {
    match signed_account(origin) {
        Err(e) => post == pre && r == Err::<(), DispatchError>(e),
        Ok(who) => ledger_outcome(
            pre,
            LedgerCall::TransferNative {
                source: who,
                dest: treasury_account(),
                amount,
                preservation: Preservation::Expendable,
            },
            post,
            r,
        ),
    }
}

/// What funding the treasury with an asset does: a transfer of `amount` of
/// `asset_id` from the signer to the treasury, asked of the ledger if and only if the
/// origin is signed.
pub open spec fn fund_asset_outcome(
    pre: PalletView,
    origin: RawOrigin,
    amount: Balance,
    asset_id: AssetId,
    post: PalletView,
    r: DispatchResult,
) -> bool {
    match signed_account(origin) {
        Err(e) => post == pre && r == Err::<(), DispatchError>(e),
        Ok(who) => ledger_outcome(
            pre,
            LedgerCall::TransferAsset {
                asset_id,
                source: who,
                dest: treasury_account(),
                amount,
                preservation: Preservation::Expendable,
            },
            post,
            r,
        ),
    }
}

/// The request that holds the deposit of a proposal on its proposer.
pub open spec fn hold_call(params: Params, proposer: AccountId) -> LedgerCall {
    LedgerCall::Hold {
        reason: HoldReason::SpendingProposal,
        who: proposer,
        amount: params.amount_held_on_proposal,
    }
}

/// The request that releases that deposit to the proposer: the amount that was held.
pub open spec fn release_call(params: Params, proposer: AccountId) -> LedgerCall {
    LedgerCall::Release {
        reason: HoldReason::SpendingProposal,
        who: proposer,
        amount: params.amount_held_on_proposal,
        precision: Precision::BestEffort,
    }
}

/// The request that burns exactly `amount` of `asset_id` from the treasury.
pub open spec fn burn_call(params: Params, asset_id: AssetId, amount: Balance) -> LedgerCall {
    if asset_id == params.native_asset_id {
        LedgerCall::BurnNative {
            who: treasury_account(),
            amount,
            preservation: Preservation::Preserve,
            precision: Precision::Exact,
            force: Fortitude::Polite,
        }
    } else {
        LedgerCall::BurnAsset {
            asset_id,
            who: treasury_account(),
            amount,
            preservation: Preservation::Preserve,
            precision: Precision::Exact,
            force: Fortitude::Polite,
        }
    }
}

/// The request that mints `amount` of `asset_id` into the treasury.
pub open spec fn mint_call(params: Params, asset_id: AssetId, amount: Balance) -> LedgerCall {
    if asset_id == params.native_asset_id {
        LedgerCall::MintNative { who: treasury_account(), amount }
    } else {
        LedgerCall::MintAsset { asset_id, who: treasury_account(), amount }
    }
}

/// The request that pays the share of `terms` that is due at approval.
pub open spec fn upfront_call(params: Params, terms: PayoutTerms) -> LedgerCall {
    transfer_call(
        params,
        terms.asset_id,
        treasury_account(),
        terms.beneficiary,
        upfront_amount(terms.payout_type, terms.amount as nat) as Balance,
    )
}

/// `event` tells that `proposer` added a proposal of `amount` under `index_count`,
/// titled `title`.
pub open spec fn is_added_proposal(
    event: Event,
    proposer: AccountId,
    index_count: u16,
    amount: Balance,
    title: Seq<u8>,
) -> bool {
    match event {
        Event::AddedProposal { proposer: by, index_count: index, amount: of, title: titled } => {
            by == proposer && index == index_count && of == amount && titled@ == title
        },
        _ => false,
    }
}

/// What proposing a spend does.
///
/// A malformed policy is rejected, then a proposer who has used up the sequence
/// indices; neither asks anything of the runtime. Otherwise the deposit is held; if
/// the ledger declines, that is the answer. If it agrees, the amount is valued in
/// USD, the proposal is stored as pending under the proposer's next sequence index,
/// and the notification of it is emitted.
pub open spec fn propose_outcome(
    pre: PalletView,
    title: Title,
    description: Description,
    asset_id: AssetId,
    amount: Balance,
    proposer: AccountId,
    beneficiary: AccountId,
    payout_type: PayoutType,
    post: PalletView,
    r: DispatchResult,
) -> bool {
    let count = pre.proposals[proposer].len();
    let held = pre.answer(post, 0)->result;
    let hold = Interaction::Ledger { call: hold_call(pre.params, proposer), result: held };
    let price = pre.answer(post, 1)->price;
    let priced = Interaction::UsdPrice { asset_id, amount, price };
    match policy_check(payout_type) {
        Err(e) => post == pre && r == Err::<(), DispatchError>(DispatchError::Module(e)),
        Ok(()) => if count >= MAX_PROPOSALS {
            post == pre && r == Err::<(), DispatchError>(DispatchError::TooManyProposals)
        } else if held is Err {
            post == pre.asked(hold) && r == dispatched(held)
        } else {
            &&& r == Ok::<(), DispatchError>(())
            &&& post.params == pre.params
            &&& post.payouts == pre.payouts
            &&& post.trace == pre.trace.push(hold).push(priced)
            &&& post.proposals == with_added(
                pre.proposals,
                SpendingProposal {
                    title,
                    description,
                    proposer,
                    beneficiary,
                    amount,
                    asset_id,
                    spender_type: spender_class(price, amount, pre.params),
                    payout_type,
                    approved: false,
                    completed: false,
                },
            )
            &&& post.events.len() == pre.events.len() + 1
            &&& post.events.drop_last() == pre.events
            &&& is_added_proposal(post.events.last(), proposer, count as u16, amount, title@)
        },
    }
}

/// What the dispatched form of proposing does: an origin that is not signed is
/// turned away; a signed one proposes.
pub open spec fn propose_spend_outcome(
    pre: PalletView,
    origin: RawOrigin,
    title: Title,
    description: Description,
    asset_id: AssetId,
    amount: Balance,
    proposer: AccountId,
    beneficiary: AccountId,
    payout_type: PayoutType,
    post: PalletView,
    r: DispatchResult,
) -> bool {
    match signed_account(origin) {
        Err(e) => post == pre && r == Err::<(), DispatchError>(e),
        Ok(_) => propose_outcome(
            pre,
            title,
            description,
            asset_id,
            amount,
            proposer,
            beneficiary,
            payout_type,
            post,
            r,
        ),
    }
}

/// What setting up the payouts of `terms` at block `now` does: the share due at
/// approval is paid; if the ledger agrees, the installments are scheduled.
pub open spec fn setup_outcome(
    pre: PalletView,
    terms: PayoutTerms,
    now: BlockNumber,
    post: PalletView,
    r: DispatchResult,
) -> bool {
    let result = pre.answer(post, 0)->result;
    let paid = pre.asked(Interaction::Ledger { call: upfront_call(pre.params, terms), result });
    &&& r == dispatched(result)
    &&& post == if result is Ok {
        PalletView { payouts: enqueued(pre.payouts, planned_installments(terms, now)), ..paid }
    } else {
        paid
    }
}

/// A proposal that stands at (`proposer`, `index`) can be scheduled from block `now`.
pub open spec fn approvable_at(
    pre: PalletView,
    proposer: AccountId,
    index: u16,
    now: BlockNumber,
) -> bool {
    match pre.proposal(proposer, index) {
        Some(proposal) => schedulable(proposal.payout_type, now),
        None => true,
    }
}

/// What approving a proposal at block `now` does.
///
/// The runtime is asked whether the origin is the governance, and the approval is
/// decided on its answer. If it goes ahead, the share due at approval is paid and the
/// deposit released, in this order. Only if the ledger agrees to both is the proposal
/// marked approved and its installments scheduled. In every other case the registry
/// and the queue stay as they were.
pub open spec fn approve_outcome(
    pre: PalletView,
    origin: RawOrigin,
    proposer: AccountId,
    index: u16,
    now: BlockNumber,
    post: PalletView,
    r: DispatchResult,
) -> bool {
    let authorized = pre.answer(post, 0)->authorized;
    let asked = pre.asked(Interaction::EnsureGovernance { origin, authorized });
    match approval_decision(pre.proposals, authorized, proposer, index) {
        Err(e) => post == asked && r == Err::<(), DispatchError>(e),
        Ok(terms) => {
            let pay_result = pre.answer(post, 1)->result;
            let paid = asked.asked(
                Interaction::Ledger { call: upfront_call(pre.params, terms), result: pay_result },
            );
            let release_result = pre.answer(post, 2)->result;
            let released = paid.asked(
                Interaction::Ledger {
                    call: release_call(pre.params, proposer),
                    result: release_result,
                },
            );
            if pay_result is Err {
                post == paid && r == dispatched(pay_result)
            } else if release_result is Err {
                post == released && r == dispatched(release_result)
            } else {
                &&& r == Ok::<(), DispatchError>(())
                &&& post == PalletView {
                    proposals: with_replaced(
                        pre.proposals,
                        proposer,
                        index as int,
                        pre.proposals[proposer][index as int].as_approved(),
                    ),
                    payouts: enqueued(pre.payouts, planned_installments(terms, now)),
                    ..released
                }
            }
        },
    }
}

/// What confirming the full completion of a proposal does.
///
/// The runtime is asked whether the origin is the governance, and the confirmation
/// is decided on its answer. If it goes ahead and a payment is due, the payment is
/// attempted. The proposal is marked completed unless the ledger declined that
/// payment.
pub open spec fn confirm_outcome(
    pre: PalletView,
    origin: RawOrigin,
    proposer: AccountId,
    index: u16,
    post: PalletView,
    r: DispatchResult,
) -> bool {
    let authorized = pre.answer(post, 0)->authorized;
    let asked = pre.asked(Interaction::EnsureGovernance { origin, authorized });
    let completed = with_replaced(
        pre.proposals,
        proposer,
        index as int,
        pre.proposals[proposer][index as int].as_completed(),
    );
    match completion_decision(pre.proposals, authorized, proposer, index) {
        Err(e) => post == asked && r == Err::<(), DispatchError>(e),
        Ok(None) => {
            &&& r == Ok::<(), DispatchError>(())
            &&& post == PalletView { proposals: completed, ..asked }
        },
        Ok(Some(due)) => {
            let result = pre.answer(post, 1)->result;
            let paid = asked.asked(
                Interaction::Ledger { call: payout_call(pre.params, due), result },
            );
            &&& r == dispatched(result)
            &&& post == if result is Ok {
                PalletView { proposals: completed, ..paid }
            } else {
                paid
            }
        },
    }
}

/// What exchanging funds in the treasury does.
///
/// The runtime is asked whether the origin is the governance. If it is, `amount_a` of
/// `asset_id_a` is burned from the treasury; if the ledger agrees, the runtime is
/// asked what that amount is worth in `asset_id_b`, and that worth is minted into the
/// treasury. The registry and the queue stay as they were.
pub open spec fn exchange_outcome(
    pre: PalletView,
    origin: RawOrigin,
    asset_id_a: AssetId,
    amount_a: Balance,
    asset_id_b: AssetId,
    post: PalletView,
    r: DispatchResult,
) -> bool {
    let authorized = pre.answer(post, 0)->authorized;
    let asked = pre.asked(Interaction::EnsureGovernance { origin, authorized });
    if !authorized {
        post == asked && r == Err::<(), DispatchError>(DispatchError::BadOrigin)
    } else {
        let burn_result = pre.answer(post, 1)->result;
        let burned = asked.asked(
            Interaction::Ledger {
                call: burn_call(pre.params, asset_id_a, amount_a),
                result: burn_result,
            },
        );
        let amount_b = pre.answer(post, 2)->amount_b;
        let priced = burned.asked(
            Interaction::PriceLookup {
                asset_a: asset_id_a,
                amount_a,
                asset_b: asset_id_b,
                amount_b,
            },
        );
        let mint_result = pre.answer(post, 3)->result;
        let minted = priced.asked(
            Interaction::Ledger {
                call: mint_call(pre.params, asset_id_b, amount_b),
                result: mint_result,
            },
        );
        if burn_result is Err {
            post == burned && r == dispatched(burn_result)
        } else {
            post == minted && r == dispatched(mint_result)
        }
    }
}

/// The answers are those to one payment attempt for each of `due`, in order.
pub open spec fn payout_attempts(
    params: Params,
    due: Seq<PeriodicPayoutInstance>,
    answers: Seq<Interaction>,
) -> bool {
    &&& answers.len() == due.len()
    &&& forall|i: int|
        0 <= i < due.len() ==> #[trigger] answers[i] == Interaction::Ledger {
            call: payout_call(params, due[i]),
            result: answers[i]->result,
        }
}

/// Whether each of the answers, in order, tells of a payment that was made.
pub open spec fn payments(answers: Seq<Interaction>) -> Seq<bool> {
    Seq::new(answers.len(), |i: int| answers[i]->result is Ok)
}

/// Those of `due` whose payment the ledger declined, in order.
pub open spec fn deferred(
    due: Seq<PeriodicPayoutInstance>,
    answers: Seq<Interaction>,
) -> Seq<PeriodicPayoutInstance> {
    declined(due, payments(answers))
}

/// Those of `due` that the ledger paid, in order.
pub open spec fn settled(
    due: Seq<PeriodicPayoutInstance>,
    answers: Seq<Interaction>,
) -> Seq<PeriodicPayoutInstance> {
    honoured(due, payments(answers))
}

/// What the tick of block `n` does.
///
/// What is due at `n` leaves the queue. One payment is attempted for each instance,
/// in the order in which they were added. Each instance that the ledger declined is
/// added, unchanged and in the same order, behind what is due `RETRY_DELAY` blocks
/// later, with one notification each. The registry stays as it was.
pub open spec fn tick_outcome(pre: PalletView, n: BlockNumber, post: PalletView) -> bool {
    let due = pre.payouts[n];
    let answers = post.trace.skip(pre.trace.len() as int);
    let late = deferred(due, answers);
    &&& payout_attempts(pre.params, due, answers)
    &&& post == PalletView {
        payouts: settled_schedule(pre.payouts, n, payments(answers)),
        events: pre.events + moved_forward_events(n, late),
        trace: pre.trace + answers,
        ..pre
    }
}

} // verus!
