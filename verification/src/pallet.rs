//! The pallet: the registry, the queue and the operations on them.

use vstd::prelude::*;
use crate::account::{treasury_account, treasury_account_id};
use crate::config::{ensure_signed, spender_type, Config};
use crate::host::Host;
use crate::model::{
    approvable_at,
    approve_outcome,
    confirm_outcome,
    exchange_outcome,
    fund_asset_outcome,
    fund_native_outcome,
    ledger_outcome,
    payments,
    payout_attempts,
    payout_call,
    propose_outcome,
    propose_spend_outcome,
    setup_outcome,
    tick_outcome,
    transfer_call,
    PalletView,
};
use crate::planner::{check_payout_type, is_schedulable, plan_payouts, schedulable, PayoutTerms};
use crate::proposal::{Description, Event, SpendingProposal, Title};
use crate::queue::{cleared, empty_schedule, PayoutQueue};
use crate::registry::{no_proposals, terms_of, Registry};
use crate::types::{
    AccountId,
    AssetId,
    Balance,
    BlockNumber,
    DispatchError,
    DispatchResult,
    Fortitude,
    GenesisConfig,
    HoldReason,
    Interaction,
    LedgerCall,
    Params,
    PayoutType,
    PeriodicPayoutInstance,
    Precision,
    Preservation,
    RawOrigin,
    MAX_PROPOSALS,
    RETRY_DELAY,
};

verus! {

/// The pallet. It owns the host through which it reaches its runtime, the registry
/// of proposals and the queue of pending payouts.
pub struct Pallet<T: Config> {
    /// The runtime, and the record of what the pallet has asked of it.
    pub host: Host<T>,
    params: Params,
    registry: Registry,
    payouts: PayoutQueue,
    events: Vec<Event>,
}

impl<T: Config> View for Pallet<T> {
    type V = PalletView;

    closed spec fn view(&self) -> PalletView {
        PalletView {
            params: self.params,
            proposals: self.registry@,
            payouts: self.payouts@,
            events: self.events@,
            trace: self.host.asked(),
        }
    }
}

impl<T: Config> Pallet<T> {
    /// A pallet with no proposals, no pending payouts and no history.
    pub fn new(runtime: T, params: Params) -> (r: Self)
        ensures
            r@ == (PalletView {
                params,
                proposals: no_proposals(),
                payouts: empty_schedule(),
                events: Seq::<Event>::empty(),
                trace: Seq::<Interaction>::empty(),
            }),
    {
        Pallet {
            host: Host::new(runtime),
            params,
            registry: Registry::new(),
            payouts: PayoutQueue::new(),
            events: Vec::new(),
        }
    }

    /// The account of the treasury.
    pub fn treasury_account_id() -> (r: AccountId)
        ensures
            r == treasury_account(),
    {
        treasury_account_id()
    }

    /// Puts `call` to the ledger.
    fn ask_ledger(&mut self, call: LedgerCall) -> (r: DispatchResult)
        ensures
            ledger_outcome(old(self)@, call, final(self)@, r),
    {
        match self.host.ledger(call) {
            Ok(()) => Ok(()),
            Err(e) => Err(DispatchError::Ledger(e)),
        }
    }

    /// Pays `amount` of the native currency from the treasury to `beneficiary`.
    pub fn send_native_funds_to_beneficiary(
        &mut self,
        beneficiary: &AccountId,
        amount: Balance,
    ) -> (r: DispatchResult)
        ensures
            ledger_outcome(
                old(self)@,
                LedgerCall::TransferNative {
                    source: treasury_account(),
                    dest: *beneficiary,
                    amount,
                    preservation: Preservation::Expendable,
                },
                final(self)@,
                r,
            ),
    {
        let source = treasury_account_id();
        self.ask_ledger(
            LedgerCall::TransferNative {
                source,
                dest: *beneficiary,
                amount,
                preservation: Preservation::Expendable,
            },
        )
    }

    /// Pays `amount` of the asset `asset_id` from the treasury to `beneficiary`.
    pub fn send_asset_funds_to_beneficiary(
        &mut self,
        beneficiary: &AccountId,
        amount: Balance,
        asset_id: &AssetId,
    ) -> (r: DispatchResult)
        ensures
            ledger_outcome(
                old(self)@,
                LedgerCall::TransferAsset {
                    asset_id: *asset_id,
                    source: treasury_account(),
                    dest: *beneficiary,
                    amount,
                    preservation: Preservation::Expendable,
                },
                final(self)@,
                r,
            ),
    {
        let source = treasury_account_id();
        self.ask_ledger(
            LedgerCall::TransferAsset {
                asset_id: *asset_id,
                source,
                dest: *beneficiary,
                amount,
                preservation: Preservation::Expendable,
            },
        )
    }

    /// Pays `amount` of `asset_id` from the treasury to `beneficiary`, as native
    /// currency or as an asset.
    fn send_funds_to_beneficiary(
        &mut self,
        asset_id: AssetId,
        beneficiary: AccountId,
        amount: Balance,
    ) -> (r: DispatchResult)
        ensures
            ledger_outcome(
                old(self)@,
                transfer_call(old(self)@.params, asset_id, treasury_account(), beneficiary, amount),
                final(self)@,
                r,
            ),
    {
        if asset_id == self.params.native_asset_id {
            self.send_native_funds_to_beneficiary(&beneficiary, amount)
        } else {
            self.send_asset_funds_to_beneficiary(&beneficiary, amount, &asset_id)
        }
    }

    /// Attempts the payment of one payout instance.
    pub fn exec_payout_instance(&mut self, payout_instance: &PeriodicPayoutInstance) -> (r:
        DispatchResult)
        ensures
            ledger_outcome(
                old(self)@,
                payout_call(old(self)@.params, *payout_instance),
                final(self)@,
                r,
            ),
    {
        self.send_funds_to_beneficiary(
            payout_instance.asset_id,
            payout_instance.beneficiary,
            payout_instance.amount,
        )
    }

    /// Moves `amount` of the native currency from the signer to the treasury.
    pub fn fund_treasury_native(&mut self, origin: RawOrigin, amount: Balance) -> (r:
        DispatchResult)
        ensures
            fund_native_outcome(old(self)@, origin, amount, final(self)@, r),
    {
        let who = match ensure_signed(&origin) {
            Ok(who) => who,
            Err(e) => {
                return Err(e);
            },
        };
        let dest = treasury_account_id();
        self.ask_ledger(
            LedgerCall::TransferNative {
                source: who,
                dest,
                amount,
                preservation: Preservation::Expendable,
            },
        )
    }

    /// Moves `amount` of the asset `asset_id` from the signer to the treasury.
    pub fn fund_treasury_asset(
        &mut self,
        origin: RawOrigin,
        amount: Balance,
        asset_id: AssetId,
    ) -> (r: DispatchResult)
        ensures
            fund_asset_outcome(old(self)@, origin, amount, asset_id, final(self)@, r),
    {
        let who = match ensure_signed(&origin) {
            Ok(who) => who,
            Err(e) => {
                return Err(e);
            },
        };
        let dest = treasury_account_id();
        self.ask_ledger(
            LedgerCall::TransferAsset {
                asset_id,
                source: who,
                dest,
                amount,
                preservation: Preservation::Expendable,
            },
        )
    }

    /// Stores a new proposal as pending and holds the deposit on the proposer.
    pub fn do_propose_spend(
        &mut self,
        title: Title,
        description: Description,
        asset_id: AssetId,
        amount: Balance,
        proposer: AccountId,
        beneficiary: AccountId,
        payout_type: PayoutType,
    ) -> (r: DispatchResult)
        ensures
            propose_outcome(
                old(self)@,
                title,
                description,
                asset_id,
                amount,
                proposer,
                beneficiary,
                payout_type,
                final(self)@,
                r,
            ),
    {
        match check_payout_type(&payout_type) {
            Err(e) => {
                return Err(DispatchError::Module(e));
            },
            Ok(()) => {},
        }
        let count = self.registry.count(proposer);
        if count >= MAX_PROPOSALS {
            return Err(DispatchError::TooManyProposals);
        }
        let index_count: u16 = count as u16;
        match self.ask_ledger(
            LedgerCall::Hold {
                reason: HoldReason::SpendingProposal,
                who: proposer,
                amount: self.params.amount_held_on_proposal,
            },
        ) {
            Err(e) => {
                return Err(e);
            },
            Ok(()) => {},
        }
        let price_in_usd = self.host.usd_price(asset_id, amount);
        let spender = spender_type(price_in_usd, amount, &self.params);
        let event_title = title.clone();
        self.registry.add(
            SpendingProposal {
                title,
                description,
                proposer,
                beneficiary,
                amount,
                asset_id,
                spender_type: spender,
                payout_type,
                approved: false,
                completed: false,
            },
        );
        self.events.push(
            Event::AddedProposal { proposer, index_count, amount, title: event_title },
        );
        assert(self@.events.drop_last() =~= old(self)@.events);
        Ok(())
    }

    /// Stores a new proposal as pending, on behalf of any signed origin.
    pub fn propose_spend(
        &mut self,
        origin: RawOrigin,
        title: Title,
        description: Description,
        asset_id: AssetId,
        amount: Balance,
        proposer: AccountId,
        beneficiary: AccountId,
        payout_type: PayoutType,
    ) -> (r: DispatchResult)
        ensures
            propose_spend_outcome(
                old(self)@,
                origin,
                title,
                description,
                asset_id,
                amount,
                proposer,
                beneficiary,
                payout_type,
                final(self)@,
                r,
            ),
    {
        match ensure_signed(&origin) {
            Err(e) => {
                return Err(e);
            },
            Ok(_) => {},
        }
        self.do_propose_spend(
            title,
            description,
            asset_id,
            amount,
            proposer,
            beneficiary,
            payout_type,
        )
    }

    /// Pays what `proposal` owes at approval and schedules its installments, counted
    /// from block `now`. The last of them must fall due at a block that exists.
    pub fn setup_payout_instances(&mut self, proposal: &SpendingProposal, now: BlockNumber) -> (r:
        DispatchResult)
        requires
            schedulable(proposal.payout_type, now),
        ensures
            setup_outcome(old(self)@, terms_of(*proposal), now, final(self)@, r),
    {
        let terms = PayoutTerms {
            proposer: proposal.proposer,
            beneficiary: proposal.beneficiary,
            asset_id: proposal.asset_id,
            amount: proposal.amount,
            payout_type: proposal.payout_type,
        };
        let plan = plan_payouts(&terms, now);
        match self.send_funds_to_beneficiary(terms.asset_id, terms.beneficiary, plan.upfront_amount) {
            Err(e) => {
                return Err(e);
            },
            Ok(()) => {},
        }
        self.payouts.schedule_all(&plan.installments);
        Ok(())
    }

    /// Approves the pending proposal that `proposer` made under `index`, at block `now`.
    /// If a proposal stands there, the last of its installments must fall due at a block
    /// that exists.
    pub fn approve_proposal(
        &mut self,
        origin: RawOrigin,
        proposer: AccountId,
        index: u16,
        now: BlockNumber,
    ) -> (r: DispatchResult)
        requires
            approvable_at(old(self)@, proposer, index, now),
        ensures
            approve_outcome(old(self)@, origin, proposer, index, now, final(self)@, r),
    {
        let authorized = self.host.ensure_governance(origin);
        let terms = match self.registry.approval_terms(authorized, proposer, index) {
            Err(e) => {
                return Err(e);
            },
            Ok(terms) => terms,
        };
        let plan = plan_payouts(&terms, now);
        match self.send_funds_to_beneficiary(terms.asset_id, terms.beneficiary, plan.upfront_amount) {
            Err(e) => {
                return Err(e);
            },
            Ok(()) => {},
        }
        match self.ask_ledger(
            LedgerCall::Release {
                reason: HoldReason::SpendingProposal,
                who: proposer,
                amount: self.params.amount_held_on_proposal,
                precision: Precision::BestEffort,
            },
        ) {
            Err(e) => {
                return Err(e);
            },
            Ok(()) => {},
        }
        self.registry.set_approved(proposer, index);
        self.payouts.schedule_all(&plan.installments);
        Ok(())
    }

    /// Confirms that the work behind the proposal that `proposer` made under `index` is
    /// fully complete.
    pub fn confirm_full_completion(
        &mut self,
        origin: RawOrigin,
        proposer: AccountId,
        index: u16,
    ) -> (r: DispatchResult)
        ensures
            confirm_outcome(old(self)@, origin, proposer, index, final(self)@, r),
    {
        let authorized = self.host.ensure_governance(origin);
        let due = match self.registry.completion_due(authorized, proposer, index) {
            Err(e) => {
                return Err(e);
            },
            Ok(due) => due,
        };
        match due {
            Some(instance) => {
                match self.exec_payout_instance(&instance) {
                    Err(e) => {
                        return Err(e);
                    },
                    Ok(()) => {},
                }
            },
            None => {},
        }
        self.registry.set_completed(proposer, index);
        Ok(())
    }

    /// Swaps `amount_a` of `asset_id_a` that the treasury holds for what it is worth
    /// in `asset_id_b`.
    pub fn exchange_funds_in_treasury(
        &mut self,
        origin: RawOrigin,
        asset_id_a: AssetId,
        amount_a: Balance,
        asset_id_b: AssetId,
    ) -> (r: DispatchResult)
        ensures
            exchange_outcome(old(self)@, origin, asset_id_a, amount_a, asset_id_b, final(self)@, r),
    {
        if !self.host.ensure_governance(origin) {
            return Err(DispatchError::BadOrigin);
        }
        let who = treasury_account_id();
        let burn = if asset_id_a == self.params.native_asset_id {
            LedgerCall::BurnNative {
                who,
                amount: amount_a,
                preservation: Preservation::Preserve,
                precision: Precision::Exact,
                force: Fortitude::Polite,
            }
        } else {
            LedgerCall::BurnAsset {
                asset_id: asset_id_a,
                who,
                amount: amount_a,
                preservation: Preservation::Preserve,
                precision: Precision::Exact,
                force: Fortitude::Polite,
            }
        };
        match self.ask_ledger(burn) {
            Err(e) => {
                return Err(e);
            },
            Ok(()) => {},
        }
        let amount_b = self.host.price_lookup(asset_id_a, amount_a, asset_id_b);
        let mint = if asset_id_b == self.params.native_asset_id {
            LedgerCall::MintNative { who, amount: amount_b }
        } else {
            LedgerCall::MintAsset { asset_id: asset_id_b, who, amount: amount_b }
        };
        self.ask_ledger(mint)
    }

    /// The tick of block `n`: attempts every payout that is due at `n` and moves those
    /// that the ledger declines to the retry block, which must exist.
    pub fn on_initialize(&mut self, n: BlockNumber)
        requires
            n <= u64::MAX - RETRY_DELAY,
        ensures
            tick_outcome(old(self)@, n, final(self)@),
    {
        let due = self.payouts.take(n);
        let ghost start = old(self)@;
        let ghost asked_before = start.trace.len() as int;
        let mut paid: Vec<bool> = Vec::new();
        assert(paid@ =~= payments(self@.trace.skip(asked_before)));
        let mut i: usize = 0;
        while i < due.len()
            invariant
                i <= due.len(),
                start == old(self)@,
                asked_before == start.trace.len(),
                due@ == start.payouts[n],
                self@ == (PalletView {
                    payouts: cleared(start.payouts, n),
                    trace: start.trace + self@.trace.skip(asked_before),
                    ..start
                }),
                payout_attempts(start.params, due@.take(i as int), self@.trace.skip(asked_before)),
                paid@ == payments(self@.trace.skip(asked_before)),
            decreases due.len() - i,
        {
            let instance = due[i];
            let ghost before = self@;
            let r = self.exec_payout_instance(&instance);
            paid.push(r.is_ok());
            proof {
                let answer = before.answer(self@, 0);
                let answers = before.trace.skip(asked_before);
                assert(self@.trace.skip(asked_before) =~= answers.push(answer));
                assert(self@.trace =~= start.trace + self@.trace.skip(asked_before));
                assert(paid@ =~= payments(self@.trace.skip(asked_before)));
            }
            i += 1;
        }
        assert(due@.take(i as int) =~= due@);
        let mut events = self.payouts.defer(n, &due, &paid);
        self.events.append(&mut events);
    }

    /// Every account has an entry in the registry and every block one in the queue.
    pub proof fn lemma_total(self)
        ensures
            forall|proposer: AccountId| self@.proposals.dom().contains(proposer),
            forall|block: BlockNumber| self@.payouts.dom().contains(block),
    {
        self.registry.lemma_total();
        self.payouts.lemma_total();
    }

    /// Whether `approve_proposal` may be called for (`proposer`, `index`) at block `now`.
    pub fn can_approve_at(&self, proposer: AccountId, index: u16, now: BlockNumber) -> (r: bool)
        ensures
            r == approvable_at(self@, proposer, index, now),
    {
        match self.registry.get(proposer, index) {
            Some(proposal) => is_schedulable(&proposal.payout_type, now),
            None => true,
        }
    }

    /// The values that the runtime configured.
    pub fn params(&self) -> (r: Params)
        ensures
            r == self@.params,
    {
        self.params
    }

    /// The proposal that `proposer` made under `index`.
    pub fn proposal(&self, proposer: AccountId, index: u16) -> (r: Option<&SpendingProposal>)
        ensures
            r is Some <==> self@.proposal(proposer, index) is Some,
            r is Some ==> Some(*r->0) == self@.proposal(proposer, index),
    {
        self.registry.get(proposer, index)
    }

    /// The number of proposals that `proposer` has made: the sequence index of the
    /// next one.
    pub fn num_of_proposals(&self, proposer: AccountId) -> (n: usize)
        ensures
            n == self@.proposals[proposer].len(),
    {
        self.registry.count(proposer)
    }

    /// What is due at `block`, in the order in which it will be attempted.
    pub fn payout_instances(&self, block: BlockNumber) -> (due: Vec<PeriodicPayoutInstance>)
        ensures
            due@ == self@.payouts[block],
    {
        self.payouts.get(block)
    }

    /// The notifications emitted so far, oldest first.
    pub fn events(&self) -> (r: &Vec<Event>)
        ensures
            r@ == self@.events,
    {
        &self.events
    }

    /// Hands out the notifications emitted so far, oldest first, and forgets them.
    pub fn take_events(&mut self) -> (r: Vec<Event>)
        ensures
            r@ == old(self)@.events,
            final(self)@ == (PalletView { events: Seq::<Event>::empty(), ..old(self)@ }),
    {
        let mut taken: Vec<Event> = Vec::new();
        std::mem::swap(&mut taken, &mut self.events);
        taken
    }
}

impl GenesisConfig {
    /// The pallet at genesis: no proposals, no pending payouts and no history.
    pub fn build<T: Config>(&self, runtime: T, params: Params) -> (r: Pallet<T>)
        ensures
            r@ == (PalletView {
                params,
                proposals: no_proposals(),
                payouts: empty_schedule(),
                events: Seq::<Event>::empty(),
                trace: Seq::<Interaction>::empty(),
            }),
    {
        Pallet::new(runtime, params)
    }
}

} // verus!
