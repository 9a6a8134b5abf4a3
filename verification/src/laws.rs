//! What holds of the pallet across its operations.

use vstd::prelude::*;
use crate::account::treasury_account;
use crate::model::{
    approvable_at,
    approve_outcome,
    confirm_outcome,
    deferred,
    exchange_outcome,
    fund_asset_outcome,
    fund_native_outcome,
    hold_call,
    is_added_proposal,
    payments,
    propose_spend_outcome,
    release_call,
    settled,
    setup_outcome,
    tick_outcome,
    transfer_call,
    upfront_call,
    PalletView,
};
use crate::percent::lemma_percent_of_bounds;
use crate::planner::{
    completion_amount,
    divides_evenly,
    installment_count,
    lemma_amounts_in_closed_form,
    lemma_equal_shares,
    lemma_round_amounts_divide_evenly,
    lemma_schedulable,
    lemma_total_payout_bounds,
    lemma_total_payout_exact,
    payout_instance_amount,
    percentages_sum_to_100,
    periodic_amount,
    planned_installments,
    planned_instance,
    schedulable,
    total_payout,
    upfront_amount,
    valid_policy,
    PayoutTerms,
};
use crate::proposal::{Description, SpendingProposal, Title};
use crate::queue::{appended, declined, enqueued, honoured, Schedule};
use crate::registry::{no_proposals, terms_of};
use crate::types::{
    AccountId,
    AssetId,
    Balance,
    BlockNumber,
    DispatchResult,
    HoldReason,
    Interaction,
    LedgerCall,
    Params,
    PayoutType,
    PeriodicPayoutInstance,
    PeriodicPayoutPercentage,
    Precision,
    RawOrigin,
    ScheduledPayout,
    MAX_PROPOSALS,
    MAX_SCHEDULE_SPAN,
    RETRY_DELAY,
};

verus! {

/// A periodic policy is valid exactly when its three percentages add up to 100 and
/// its period is positive.
pub proof fn lemma_valid_periodic_policy(payout: PeriodicPayoutPercentage)
    ensures
        valid_policy(PayoutType::Periodic(payout)) <==> percentages_sum_to_100(payout)
            && payout.payment_each_n_blocks > 0,
{
}

/// Proposing with a malformed policy fails and changes nothing: no proposal is
/// stored, no index used, nothing asked of the runtime, nothing emitted.
pub proof fn lemma_malformed_policy_is_rejected(
    pre: PalletView,
    origin: RawOrigin,
    title: Title,
    description: Description,
    asset_id: AssetId,
    amount: Balance,
    proposer: AccountId,
    beneficiary: AccountId,
    payout_type: PayoutType,
    post: PalletView,
    r: DispatchResult,
)
    requires
        propose_spend_outcome(
            pre,
            origin,
            title,
            description,
            asset_id,
            amount,
            proposer,
            beneficiary,
            payout_type,
            post,
            r,
        ),
        !valid_policy(payout_type),
    ensures
        r is Err,
        post == pre,
{
}

/// What a list of installments pays in all.
pub open spec fn installments_total(items: Seq<ScheduledPayout>) -> nat
    decreases items.len(),
{
    if items.len() == 0 {
        0
    } else {
        installments_total(items.drop_last()) + items.last().instance.amount as nat
    }
}

/// The installments planned for a proposal pay, in all, the number of installments
/// times the amount of one.
pub proof fn lemma_planned_installments_total(terms: PayoutTerms, now: BlockNumber)
    ensures
        installments_total(planned_installments(terms, now)) == installment_count(
            terms.payout_type,
        ) * payout_instance_amount(terms.payout_type, terms.amount as nat),
{
    let planned = planned_installments(terms, now);
    match terms.payout_type {
        PayoutType::Instant => {},
        PayoutType::Periodic(payout) => {
            let pool = periodic_amount(payout, terms.amount as nat);
            lemma_percent_of_bounds(payout.periodic as nat, terms.amount as nat);
            lemma_percent_of_bounds(100nat / payout.num_of_periodic_payouts.count_spec(), pool);
        },
    }
    lemma_prefix_total(terms, now, planned.len());
    assert(planned.take(planned.len() as int) =~= planned);
}

/// A proposal that runs to full completion pays its beneficiary the share due at
/// approval, every planned installment and the share due at completion. Together
/// these are never more than the proposed amount, fall short of it by at most the
/// number of installments plus one, and are exactly the amount when it splits
/// without rounding, as every multiple of 10,000 does.
pub proof fn lemma_full_run_pays_the_amount(terms: PayoutTerms, now: BlockNumber)
    requires
        valid_policy(terms.payout_type),
    ensures
        ({
            let amount = terms.amount as nat;
            let paid = upfront_amount(terms.payout_type, amount) + installments_total(
                planned_installments(terms, now),
            ) + completion_amount(terms.payout_type, amount);
            &&& paid == total_payout(terms.payout_type, amount)
            &&& paid <= amount
            &&& amount <= paid + installment_count(terms.payout_type) + 1
            &&& divides_evenly(terms.payout_type, amount) ==> paid == amount
            &&& amount % 10_000 == 0 ==> paid == amount
        }),
{
    let amount = terms.amount as nat;
    lemma_planned_installments_total(terms, now);
    lemma_total_payout_bounds(terms.payout_type, amount);
    if amount % 10_000 == 0 {
        lemma_round_amounts_divide_evenly(terms.payout_type, amount);
    }
    if divides_evenly(terms.payout_type, amount) {
        lemma_total_payout_exact(terms.payout_type, amount);
    }
}

/// The first `k` of the planned installments pay `k` times the amount of one.
proof fn lemma_prefix_total(terms: PayoutTerms, now: BlockNumber, k: nat)
    requires
        k <= installment_count(terms.payout_type),
        payout_instance_amount(terms.payout_type, terms.amount as nat) <= Balance::MAX,
    ensures
        installments_total(planned_installments(terms, now).take(k as int)) == k
            * payout_instance_amount(terms.payout_type, terms.amount as nat),
    decreases k,
{
    let planned = planned_installments(terms, now);
    let each = payout_instance_amount(terms.payout_type, terms.amount as nat);
    if k == 0 {
        assert(0 * each == 0) by (nonlinear_arith);
    } else {
        lemma_prefix_total(terms, now, (k - 1) as nat);
        assert(planned.take(k as int).drop_last() =~= planned.take(k - 1));
        assert(planned.take(k as int).last().instance.amount == each);
        assert((k - 1) * each + each == k * each) by (nonlinear_arith);
    }
}

/// Setting up the payouts of a valid policy asks the ledger for the upfront share,
/// and, if the ledger agrees, schedules the planned installments, each of the same
/// amount. With the share due at completion these never exceed the proposed amount,
/// fall short of it by at most the number of installments plus one, and make it up
/// exactly when it splits without rounding.
pub proof fn lemma_setup_pays_within_the_amount(
    pre: PalletView,
    terms: PayoutTerms,
    now: BlockNumber,
    post: PalletView,
    r: DispatchResult,
)
    requires
        setup_outcome(pre, terms, now, post, r),
        valid_policy(terms.payout_type),
    ensures
        ({
            let amount = terms.amount as nat;
            let first = upfront_amount(terms.payout_type, amount);
            let each = payout_instance_amount(terms.payout_type, amount);
            let last = completion_amount(terms.payout_type, amount);
            let count = installment_count(terms.payout_type);
            &&& pre.answer(post, 0)->call == transfer_call(
                pre.params,
                terms.asset_id,
                treasury_account(),
                terms.beneficiary,
                first as Balance,
            )
            &&& r is Ok ==> post.payouts == enqueued(pre.payouts, planned_installments(terms, now))
            &&& r is Err ==> post.payouts == pre.payouts
            &&& planned_installments(terms, now).len() == count
            &&& forall|k: int|
                0 <= k < count ==> (#[trigger] planned_installments(terms, now)[k]).instance.amount
                    == each
            &&& first + count * each + last <= amount
            &&& amount <= first + count * each + last + count + 1
            &&& divides_evenly(terms.payout_type, amount) ==> first + count * each + last == amount
            &&& match terms.payout_type {
                PayoutType::Instant => first == amount && last == 0,
                PayoutType::Periodic(payout) => {
                    &&& first == (payout.upfront as nat * amount) / 100
                    &&& each == ((payout.periodic as nat * amount) / 100)
                        / payout.num_of_periodic_payouts.count_spec()
                    &&& last == (payout.after_fully_complete as nat * amount) / 100
                },
            }
        }),
{
    let amount = terms.amount as nat;
    lemma_total_payout_bounds(terms.payout_type, amount);
    if divides_evenly(terms.payout_type, amount) {
        lemma_total_payout_exact(terms.payout_type, amount);
    }
    match terms.payout_type {
        PayoutType::Instant => {
            assert(installment_count(terms.payout_type) * payout_instance_amount(
                terms.payout_type,
                amount,
            ) == 0) by (nonlinear_arith)
                requires
                    installment_count(terms.payout_type) == 0,
            ;
        },
        PayoutType::Periodic(payout) => {
            lemma_amounts_in_closed_form(payout, amount);
            lemma_percent_of_bounds(payout.periodic as nat, amount);
            lemma_equal_shares(payout.num_of_periodic_payouts, periodic_amount(payout, amount));
        },
    }
    let asked = pre.asked(pre.answer(post, 0));
    assert(post.trace == asked.trace);
    assert(asked.trace[pre.trace.len() as int] == pre.answer(post, 0));
}

/// `block` is one of the first `upto` blocks at which an installment of the policy
/// falls due, counted from `now`: a positive multiple of the period away.
pub open spec fn is_installment_block(
    payout_type: PayoutType,
    now: BlockNumber,
    block: BlockNumber,
    upto: nat,
) -> bool {
    match payout_type {
        PayoutType::Instant => false,
        PayoutType::Periodic(payout) => {
            &&& payout.payment_each_n_blocks > 0
            &&& block > now
            &&& (block - now) % (payout.payment_each_n_blocks as int) == 0
            &&& (block - now) / (payout.payment_each_n_blocks as int) <= upto
        },
    }
}

/// Scheduling the installments of a valid policy adds one instance, the same each
/// time, behind what is due at each of the blocks `now + i * period` for `i` from 1
/// to the number of installments, and leaves every other block as it was.
pub proof fn lemma_installments_land_on_their_blocks(
    schedule: Schedule,
    terms: PayoutTerms,
    now: BlockNumber,
)
    requires
        forall|block: BlockNumber| schedule.dom().contains(block),
        valid_policy(terms.payout_type),
        schedulable(terms.payout_type, now),
    ensures
        forall|block: BlockNumber| #[trigger]
            enqueued(schedule, planned_installments(terms, now))[block] == if is_installment_block(
                terms.payout_type,
                now,
                block,
                installment_count(terms.payout_type),
            ) {
                schedule[block].push(planned_instance(terms))
            } else {
                schedule[block]
            },
{
    let planned = planned_installments(terms, now);
    assert(planned.take(planned.len() as int) =~= planned);
    lemma_prefix_lands(schedule, terms, now, planned.len());
}

/// Scheduling the first `j` of the planned installments adds one instance at each of
/// the first `j` installment blocks and leaves every other block as it was.
proof fn lemma_prefix_lands(schedule: Schedule, terms: PayoutTerms, now: BlockNumber, j: nat)
    requires
        forall|block: BlockNumber| schedule.dom().contains(block),
        valid_policy(terms.payout_type),
        schedulable(terms.payout_type, now),
        j <= installment_count(terms.payout_type),
    ensures
        forall|block: BlockNumber| #[trigger]
            enqueued(schedule, planned_installments(terms, now).take(j as int))[block]
                == if is_installment_block(terms.payout_type, now, block, j) {
                schedule[block].push(planned_instance(terms))
            } else {
                schedule[block]
            },
    decreases j,
{
    let planned = planned_installments(terms, now);
    match terms.payout_type {
        PayoutType::Instant => {
            assert(planned.take(j as int).len() == 0);
        },
        PayoutType::Periodic(payout) => {
            let period = payout.payment_each_n_blocks as int;
            let count = installment_count(terms.payout_type) as int;
            if j == 0 {
                assert(planned.take(j as int).len() == 0);
                assert forall|block: BlockNumber|
                    !is_installment_block(terms.payout_type, now, block, 0) by {
                    if block > now {
                        vstd::arithmetic::div_mod::lemma_fundamental_div_mod(block - now, period);
                        assert(period * ((block - now) / period) <= 0 || (block - now) / period > 0)
                            by (nonlinear_arith)
                            requires
                                period > 0,
                        ;
                    }
                }
            } else {
                lemma_prefix_lands(schedule, terms, now, (j - 1) as nat);
                let items = planned.take(j as int);
                assert(items.drop_last() =~= planned.take(j - 1));
                assert(j * period <= count * period) by (nonlinear_arith)
                    requires
                        j <= count,
                        period > 0,
                ;
                assert(j * period >= period) by (nonlinear_arith)
                    requires
                        j >= 1,
                        period > 0,
                ;
                let target = (now + j * period) as BlockNumber;
                assert(items.last().block_number == target);
                vstd::arithmetic::div_mod::lemma_fundamental_div_mod_converse(
                    j * period,
                    period,
                    j as int,
                    0,
                );
                assert forall|block: BlockNumber|
                    is_installment_block(terms.payout_type, now, block, j) <==> (block == target
                        || is_installment_block(terms.payout_type, now, block, (j - 1) as nat)) by {
                    let d = block - now;
                    assert(target - now == j * period);
                    assert((j * period) % period == 0);
                    assert((j * period) / period == j);
                    if block > now && d % period == 0 && d / period == j {
                        vstd::arithmetic::div_mod::lemma_fundamental_div_mod(d, period);
                        assert(d == j * period) by (nonlinear_arith)
                            requires
                                d == period * (d / period) + d % period,
                                d % period == 0,
                                d / period == j,
                        ;
                        assert(block == target);
                    }
                    if block == target {
                        assert(is_installment_block(terms.payout_type, now, block, j));
                    }
                }
                assert(!is_installment_block(terms.payout_type, now, target, (j - 1) as nat));
                let before = enqueued(schedule, planned.take(j - 1));
                assert(enqueued(schedule, items) == appended(
                    before,
                    target,
                    planned_instance(terms),
                ));
                assert forall|block: BlockNumber| #[trigger]
                    enqueued(schedule, items)[block] == if is_installment_block(
                        terms.payout_type,
                        now,
                        block,
                        j,
                    ) {
                        schedule[block].push(planned_instance(terms))
                    } else {
                        schedule[block]
                    } by {
                    if block == target {
                        assert(before[target] == schedule[target]);
                    } else {
                        assert(enqueued(schedule, items)[block] == before[block]);
                    }
                }
            }
        },
    }
}

/// At a tick, every instance that was due is either paid or deferred, never both and
/// never neither: the paid and the deferred together are what was due.
pub proof fn lemma_paid_or_deferred(due: Seq<PeriodicPayoutInstance>, paid: Seq<bool>)
    requires
        paid.len() == due.len(),
    ensures
        declined(due, paid).to_multiset().add(honoured(due, paid).to_multiset())
            =~= due.to_multiset(),
        declined(due, paid).len() + honoured(due, paid).len() == due.len(),
    decreases due.len(),
{
    broadcast use vstd::seq_lib::group_to_multiset_ensures;

    if due.len() == 0 {
        assert(due =~= Seq::<PeriodicPayoutInstance>::empty());
        assert(due.to_multiset().len() == 0);
        assert(declined(due, paid).to_multiset().len() == 0);
        assert(honoured(due, paid).to_multiset().len() == 0);
    } else {
        lemma_paid_or_deferred(due.drop_last(), paid.drop_last());
        assert(due =~= due.drop_last().push(due.last()));
    }
}

/// An instance that was not paid is among the deferred, unchanged.
pub proof fn lemma_declined_is_deferred(
    due: Seq<PeriodicPayoutInstance>,
    paid: Seq<bool>,
    i: int,
)
    requires
        paid.len() == due.len(),
        0 <= i < due.len(),
        !paid[i],
    ensures
        declined(due, paid).contains(due[i]),
    decreases due.len(),
{
    let rest = declined(due.drop_last(), paid.drop_last());
    if i == due.len() - 1 {
        assert(declined(due, paid) == rest.push(due.last()));
        assert(declined(due, paid)[rest.len() as int] == due[i]);
    } else {
        lemma_declined_is_deferred(due.drop_last(), paid.drop_last(), i);
        let k = choose|k: int| 0 <= k < rest.len() && rest[k] == due[i];
        assert(declined(due, paid)[k] == due[i]);
    }
}

/// The reschedule invariant. After the tick of block `n` nothing is left at `n`;
/// what the ledger declined stands, unchanged and in order, behind what was already
/// due `RETRY_DELAY` blocks later; every other block is as it was; and the paid
/// and the deferred together are what was due, so nothing is lost or doubled.
pub proof fn lemma_tick_reschedules(pre: PalletView, n: BlockNumber, post: PalletView)
    requires
        tick_outcome(pre, n, post),
        n + RETRY_DELAY <= u64::MAX,
    ensures
        ({
            let due = pre.payouts[n];
            let answers = post.trace.skip(pre.trace.len() as int);
            let retry = (n + RETRY_DELAY) as BlockNumber;
            &&& answers.len() == due.len()
            &&& post.payouts[n] == Seq::<PeriodicPayoutInstance>::empty()
            &&& post.payouts[retry] == pre.payouts[retry] + deferred(due, answers)
            &&& forall|block: BlockNumber|
                block != n && block != retry ==> post.payouts[block] == pre.payouts[block]
            &&& deferred(due, answers).to_multiset().add(settled(due, answers).to_multiset())
                =~= due.to_multiset()
            &&& post.payouts[n].len() + post.payouts[retry].len() + settled(due, answers).len()
                == pre.payouts[n].len() + pre.payouts[retry].len()
            &&& forall|i: int|
                0 <= i < due.len() && (#[trigger] answers[i])->result is Err
                    ==> post.payouts[retry].contains(due[i])
        }),
{
    let due = pre.payouts[n];
    let answers = post.trace.skip(pre.trace.len() as int);
    let retry = (n + RETRY_DELAY) as BlockNumber;
    let late = deferred(due, answers);
    lemma_paid_or_deferred(due, payments(answers));
    assert forall|i: int|
        0 <= i < due.len() && (#[trigger] answers[i])->result is Err implies post.payouts[retry].contains(
        due[i],
    ) by {
        lemma_declined_is_deferred(due, payments(answers), i);
        let k = choose|k: int| 0 <= k < late.len() && late[k] == due[i];
        assert(post.payouts[retry][pre.payouts[retry].len() + k] == due[i]);
    }
}

/// A successful proposal takes the next sequence index of its proposer, tells it in
/// its notification, and advances it by exactly one; a failed one takes none. The
/// earlier proposals keep their indices, and the other proposers' proposals are
/// untouched.
pub proof fn lemma_sequence_index_advances(
    pre: PalletView,
    origin: RawOrigin,
    title: Title,
    description: Description,
    asset_id: AssetId,
    amount: Balance,
    proposer: AccountId,
    beneficiary: AccountId,
    payout_type: PayoutType,
    post: PalletView,
    r: DispatchResult,
)
    requires
        propose_spend_outcome(
            pre,
            origin,
            title,
            description,
            asset_id,
            amount,
            proposer,
            beneficiary,
            payout_type,
            post,
            r,
        ),
    ensures
        r is Ok ==> pre.proposals[proposer].len() < MAX_PROPOSALS,
        r is Ok ==> is_added_proposal(
            post.events.last(),
            proposer,
            pre.proposals[proposer].len() as u16,
            amount,
            title@,
        ),
        r is Ok ==> post.proposals[proposer].len() == pre.proposals[proposer].len() + 1,
        r is Ok ==> post.proposals[proposer].drop_last() == pre.proposals[proposer],
        r is Ok ==> !post.proposals[proposer].last().approved,
        r is Err ==> post.proposals[proposer] == pre.proposals[proposer],
        forall|other: AccountId|
            other != proposer ==> post.proposals[other] == pre.proposals[other],
{
    if r is Ok {
        assert(post.proposals[proposer].drop_last() =~= pre.proposals[proposer]);
    }
}

/// No index is ever given up: approving a proposal leaves every proposer's number
/// of proposals as it was.
pub proof fn lemma_approve_keeps_indices(
    pre: PalletView,
    origin: RawOrigin,
    proposer: AccountId,
    index: u16,
    now: BlockNumber,
    post: PalletView,
    r: DispatchResult,
)
    requires
        approve_outcome(pre, origin, proposer, index, now, post, r),
    ensures
        forall|who: AccountId| post.proposals[who].len() == pre.proposals[who].len(),
{
}

/// No index is ever given up: confirming a completion leaves every proposer's
/// number of proposals as it was.
pub proof fn lemma_confirm_keeps_indices(
    pre: PalletView,
    origin: RawOrigin,
    proposer: AccountId,
    index: u16,
    post: PalletView,
    r: DispatchResult,
)
    requires
        confirm_outcome(pre, origin, proposer, index, post, r),
    ensures
        forall|who: AccountId| post.proposals[who].len() == pre.proposals[who].len(),
{
}

/// A proposal is approved once and completed once, and nothing else about it ever
/// changes: after approving or confirming, every proposal has the terms it had, is
/// still approved if it was, and still completed if it was.
pub proof fn lemma_proposals_only_advance(
    pre: PalletView,
    origin: RawOrigin,
    proposer: AccountId,
    index: u16,
    now: BlockNumber,
    post: PalletView,
    r: DispatchResult,
)
    requires
        approve_outcome(pre, origin, proposer, index, now, post, r) || confirm_outcome(
            pre,
            origin,
            proposer,
            index,
            post,
            r,
        ),
    ensures
        forall|who: AccountId, i: int|
            0 <= i < pre.proposals[who].len() ==> {
                let before = #[trigger] pre.proposals[who][i];
                let after = post.proposals[who][i];
                &&& after == SpendingProposal {
                    approved: after.approved,
                    completed: after.completed,
                    ..before
                }
                &&& before.approved ==> after.approved
                &&& before.completed ==> after.completed
                &&& (who != proposer || i != index) ==> after == before
            },
{
}

/// Every stored proposal has a valid payout policy.
pub open spec fn policies_valid(view: PalletView) -> bool {
    forall|who: AccountId, i: int|
        0 <= i < view.proposals[who].len() ==> valid_policy(
            (#[trigger] view.proposals[who][i]).payout_type,
        )
}

/// The registry only ever holds proposals with a valid payout policy: a pallet that
/// starts without proposals holds none other, whatever is done with it.
pub proof fn lemma_stored_policies_stay_valid(
    pre: PalletView,
    origin: RawOrigin,
    title: Title,
    description: Description,
    asset_id: AssetId,
    amount: Balance,
    proposer: AccountId,
    beneficiary: AccountId,
    payout_type: PayoutType,
    index: u16,
    now: BlockNumber,
    asset_id_b: AssetId,
    post: PalletView,
    r: DispatchResult,
)
    requires
        policies_valid(pre),
        ({
            ||| propose_spend_outcome(
                pre,
                origin,
                title,
                description,
                asset_id,
                amount,
                proposer,
                beneficiary,
                payout_type,
                post,
                r,
            )
            ||| approve_outcome(pre, origin, proposer, index, now, post, r)
            ||| confirm_outcome(pre, origin, proposer, index, post, r)
            ||| exchange_outcome(pre, origin, asset_id, amount, asset_id_b, post, r)
            ||| fund_native_outcome(pre, origin, amount, post, r)
            ||| fund_asset_outcome(pre, origin, amount, asset_id, post, r)
            ||| tick_outcome(pre, now, post)
        }),
    ensures
        policies_valid(post),
{
    assert forall|who: AccountId, i: int| 0 <= i < post.proposals[who].len() implies valid_policy(
        (#[trigger] post.proposals[who][i]).payout_type,
    ) by {
        if i < pre.proposals[who].len() {
            assert(valid_policy(pre.proposals[who][i].payout_type));
        }
    }
}

/// A pallet without proposals holds no invalid policy.
pub proof fn lemma_no_proposals_are_valid(view: PalletView)
    requires
        view.proposals == no_proposals(),
    ensures
        policies_valid(view),
{
}

/// A successful approval paid the share due at approval, then released the deposit
/// of the proposer, the amount that proposing held; the ledger agreed to both. The
/// proposal is approved, not completed before its time, and otherwise as it was.
pub proof fn lemma_approval_pays_and_releases(
    pre: PalletView,
    origin: RawOrigin,
    proposer: AccountId,
    index: u16,
    now: BlockNumber,
    post: PalletView,
    r: DispatchResult,
)
    requires
        approve_outcome(pre, origin, proposer, index, now, post, r),
        r is Ok,
    ensures
        ({
            let before = pre.proposals[proposer][index as int];
            let after = post.proposals[proposer][index as int];
            &&& pre.proposal(proposer, index) == Some(before)
            &&& !before.approved
            &&& post.trace.len() == pre.trace.len() + 3
            &&& pre.answer(post, 0) == (Interaction::EnsureGovernance { origin, authorized: true })
            &&& pre.answer(post, 1) is Ledger
            &&& pre.answer(post, 1)->call == upfront_call(pre.params, terms_of(before))
            &&& pre.answer(post, 1)->result is Ok
            &&& pre.answer(post, 2) is Ledger
            &&& pre.answer(post, 2)->call == hold_call(pre.params, proposer).released()
            &&& pre.answer(post, 2)->result is Ok
            &&& after == before.as_approved()
            &&& after.completed == before.completed
            &&& post.payouts == enqueued(pre.payouts, planned_installments(terms_of(before), now))
            &&& post.events == pre.events
        }),
{
    let before = pre.proposals[proposer][index as int];
    let asked = pre.asked(pre.answer(post, 0));
    let paid = asked.asked(pre.answer(post, 1));
    let released = paid.asked(pre.answer(post, 2));
    assert(post.trace == released.trace);
    assert(released.trace[pre.trace.len() as int + 0] == pre.answer(post, 0));
    assert(released.trace[pre.trace.len() as int + 1] == pre.answer(post, 1));
    assert(released.trace[pre.trace.len() as int + 2] == pre.answer(post, 2));
}

/// Approval can be asked for at every block that leaves room for the longest
/// schedule, whatever stands in the registry.
pub proof fn lemma_room_for_the_longest_schedule(
    pre: PalletView,
    proposer: AccountId,
    index: u16,
    now: BlockNumber,
)
    requires
        now <= u64::MAX - MAX_SCHEDULE_SPAN,
    ensures
        approvable_at(pre, proposer, index, now),
{
    match pre.proposal(proposer, index) {
        Some(proposal) => {
            lemma_schedulable(proposal.payout_type, now);
        },
        None => {},
    }
}

/// The deposit that approval asks the ledger to release is the deposit that
/// proposing asked it to hold: the same reason, the same account, the same amount.
pub proof fn lemma_release_matches_hold(params: Params, proposer: AccountId)
    ensures
        hold_call(params, proposer) == (LedgerCall::Hold {
            reason: HoldReason::SpendingProposal,
            who: proposer,
            amount: params.amount_held_on_proposal,
        }),
        release_call(params, proposer) == (LedgerCall::Release {
            reason: HoldReason::SpendingProposal,
            who: proposer,
            amount: params.amount_held_on_proposal,
            precision: Precision::BestEffort,
        }),
{
}

/// The pallet's own state of `post` is that of `pre`: the same proposals, the same
/// pending payouts and the same notifications.
pub open spec fn same_state(pre: PalletView, post: PalletView) -> bool {
    &&& post.params == pre.params
    &&& post.proposals == pre.proposals
    &&& post.payouts == pre.payouts
    &&& post.events == pre.events
}

/// Every operation is all or nothing: one that fails leaves the proposals, the
/// pending payouts and the notifications as they were.
pub proof fn lemma_failure_changes_nothing(
    pre: PalletView,
    origin: RawOrigin,
    title: Title,
    description: Description,
    asset_id: AssetId,
    amount: Balance,
    proposer: AccountId,
    beneficiary: AccountId,
    payout_type: PayoutType,
    index: u16,
    now: BlockNumber,
    asset_id_b: AssetId,
    post: PalletView,
    r: DispatchResult,
)
    requires
        r is Err,
        ({
            ||| propose_spend_outcome(
                pre,
                origin,
                title,
                description,
                asset_id,
                amount,
                proposer,
                beneficiary,
                payout_type,
                post,
                r,
            )
            ||| approve_outcome(pre, origin, proposer, index, now, post, r)
            ||| confirm_outcome(pre, origin, proposer, index, post, r)
            ||| exchange_outcome(pre, origin, asset_id, amount, asset_id_b, post, r)
            ||| fund_native_outcome(pre, origin, amount, post, r)
            ||| fund_asset_outcome(pre, origin, amount, asset_id, post, r)
        }),
    ensures
        same_state(pre, post),
{
}

/// Ticks, exchanges and funding do not touch the registry at all.
pub proof fn lemma_registry_untouched(
    pre: PalletView,
    origin: RawOrigin,
    asset_id_a: AssetId,
    amount: Balance,
    asset_id_b: AssetId,
    n: BlockNumber,
    post: PalletView,
    r: DispatchResult,
)
    requires
        tick_outcome(pre, n, post) || exchange_outcome(
            pre,
            origin,
            asset_id_a,
            amount,
            asset_id_b,
            post,
            r,
        ) || fund_native_outcome(pre, origin, amount, post, r) || fund_asset_outcome(
            pre,
            origin,
            amount,
            asset_id_a,
            post,
            r,
        ),
    ensures
        post.proposals == pre.proposals,
{
}

} // verus!
