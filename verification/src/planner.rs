//! The payout planner: the shape of a valid payout policy, the amounts that a
//! proposal pays at each stage, and the blocks at which its installments fall due.

use vstd::prelude::*;
use crate::percent::{percent_mul_floor, percent_of};
use crate::types::{
    AccountId,
    AssetId,
    Balance,
    BlockNumber,
    Error,
    NumOfPeriodicPayouts,
    PayoutType,
    PeriodicPayoutInstance,
    PeriodicPayoutPercentage,
    ScheduledPayout,
    MAX_SCHEDULE_SPAN,
};

verus! {

/// The three percentages of a periodic policy add up to 100.
pub open spec fn percentages_sum_to_100(payout: PeriodicPayoutPercentage) -> bool {
    payout.upfront + payout.after_fully_complete + payout.periodic == 100
}

/// What the check of a payout policy answers: a periodic policy must split the whole
/// amount, and its period must be positive; the sum is looked at first.
pub open spec fn policy_check(payout_type: PayoutType) -> Result<(), Error> {
    match payout_type {
        PayoutType::Instant => Ok(()),
        PayoutType::Periodic(payout) => if !percentages_sum_to_100(payout) {
            Err(Error::PayoutPercentagesMustSumTo100)
        } else if payout.payment_each_n_blocks == 0 {
            Err(Error::PaymentEachNBlocksMustBeGreaterThanZero)
        } else {
            Ok(())
        },
    }
}

/// A policy that the registry accepts.
pub open spec fn valid_policy(payout_type: PayoutType) -> bool {
    policy_check(payout_type) is Ok
}

/// Checks the shape of a payout policy.
pub fn check_payout_type(payout_type: &PayoutType) -> (r: Result<(), Error>)
    ensures
        r == policy_check(*payout_type),
{
    match payout_type {
        PayoutType::Periodic(payout) => {
            let sum: u16 = payout.upfront as u16 + payout.after_fully_complete as u16
                + payout.periodic as u16;
            if sum != 100 {
                return Err(Error::PayoutPercentagesMustSumTo100);
            }
            if payout.payment_each_n_blocks == 0 {
                return Err(Error::PaymentEachNBlocksMustBeGreaterThanZero);
            }
            Ok(())
        },
        PayoutType::Instant => Ok(()),
    }
}

/// The number of installments of a policy.
pub open spec fn installment_count(payout_type: PayoutType) -> nat {
    match payout_type {
        PayoutType::Instant => 0,
        PayoutType::Periodic(payout) => payout.num_of_periodic_payouts.count_spec(),
    }
}

/// What is paid at approval: everything for an instant payout, the upfront share for
/// a periodic one.
pub open spec fn upfront_amount(payout_type: PayoutType, amount: nat) -> nat {
    match payout_type {
        PayoutType::Instant => amount,
        PayoutType::Periodic(payout) => percent_of(payout.upfront as nat, amount),
    }
}

/// The pool that the installments of a periodic payout share.
pub open spec fn periodic_amount(payout: PeriodicPayoutPercentage, amount: nat) -> nat {
    percent_of(payout.periodic as nat, amount)
}

/// What each installment pays: the pool's share of `100 / count` per cent.
pub open spec fn payout_instance_amount(payout_type: PayoutType, amount: nat) -> nat {
    match payout_type {
        PayoutType::Instant => 0,
        PayoutType::Periodic(payout) => percent_of(
            100nat / payout.num_of_periodic_payouts.count_spec(),
            periodic_amount(payout, amount),
        ),
    }
}

/// What is paid when full completion is confirmed.
pub open spec fn completion_amount(payout_type: PayoutType, amount: nat) -> nat {
    match payout_type {
        PayoutType::Instant => 0,
        PayoutType::Periodic(payout) => percent_of(payout.after_fully_complete as nat, amount),
    }
}

/// Everything that a proposal pays if it runs to full completion.
pub open spec fn total_payout(payout_type: PayoutType, amount: nat) -> nat {
    upfront_amount(payout_type, amount) + installment_count(payout_type) * payout_instance_amount(
        payout_type,
        amount,
    ) + completion_amount(payout_type, amount)
}

/// The block at which installment number `i` (counted from 1) falls due.
pub open spec fn installment_block(payout_type: PayoutType, now: BlockNumber, i: int) -> int {
    match payout_type {
        PayoutType::Instant => now as int,
        PayoutType::Periodic(payout) => now + i * payout.payment_each_n_blocks,
    }
}

/// The last installment of the policy falls due at a block number that exists.
pub open spec fn schedulable(payout_type: PayoutType, now: BlockNumber) -> bool {
    installment_block(payout_type, now, installment_count(payout_type) as int) <= u64::MAX
}

/// Whether the last installment of the policy, counted from `now`, falls due at a
/// block number that exists.
pub fn is_schedulable(payout_type: &PayoutType, now: BlockNumber) -> (r: bool)
    ensures
        r == schedulable(*payout_type, now),
{
    match payout_type {
        PayoutType::Instant => true,
        PayoutType::Periodic(payout) => {
            let count: u64 = payout.num_of_periodic_payouts.count() as u64;
            let period: u64 = payout.payment_each_n_blocks as u64;
            assert(count * period <= 50 * 0xffff_ffff) by (nonlinear_arith)
                requires
                    count <= 50,
                    period <= 0xffff_ffff,
            ;
            now <= u64::MAX - count * period
        },
    }
}

/// The policy pays a share at full completion.
pub open spec fn pays_on_completion(payout_type: PayoutType) -> bool {
    match payout_type {
        PayoutType::Instant => false,
        PayoutType::Periodic(payout) => payout.after_fully_complete > 0,
    }
}

/// Every policy can be scheduled from a block that leaves room for the longest
/// schedule.
pub proof fn lemma_schedulable(payout_type: PayoutType, now: BlockNumber)
    requires
        now <= u64::MAX - MAX_SCHEDULE_SPAN,
    ensures
        schedulable(payout_type, now),
{
    match payout_type {
        PayoutType::Instant => {},
        PayoutType::Periodic(payout) => {
            let n = payout.num_of_periodic_payouts.count_spec();
            let period = payout.payment_each_n_blocks;
            assert(n * period <= 50 * 0xffff_ffff) by (nonlinear_arith)
                requires
                    n <= 50,
                    period <= 0xffff_ffff,
            ;
        },
    }
}

/// The terms of a proposal that the planner reads.
#[derive(Clone, Copy, Debug, PartialEq, Eq, Structural)]
pub struct PayoutTerms {
    pub proposer: AccountId,
    pub beneficiary: AccountId,
    pub asset_id: AssetId,
    pub amount: Balance,
    pub payout_type: PayoutType,
}

/// The installment that every block of the schedule receives.
pub open spec fn planned_instance(terms: PayoutTerms) -> PeriodicPayoutInstance {
    PeriodicPayoutInstance {
        proposer: terms.proposer,
        beneficiary: terms.beneficiary,
        asset_id: terms.asset_id,
        amount: payout_instance_amount(terms.payout_type, terms.amount as nat) as Balance,
    }
}

/// The installments of a proposal approved at block `now`, in the order in which they
/// are scheduled: number `i` of `count`, counted from 1, at `now + i * period`.
pub open spec fn planned_installments(terms: PayoutTerms, now: BlockNumber) -> Seq<
    ScheduledPayout,
> {
    Seq::new(
        installment_count(terms.payout_type),
        |k: int|
            ScheduledPayout {
                block_number: installment_block(terms.payout_type, now, k + 1) as BlockNumber,
                instance: planned_instance(terms),
            },
    )
}

/// What the planner makes of an approved proposal.
pub struct PayoutPlan {
    /// Paid at approval.
    pub upfront_amount: Balance,
    /// Paid when full completion is confirmed.
    pub completion_amount: Balance,
    /// Scheduled at approval, in this order.
    pub installments: Vec<ScheduledPayout>,
}

/// Plans the payouts of a proposal approved at block `now`.
pub fn plan_payouts(terms: &PayoutTerms, now: BlockNumber) -> (plan: PayoutPlan)
    requires
        schedulable(terms.payout_type, now),
    ensures
        plan.upfront_amount == upfront_amount(terms.payout_type, terms.amount as nat),
        plan.completion_amount == completion_amount(terms.payout_type, terms.amount as nat),
        plan.installments@ == planned_installments(*terms, now),
{
    match terms.payout_type {
        PayoutType::Instant => {
            let installments: Vec<ScheduledPayout> = Vec::new();
            assert(installments@ =~= planned_installments(*terms, now));
            PayoutPlan { upfront_amount: terms.amount, completion_amount: 0, installments }
        },
        PayoutType::Periodic(payout) => {
            let upfront = percent_mul_floor(payout.upfront, terms.amount);
            let completion = percent_mul_floor(payout.after_fully_complete, terms.amount);
            let pool = percent_mul_floor(payout.periodic, terms.amount);
            let count: u8 = payout.num_of_periodic_payouts.count();
            let instance_amount = percent_mul_floor(100 / count, pool);
            let instance = PeriodicPayoutInstance {
                proposer: terms.proposer,
                beneficiary: terms.beneficiary,
                asset_id: terms.asset_id,
                amount: instance_amount,
            };
            let period: u64 = payout.payment_each_n_blocks as u64;
            let mut installments: Vec<ScheduledPayout> = Vec::new();
            let mut i: u8 = 1;
            while i <= count
                invariant
                    1 <= i <= count + 1,
                    count <= 50,
                    count == installment_count(terms.payout_type),
                    terms.payout_type == PayoutType::Periodic(payout),
                    period == payout.payment_each_n_blocks,
                    now + count * period <= u64::MAX,
                    instance == planned_instance(*terms),
                    installments@ == planned_installments(*terms, now).take(i - 1),
                decreases count + 1 - i,
            {
                assert(i * period <= count * period) by (nonlinear_arith)
                    requires
                        i <= count,
                ;
                let block_number: u64 = now + (i as u64) * period;
                installments.push(ScheduledPayout { block_number, instance });
                assert(installments@ =~= planned_installments(*terms, now).take(i as int));
                i += 1;
            }
            assert(installments@ =~= planned_installments(*terms, now));
            PayoutPlan { upfront_amount: upfront, completion_amount: completion, installments }
        },
    }
}

/// An installment is the pool divided by the number of installments, rounded down:
/// since that number divides 100, the share of `100 / count` per cent is the same.
/// So the installments together fall short of the pool by less than their number.
pub proof fn lemma_equal_shares(count: NumOfPeriodicPayouts, pool: nat)
    ensures
        percent_of(100nat / count.count_spec(), pool) == pool / count.count_spec(),
        count.count_spec() * (pool / count.count_spec()) <= pool,
        pool <= count.count_spec() * (pool / count.count_spec()) + count.count_spec() - 1,
{
    match count {
        NumOfPeriodicPayouts::Five => {
            assert((20 * pool) / 100 == pool / 5);
        },
        NumOfPeriodicPayouts::Ten => {
            assert((10 * pool) / 100 == pool / 10);
        },
        NumOfPeriodicPayouts::Twenty => {
            assert((5 * pool) / 100 == pool / 20);
        },
        NumOfPeriodicPayouts::Fifty => {
            assert((2 * pool) / 100 == pool / 50);
        },
    }
}

/// What a valid periodic policy pays, in closed form: the upfront and the
/// completion share are the percentage of the amount, rounded down, and each
/// installment is the periodic share, rounded down, divided by the number of
/// installments, rounded down.
pub proof fn lemma_amounts_in_closed_form(payout: PeriodicPayoutPercentage, amount: nat)
    requires
        valid_policy(PayoutType::Periodic(payout)),
    ensures
        upfront_amount(PayoutType::Periodic(payout), amount) == (payout.upfront as nat * amount)
            / 100,
        completion_amount(PayoutType::Periodic(payout), amount) == (
        payout.after_fully_complete as nat * amount) / 100,
        payout_instance_amount(PayoutType::Periodic(payout), amount) == ((payout.periodic as nat
            * amount) / 100) / payout.num_of_periodic_payouts.count_spec(),
{
    lemma_equal_shares(payout.num_of_periodic_payouts, periodic_amount(payout, amount));
}

/// A proposal that runs to full completion never pays more than its amount, and
/// falls short of it by at most the number of installments plus one: the three
/// shares of the amount lose at most two units together, and the installments lose
/// less than their number.
pub proof fn lemma_total_payout_bounds(payout_type: PayoutType, amount: nat)
    requires
        valid_policy(payout_type),
    ensures
        total_payout(payout_type, amount) <= amount,
        amount <= total_payout(payout_type, amount) + installment_count(payout_type) + 1,
{
    match payout_type {
        PayoutType::Instant => {
            assert(installment_count(payout_type) * payout_instance_amount(payout_type, amount)
                == 0) by (nonlinear_arith)
                requires
                    installment_count(payout_type) == 0,
            ;
        },
        PayoutType::Periodic(payout) => {
            let u = payout.upfront as nat;
            let p = payout.periodic as nat;
            let c = payout.after_fully_complete as nat;
            let n = payout.num_of_periodic_payouts.count_spec();
            let pool = periodic_amount(payout, amount);
            let first = upfront_amount(payout_type, amount);
            let last = completion_amount(payout_type, amount);
            lemma_amounts_in_closed_form(payout, amount);
            lemma_equal_shares(payout.num_of_periodic_payouts, pool);
            assert(u * amount + p * amount + c * amount == 100 * amount) by (nonlinear_arith)
                requires
                    u + p + c == 100,
            ;
            assert(u * amount == 100 * first + (u * amount) % 100);
            assert(p * amount == 100 * pool + (p * amount) % 100);
            assert(c * amount == 100 * last + (c * amount) % 100);
            assert(first + pool + last <= amount);
            assert(amount <= first + pool + last + 2);
        },
    }
}

/// The amount splits without rounding: 100 divides each of the three shares of the
/// amount, and the number of installments divides the periodic share.
pub open spec fn divides_evenly(payout_type: PayoutType, amount: nat) -> bool {
    match payout_type {
        PayoutType::Instant => true,
        PayoutType::Periodic(payout) => {
            &&& (payout.upfront as nat * amount) % 100 == 0
            &&& (payout.periodic as nat * amount) % 100 == 0
            &&& (payout.after_fully_complete as nat * amount) % 100 == 0
            &&& ((payout.periodic as nat * amount) / 100)
                % payout.num_of_periodic_payouts.count_spec() == 0
        },
    }
}

/// A proposal whose amount splits without rounding pays exactly its amount if it
/// runs to full completion.
pub proof fn lemma_total_payout_exact(payout_type: PayoutType, amount: nat)
    requires
        valid_policy(payout_type),
        divides_evenly(payout_type, amount),
    ensures
        total_payout(payout_type, amount) == amount,
{
    match payout_type {
        PayoutType::Instant => {
            assert(installment_count(payout_type) * payout_instance_amount(payout_type, amount)
                == 0) by (nonlinear_arith)
                requires
                    installment_count(payout_type) == 0,
            ;
        },
        PayoutType::Periodic(payout) => {
            let u = payout.upfront as nat;
            let p = payout.periodic as nat;
            let c = payout.after_fully_complete as nat;
            let n = payout.num_of_periodic_payouts.count_spec();
            let pool = periodic_amount(payout, amount);
            let first = upfront_amount(payout_type, amount);
            let last = completion_amount(payout_type, amount);
            lemma_amounts_in_closed_form(payout, amount);
            lemma_equal_shares(payout.num_of_periodic_payouts, pool);
            assert(u * amount + p * amount + c * amount == 100 * amount) by (nonlinear_arith)
                requires
                    u + p + c == 100,
            ;
            assert(u * amount == 100 * first);
            assert(p * amount == 100 * pool);
            assert(c * amount == 100 * last);
            vstd::arithmetic::div_mod::lemma_fundamental_div_mod(pool as int, n as int);
            assert(n * (pool / n) == pool);
            assert(first + pool + last == amount);
        },
    }
}

/// An amount that is a multiple of 10,000 splits without rounding under every valid
/// policy.
pub proof fn lemma_round_amounts_divide_evenly(payout_type: PayoutType, amount: nat)
    requires
        valid_policy(payout_type),
        amount % 10_000 == 0,
    ensures
        divides_evenly(payout_type, amount),
{
    match payout_type {
        PayoutType::Instant => {},
        PayoutType::Periodic(payout) => {
            let u = payout.upfront as nat;
            let p = payout.periodic as nat;
            let c = payout.after_fully_complete as nat;
            let n = payout.num_of_periodic_payouts.count_spec();
            let k: nat = amount / 10_000;
            assert(amount == 10_000 * k);
            assert(u * amount == 100 * (100 * u * k)) by (nonlinear_arith)
                requires
                    amount == 10_000 * k,
            ;
            assert(p * amount == 100 * (100 * p * k)) by (nonlinear_arith)
                requires
                    amount == 10_000 * k,
            ;
            assert(c * amount == 100 * (100 * c * k)) by (nonlinear_arith)
                requires
                    amount == 10_000 * k,
            ;
            let share: nat = 100nat / n;
            assert(100 * p * k == n * (share * p * k)) by (nonlinear_arith)
                requires
                    n * share == 100,
            ;
            vstd::arithmetic::div_mod::lemma_fundamental_div_mod_converse(
                (p * amount) as int,
                100,
                (100 * p * k) as int,
                0,
            );
            vstd::arithmetic::div_mod::lemma_fundamental_div_mod_converse(
                (u * amount) as int,
                100,
                (100 * u * k) as int,
                0,
            );
            vstd::arithmetic::div_mod::lemma_fundamental_div_mod_converse(
                (c * amount) as int,
                100,
                (100 * c * k) as int,
                0,
            );
            vstd::arithmetic::div_mod::lemma_fundamental_div_mod_converse(
                (100 * p * k) as int,
                n as int,
                (share * p * k) as int,
                0,
            );
        },
    }
}

} // verus!
