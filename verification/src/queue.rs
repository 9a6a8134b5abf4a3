//! The payout queue: pending payout instances by the block at which they fall due.

use vstd::prelude::*;
use std::collections::HashMap;
use crate::proposal::Event;
use crate::types::{BlockNumber, PeriodicPayoutInstance, ScheduledPayout, RETRY_DELAY};

verus! {

broadcast use vstd::std_specs::hash::group_hash_axioms;

/// What is scheduled at each block. Every block has an entry; most are empty.
pub type Schedule = Map<BlockNumber, Seq<PeriodicPayoutInstance>>;

/// The schedule with nothing in it.
pub open spec fn empty_schedule() -> Schedule {
    Map::total(|block: BlockNumber| Seq::<PeriodicPayoutInstance>::empty())
}

/// `schedule` with `instance` added behind what is already due at `block`.
pub open spec fn appended(
    schedule: Schedule,
    block: BlockNumber,
    instance: PeriodicPayoutInstance,
) -> Schedule {
    schedule.insert(block, schedule[block].push(instance))
}

/// `schedule` with nothing left at `block`.
pub open spec fn cleared(schedule: Schedule, block: BlockNumber) -> Schedule {
    schedule.insert(block, Seq::<PeriodicPayoutInstance>::empty())
}

/// `schedule` with `instances` added, in their order, behind what is already due at
/// `block`.
pub open spec fn requeued(
    schedule: Schedule,
    block: BlockNumber,
    instances: Seq<PeriodicPayoutInstance>,
) -> Schedule {
    schedule.insert(block, schedule[block] + instances)
}

/// `schedule` with each of `items` added at its block, one after the other.
pub open spec fn enqueued(schedule: Schedule, items: Seq<ScheduledPayout>) -> Schedule
    decreases items.len(),
{
    if items.len() == 0 {
        schedule
    } else {
        appended(
            enqueued(schedule, items.drop_last()),
            items.last().block_number,
            items.last().instance,
        )
    }
}

/// Those of `due` that were not paid, in order: `paid[i]` tells whether `due[i]` was.
pub open spec fn declined(
    due: Seq<PeriodicPayoutInstance>,
    paid: Seq<bool>,
) -> Seq<PeriodicPayoutInstance>
    decreases due.len(),
{
    if due.len() == 0 || paid.len() != due.len() {
        Seq::empty()
    } else if paid.last() {
        declined(due.drop_last(), paid.drop_last())
    } else {
        declined(due.drop_last(), paid.drop_last()).push(due.last())
    }
}

/// Those of `due` that were paid, in order: `paid[i]` tells whether `due[i]` was.
pub open spec fn honoured(
    due: Seq<PeriodicPayoutInstance>,
    paid: Seq<bool>,
) -> Seq<PeriodicPayoutInstance>
    decreases due.len(),
{
    if due.len() == 0 || paid.len() != due.len() {
        Seq::empty()
    } else if paid.last() {
        honoured(due.drop_last(), paid.drop_last()).push(due.last())
    } else {
        honoured(due.drop_last(), paid.drop_last())
    }
}

/// The notification that `instance` was moved from `block` to the retry block.
pub open spec fn moved_forward(block: BlockNumber, instance: PeriodicPayoutInstance) -> Event {
    Event::PayoutMovedForward {
        curr_block_number: block,
        moved_to_block_number: (block + RETRY_DELAY) as BlockNumber,
        proposer: instance.proposer,
        beneficiary: instance.beneficiary,
        asset_id: instance.asset_id,
        amount: instance.amount,
    }
}

/// The notifications for `instances`, in order.
pub open spec fn moved_forward_events(
    block: BlockNumber,
    instances: Seq<PeriodicPayoutInstance>,
) -> Seq<Event> {
    Seq::new(instances.len(), |i: int| moved_forward(block, instances[i]))
}

/// What is left of `schedule` after the tick of `block` at which the payments went
/// as `paid` tells: nothing at `block`, and what was not paid behind what is due
/// `RETRY_DELAY` blocks later.
pub open spec fn settled_schedule(schedule: Schedule, block: BlockNumber, paid: Seq<bool>) -> Schedule {
    requeued(
        cleared(schedule, block),
        (block + RETRY_DELAY) as BlockNumber,
        declined(schedule[block], paid),
    )
}

/// Pending payout instances, keyed by block number. Within a block the instances keep
/// the order in which they were added.
pub struct PayoutQueue {
    slots: HashMap<BlockNumber, Vec<PeriodicPayoutInstance>>,
}

impl View for PayoutQueue {
    type V = Schedule;

    closed spec fn view(&self) -> Schedule {
        Map::total(
            |block: BlockNumber|
                if self.slots@.contains_key(block) {
                    self.slots@[block]@
                } else {
                    Seq::<PeriodicPayoutInstance>::empty()
                },
        )
    }
}

impl PayoutQueue {
    /// An empty queue.
    pub fn new() -> (r: Self)
        ensures
            r@ == empty_schedule(),
    {
        let r = PayoutQueue { slots: HashMap::new() };
        assert(r@ =~= empty_schedule());
        r
    }

    /// Every block has an entry.
    pub proof fn lemma_total(self)
        ensures
            forall|block: BlockNumber| self@.dom().contains(block),
    {
    }

    /// Adds `instance` behind what is already due at `block`.
    pub fn append(&mut self, block: BlockNumber, instance: PeriodicPayoutInstance)
        ensures
            final(self)@ == appended(old(self)@, block, instance),
    {
        let mut due = match self.slots.remove(&block) {
            Some(due) => due,
            None => Vec::new(),
        };
        due.push(instance);
        self.slots.insert(block, due);
        assert(self@ =~= appended(old(self)@, block, instance));
    }

    /// Adds each of `items` at its block, one after the other.
    pub fn schedule_all(&mut self, items: &Vec<ScheduledPayout>)
        ensures
            final(self)@ == enqueued(old(self)@, items@),
    {
        let mut i: usize = 0;
        while i < items.len()
            invariant
                i <= items.len(),
                self@ == enqueued(old(self)@, items@.take(i as int)),
            decreases items.len() - i,
        {
            let item = items[i];
            self.append(item.block_number, item.instance);
            assert(items@.take(i + 1).drop_last() =~= items@.take(i as int));
            i += 1;
        }
        assert(items@.take(i as int) =~= items@);
    }

    /// Removes and returns what is due at `block`, in the order in which it was added.
    pub fn take(&mut self, block: BlockNumber) -> (due: Vec<PeriodicPayoutInstance>)
        ensures
            due@ == old(self)@[block],
            final(self)@ == cleared(old(self)@, block),
    {
        let due = match self.slots.remove(&block) {
            Some(due) => due,
            None => Vec::new(),
        };
        assert(self@ =~= cleared(old(self)@, block));
        due
    }

    /// Puts those of `due` that were not paid at `block` behind what is due
    /// `RETRY_DELAY` blocks later, unchanged and in order, and returns one
    /// notification for each of them.
    pub fn defer(
        &mut self,
        block: BlockNumber,
        due: &Vec<PeriodicPayoutInstance>,
        paid: &Vec<bool>,
    ) -> (events: Vec<Event>)
        requires
            block + RETRY_DELAY <= u64::MAX,
            paid.len() == due.len(),
        ensures
            final(self)@ == requeued(
                old(self)@,
                (block + RETRY_DELAY) as BlockNumber,
                declined(due@, paid@),
            ),
            events@ == moved_forward_events(block, declined(due@, paid@)),
    {
        let moved_to: BlockNumber = block + RETRY_DELAY;
        let mut events: Vec<Event> = Vec::new();
        proof {
            self.lemma_total();
        }
        assert(self@ =~~= requeued(old(self)@, moved_to, declined(due@.take(0), paid@.take(0))));
        assert(events@ =~= moved_forward_events(block, declined(due@.take(0), paid@.take(0))));
        let mut i: usize = 0;
        while i < due.len()
            invariant
                i <= due.len(),
                paid.len() == due.len(),
                moved_to == block + RETRY_DELAY,
                self@ == requeued(
                    old(self)@,
                    moved_to,
                    declined(due@.take(i as int), paid@.take(i as int)),
                ),
                events@ == moved_forward_events(
                    block,
                    declined(due@.take(i as int), paid@.take(i as int)),
                ),
            decreases due.len() - i,
        {
            let instance = due[i];
            let ghost late = declined(due@.take(i as int), paid@.take(i as int));
            if !paid[i] {
                self.append(moved_to, instance);
                events.push(
                    Event::PayoutMovedForward {
                        curr_block_number: block,
                        moved_to_block_number: moved_to,
                        proposer: instance.proposer,
                        beneficiary: instance.beneficiary,
                        asset_id: instance.asset_id,
                        amount: instance.amount,
                    },
                );
            }
            proof {
                assert(due@.take(i + 1).drop_last() =~= due@.take(i as int));
                assert(paid@.take(i + 1).drop_last() =~= paid@.take(i as int));
                let late_now = declined(due@.take(i + 1), paid@.take(i + 1));
                if !paid@[i as int] {
                    assert(late_now == late.push(instance));
                    assert(self@ =~~= requeued(old(self)@, moved_to, late_now));
                    assert(events@ =~= moved_forward_events(block, late_now));
                } else {
                    assert(late_now == late);
                }
            }
            i += 1;
        }
        assert(due@.take(i as int) =~= due@);
        assert(paid@.take(i as int) =~= paid@);
        events
    }

    /// The tick of `block`, given how the payments went: `paid[i]` tells whether the
    /// payout number `i` that was due at `block` was paid. Nothing is left at `block`;
    /// what was not paid is due again `RETRY_DELAY` blocks later.
    pub fn settle(&mut self, block: BlockNumber, paid: &Vec<bool>) -> (events: Vec<Event>)
        requires
            block + RETRY_DELAY <= u64::MAX,
            paid.len() == old(self)@[block].len(),
        ensures
            final(self)@ == settled_schedule(old(self)@, block, paid@),
            events@ == moved_forward_events(block, declined(old(self)@[block], paid@)),
    {
        let due = self.take(block);
        self.defer(block, &due, paid)
    }

    /// What is due at `block`, in the order in which it was added.
    pub fn get(&self, block: BlockNumber) -> (due: Vec<PeriodicPayoutInstance>)
        ensures
            due@ == self@[block],
    {
        match self.slots.get(&block) {
            Some(due) => {
                let copy = due.clone();
                assert(copy@ =~= due@);
                copy
            },
            None => Vec::new(),
        }
    }
}

} // verus!
