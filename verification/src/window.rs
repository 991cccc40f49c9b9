//! The sliding window: a fixed-capacity circular buffer of per-interval
//! pulse deltas. New values overwrite the oldest slot as a write cursor
//! advances modulo the capacity; the buffer never shrinks or resets during
//! normal operation. Slots never yet written read as zero, which biases the
//! early average low by design.

use vstd::prelude::*;
use vstd::arithmetic::div_mod::lemma_small_mod;
use vstd::arithmetic::div_mod::lemma_add_mod_noop;
use vstd::arithmetic::div_mod::lemma_mod_add_multiples_vanish;

verus! {

/// Number of slots in the window: sixty seconds of history at ten samples a
/// second.
pub const WINDOW_CAPACITY: usize = 600;

/// The total of all pulse deltas in a sequence of slots.
pub open spec fn sum_of(s: Seq<u32>) -> int
    decreases s.len(),
{
    if s.len() == 0 {
        0
    } else {
        sum_of(s.drop_last()) + s.last()
    }
}

/// The slot contents after writing each value of `writes` in turn, starting
/// at slot `cursor` and advancing modulo the capacity.
pub open spec fn written(slots: Seq<u32>, cursor: int, writes: Seq<u32>) -> Seq<u32>
    decreases writes.len(),
{
    if writes.len() == 0 {
        slots
    } else {
        written(slots.update(cursor, writes[0]), (cursor + 1) % (WINDOW_CAPACITY as int), writes.drop_first())
    }
}

/// A fixed-capacity circular buffer of per-interval deltas with its write
/// cursor.
pub struct SampleHistory {
    slots: Vec<u32>,
    cursor: usize,
}

impl SampleHistory {
    /// The window's slots, oldest-to-newest order not guaranteed: slot `i`
    /// holds the most recent delta written at cursor position `i`.
    pub closed spec fn slots_view(&self) -> Seq<u32> {
        self.slots@
    }

    /// The slot the next delta will be written to.
    pub closed spec fn cursor_view(&self) -> int {
        self.cursor as int
    }

    /// Well-formed: exactly the fixed capacity of slots, cursor in range.
    pub open spec fn wf(&self) -> bool {
        &&& self.slots_view().len() == WINDOW_CAPACITY
        &&& 0 <= self.cursor_view() < WINDOW_CAPACITY
    }

    /// A fresh window: every slot zero, cursor at the first slot.
    pub fn new() -> (h: Self)
        ensures
            h.wf(),
            h.cursor_view() == 0,
            forall|i: int| 0 <= i < WINDOW_CAPACITY ==> h.slots_view()[i] == 0u32,
    {
        let mut slots: Vec<u32> = Vec::new();
        while slots.len() < WINDOW_CAPACITY
            invariant
                slots@.len() <= WINDOW_CAPACITY,
                forall|i: int| 0 <= i < slots@.len() ==> slots@[i] == 0u32,
            decreases WINDOW_CAPACITY - slots.len(),
        {
            slots.push(0u32);
        }
        SampleHistory { slots, cursor: 0 }
    }

    /// Stores a delta at the cursor's slot, overwriting whatever was there,
    /// and advances the cursor modulo the capacity.
    pub fn record(&mut self, delta: u32)
        requires
            old(self).wf(),
        ensures
            final(self).wf(),
            final(self).slots_view() == old(self).slots_view().update(old(self).cursor_view(), delta),
            final(self).cursor_view() == (old(self).cursor_view() + 1) % (WINDOW_CAPACITY as int),
    {
        self.slots[self.cursor] = delta;
        self.cursor = (self.cursor + 1) % WINDOW_CAPACITY;
    }

    /// The sum of all slots, stale zero-initialised ones included. Six
    /// hundred values below 2^32 always fit in 64 bits.
    pub fn sum(&self) -> (s: u64)
        requires
            self.wf(),
        ensures
            s == sum_of(self.slots_view()),
    {
        let mut acc: u64 = 0;
        let mut i: usize = 0;
        while i < WINDOW_CAPACITY
            invariant
                self.wf(),
                i <= WINDOW_CAPACITY,
                acc == sum_of(self.slots_view().take(i as int)),
                acc <= i * 0xffff_ffffu64,
            decreases WINDOW_CAPACITY - i,
        {
            proof {
                lemma_sum_take_step(self.slots_view(), i as int);
            }
            acc = acc + self.slots[i] as u64;
            i = i + 1;
        }
        proof {
            assert(self.slots_view().take(WINDOW_CAPACITY as int) =~= self.slots_view());
        }
        acc
    }
}

/// Writing never changes the number of slots.
proof fn lemma_written_len(slots: Seq<u32>, cursor: int, writes: Seq<u32>)
    requires
        slots.len() == WINDOW_CAPACITY,
        0 <= cursor < WINDOW_CAPACITY,
    ensures
        written(slots, cursor, writes).len() == slots.len(),
    decreases writes.len(),
{
    if writes.len() > 0 {
        if cursor + 1 < WINDOW_CAPACITY {
            lemma_small_mod((cursor + 1) as nat, WINDOW_CAPACITY as nat);
        } else {
            lemma_mod_add_multiples_vanish(cursor + 1 - WINDOW_CAPACITY, WINDOW_CAPACITY as int);
            lemma_small_mod((cursor + 1 - WINDOW_CAPACITY) as nat, WINDOW_CAPACITY as nat);
        }
        lemma_written_len(slots.update(cursor, writes[0]), (cursor + 1) % (WINDOW_CAPACITY as int), writes.drop_first());
    }
}

/// The slot a run of writes touches last holds the last value written: write
/// `i` of the run goes to slot `(cursor + i) % WINDOW_CAPACITY`, and within
/// one lap of the window no later write lands on that slot again.
proof fn lemma_last_write_sticks(slots: Seq<u32>, cursor: int, writes: Seq<u32>)
    requires
        slots.len() == WINDOW_CAPACITY,
        0 <= cursor < WINDOW_CAPACITY,
        1 <= writes.len() <= WINDOW_CAPACITY,
    ensures
        written(slots, cursor, writes)[(cursor + writes.len() - 1) % (WINDOW_CAPACITY as int)]
            == writes.last(),
    decreases writes.len(),
{
    let cap = WINDOW_CAPACITY as int;
    let next = (cursor + 1) % cap;
    if cursor + 1 < cap {
        lemma_small_mod((cursor + 1) as nat, WINDOW_CAPACITY as nat);
    } else {
        lemma_mod_add_multiples_vanish(cursor + 1 - cap, cap);
        lemma_small_mod((cursor + 1 - cap) as nat, WINDOW_CAPACITY as nat);
    }
    if writes.len() == 1 {
        lemma_small_mod(cursor as nat, WINDOW_CAPACITY as nat);
        assert(written(slots, cursor, writes)
            == written(slots.update(cursor, writes[0]), next, writes.drop_first()));
        assert(writes.drop_first().len() == 0);
        assert(written(slots.update(cursor, writes[0]), next, writes.drop_first())
            == slots.update(cursor, writes[0]));
    } else {
        let tail = writes.drop_first();
        lemma_last_write_sticks(slots.update(cursor, writes[0]), next, tail);
        lemma_add_mod_noop(cursor + 1, writes.len() - 2, cap);
        lemma_small_mod((writes.len() - 2) as nat, WINDOW_CAPACITY as nat);
        assert((next + (tail.len() - 1)) % cap == (cursor + writes.len() - 1) % cap);
        assert(tail.last() == writes.last());
    }
}

/// The window holds at most WINDOW_CAPACITY entries, so one more write than
/// that laps it: after WINDOW_CAPACITY + 1 writes, the slot the first write
/// filled holds the last value written, and the first is gone. `written`
/// advances slots and cursor exactly as `record` does, one write per call.
pub proof fn lemma_capacity_overwrite(slots: Seq<u32>, cursor: int, writes: Seq<u32>)
    requires
        slots.len() == WINDOW_CAPACITY,
        0 <= cursor < WINDOW_CAPACITY,
        writes.len() == WINDOW_CAPACITY + 1,
    ensures
        written(slots, cursor, writes).len() == WINDOW_CAPACITY,
        written(slots, cursor, writes)[cursor] == writes.last(),
{
    let cap = WINDOW_CAPACITY as int;
    lemma_written_len(slots, cursor, writes);
    let next = (cursor + 1) % cap;
    if cursor + 1 < cap {
        lemma_small_mod((cursor + 1) as nat, WINDOW_CAPACITY as nat);
    } else {
        lemma_mod_add_multiples_vanish(cursor + 1 - cap, cap);
        lemma_small_mod((cursor + 1 - cap) as nat, WINDOW_CAPACITY as nat);
    }
    let tail = writes.drop_first();
    lemma_last_write_sticks(slots.update(cursor, writes[0]), next, tail);
    lemma_add_mod_noop(cursor + 1, cap - 1, cap);
    lemma_small_mod((cap - 1) as nat, WINDOW_CAPACITY as nat);
    lemma_mod_add_multiples_vanish(cursor, cap);
    lemma_small_mod(cursor as nat, WINDOW_CAPACITY as nat);
    assert((next + (tail.len() - 1)) % cap == cursor);
    assert(tail.last() == writes.last());
}

/// Extending a prefix by one slot adds that slot's value to its sum.
proof fn lemma_sum_take_step(s: Seq<u32>, i: int)
    requires
        0 <= i < s.len(),
    ensures
        sum_of(s.take(i + 1)) == sum_of(s.take(i)) + s[i],
{
    assert(s.take(i + 1).drop_last() =~= s.take(i));
    assert(s.take(i + 1).last() == s[i]);
}

} // verus!
