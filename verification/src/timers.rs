//! The scheduler's time base.  One 8-bit hardware counter runs at 4 us per
//! tick and overflows every 1024 us; its overflow interrupt maintains a
//! 32-bit overflow count, and a compare-match interrupt fires once per
//! millisecond, advancing the millisecond counter and waking every timed
//! waker whose deadline has arrived.  The interrupt handlers' state and
//! decisions are modelled here; reading the hardware registers and masking
//! interrupts stay outside the crate.

use crate::executor::{Executor, NTASKS};
use crate::minarray::{lemma_swap_remove_keeps_entries, MinArray, ARRAY_SIZE};
use vstd::prelude::*;

verus! {

/// Microseconds per counter tick (16 MHz with a prescaler of 64).
pub const TIMER0_TICK_US: u32 = 4;

/// Microseconds per counter overflow (256 ticks of 4 us).
pub const TIMER0_OVF_US: u32 = 1024;

/// Counter ticks per millisecond.
pub const TIMER0_TICKS_PER_MS: u8 = 250;

/// Microseconds since bring-up, combined from a snapshot of the counter
/// register, the not-yet-handled overflow flag, and the overflow count.
/// The pending flag compensates for the race in which the counter has
/// wrapped but its overflow interrupt has not run yet.  The result wraps
/// modulo 2^32, about every 71 minutes.
pub fn micros_from_parts(count0: u8, overflow_pending: bool, ovf_count: u32) -> (us: u32)
    ensures
        us as int == (count0 * TIMER0_TICK_US + (ovf_count + (if overflow_pending {
            1int
        } else {
            0int
        })) * TIMER0_OVF_US) % 0x1_0000_0000,
{
    let extra: u32 = if overflow_pending {
        1
    } else {
        0
    };
    let ticks: u32 = (count0 as u32) * TIMER0_TICK_US;
    let ovf_us: u32 = ovf_count.wrapping_add(extra).wrapping_mul(TIMER0_OVF_US);
    let us = ticks.wrapping_add(ovf_us);
    proof {
        let m = 0x1_0000_0000int;
        let sum = ovf_count + extra;
        vstd::arithmetic::div_mod::lemma_mul_mod_noop_left(sum, TIMER0_OVF_US as int, m);
        vstd::arithmetic::div_mod::lemma_add_mod_noop(ticks as int, sum * TIMER0_OVF_US, m);
        vstd::arithmetic::div_mod::lemma_small_mod(ticks as nat, m as nat);
    }
    us
}

/// State owned by the two timer interrupts: the overflow count, the
/// millisecond counter, the next compare target, and the timed wakers.
pub struct TimerState {
    pub timer0_ovf_count: u32,
    pub elapsed_ms: u32,
    pub ocr0a: u8,
    pub waiters: MinArray<usize>,
}

/// An entry is due once the millisecond counter has reached its deadline.
pub open spec fn entry_due(e: (u32, usize), now_ms: int) -> bool {
    e.0 <= now_ms
}

/// The millisecond counter after one tick, wrapping with its 32 bits.
pub open spec fn tick_time(prev_ms: u32) -> u32 {
    vstd::wrapping::u32_specs::wrapping_add(prev_ms, 1)
}

impl TimerState {
    pub open spec fn wf(self) -> bool {
        &&& self.waiters.wf()
        &&& forall|i: int| 0 <= i < self.waiters@.len() ==> #[trigger] self.waiters@[i].1 < NTASKS
    }

    pub fn new() -> (t: TimerState)
        ensures
            t.wf(),
            t.timer0_ovf_count == 0,
            t.elapsed_ms == 0,
            t.ocr0a == TIMER0_TICKS_PER_MS,
            t.waiters@ == Seq::<(u32, usize)>::empty(),
    {
        TimerState {
            timer0_ovf_count: 0,
            elapsed_ms: 0,
            ocr0a: TIMER0_TICKS_PER_MS,
            waiters: MinArray::new(),
        }
    }

    /// The millisecond counter, as `millis()` reads it under a critical
    /// section.
    pub fn millis(&self) -> (ms: u32)
        ensures
            ms == self.elapsed_ms,
    {
        self.elapsed_ms
    }

    /// The counter-overflow interrupt: count one more 1024 us period.
    pub fn timer0_overflow(&mut self)
        requires
            old(self).wf(),
        ensures
            final(self).wf(),
            final(self).timer0_ovf_count == vstd::wrapping::u32_specs::wrapping_add(
                old(self).timer0_ovf_count,
                1,
            ),
            final(self).elapsed_ms == old(self).elapsed_ms,
            final(self).ocr0a == old(self).ocr0a,
            final(self).waiters@ == old(self).waiters@,
    {
        self.timer0_ovf_count = self.timer0_ovf_count.wrapping_add(1);
    }

    /// Queue a waker to fire at `trigger_time_ms`.  Deadlines lie strictly
    /// in the future, and a full queue is fatal in the firmware.
    pub fn register_timed_waker(&mut self, trigger_time_ms: u32, waker: usize)
        requires
            old(self).wf(),
            trigger_time_ms > old(self).elapsed_ms,
            waker < NTASKS,
            old(self).waiters@.len() < ARRAY_SIZE,
        ensures
            final(self).wf(),
            final(self).waiters@ == old(self).waiters@.push((trigger_time_ms, waker)),
            final(self).elapsed_ms == old(self).elapsed_ms,
            final(self).timer0_ovf_count == old(self).timer0_ovf_count,
            final(self).ocr0a == old(self).ocr0a,
    {
        let r = self.waiters.push(trigger_time_ms, waker);
        proof {
            assert(r is Ok);
            assert forall|i: int| 0 <= i < self.waiters@.len() implies #[trigger] self.waiters@[i].1
                < NTASKS by {
                if i < old(self).waiters@.len() {
                    assert(old(self).waiters@[i].1 < NTASKS);
                }
            }
        }
    }

    /// The compare-match interrupt: one more millisecond has elapsed,
    /// wrapping with the 32-bit counter about every 49 days.  If the
    /// earliest deadline has arrived, every due waker is removed from the
    /// queue and its task marked ready; at the counter's last value every
    /// 32-bit deadline has arrived, so the whole queue fires before the
    /// wrap.  The compare target advances by one millisecond of ticks,
    /// wrapping with the 8-bit register.
    pub fn millisecond_tick(&mut self, ex: &mut Executor)
        requires
            old(self).wf(),
            old(ex).wf(),
        ensures
            final(self).wf(),
            final(ex).wf(),
            final(self).elapsed_ms == tick_time(old(self).elapsed_ms),
            final(self).timer0_ovf_count == old(self).timer0_ovf_count,
            final(self).ocr0a == vstd::wrapping::u8_specs::wrapping_add(
                old(self).ocr0a,
                TIMER0_TICKS_PER_MS,
            ),
            final(ex).task_count() == old(ex).task_count(),
            // entries that are not yet due survive; nothing else does
            forall|i: int|
                0 <= i < final(self).waiters@.len() ==> !entry_due(
                    #[trigger] final(self).waiters@[i],
                    tick_time(old(self).elapsed_ms) as int,
                ),
            forall|e: (u32, usize)|
                #![trigger old(self).waiters@.contains(e)]
                #![trigger final(self).waiters@.contains(e)]
                old(self).waiters@.contains(e) && !entry_due(
                    e,
                    tick_time(old(self).elapsed_ms) as int,
                ) ==> final(self).waiters@.contains(e),
            forall|e: (u32, usize)| #[trigger]
                final(self).waiters@.contains(e) ==> old(self).waiters@.contains(e),
            // a task is ready afterwards exactly if it already was or one of
            // its due wakers fired
            forall|id: int|
                0 <= id < NTASKS ==> final(ex).ready()[id] == (old(ex).ready()[id] || exists|
                    e: (u32, usize),
                |
                    #[trigger] old(self).waiters@.contains(e) && entry_due(
                        e,
                        tick_time(old(self).elapsed_ms) as int,
                    ) && e.1 == id),
    {
        self.elapsed_ms = self.elapsed_ms.wrapping_add(1);
        let now = self.elapsed_ms;

        if now >= self.waiters.min_key() {
            if now < u32::MAX {
                let mut due = self.waiters.take_less_than(now + 1);
                let ghost drained = due@;
                proof {
                    assert forall|e: (u32, usize)| #[trigger] drained.contains(e) implies old(
                        self,
                    ).waiters@.contains(e) && entry_due(e, now as int) && e.1 < NTASKS by {
                        assert(old(self).waiters@.contains(e));
                        let i = choose|i: int|
                            0 <= i < old(self).waiters@.len() && old(self).waiters@[i] == e;
                        assert(old(self).waiters@[i].1 < NTASKS);
                    }
                }
                let ghost mut k: int = 0;
                loop
                    invariant
                        ex.wf(),
                        ex.task_count() == old(ex).task_count(),
                        0 <= k <= drained.len(),
                        due@ == drained.subrange(k, drained.len() as int),
                        forall|id: int|
                            0 <= id < NTASKS ==> ex.ready()[id] == (old(ex).ready()[id] || exists|
                                j: int,
                            | 0 <= j < k && #[trigger] drained[j].1 == id),
                        forall|e: (u32, usize)| #[trigger]
                            drained.contains(e) ==> e.1 < NTASKS,
                    ensures
                        forall|id: int|
                            0 <= id < NTASKS ==> ex.ready()[id] == (old(ex).ready()[id] || exists|
                                j: int,
                            | 0 <= j < drained.len() && #[trigger] drained[j].1 == id),
                        ex.wf(),
                        ex.task_count() == old(ex).task_count(),
                    decreases due@.len(),
                {
                    match due.next() {
                        Some(waker_id) => {
                            proof {
                                assert(drained.subrange(k, drained.len() as int)[0] == drained[k]);
                                assert(waker_id == drained[k].1);
                                assert(drained.contains(drained[k]));
                            }
                            ex.add_work(waker_id);
                            proof {
                                assert(due@ =~= drained.subrange(k + 1, drained.len() as int));
                                assert(drained[k].1 == waker_id);
                                k = k + 1;
                                assert forall|id: int| 0 <= id < NTASKS implies ex.ready()[id] == (
                                old(ex).ready()[id] || exists|j: int|
                                    0 <= j < k && #[trigger] drained[j].1 == id) by {
                                    if id == waker_id {
                                        assert(drained[k - 1].1 == id);
                                    }
                                }
                            }
                        },
                        None => {
                            proof {
                                assert(drained.subrange(k, drained.len() as int).len() == 0);
                                assert(k == drained.len());
                            }
                            break ;
                        },
                    }
                }
                proof {
                    assert forall|id: int| 0 <= id < NTASKS implies ex.ready()[id] == (old(
                        ex,
                    ).ready()[id] || exists|e: (u32, usize)|
                        #[trigger] old(self).waiters@.contains(e) && entry_due(e, now as int)
                            && e.1 == id) by {
                        if exists|j: int| 0 <= j < drained.len() && #[trigger] drained[j].1 == id {
                            let j = choose|j: int|
                                0 <= j < drained.len() && #[trigger] drained[j].1 == id;
                            assert(drained.contains(drained[j]));
                        }
                        if exists|e: (u32, usize)|
                            #[trigger] old(self).waiters@.contains(e) && entry_due(e, now as int)
                                && e.1 == id {
                            let e = choose|e: (u32, usize)|
                                #[trigger] old(self).waiters@.contains(e) && entry_due(
                                    e,
                                    now as int,
                                ) && e.1 == id;
                            // a due entry cannot have survived the drain
                            if self.waiters@.contains(e) {
                                let i = choose|i: int|
                                    0 <= i < self.waiters@.len() && self.waiters@[i] == e;
                                assert(self.waiters@[i].0 >= now + 1);
                            }
                            assert(drained.contains(e));
                            let j = choose|j: int| 0 <= j < drained.len() && drained[j] == e;
                            assert(drained[j].1 == id);
                        }
                    }
                    assert forall|i: int| 0 <= i < self.waiters@.len() implies #[trigger] self
                        .waiters@[i].1 < NTASKS by {
                        assert(self.waiters@.contains(self.waiters@[i]));
                    }
                }
            } else {
                // the clock stands at its last representable millisecond,
                // so every deadline has arrived: the whole queue fires
                let ghost mut woken: Seq<(u32, usize)> = Seq::empty();
                while self.waiters.count() > 0
                    invariant
                        old(self).wf(),
                        old(ex).wf(),
                        self.waiters.wf_slots(),
                        self.elapsed_ms == now,
                        self.timer0_ovf_count == old(self).timer0_ovf_count,
                        self.ocr0a == old(self).ocr0a,
                        ex.wf(),
                        ex.task_count() == old(ex).task_count(),
                        forall|e: (u32, usize)|
                            #![trigger old(self).waiters@.contains(e)]
                            #![trigger self.waiters@.contains(e)]
                            #![trigger woken.contains(e)]
                            old(self).waiters@.contains(e) <==> self.waiters@.contains(e)
                                || woken.contains(e),
                        forall|id: int|
                            0 <= id < NTASKS ==> ex.ready()[id] == (old(ex).ready()[id] || exists|
                                j: int,
                            | 0 <= j < woken.len() && #[trigger] woken[j].1 == id),
                    decreases self.waiters@.len(),
                {
                    let ghost prev = self.waiters@;
                    let ghost prev_woken = woken;
                    let entry = self.waiters.swap_remove(0);
                    proof {
                        lemma_swap_remove_keeps_entries(
                            prev,
                            prev_woken,
                            self.waiters@,
                            prev_woken.push(entry),
                            0,
                        );
                        woken = woken.push(entry);
                        assert(prev.contains(entry));
                        assert(old(self).waiters@.contains(entry));
                        let i = choose|i: int|
                            0 <= i < old(self).waiters@.len() && old(self).waiters@[i] == entry;
                        assert(old(self).waiters@[i].1 < NTASKS);
                    }
                    ex.add_work(entry.1);
                    proof {
                        assert forall|id: int| 0 <= id < NTASKS implies ex.ready()[id] == (old(
                            ex,
                        ).ready()[id] || exists|j: int|
                            0 <= j < woken.len() && #[trigger] woken[j].1 == id) by {
                            assert(woken == prev_woken.push(entry));
                            assert(woken[woken.len() - 1] == entry);
                            if id == entry.1 {
                                assert(woken[woken.len() - 1].1 == id);
                            } else {
                                if exists|j: int|
                                    0 <= j < prev_woken.len() && #[trigger] prev_woken[j].1 == id {
                                    let j = choose|j: int|
                                        0 <= j < prev_woken.len() && #[trigger] prev_woken[j].1
                                            == id;
                                    assert(woken[j] == prev_woken[j]);
                                    assert(woken[j].1 == id);
                                }
                                if exists|j: int|
                                    0 <= j < woken.len() && #[trigger] woken[j].1 == id {
                                    let j = choose|j: int|
                                        0 <= j < woken.len() && #[trigger] woken[j].1 == id;
                                    assert(j < prev_woken.len());
                                    assert(prev_woken[j].1 == id);
                                }
                            }
                        }
                    }
                }
                self.waiters.recompute_min();
                proof {
                    assert forall|id: int| 0 <= id < NTASKS implies ex.ready()[id] == (old(
                        ex,
                    ).ready()[id] || exists|e: (u32, usize)|
                        #[trigger] old(self).waiters@.contains(e) && entry_due(e, now as int)
                            && e.1 == id) by {
                        if exists|j: int| 0 <= j < woken.len() && #[trigger] woken[j].1 == id {
                            let j = choose|j: int|
                                0 <= j < woken.len() && #[trigger] woken[j].1 == id;
                            assert(woken.contains(woken[j]));
                            assert(old(self).waiters@.contains(woken[j]));
                        }
                        if exists|e: (u32, usize)|
                            #[trigger] old(self).waiters@.contains(e) && entry_due(e, now as int)
                                && e.1 == id {
                            let e = choose|e: (u32, usize)|
                                #[trigger] old(self).waiters@.contains(e) && entry_due(
                                    e,
                                    now as int,
                                ) && e.1 == id;
                            assert(self.waiters@.len() == 0);
                            assert(woken.contains(e));
                            let j = choose|j: int| 0 <= j < woken.len() && woken[j] == e;
                            assert(woken[j].1 == id);
                        }
                    }
                }
            }
        } else {
            proof {
                assert forall|e: (u32, usize)| #[trigger]
                    self.waiters@.contains(e) implies !entry_due(e, now as int) by {
                    let i = choose|i: int| 0 <= i < self.waiters@.len() && self.waiters@[i] == e;
                    assert(self.waiters.spec_min() <= self.waiters@[i].0);
                }
                assert forall|i: int| 0 <= i < self.waiters@.len() implies !entry_due(
                    #[trigger] self.waiters@[i],
                    now as int,
                ) by {
                    assert(self.waiters@.contains(self.waiters@[i]));
                }
            }
        }

        self.ocr0a = self.ocr0a.wrapping_add(TIMER0_TICKS_PER_MS);
    }
}

} // verus!
