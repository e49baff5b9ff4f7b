use zumo_core::executor::Executor;
use zumo_core::waker::TimedWaker;
use zumo_core::timers::{micros_from_parts, TimerState};
use zumo_core::waiter::{PollResult, Waiter};

#[test]
fn executor_polls_only_ready_slots() {
    let mut ex = Executor::new();
    let d0 = ex.add_async_driver();
    let d1 = ex.add_async_driver();
    assert_eq!(d0.id, 0);
    assert_eq!(d1.id, 1);
    assert_eq!(ex.driver_count(), 2);

    // nothing is ready before the first sweep marks the installed tasks
    assert!(!ex.begin_poll(0));
    assert!(!ex.begin_poll(1));

    ex.queue_all_work();
    assert!(ex.begin_poll(0));
    // the ready bit is cleared before the poll, so a second ask is refused
    assert!(!ex.begin_poll(0));
    assert!(ex.begin_poll(1));

    // a wake issued during a poll is seen on the next sweep
    ex.add_work(1);
    assert!(ex.begin_poll(1));
    assert!(!ex.begin_poll(1));
}

#[test]
fn micros_combines_counter_and_overflows() {
    assert_eq!(micros_from_parts(100, false, 2), 100 * 4 + 2 * 1024);
    assert_eq!(micros_from_parts(100, true, 2), 100 * 4 + 3 * 1024);
    assert_eq!(micros_from_parts(0, false, 0), 0);
    assert_eq!(micros_from_parts(255, false, 0), 1020);
    // the pending flag carries the not-yet-counted overflow
    assert_eq!(micros_from_parts(0, true, 0), 1024);
    // the clock wraps modulo 2^32
    assert_eq!(micros_from_parts(0, true, 0xffff_ffff), 0);
}

#[test]
fn millisecond_tick_advances_clock_and_compare_target() {
    let mut ex = Executor::new();
    let mut t = TimerState::new();
    assert_eq!(t.millis(), 0);
    assert_eq!(t.ocr0a, 250);
    t.millisecond_tick(&mut ex);
    assert_eq!(t.millis(), 1);
    // 250 + 250 wraps with the 8-bit compare register
    assert_eq!(t.ocr0a, 244);
    t.timer0_overflow();
    assert_eq!(t.timer0_ovf_count, 1);
}

#[test]
fn waiter_registers_once_and_fires_on_time() {
    let mut ex = Executor::new();
    let d = ex.add_async_driver();
    let mut t = TimerState::new();

    let mut w = Waiter::new(100, t.millis());
    assert_eq!(w.trigger_time_ms, 100);

    // first poll: pending, and one timed waker registered
    assert_eq!(w.poll(&mut t, d.id), PollResult::Pending);
    assert_eq!(t.waiters.count(), 1);
    // later polls do not register again
    assert_eq!(w.poll(&mut t, d.id), PollResult::Pending);
    assert_eq!(t.waiters.count(), 1);

    // the task stays unwoken through the 99th tick
    for _ in 0..99 {
        t.millisecond_tick(&mut ex);
    }
    assert!(!ex.begin_poll(d.id));
    assert_eq!(w.poll(&mut t, d.id), PollResult::Pending);

    // the 100th tick wakes it, and the poll after it answers ready
    t.millisecond_tick(&mut ex);
    assert!(ex.begin_poll(d.id));
    assert_eq!(w.poll(&mut t, d.id), PollResult::Ready);
    assert_eq!(t.waiters.count(), 0);
}

#[test]
fn two_waiters_fire_in_deadline_order() {
    let mut ex = Executor::new();
    let d0 = ex.add_async_driver();
    let d1 = ex.add_async_driver();
    let mut t = TimerState::new();

    let mut w0 = Waiter::new(100, t.millis());
    assert_eq!(w0.poll(&mut t, d0.id), PollResult::Pending);

    for _ in 0..50 {
        t.millisecond_tick(&mut ex);
    }
    let mut w1 = Waiter::new(100, t.millis());
    assert_eq!(w1.trigger_time_ms, 150);
    assert_eq!(w1.poll(&mut t, d1.id), PollResult::Pending);

    for _ in 0..50 {
        t.millisecond_tick(&mut ex);
    }
    // t = 100: the first waiter is ready, the second is not
    assert!(ex.begin_poll(d0.id));
    assert!(!ex.begin_poll(d1.id));
    assert_eq!(w0.poll(&mut t, d0.id), PollResult::Ready);
    assert_eq!(w1.poll(&mut t, d1.id), PollResult::Pending);

    for _ in 0..50 {
        t.millisecond_tick(&mut ex);
    }
    // t = 150: now the second fires too
    assert!(ex.begin_poll(d1.id));
    assert_eq!(w1.poll(&mut t, d1.id), PollResult::Ready);
}

#[test]
fn timed_waker_queue_survives_undue_entries() {
    let mut ex = Executor::new();
    let d0 = ex.add_async_driver();
    let d1 = ex.add_async_driver();
    let mut t = TimerState::new();
    t.register_timed_waker(1, d0.id);
    t.register_timed_waker(3, d1.id);
    assert_eq!(t.waiters.min_key(), 1);

    t.millisecond_tick(&mut ex);
    // only the first deadline has arrived
    assert!(ex.begin_poll(d0.id));
    assert!(!ex.begin_poll(d1.id));
    assert_eq!(t.waiters.count(), 1);
    assert_eq!(t.waiters.min_key(), 3);

    t.millisecond_tick(&mut ex);
    assert!(!ex.begin_poll(d1.id));
    t.millisecond_tick(&mut ex);
    assert!(ex.begin_poll(d1.id));
    assert_eq!(t.waiters.count(), 0);
}

#[test]
fn timed_waker_comparisons_order_by_deadline() {
    let a = TimedWaker { trigger_time_ms: 5, waker: 0 };
    let b = TimedWaker { trigger_time_ms: 9, waker: 1 };
    let c = TimedWaker { trigger_time_ms: 5, waker: 7 };
    assert!(a == c);
    assert!(a != b);
    assert!(a < b);
    assert!(b > c);
}

#[test]
fn waiter_survives_the_clock_wrap() {
    let mut ex = Executor::new();
    let d = ex.add_async_driver();
    let mut t = TimerState::new();
    t.elapsed_ms = u32::MAX - 49;

    // the deadline lands 50 ms past the 32-bit wrap
    let mut w = Waiter::new(100, t.millis());
    assert_eq!(w.trigger_time_ms, 50);

    // before the wrap the waiter is pending and, since the queue orders
    // plain deadlines, not yet registered
    assert_eq!(w.poll(&mut t, d.id), PollResult::Pending);
    assert!(!w.interrupt_set);
    assert_eq!(t.waiters.count(), 0);

    // just after the wrap it is still pending, and now registers
    t.elapsed_ms = 10;
    assert_eq!(w.poll(&mut t, d.id), PollResult::Pending);
    assert!(w.interrupt_set);
    assert_eq!(t.waiters.count(), 1);

    // at the deadline it is ready, and never was before
    t.elapsed_ms = 49;
    assert_eq!(w.poll(&mut t, d.id), PollResult::Pending);
    t.elapsed_ms = 50;
    assert_eq!(w.poll(&mut t, d.id), PollResult::Ready);
}

#[test]
fn millisecond_counter_wraps_and_flushes_the_queue() {
    let mut ex = Executor::new();
    let d0 = ex.add_async_driver();
    let d1 = ex.add_async_driver();
    let mut t = TimerState::new();
    t.elapsed_ms = u32::MAX - 2;
    t.register_timed_waker(u32::MAX - 1, d0.id);
    t.register_timed_waker(u32::MAX, d1.id);

    t.millisecond_tick(&mut ex);
    assert_eq!(t.millis(), u32::MAX - 1);
    assert!(ex.begin_poll(d0.id));
    assert!(!ex.begin_poll(d1.id));

    // at the counter's last value every 32-bit deadline has arrived
    t.millisecond_tick(&mut ex);
    assert_eq!(t.millis(), u32::MAX);
    assert!(ex.begin_poll(d1.id));
    assert_eq!(t.waiters.count(), 0);

    // the next tick wraps the counter
    t.millisecond_tick(&mut ex);
    assert_eq!(t.millis(), 0);
}
