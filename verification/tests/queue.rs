use tdog::queue::{Priority, Queue, SchedulerStep};

#[test]
fn test_queue() {
    let mut q = Queue::new(1, 0);
    q.push_item(100);
    q.push_item(10);

    // Highest priority first.
    assert_eq!(q.pop_highest().unwrap().0, 100);
    assert_eq!(q.pop_highest().unwrap().0, 10);
}

#[test]
fn priority_values() {
    assert_eq!(Priority::First.value(), 10_000);
    assert_eq!(Priority::Second.value(), 1_000);
    assert_eq!(Priority::Third.value(), 100);
}

#[test]
fn high_items_start_before_low_items() {
    let mut q = Queue::new(10, 0);
    assert!(q.can_add());
    let low = q.add_low();
    let med = q.add_med();
    let high = q.add_high();
    assert_eq!(q.len(), 3);
    let started = q.dispatch(0);
    assert_eq!(started, vec![(10_000, high), (1_000, med), (100, low)]);
    assert_eq!(q.len(), 0);
}

#[test]
fn dispatch_respects_the_rate_limit() {
    let mut q = Queue::new(2, 0);
    for _ in 0..5 {
        q.add_low();
    }
    let started = q.dispatch(10);
    assert_eq!(started.len(), 2);
    assert_eq!(q.len(), 3);
    assert_eq!(q.remaining_second_capacity(), 0);
    // The window has no room: sleep for the rest of the second plus 5 ms.
    assert_eq!(q.next_step(500_000_000), SchedulerStep::Sleep(505));
    // After more than a second a new window starts.
    assert_eq!(q.next_step(1_000_000_001), SchedulerStep::Dispatch);
    assert_eq!(q.remaining_second_capacity(), 2);
}

#[test]
fn paused_and_empty_queues_sleep() {
    let mut q = Queue::new(3, 0);
    assert_eq!(q.next_step(1), SchedulerStep::Sleep(20));
    q.add_high();
    q.pause();
    assert!(q.paused());
    assert_eq!(q.next_step(1), SchedulerStep::Sleep(1000));
    q.resume();
    assert_eq!(q.next_step(1), SchedulerStep::Dispatch);
}

#[test]
fn ms_remaining_in_window() {
    let q = Queue::new(3, 1_000);
    assert_eq!(q.get_ms_remaining(1_000), Some(1000));
    assert_eq!(q.get_ms_remaining(1_000 + 999_000_000), Some(1));
    assert_eq!(q.get_ms_remaining(1_000 + 999_500_000), None);
    assert_eq!(q.get_ms_remaining(1_000 + 1_000_000_000), None);
    // A clock reading before the window start counts as no time passed.
    assert_eq!(q.elapsed_ns(0), 0);
    assert_eq!(q.elapsed_ns(5_000), 4_000);
}

#[test]
fn tickets_are_handed_out_in_order() {
    let mut q = Queue::new(1, 0);
    assert_eq!(q.add_high(), 0);
    assert_eq!(q.add_low(), 1);
    assert_eq!(q.add_med(), 2);
}

#[test]
fn a_full_window_below_one_millisecond_cannot_step() {
    let mut q = Queue::new(1, 0);
    q.add_low();
    q.add_low();
    assert_eq!(q.dispatch(0).len(), 1);
    // 999.5 ms into the window there is no whole millisecond left to sleep for.
    assert!(!q.can_take_step(999_500_000));
    assert!(q.can_take_step(999_000_000));
    assert!(q.can_take_step(1_000_000_001));
}

#[test]
fn take_capacity_counts_one_start() {
    let mut q = Queue::new(3, 0);
    q.take_capacity_for_this_second(1);
    assert_eq!(q.remaining_second_capacity(), 2);
    q.reset_second_counter_if_gt_1s_elapsed(1_000_000_000);
    assert_eq!(q.remaining_second_capacity(), 2);
    q.reset_second_counter_if_gt_1s_elapsed(1_000_000_001);
    assert_eq!(q.remaining_second_capacity(), 3);
}

#[test]
fn dispatch_starts_nothing_without_capacity() {
    let mut q = Queue::new(0, 0);
    q.add_high();
    assert_eq!(q.dispatch(0), vec![]);
    assert_eq!(q.len(), 1);
    assert_eq!(q.next_step(10), SchedulerStep::Sleep(1004));
}

#[test]
fn one_window_starts_at_most_the_limit_over_many_turns() {
    let mut q = Queue::new(3, 0);
    let mut total = 0;
    for t in 0..4u64 {
        q.add_high();
        q.add_low();
        let now = t * 200_000_000;
        if q.can_take_step(now) && q.next_step(now) == SchedulerStep::Dispatch {
            total += q.dispatch(now).len();
        }
    }
    assert_eq!(total, 3);
    assert_eq!(q.len(), 5);
    // The next window starts at most three more.
    assert_eq!(q.next_step(1_000_000_001), SchedulerStep::Dispatch);
    assert_eq!(q.dispatch(1_000_000_001).len(), 3);
}

#[test]
fn no_ticket_is_started_twice() {
    let mut q = Queue::new(2, 0);
    let mut seen = Vec::new();
    for w in 0..4u64 {
        q.add_low();
        q.add_high();
        q.add_med();
        let now = w * 1_100_000_000;
        if q.can_take_step(now) && q.next_step(now) == SchedulerStep::Dispatch {
            for (_, t) in q.dispatch(now) {
                assert!(!seen.contains(&t));
                seen.push(t);
            }
        }
    }
    assert_eq!(seen.len(), 8);
}
