//! The request queue: items wait in the queue and are started in priority order,
//! at most `max_started_per_second` of them in any one-second window.
//!
//! The queue holds plain values: each waiting item is a `(priority, ticket)` pair, and
//! the caller keeps whatever it needs to wake the item up under its ticket. Time is
//! handed in as a monotonic clock reading in nanoseconds.
use vstd::prelude::*;
use vstd::multiset::Multiset;

verus! {

broadcast use vstd::seq_lib::group_to_multiset_ensures;

/// Nanoseconds in one second.
pub const NANOS_PER_SECOND: u64 = 1_000_000_000;

/// Nanoseconds in one millisecond.
pub const NANOS_PER_MILLI: u64 = 1_000_000;

/// Starting an item later than this into its window means the scheduler overran the window.
pub const WINDOW_OVERRUN_NS: u64 = 1_050_000_000;

/// Milliseconds the scheduler sleeps while the queue is paused.
pub const PAUSED_SLEEP_MS: u64 = 1000;

/// Milliseconds the scheduler sleeps while the queue is empty.
pub const EMPTY_SLEEP_MS: u64 = 20;

/// Milliseconds added to the rest of the window before the scheduler wakes up again.
pub const WINDOW_SLACK_MS: u64 = 5;

/// The priority levels of queued items; a bigger number is started first.
#[derive(Debug, Clone, Copy, PartialEq, Eq, Structural)]
pub enum Priority {
    First,
    Second,
    Third,
}

/// The number that a priority level stands for.
pub open spec fn priority_value(p: Priority) -> isize {
    match p {
        Priority::First => 10000,
        Priority::Second => 1000,
        Priority::Third => 100,
    }
}

impl Priority {
    /// The number that this priority level stands for: `10^4`, `10^3` or `10^2`.
    pub fn value(&self) -> (r: isize)
        ensures
            r == priority_value(*self),
    {
        match self {
            Priority::First => 10000,
            Priority::Second => 1000,
            Priority::Third => 100,
        }
    }
}

/// What the scheduler does next.
#[derive(Debug, Clone, Copy, PartialEq, Eq, Structural)]
pub enum SchedulerStep {
    /// Sleep for this many milliseconds, then take another step.
    Sleep(u64),
    /// Start the waiting items that the current window still has room for.
    Dispatch,
}

/// Queues items and starts them in priority order in a rate limited way.
pub struct Queue {
    items: Vec<(isize, u64)>,
    max_started_per_second: u32,
    window_start_ns: u64,
    started_in_window: u32,
    next_ticket: u64,
    pub(crate) paused: bool,
}

/// Nanoseconds from `start` to `now`, zero when the clock reads earlier than `start`.
pub open spec fn elapsed_between(start: u64, now: u64) -> u64 {
    if now >= start {
        (now - start) as u64
    } else {
        0
    }
}

/// Milliseconds left in a window that started `elapsed` nanoseconds ago, when at least one is.
pub open spec fn ms_left(elapsed: u64) -> Option<u64> {
    if elapsed >= NANOS_PER_SECOND {
        None
    } else if (NANOS_PER_SECOND - elapsed) / (NANOS_PER_MILLI as int) < 1 {
        None
    } else {
        Some(((NANOS_PER_SECOND - elapsed) / (NANOS_PER_MILLI as int)) as u64)
    }
}

/// Whether `x` has the highest priority among the items of `s`.
pub open spec fn is_highest(x: (isize, u64), s: Seq<(isize, u64)>) -> bool {
    forall|j: int| 0 <= j < s.len() ==> s[j].0 <= x.0
}

impl Queue {
    /// The waiting items, as `(priority, ticket)` pairs.
    pub closed spec fn queued(&self) -> Seq<(isize, u64)> {
        self.items@
    }

    /// The most items that are started in one window.
    pub closed spec fn max_per_second(&self) -> u32 {
        self.max_started_per_second
    }

    /// When the current window started.
    pub closed spec fn window_start(&self) -> u64 {
        self.window_start_ns
    }

    /// How many items were started in the current window.
    pub closed spec fn started(&self) -> u32 {
        self.started_in_window
    }

    /// The ticket that the next added item gets.
    pub closed spec fn ticket_counter(&self) -> u64 {
        self.next_ticket
    }

    /// Whether the scheduler is paused.
    pub closed spec fn is_paused(&self) -> bool {
        self.paused
    }

    /// The queue's invariant: the window is never over its limit, and every waiting
    /// item has its own ticket, handed out before the counter's current value. Every queue
    /// keeps it; `use_type_invariant` gives it for a queue in hand.
    #[verifier::type_invariant]
    pub closed spec fn wf(&self) -> bool {
        &&& self.started_in_window <= self.max_started_per_second
        &&& forall|i: int| 0 <= i < self.items@.len() ==> #[trigger] self.items@[i].1 < self.next_ticket
        &&& forall|i: int, j: int|
            0 <= i < self.items@.len() && 0 <= j < self.items@.len() && i != j
                ==> #[trigger] self.items@[i].1 != #[trigger] self.items@[j].1
    }

    /// Nanoseconds since the current window started.
    pub open spec fn elapsed(&self, now_ns: u64) -> u64 {
        elapsed_between(self.window_start(), now_ns)
    }

    /// Creates an empty queue whose first window starts at `now_ns`.
    pub fn new(max_started_per_second: u32, now_ns: u64) -> (q: Queue)
        ensures
            q.queued() == Seq::<(isize, u64)>::empty(),
            q.max_per_second() == max_started_per_second,
            q.window_start() == now_ns,
            q.started() == 0,
            q.ticket_counter() == 0,
            !q.is_paused(),
    {
        Queue {
            items: Vec::new(),
            max_started_per_second,
            window_start_ns: now_ns,
            started_in_window: 0,
            next_ticket: 0,
            paused: false,
        }
    }

    /// The number of waiting items.
    pub fn len(&self) -> (r: u64)
        ensures
            r == self.queued().len(),
    {
        self.items.len() as u64
    }

    /// Whether the scheduler is paused.
    pub fn paused(&self) -> (r: bool)
        ensures
            r == self.is_paused(),
    {
        self.paused
    }

    /// Whether another item can be queued: tickets are not used up.
    pub fn can_add(&self) -> (r: bool)
        ensures
            r == (self.ticket_counter() < u64::MAX),
    {
        self.next_ticket < u64::MAX
    }

    /// Queues an item of priority `priority`; returns its ticket.
    pub fn push_item(&mut self, priority: isize) -> (ticket: u64)
        requires
            old(self).ticket_counter() < u64::MAX,
        ensures
            ticket == old(self).ticket_counter(),
            final(self).queued() == old(self).queued().push((priority, ticket)),
            final(self).ticket_counter() == old(self).ticket_counter() + 1,
            final(self).max_per_second() == old(self).max_per_second(),
            final(self).window_start() == old(self).window_start(),
            final(self).started() == old(self).started(),
            final(self).is_paused() == old(self).is_paused(),
    {
        proof {
            use_type_invariant(&*self);
        }
        let ticket: u64 = self.next_ticket;
        let mut items: Vec<(isize, u64)> = Vec::new();
        std::mem::swap(&mut items, &mut self.items);
        let ghost before = items@;
        items.push((priority, ticket));
        assert forall|i: int, j: int|
            0 <= i < items@.len() && 0 <= j < items@.len() && i != j
                implies #[trigger] items@[i].1 != #[trigger] items@[j].1 by {
            if i < before.len() {
                assert(items@[i] == before[i]);
            }
            if j < before.len() {
                assert(items@[j] == before[j]);
            }
        }
        assert forall|i: int| 0 <= i < items@.len() implies #[trigger] items@[i].1 < ticket + 1 by {
            if i < before.len() {
                assert(items@[i] == before[i]);
            }
        }
        self.next_ticket = ticket + 1;
        self.items = items;
        ticket
    }

    /// Queues an item at the highest priority; returns its ticket.
    pub fn add_high(&mut self) -> (ticket: u64)
        requires
            old(self).ticket_counter() < u64::MAX,
        ensures
            ticket == old(self).ticket_counter(),
            final(self).queued() == old(self).queued().push((priority_value(Priority::First), ticket)),
            final(self).ticket_counter() == old(self).ticket_counter() + 1,
            final(self).max_per_second() == old(self).max_per_second(),
            final(self).window_start() == old(self).window_start(),
            final(self).started() == old(self).started(),
            final(self).is_paused() == old(self).is_paused(),
    {
        self.push_item(Priority::First.value())
    }

    /// Queues an item at the middle priority; returns its ticket.
    pub fn add_med(&mut self) -> (ticket: u64)
        requires
            old(self).ticket_counter() < u64::MAX,
        ensures
            ticket == old(self).ticket_counter(),
            final(self).queued() == old(self).queued().push((priority_value(Priority::Second), ticket)),
            final(self).ticket_counter() == old(self).ticket_counter() + 1,
            final(self).max_per_second() == old(self).max_per_second(),
            final(self).window_start() == old(self).window_start(),
            final(self).started() == old(self).started(),
            final(self).is_paused() == old(self).is_paused(),
    {
        self.push_item(Priority::Second.value())
    }

    /// Queues an item at the lowest priority; returns its ticket.
    pub fn add_low(&mut self) -> (ticket: u64)
        requires
            old(self).ticket_counter() < u64::MAX,
        ensures
            ticket == old(self).ticket_counter(),
            final(self).queued() == old(self).queued().push((priority_value(Priority::Third), ticket)),
            final(self).ticket_counter() == old(self).ticket_counter() + 1,
            final(self).max_per_second() == old(self).max_per_second(),
            final(self).window_start() == old(self).window_start(),
            final(self).started() == old(self).started(),
            final(self).is_paused() == old(self).is_paused(),
    {
        self.push_item(Priority::Third.value())
    }

    /// Nanoseconds since the current window started.
    pub fn elapsed_ns(&self, now_ns: u64) -> (r: u64)
        ensures
            r == self.elapsed(now_ns),
    {
        if now_ns >= self.window_start_ns {
            now_ns - self.window_start_ns
        } else {
            0
        }
    }

    /// Counts one more item as started in the current window.
    pub fn take_capacity_for_this_second(&mut self, now_ns: u64)
        requires
            old(self).elapsed(now_ns) < WINDOW_OVERRUN_NS,
            old(self).started() < old(self).max_per_second(),
        ensures
            final(self).started() == old(self).started() + 1,
            final(self).queued() == old(self).queued(),
            final(self).max_per_second() == old(self).max_per_second(),
            final(self).window_start() == old(self).window_start(),
            final(self).ticket_counter() == old(self).ticket_counter(),
            final(self).is_paused() == old(self).is_paused(),
    {
        proof {
            use_type_invariant(&*self);
        }
        self.started_in_window = self.started_in_window + 1;
    }

    /// Whole milliseconds left in the current window, or `None` when less than one is left.
    pub fn get_ms_remaining(&self, now_ns: u64) -> (r: Option<u64>)
        ensures
            r == ms_left(self.elapsed(now_ns)),
    {
        let elapsed: u64 = self.elapsed_ns(now_ns);
        if elapsed >= NANOS_PER_SECOND {
            return None;
        }
        let ms = (NANOS_PER_SECOND - elapsed) / NANOS_PER_MILLI;
        if ms < 1 {
            return None;
        }
        Some(ms)
    }

    /// How many more items the current window may start.
    pub fn remaining_second_capacity(&self) -> (r: u32)
        ensures
            r == self.max_per_second() - self.started(),
    {
        proof {
            use_type_invariant(self);
        }
        self.max_started_per_second - self.started_in_window
    }

    /// Starts a new window at `now_ns` when more than one second has passed since the current one started.
    pub fn reset_second_counter_if_gt_1s_elapsed(&mut self, now_ns: u64)
        ensures
            old(self).elapsed(now_ns) > NANOS_PER_SECOND ==> final(self).window_start() == now_ns
                && final(self).started() == 0,
            old(self).elapsed(now_ns) <= NANOS_PER_SECOND ==> final(self).window_start()
                == old(self).window_start() && final(self).started() == old(self).started(),
            final(self).queued() == old(self).queued(),
            final(self).max_per_second() == old(self).max_per_second(),
            final(self).ticket_counter() == old(self).ticket_counter(),
            final(self).is_paused() == old(self).is_paused(),
    {
        proof {
            use_type_invariant(&*self);
        }
        let elapsed: u64 = self.elapsed_ns(now_ns);
        if elapsed > NANOS_PER_SECOND {
            self.window_start_ns = now_ns;
            self.started_in_window = 0;
        }
    }

    /// The window start and started count after the reset at `now_ns`.
    pub open spec fn window_after_reset(&self, now_ns: u64) -> (u64, u32) {
        if self.elapsed(now_ns) > NANOS_PER_SECOND {
            (now_ns, 0u32)
        } else {
            (self.window_start(), self.started())
        }
    }

    /// The step that the scheduler takes at `now_ns`, or `None` where the window has less
    /// than a millisecond left but has no room (the scheduler cannot tell how long to sleep).
    pub open spec fn planned_step(&self, now_ns: u64) -> Option<SchedulerStep> {
        let (start, started) = self.window_after_reset(now_ns);
        let capacity = self.max_per_second() - started;
        if self.is_paused() {
            Some(SchedulerStep::Sleep(PAUSED_SLEEP_MS))
        } else if self.queued().len() == 0 {
            Some(SchedulerStep::Sleep(EMPTY_SLEEP_MS))
        } else if capacity == 0 {
            match ms_left(elapsed_between(start, now_ns)) {
                Some(ms) => Some(SchedulerStep::Sleep((ms + WINDOW_SLACK_MS) as u64)),
                None => None,
            }
        } else {
            Some(SchedulerStep::Dispatch)
        }
    }

    /// Whether the scheduler can take a step at `now_ns` (see `planned_step`).
    pub fn can_take_step(&self, now_ns: u64) -> (r: bool)
        ensures
            r == self.planned_step(now_ns) is Some,
    {
        proof {
            use_type_invariant(self);
        }
        if self.paused || self.items.len() == 0 {
            return true;
        }
        let elapsed: u64 = self.elapsed_ns(now_ns);
        if elapsed > NANOS_PER_SECOND {
            return true;
        }
        if self.started_in_window < self.max_started_per_second {
            return true;
        }
        self.get_ms_remaining(now_ns).is_some()
    }

    /// One turn of the scheduler loop: starts a new window when the current one is over,
    /// then decides whether to sleep or to start waiting items.
    pub fn next_step(&mut self, now_ns: u64) -> (step: SchedulerStep)
        requires
            old(self).planned_step(now_ns) is Some,
        ensures
            old(self).planned_step(now_ns) == Some(step),
            (final(self).window_start(), final(self).started()) == old(self).window_after_reset(now_ns),
            final(self).queued() == old(self).queued(),
            final(self).max_per_second() == old(self).max_per_second(),
            final(self).ticket_counter() == old(self).ticket_counter(),
            final(self).is_paused() == old(self).is_paused(),
    {
        self.reset_second_counter_if_gt_1s_elapsed(now_ns);
        let heap_len: usize = self.items.len();
        let remaining: u32 = self.remaining_second_capacity();
        let ms_remaining = self.get_ms_remaining(now_ns);
        if self.paused {
            return SchedulerStep::Sleep(PAUSED_SLEEP_MS);
        }
        if heap_len == 0 {
            return SchedulerStep::Sleep(EMPTY_SLEEP_MS);
        }
        if remaining == 0 {
            let ms = match ms_remaining {
                Some(ms) => ms,
                None => {
                    assert(false);
                    0
                },
            };
            return SchedulerStep::Sleep(ms + WINDOW_SLACK_MS);
        }
        SchedulerStep::Dispatch
    }

    /// Removes and returns a waiting item of the highest priority.
    pub fn pop_highest(&mut self) -> (r: Option<(isize, u64)>)
        ensures
            r is None <==> old(self).queued().len() == 0,
            r is None ==> final(self).queued() == old(self).queued(),
            r matches Some(x) ==> exists|i: int|
                0 <= i < old(self).queued().len() && old(self).queued()[i] == x
                    && final(self).queued() == old(self).queued().remove(i),
            r matches Some(x) ==> is_highest(x, old(self).queued()),
            final(self).max_per_second() == old(self).max_per_second(),
            final(self).window_start() == old(self).window_start(),
            final(self).started() == old(self).started(),
            final(self).ticket_counter() == old(self).ticket_counter(),
            final(self).is_paused() == old(self).is_paused(),
    {
        proof {
            use_type_invariant(&*self);
        }
        let n: usize = self.items.len();
        if n == 0 {
            return None;
        }
        let mut best: usize = 0;
        let mut k: usize = 1;
        while k < n
            invariant
                n == self.items@.len(),
                1 <= k <= n,
                best < n,
                forall|j: int| 0 <= j < k ==> self.items@[j].0 <= self.items@[best as int].0,
            decreases n - k,
        {
            if self.items[k].0 > self.items[best].0 {
                best = k;
            }
            k = k + 1;
        }
        let mut items: Vec<(isize, u64)> = Vec::new();
        std::mem::swap(&mut items, &mut self.items);
        let ghost before = items@;
        let x = items.remove(best);
        assert(items@ == before.remove(best as int));
        assert(before[best as int] == x);
        assert forall|i: int| 0 <= i < items@.len() implies #[trigger] items@[i].1 < self.next_ticket by {
            if i < best {
                assert(items@[i] == before[i]);
            } else {
                assert(items@[i] == before[i + 1]);
            }
        }
        assert forall|i: int, j: int|
            0 <= i < items@.len() && 0 <= j < items@.len() && i != j
                implies #[trigger] items@[i].1 != #[trigger] items@[j].1 by {
            let ii = if i < best { i } else { i + 1 };
            let jj = if j < best { j } else { j + 1 };
            assert(items@[i] == before[ii]);
            assert(items@[j] == before[jj]);
        }
        self.items = items;
        assert(old(self).queued()[best as int] == x);
        assert(self.queued() == old(self).queued().remove(best as int));
        Some(x)
    }

    /// Starts as many waiting items as the current window still has room for, highest
    /// priority first; returns the started items in the order they were started.
    pub fn dispatch(&mut self, now_ns: u64) -> (started: Vec<(isize, u64)>)
        requires
            old(self).queued().len() > 0 && old(self).started() < old(self).max_per_second()
                ==> old(self).elapsed(now_ns) < WINDOW_OVERRUN_NS,
        ensures
            started@.len() == if old(self).queued().len() < old(self).max_per_second()
                - old(self).started() {
                old(self).queued().len() as int
            } else {
                old(self).max_per_second() - old(self).started()
            },
            final(self).started() == old(self).started() + started@.len(),
            started@.to_multiset().add(final(self).queued().to_multiset())
                == old(self).queued().to_multiset(),
            forall|i: int, j: int|
                0 <= i < j < started@.len() ==> #[trigger] started@[i].0 >= #[trigger] started@[j].0,
            forall|i: int| 0 <= i < started@.len() ==> is_highest(#[trigger] started@[i], final(self).queued()),
            forall|i: int, j: int| 0 <= i < started@.len() && 0 <= j < final(self).queued().len()
                ==> #[trigger] started@[i].1 != #[trigger] final(self).queued()[j].1,
            forall|i: int, j: int| 0 <= i < j < started@.len() ==> #[trigger] started@[i].1 != #[trigger] started@[j].1,
            final(self).max_per_second() == old(self).max_per_second(),
            final(self).window_start() == old(self).window_start(),
            final(self).ticket_counter() == old(self).ticket_counter(),
            final(self).is_paused() == old(self).is_paused(),
    {
        let mut started: Vec<(isize, u64)> = Vec::new();
        let capacity: u32 = self.remaining_second_capacity();
        let ghost orig = self.items@;
        let mut i: u32 = 0;
        while i < capacity
            invariant_except_break
                i <= capacity,
                capacity == old(self).max_per_second() - old(self).started(),
                started@.len() == i,
                self.started() == old(self).started() + i,
                self.items@.len() + i == orig.len(),
                orig == old(self).queued(),
                old(self).queued().len() > 0 && old(self).started() < old(self).max_per_second()
                    ==> old(self).elapsed(now_ns) < WINDOW_OVERRUN_NS,
                started@.to_multiset().add(self.items@.to_multiset()) == orig.to_multiset(),
                forall|a: int, b: int|
                    0 <= a < b < started@.len() ==> #[trigger] started@[a].0 >= #[trigger] started@[b].0,
                forall|a: int| 0 <= a < started@.len() ==> is_highest(#[trigger] started@[a], self.items@),
                forall|a: int, j: int| 0 <= a < started@.len() && 0 <= j < self.items@.len()
                    ==> #[trigger] started@[a].1 != #[trigger] self.items@[j].1,
                forall|a: int, b: int| 0 <= a < b < started@.len() ==> #[trigger] started@[a].1 != #[trigger] started@[b].1,
                self.max_per_second() == old(self).max_per_second(),
                self.window_start() == old(self).window_start(),
                self.ticket_counter() == old(self).ticket_counter(),
                self.is_paused() == old(self).is_paused(),
            ensures
                started@.len() == if orig.len() < capacity { orig.len() as int } else { capacity as int },
                self.started() == old(self).started() + started@.len(),
                started@.to_multiset().add(self.items@.to_multiset()) == orig.to_multiset(),
                forall|a: int, b: int|
                    0 <= a < b < started@.len() ==> #[trigger] started@[a].0 >= #[trigger] started@[b].0,
                forall|a: int| 0 <= a < started@.len() ==> is_highest(#[trigger] started@[a], self.items@),
                forall|a: int, j: int| 0 <= a < started@.len() && 0 <= j < self.items@.len()
                    ==> #[trigger] started@[a].1 != #[trigger] self.items@[j].1,
                forall|a: int, b: int| 0 <= a < b < started@.len() ==> #[trigger] started@[a].1 != #[trigger] started@[b].1,
                self.max_per_second() == old(self).max_per_second(),
                self.window_start() == old(self).window_start(),
                self.ticket_counter() == old(self).ticket_counter(),
                self.is_paused() == old(self).is_paused(),
            decreases capacity - i,
        {
            proof {
                use_type_invariant(&*self);
            }
            let ghost items_before = self.items@;
            let ghost started_before = started@;
            match self.pop_highest() {
                Some(x) => {
                    self.take_capacity_for_this_second(now_ns);
                    let ghost k = choose|k: int|
                        0 <= k < items_before.len() && items_before[k] == x
                            && self.items@ == items_before.remove(k);
                    started.push(x);
                    assert(started@.to_multiset() == started_before.to_multiset().insert(x));
                    assert(self.items@.to_multiset() == items_before.to_multiset().remove(x));
                    assert(items_before.to_multiset().count(x) > 0) by {
                        assert(items_before.contains(x));
                    }
                    assert(started@.to_multiset().add(self.items@.to_multiset())
                        =~= started_before.to_multiset().add(items_before.to_multiset()));
                    assert forall|a: int| 0 <= a < started@.len() implies is_highest(
                        #[trigger] started@[a],
                        self.items@,
                    ) by {
                        assert forall|j: int| 0 <= j < self.items@.len() implies self.items@[j].0
                            <= started@[a].0 by {
                            let jj = if j < k { j } else { j + 1 };
                            assert(self.items@[j] == items_before[jj]);
                            if a < started_before.len() {
                                assert(started@[a] == started_before[a]);
                            }
                        }
                    }
                    assert forall|a: int, j: int| 0 <= a < started@.len() && 0 <= j < self.items@.len()
                        implies #[trigger] started@[a].1 != #[trigger] self.items@[j].1 by {
                        let jj = if j < k { j } else { j + 1 };
                        assert(self.items@[j] == items_before[jj]);
                        if a < started_before.len() {
                            assert(started@[a] == started_before[a]);
                        } else {
                            assert(started@[a] == items_before[k]);
                        }
                    }
                    assert forall|a: int, b: int| 0 <= a < b < started@.len()
                        implies #[trigger] started@[a].1 != #[trigger] started@[b].1 by {
                        assert(started@[a] == started_before[a]);
                        if b == started_before.len() {
                            assert(started@[b] == items_before[k]);
                        } else {
                            assert(started@[b] == started_before[b]);
                        }
                    }
                    assert forall|a: int, b: int|
                        0 <= a < b < started@.len() implies #[trigger] started@[a].0
                        >= #[trigger] started@[b].0 by {
                        assert(started@[a] == started_before[a]);
                        if b == started_before.len() {
                            assert(items_before[k] == x);
                        } else {
                            assert(started@[b] == started_before[b]);
                        }
                    }
                },
                None => {
                    break;
                },
            }
            i = i + 1;
        }
        started
    }

    /// Stops starting items until `resume` is called.
    pub fn pause(&mut self)
        ensures
            final(self).is_paused(),
            final(self).queued() == old(self).queued(),
            final(self).max_per_second() == old(self).max_per_second(),
            final(self).window_start() == old(self).window_start(),
            final(self).started() == old(self).started(),
            final(self).ticket_counter() == old(self).ticket_counter(),
    {
        proof {
            use_type_invariant(&*self);
        }
        self.paused = true;
    }

    /// Starts items again after `pause`.
    pub fn resume(&mut self)
        ensures
            !final(self).is_paused(),
            final(self).queued() == old(self).queued(),
            final(self).max_per_second() == old(self).max_per_second(),
            final(self).window_start() == old(self).window_start(),
            final(self).started() == old(self).started(),
            final(self).ticket_counter() == old(self).ticket_counter(),
    {
        proof {
            use_type_invariant(&*self);
        }
        self.paused = false;
    }
}

/// A paused queue starts nothing: whatever the state of its window, the scheduler's step is
/// to sleep for a second.
pub proof fn law_paused_queue_sleeps(q: Queue, now_ns: u64)
    requires
        q.is_paused(),
    ensures
        q.planned_step(now_ns) == Some(SchedulerStep::Sleep(PAUSED_SLEEP_MS)),
{
}

/// The rate limit: no window ever starts more items than the limit.
pub proof fn law_window_within_limit(q: Queue)
    requires
        q.wf(),
    ensures
        q.started() <= q.max_per_second(),
{
}

/// Priority order holds across scheduler turns: when a dispatch `s1` left the queue `q1`
/// behind and a later dispatch `s2` started items of `q1` (no item was added in between),
/// every item of `s1` has a priority at least that of every item of `s2`. In particular an
/// item queued with `add_low` never starts before one queued with `add_high`.
pub proof fn law_priority_order_across_turns(
    s1: Seq<(isize, u64)>,
    q1: Seq<(isize, u64)>,
    s2: Seq<(isize, u64)>,
    q2: Seq<(isize, u64)>,
)
    requires
        forall|a: int| 0 <= a < s1.len() ==> is_highest(#[trigger] s1[a], q1),
        s2.to_multiset().add(q2.to_multiset()) == q1.to_multiset(),
    ensures
        forall|a: int, b: int| 0 <= a < s1.len() && 0 <= b < s2.len() ==> #[trigger] s1[a].0 >= #[trigger] s2[b].0,
{
    assert forall|a: int, b: int| 0 <= a < s1.len() && 0 <= b < s2.len() implies #[trigger] s1[a].0
        >= #[trigger] s2[b].0 by {
        let x = s2[b];
        assert(s2.contains(x));
        assert(s2.to_multiset().count(x) > 0);
        assert(q1.to_multiset().count(x) > 0);
        assert(q1.contains(x));
        let j = choose|j: int| 0 <= j < q1.len() && q1[j] == x;
        assert(is_highest(s1[a], q1));
        assert(q1[j].0 <= s1[a].0);
    }
}

/// Whether `q2` can follow `q` in one turn of the scheduler loop that started the items
/// `started`: either the queue was changed without a new window (a dispatch, which counts the
/// items it starts, or adding, pausing or resuming, which start none), or the scheduler took
/// its step at `now`, which may start a new window and starts no item.
pub open spec fn queue_turn(q: Queue, q2: Queue, started: Seq<(isize, u64)>, now: u64) -> bool {
    &&& q2.max_per_second() == q.max_per_second()
    &&& {
        ||| q2.window_start() == q.window_start() && q2.started() == q.started() + started.len()
        ||| started.len() == 0 && (q2.window_start(), q2.started()) == q.window_after_reset(now)
    }
}

/// The number of items started over a run of turns.
pub open spec fn total_started(ss: Seq<Seq<(isize, u64)>>) -> int
    decreases ss.len(),
{
    if ss.len() == 0 {
        0
    } else {
        total_started(ss.drop_last()) + ss.last().len()
    }
}

/// The rate limit across turns: over any run of scheduler turns within one window (the
/// states `qs`, where turn `k` started the items `ss[k]` at the clock reading `nows[k]`),
/// the items started add up to the window's count, and so to at most the limit.
pub proof fn law_window_limit_across_turns(qs: Seq<Queue>, ss: Seq<Seq<(isize, u64)>>, nows: Seq<u64>)
    requires
        qs.len() == ss.len() + 1,
        nows.len() == ss.len(),
        forall|k: int| 0 <= k < qs.len() ==> (#[trigger] qs[k]).wf(),
        forall|k: int| 0 <= k < ss.len() ==> queue_turn(#[trigger] qs[k], qs[k + 1], ss[k], nows[k]),
        forall|k: int| 0 <= k < qs.len() ==> (#[trigger] qs[k]).window_start() == qs[0].window_start(),
    ensures
        qs.last().max_per_second() == qs[0].max_per_second(),
        qs[0].started() + total_started(ss) == qs.last().started(),
        total_started(ss) <= qs[0].max_per_second(),
    decreases ss.len(),
{
    if ss.len() > 0 {
        let n = ss.len() - 1;
        let qs1 = qs.drop_last();
        let ss1 = ss.drop_last();
        let nows1 = nows.drop_last();
        assert forall|k: int| 0 <= k < qs1.len() implies (#[trigger] qs1[k]).wf() by {
            assert(qs1[k] == qs[k]);
        }
        assert forall|k: int| 0 <= k < ss1.len() implies queue_turn(#[trigger] qs1[k], qs1[k + 1], ss1[k], nows1[k]) by {
            assert(qs1[k] == qs[k] && qs1[k + 1] == qs[k + 1] && ss1[k] == ss[k] && nows1[k] == nows[k]);
            assert(queue_turn(qs[k], qs[k + 1], ss[k], nows[k]));
        }
        assert forall|k: int| 0 <= k < qs1.len() implies (#[trigger] qs1[k]).window_start() == qs1[0].window_start() by {
            assert(qs1[k] == qs[k]);
            assert(qs[0].window_start() == qs[0].window_start());
        }
        law_window_limit_across_turns(qs1, ss1, nows1);
        let a = qs[n];
        let b = qs[n + 1];
        assert(qs1.last() == a);
        assert(queue_turn(a, b, ss[n], nows[n]));
        assert(a.window_start() == qs[0].window_start() && b.window_start() == qs[0].window_start());
        assert(qs.last() == b);
        assert(b.wf());
        law_window_within_limit(b);
    }
}

/// Whether an item with ticket `t` is among `s`.
pub open spec fn has_ticket(s: Seq<(isize, u64)>, t: u64) -> bool {
    exists|j: int| 0 <= j < s.len() && (#[trigger] s[j]).1 == t
}

/// Whether `q2` can follow `q` after one change of the queue that started the items
/// `started` (each with its own ticket): the started items were waiting in `q` and wait no
/// more in `q2`, and every item waiting in `q2` was waiting in `q` or was added with a new
/// ticket. A dispatch is such a change (`lemma_dispatch_turn`), and so is adding an item
/// (`lemma_add_turn`); a step of the scheduler, pausing and resuming leave the waiting items
/// as they are.
pub open spec fn ticket_turn(q: Queue, q2: Queue, started: Seq<(isize, u64)>) -> bool {
    &&& q.ticket_counter() <= q2.ticket_counter()
    &&& forall|a: int| 0 <= a < started.len() ==> has_ticket(q.queued(), #[trigger] started[a].1)
        && !has_ticket(q2.queued(), started[a].1)
    &&& forall|a: int, b: int| 0 <= a < b < started.len() ==> #[trigger] started[a].1 != #[trigger] started[b].1
    &&& forall|t: u64| #[trigger] has_ticket(q2.queued(), t) ==> has_ticket(q.queued(), t) || q.ticket_counter() <= t
}

/// What `dispatch` ensures makes a `ticket_turn`.
pub proof fn lemma_dispatch_turn(q: Queue, q2: Queue, started: Seq<(isize, u64)>)
    requires
        started.to_multiset().add(q2.queued().to_multiset()) == q.queued().to_multiset(),
        forall|i: int, j: int| 0 <= i < started.len() && 0 <= j < q2.queued().len()
            ==> #[trigger] started[i].1 != #[trigger] q2.queued()[j].1,
        forall|i: int, j: int| 0 <= i < j < started.len() ==> #[trigger] started[i].1 != #[trigger] started[j].1,
        q2.ticket_counter() == q.ticket_counter(),
    ensures
        ticket_turn(q, q2, started),
{
    broadcast use vstd::seq_lib::group_to_multiset_ensures;
    assert forall|a: int| 0 <= a < started.len() implies has_ticket(q.queued(), #[trigger] started[a].1)
        && !has_ticket(q2.queued(), started[a].1) by {
        let x = started[a];
        assert(started.contains(x));
        assert(q.queued().to_multiset().count(x) > 0);
        assert(q.queued().contains(x));
        let j = choose|j: int| 0 <= j < q.queued().len() && q.queued()[j] == x;
        assert(q.queued()[j].1 == x.1);
        if has_ticket(q2.queued(), x.1) {
            let j2 = choose|j2: int| 0 <= j2 < q2.queued().len() && (#[trigger] q2.queued()[j2]).1 == x.1;
            assert(started[a].1 != q2.queued()[j2].1);
        }
    }
    assert forall|t: u64| #[trigger] has_ticket(q2.queued(), t) implies has_ticket(q.queued(), t) || q.ticket_counter() <= t by {
        let j = choose|j: int| 0 <= j < q2.queued().len() && (#[trigger] q2.queued()[j]).1 == t;
        let y = q2.queued()[j];
        assert(q2.queued().contains(y));
        assert(q.queued().to_multiset().count(y) > 0);
        assert(q.queued().contains(y));
        let i = choose|i: int| 0 <= i < q.queued().len() && q.queued()[i] == y;
        assert(q.queued()[i].1 == t);
    }
}

/// Adding an item (`add_high`, `add_med`, `add_low`) makes a `ticket_turn` that starts nothing.
pub proof fn lemma_add_turn(q: Queue, q2: Queue, p: isize)
    requires
        q2.queued() == q.queued().push((p, q.ticket_counter())),
        q2.ticket_counter() == q.ticket_counter() + 1,
    ensures
        ticket_turn(q, q2, Seq::empty()),
{
    assert forall|t: u64| #[trigger] has_ticket(q2.queued(), t) implies has_ticket(q.queued(), t) || q.ticket_counter() <= t by {
        let j = choose|j: int| 0 <= j < q2.queued().len() && (#[trigger] q2.queued()[j]).1 == t;
        if j < q.queued().len() {
            assert(q2.queued()[j] == q.queued()[j]);
        }
    }
}

proof fn lemma_started_gone(qs: Seq<Queue>, ss: Seq<Seq<(isize, u64)>>, k: int)
    requires
        qs.len() == ss.len() + 1,
        0 <= k < qs.len(),
        forall|i: int| 0 <= i < qs.len() ==> (#[trigger] qs[i]).wf(),
        forall|i: int| 0 <= i < ss.len() ==> ticket_turn(#[trigger] qs[i], qs[i + 1], ss[i]),
    ensures
        forall|j: int, a: int| 0 <= j < k && 0 <= a < ss[j].len() ==> (#[trigger] ss[j][a]).1 < qs[k].ticket_counter()
            && !has_ticket(qs[k].queued(), ss[j][a].1),
    decreases k,
{
    if k > 0 {
        lemma_started_gone(qs, ss, k - 1);
        let q = qs[k - 1];
        let q2 = qs[k];
        assert(ticket_turn(q, q2, ss[k - 1]));
        assert(q.wf());
        assert forall|j: int, a: int| 0 <= j < k && 0 <= a < ss[j].len() implies (#[trigger] ss[j][a]).1 < q2.ticket_counter()
            && !has_ticket(q2.queued(), ss[j][a].1) by {
            let t = ss[j][a].1;
            if j == k - 1 {
                assert(has_ticket(q.queued(), ss[k - 1][a].1));
                let i = choose|i: int| 0 <= i < q.queued().len() && (#[trigger] q.queued()[i]).1 == t;
                assert(q.queued()[i].1 < q.ticket_counter());
            } else {
                assert(t < q.ticket_counter() && !has_ticket(q.queued(), t));
                if has_ticket(q2.queued(), t) {
                    assert(has_ticket(q.queued(), t) || q.ticket_counter() <= t);
                }
            }
        }
    }
}

/// No item is started twice: over any run of changes of a queue (the states `qs`, where
/// change `k` started the items `ss[k]`), every started item has a ticket of its own.
pub proof fn law_started_once(qs: Seq<Queue>, ss: Seq<Seq<(isize, u64)>>)
    requires
        qs.len() == ss.len() + 1,
        forall|k: int| 0 <= k < qs.len() ==> (#[trigger] qs[k]).wf(),
        forall|k: int| 0 <= k < ss.len() ==> ticket_turn(#[trigger] qs[k], qs[k + 1], ss[k]),
    ensures
        forall|k1: int, a: int, k2: int, b: int|
            0 <= k1 < ss.len() && 0 <= a < ss[k1].len() && 0 <= k2 < ss.len() && 0 <= b < ss[k2].len()
                && (k1 != k2 || a != b) ==> #[trigger] ss[k1][a].1 != #[trigger] ss[k2][b].1,
{
    assert forall|k1: int, a: int, k2: int, b: int|
        0 <= k1 < ss.len() && 0 <= a < ss[k1].len() && 0 <= k2 < ss.len() && 0 <= b < ss[k2].len()
            && (k1 != k2 || a != b) implies #[trigger] ss[k1][a].1 != #[trigger] ss[k2][b].1 by {
        if k1 == k2 {
            assert(ticket_turn(qs[k1], qs[k1 + 1], ss[k1]));
            if a > b {
                assert(ss[k1][b].1 != ss[k1][a].1);
            }
        } else {
            let (lo, i, hi, j) = if k1 < k2 { (k1, a, k2, b) } else { (k2, b, k1, a) };
            lemma_started_gone(qs, ss, hi);
            assert(ticket_turn(qs[hi], qs[hi + 1], ss[hi]));
            assert(has_ticket(qs[hi].queued(), ss[hi][j].1));
            assert(!has_ticket(qs[hi].queued(), ss[lo][i].1));
        }
    }
}

} // verus!
