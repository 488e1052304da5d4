//! A token bucket that refills one request every `rate_limit_in_millis`
//! milliseconds, up to `max_capacity` requests, and says how long a request
//! that finds the bucket empty has to wait.
//!
//! Instants are readings of a clock in milliseconds and durations are
//! milliseconds.

use vstd::prelude::*;

verus! {

/// The state of a [`ThrottlingCounter`] as numbers.
pub struct ThrottlingCounterView {
    pub capacity: int,
    pub max_capacity: nat,
    pub last_arrived: nat,
    pub last_updated: nat,
    pub rate_limit_in_millis: nat,
    pub delay: nat,
}

/// Milliseconds from `since` to `now`, or zero when `now` is earlier.
pub open spec fn elapsed_millis(now: nat, since: nat) -> nat {
    if now >= since {
        (now - since) as nat
    } else {
        0
    }
}

/// How many requests have arrived in the bucket since the last arrival:
/// one per whole rate period elapsed.
pub open spec fn arrived_in_time(c: ThrottlingCounterView, now: nat) -> nat {
    let elapsed = elapsed_millis(now, c.last_arrived);
    if c.rate_limit_in_millis > 0 && elapsed >= c.rate_limit_in_millis {
        elapsed / c.rate_limit_in_millis
    } else {
        0
    }
}

/// The instant of the last arrival after `now` has been taken into account.
pub open spec fn new_last_arrived(c: ThrottlingCounterView, now: nat) -> nat {
    c.last_arrived + arrived_in_time(c, now) * c.rate_limit_in_millis
}

/// The maximal capacity as the counter compares with it: converted to `i64`
/// with `as`, which wraps a value beyond `i64::MAX`.
pub open spec fn max_capacity_as_i64(c: ThrottlingCounterView) -> int {
    (c.max_capacity as i64) as int
}

/// The arrivals as the counter adds them: converted to `usize`, then to
/// `i64`, with `as`.
pub open spec fn arrived_as_i64(c: ThrottlingCounterView, now: nat) -> int {
    ((arrived_in_time(c, now) as usize) as i64) as int
}

/// The inputs on which the conversions to `i64` keep their values: the
/// maximal capacity and the arrivals fit `i64` (and `usize`).
pub open spec fn no_wrap(c: ThrottlingCounterView, now: nat) -> bool {
    &&& c.max_capacity <= i64::MAX
    &&& arrived_in_time(c, now) <= i64::MAX
    &&& arrived_in_time(c, now) <= usize::MAX
}

/// The capacity available to a request at `now`: the previous capacity plus
/// the arrivals, but never more than `max_capacity` (both as `i64`).
pub open spec fn new_available_capacity(c: ThrottlingCounterView, now: nat) -> int {
    let refilled = c.capacity + arrived_as_i64(c, now);
    if refilled < max_capacity_as_i64(c) {
        refilled
    } else {
        max_capacity_as_i64(c)
    }
}

/// What is left of the rate period since the last update.
pub open spec fn rest_of_period(c: ThrottlingCounterView, now: nat) -> nat {
    let since_update = elapsed_millis(now, c.last_updated);
    if since_update >= c.rate_limit_in_millis {
        0
    } else {
        (c.rate_limit_in_millis - since_update) as nat
    }
}

/// The counter after a request at `now`: it takes one unit of the available
/// capacity, and when none was available it waits what is left of the rate
/// period plus `penalty`, the extra delay of an overdrawn bucket.
pub open spec fn updated(c: ThrottlingCounterView, now: nat, penalty: nat) -> ThrottlingCounterView {
    let available = new_available_capacity(c, now);
    ThrottlingCounterView {
        capacity: available - 1,
        last_arrived: new_last_arrived(c, now),
        last_updated: now,
        delay: if available > 0 { 0 } else { rest_of_period(c, now) + penalty },
        ..c
    }
}

/// The inputs on which an update does not panic: a nonzero rate (it is a
/// divisor), a capacity above `i64::MIN` (its absolute value is taken), a
/// refilled capacity that fits `i64`, an available capacity above
/// `i64::MIN` (one is taken from it), and a delay that fits `u64`.
pub open spec fn update_in_range(c: ThrottlingCounterView, now: nat, penalty: nat) -> bool {
    &&& c.rate_limit_in_millis > 0
    &&& c.capacity > i64::MIN
    &&& i64::MIN <= c.capacity + arrived_as_i64(c, now) <= i64::MAX
    &&& new_available_capacity(c, now) > i64::MIN
    &&& new_available_capacity(c, now) <= 0 ==> rest_of_period(c, now) + penalty <= u64::MAX
}

/// A fresh counter at `now`: full (its capacity is the maximal capacity as
/// `i64`), with no delay.
pub open spec fn fresh_counter(max_capacity: nat, rate_limit_in_millis: nat, now: nat) -> ThrottlingCounterView {
    ThrottlingCounterView {
        capacity: (max_capacity as i64) as int,
        max_capacity,
        last_arrived: now,
        last_updated: now,
        rate_limit_in_millis,
        delay: 0,
    }
}

/// The counter after `n` requests, all at the same instant `now`, with no
/// penalty: the penalty grows with how far the capacity is below zero, and
/// the laws below use this only up to the first request that finds the
/// capacity at zero.
pub open spec fn updated_times(c: ThrottlingCounterView, now: nat, n: nat) -> ThrottlingCounterView
    decreases n,
{
    if n == 0 {
        c
    } else {
        updated(updated_times(c, now, (n - 1) as nat), now, 0)
    }
}

/// What an update does, in the counter's own numbers: with `k` the whole
/// rate periods elapsed since the last arrival (none when the clock went
/// back), the request finds `min(capacity + k, max_capacity)` units, takes
/// one, moves the last arrival on by `k` periods, and waits nothing when it
/// found a unit, else what is left of the period since the last update plus
/// the penalty. An overdrawn counter stays owed: arrivals are added to a
/// negative capacity, never to zero.
pub proof fn lemma_update_follows_the_bucket(c: ThrottlingCounterView, now: nat, penalty: nat)
    requires
        c.rate_limit_in_millis > 0,
        c.max_capacity <= i64::MAX,
        (if now >= c.last_arrived { now - c.last_arrived } else { 0int }) / (c.rate_limit_in_millis as int) <= i64::MAX,
        (if now >= c.last_arrived { now - c.last_arrived } else { 0int }) / (c.rate_limit_in_millis as int) <= usize::MAX,
    ensures
        ({
            let e: int = if now >= c.last_arrived { now - c.last_arrived } else { 0 };
            let k: int = e / (c.rate_limit_in_millis as int);
            let found: int = if c.capacity + k < c.max_capacity { c.capacity + k } else { c.max_capacity as int };
            let since_update: int = if now >= c.last_updated { now - c.last_updated } else { 0 };
            let rest: int = if since_update >= c.rate_limit_in_millis { 0 } else { c.rate_limit_in_millis - since_update };
            &&& updated(c, now, penalty).capacity == found - 1
            &&& updated(c, now, penalty).last_arrived == c.last_arrived + k * c.rate_limit_in_millis
            &&& updated(c, now, penalty).last_updated == now
            &&& updated(c, now, penalty).max_capacity == c.max_capacity
            &&& updated(c, now, penalty).rate_limit_in_millis == c.rate_limit_in_millis
            &&& (found > 0 ==> updated(c, now, penalty).delay == 0)
            &&& (found <= 0 ==> updated(c, now, penalty).delay == rest + penalty)
        }),
{
    let e: int = if now >= c.last_arrived { now - c.last_arrived } else { 0 };
    let r: int = c.rate_limit_in_millis as int;
    if e < r {
        assert(e / r == 0) by (nonlinear_arith)
            requires
                0 <= e < r,
        ;
        assert((e / r) * r == 0) by (nonlinear_arith)
            requires
                e / r == 0,
        ;
    }
    assert(arrived_in_time(c, now) == e / r);
}

/// After an update the capacity is below the maximal capacity: a request
/// always takes one unit of what was available.
pub proof fn lemma_capacity_stays_below_max(c: ThrottlingCounterView, now: nat, penalty: nat)
    ensures
        updated(c, now, penalty).capacity < c.max_capacity,
        updated(c, now, penalty).max_capacity == c.max_capacity,
        updated(c, now, penalty).rate_limit_in_millis == c.rate_limit_in_millis,
{
}

/// An update of a counter that is not over full leaves a capacity between one
/// less than before and one less than the maximum.
pub proof fn lemma_update_capacity_bounds(c: ThrottlingCounterView, now: nat, penalty: nat)
    requires
        no_wrap(c, now),
        c.capacity <= c.max_capacity,
    ensures
        updated(c, now, penalty).capacity == new_available_capacity(c, now) - 1,
        c.capacity - 1 <= updated(c, now, penalty).capacity <= c.max_capacity - 1,
{
}

/// A second request at the same instant finds no newly arrived slot: it takes
/// one more unit, keeps the last arrival, and waits exactly when the first
/// one left nothing.
pub proof fn lemma_second_request_at_same_instant(c: ThrottlingCounterView, now: nat, first_penalty: nat, second_penalty: nat)
    requires
        c.rate_limit_in_millis > 0,
    ensures
        updated(updated(c, now, first_penalty), now, second_penalty).capacity
            == updated(c, now, first_penalty).capacity - 1,
        updated(updated(c, now, first_penalty), now, second_penalty).last_arrived
            == updated(c, now, first_penalty).last_arrived,
        updated(updated(c, now, first_penalty), now, second_penalty).delay > 0
            <==> updated(c, now, first_penalty).capacity <= 0,
{
    let c1 = updated(c, now, first_penalty);
    let e = elapsed_millis(now, c.last_arrived);
    let r = c.rate_limit_in_millis;
    if r > 0 && e >= r {
        let k = e / r;
        assert(k * r <= e && e - k * r < r) by (nonlinear_arith)
            requires
                r > 0,
                k == e / r,
        {
            vstd::arithmetic::div_mod::lemma_fundamental_div_mod(e as int, r as int);
        }
    }
    assert(elapsed_millis(now, c1.last_arrived) < r);
    assert(arrived_in_time(c1, now) == 0);
    assert(arrived_as_i64(c1, now) == 0);
    let a = arrived_in_time(c1, now);
    assert(a * r == 0) by (nonlinear_arith)
        requires
            a == 0,
    ;
    assert(elapsed_millis(now, c1.last_updated) == 0);
}

/// A request within less than one rate period of the last arrival, while
/// capacity is left, takes one unit, keeps the last arrival and waits for
/// nothing.
pub proof fn lemma_request_within_period_decreases_capacity(c: ThrottlingCounterView, now: nat, penalty: nat)
    requires
        no_wrap(c, now),
        1 <= c.capacity <= c.max_capacity,
        elapsed_millis(now, c.last_arrived) < c.rate_limit_in_millis,
    ensures
        updated(c, now, penalty).capacity == c.capacity - 1,
        updated(c, now, penalty).last_arrived == c.last_arrived,
        updated(c, now, penalty).delay == 0,
{
}

/// A request after enough rate periods to refill the bucket finds it full:
/// it leaves `max_capacity - 1` and waits for nothing.
pub proof fn lemma_refilled_after_enough_periods(c: ThrottlingCounterView, now: nat, penalty: nat)
    requires
        no_wrap(c, now),
        c.rate_limit_in_millis > 0,
        c.max_capacity > 0,
        c.capacity <= c.max_capacity,
        elapsed_millis(now, c.last_arrived) >= c.rate_limit_in_millis * (c.max_capacity - c.capacity),
        elapsed_millis(now, c.last_arrived) >= c.rate_limit_in_millis,
    ensures
        updated(c, now, penalty).capacity == c.max_capacity - 1,
        updated(c, now, penalty).delay == 0,
{
    let e = elapsed_millis(now, c.last_arrived);
    let r = c.rate_limit_in_millis;
    let missing: int = c.max_capacity - c.capacity;
    assert(e / r >= missing) by (nonlinear_arith)
        requires
            r > 0,
            e >= r * missing,
    {
        if missing > 0 {
            assert(e / r * r <= e);
            assert(e < (e / r + 1) * r);
        }
    }
}

/// `k` requests at the instant a counter was created, up to its maximal
/// capacity, are all admitted: each takes one unit and none waits.
pub proof fn lemma_burst_is_admitted(max_capacity: nat, rate_limit_in_millis: nat, now: nat, k: nat)
    requires
        max_capacity <= i64::MAX,
        k <= max_capacity,
    ensures
        updated_times(fresh_counter(max_capacity, rate_limit_in_millis, now), now, k).capacity
            == max_capacity - k,
        updated_times(fresh_counter(max_capacity, rate_limit_in_millis, now), now, k).last_arrived == now,
        updated_times(fresh_counter(max_capacity, rate_limit_in_millis, now), now, k).last_updated == now,
        updated_times(fresh_counter(max_capacity, rate_limit_in_millis, now), now, k).delay == 0,
        updated_times(fresh_counter(max_capacity, rate_limit_in_millis, now), now, k).max_capacity
            == max_capacity,
        updated_times(fresh_counter(max_capacity, rate_limit_in_millis, now), now, k).rate_limit_in_millis
            == rate_limit_in_millis,
    decreases k,
{
    if k > 0 {
        lemma_burst_is_admitted(max_capacity, rate_limit_in_millis, now, (k - 1) as nat);
        let prev = updated_times(fresh_counter(max_capacity, rate_limit_in_millis, now), now, (k - 1) as nat);
        assert(arrived_in_time(prev, now) == 0);
        assert(arrived_in_time(prev, now) * prev.rate_limit_in_millis == 0);
    }
}

/// The request right after a burst that used up a fresh counter, at the same
/// instant, is the first one to wait, and it waits exactly one rate period
/// (the penalty of a counter at capacity zero is zero).
pub proof fn lemma_request_after_burst_waits_one_period(max_capacity: nat, rate_limit_in_millis: nat, now: nat)
    requires
        max_capacity <= i64::MAX,
    ensures
        updated_times(fresh_counter(max_capacity, rate_limit_in_millis, now), now, max_capacity + 1).delay
            == rate_limit_in_millis,
        updated_times(fresh_counter(max_capacity, rate_limit_in_millis, now), now, max_capacity + 1).capacity
            == -1,
{
    lemma_burst_is_admitted(max_capacity, rate_limit_in_millis, now, max_capacity);
    let c = updated_times(fresh_counter(max_capacity, rate_limit_in_millis, now), now, max_capacity);
    assert(updated_times(fresh_counter(max_capacity, rate_limit_in_millis, now), now, max_capacity + 1)
        == updated(c, now, 0));
}

/// A token-bucket rate counter.
#[derive(Clone, Debug)]
pub struct ThrottlingCounter {
    capacity: i64,
    max_capacity: usize,
    last_arrived: u64,
    last_updated: u64,
    rate_limit_in_millis: u64,
    delay: u64,
}

impl View for ThrottlingCounter {
    type V = ThrottlingCounterView;

    closed spec fn view(&self) -> ThrottlingCounterView {
        ThrottlingCounterView {
            capacity: self.capacity as int,
            max_capacity: self.max_capacity as nat,
            last_arrived: self.last_arrived as nat,
            last_updated: self.last_updated as nat,
            rate_limit_in_millis: self.rate_limit_in_millis as nat,
            delay: self.delay as nat,
        }
    }
}

/// The current reading of the system clock in milliseconds since the Unix
/// epoch (zero when the clock is set before the epoch). Nothing is stated
/// of the value: it is the time.
#[verifier::external_body]
pub(crate) fn clock_now_millis() -> u64 {
    match std::time::SystemTime::now().duration_since(std::time::UNIX_EPOCH) {
        Ok(elapsed) => elapsed.as_millis() as u64,
        Err(_) => 0,
    }
}

impl ThrottlingCounter {
    /// A full counter whose instants start at the current clock reading.
    pub fn new(max_capacity: usize, rate_limit_in_millis: u64) -> (r: Self)
        ensures
            r@ == fresh_counter(max_capacity as nat, rate_limit_in_millis as nat, r@.last_arrived),
    {
        let now = clock_now_millis();
        Self::new_at(max_capacity, rate_limit_in_millis, now)
    }

    /// A full counter whose last arrival and update are `now`.
    pub fn new_at(max_capacity: usize, rate_limit_in_millis: u64, now: u64) -> (r: Self)
        ensures
            r@ == fresh_counter(max_capacity as nat, rate_limit_in_millis as nat, now as nat),
    {
        ThrottlingCounter {
            capacity: max_capacity as i64,
            max_capacity,
            last_arrived: now,
            last_updated: now,
            rate_limit_in_millis,
            delay: 0,
        }
    }

    /// The counter after one more request at `now`, where
    /// `delay_penalty_millis` is the extra delay, in milliseconds, of this
    /// counter when it is overdrawn (`rate * |capacity| / max_capacity`,
    /// which is reckoned in floating point and so left to the caller).
    pub fn update(&self, now: u64, delay_penalty_millis: u64) -> (r: Self)
        requires
            update_in_range(self@, now as nat, delay_penalty_millis as nat),
        ensures
            r@ == updated(self@, now as nat, delay_penalty_millis as nat),
    {
        let elapsed: u64 = if now >= self.last_arrived { now - self.last_arrived } else { 0 };
        let (arrived, new_last_arrived): (u64, u64) = if elapsed >= self.rate_limit_in_millis {
            let arrived_in_time = elapsed / self.rate_limit_in_millis;
            proof {
                assert(arrived_in_time * self.rate_limit_in_millis <= elapsed) by (nonlinear_arith)
                    requires
                        arrived_in_time == elapsed / self.rate_limit_in_millis,
                        self.rate_limit_in_millis > 0,
                ;
            }
            (arrived_in_time, self.last_arrived + arrived_in_time * self.rate_limit_in_millis)
        } else {
            (0u64, self.last_arrived)
        };
        let refilled: i64 = self.capacity + ((arrived as usize) as i64);
        let max_as_i64: i64 = self.max_capacity as i64;
        let available: i64 = if refilled < max_as_i64 { refilled } else { max_as_i64 };
        if available > 0 {
            ThrottlingCounter {
                capacity: available - 1,
                last_arrived: new_last_arrived,
                last_updated: now,
                delay: 0,
                max_capacity: self.max_capacity,
                rate_limit_in_millis: self.rate_limit_in_millis,
            }
        } else {
            let since_update: u64 = if now >= self.last_updated { now - self.last_updated } else { 0 };
            let rest: u64 = self.rate_limit_in_millis.saturating_sub(since_update);
            ThrottlingCounter {
                capacity: available - 1,
                last_arrived: new_last_arrived,
                last_updated: now,
                delay: rest + delay_penalty_millis,
                max_capacity: self.max_capacity,
                rate_limit_in_millis: self.rate_limit_in_millis,
            }
        }
    }

    /// Whether an update at `now` with this penalty stays within the machine
    /// integers of the counter ([`update_in_range`]); an update outside it
    /// panics.
    pub fn can_update(&self, now: u64, delay_penalty_millis: u64) -> (r: bool)
        ensures
            r == update_in_range(self@, now as nat, delay_penalty_millis as nat),
    {
        if self.rate_limit_in_millis == 0 || self.capacity == i64::MIN {
            return false;
        }
        let elapsed: u64 = if now >= self.last_arrived { now - self.last_arrived } else { 0 };
        let arrived: u64 = if elapsed >= self.rate_limit_in_millis { elapsed / self.rate_limit_in_millis } else { 0 };
        let refilled: i128 = self.capacity as i128 + (((arrived as usize) as i64) as i128);
        if refilled < i64::MIN as i128 || refilled > i64::MAX as i128 {
            return false;
        }
        let max_as_i64: i128 = (self.max_capacity as i64) as i128;
        let available: i128 = if refilled < max_as_i64 { refilled } else { max_as_i64 };
        if available == i64::MIN as i128 {
            return false;
        }
        if available <= 0 {
            let since_update: u64 = if now >= self.last_updated { now - self.last_updated } else { 0 };
            let rest: u64 = self.rate_limit_in_millis.saturating_sub(since_update);
            return rest as u128 + delay_penalty_millis as u128 <= u64::MAX as u128;
        }
        true
    }

    /// The delay, in milliseconds, that the last update asked for.
    pub fn delay(&self) -> (r: u64)
        ensures
            r as nat == self@.delay,
    {
        self.delay
    }

    /// The capacity left: negative when requests are owed.
    pub fn capacity(&self) -> (r: i64)
        ensures
            r as int == self@.capacity,
    {
        self.capacity
    }

    /// The capacity of a full counter.
    pub fn max_capacity(&self) -> (r: usize)
        ensures
            r as nat == self@.max_capacity,
    {
        self.max_capacity
    }

    /// The clock reading of the last arrival.
    pub fn last_arrived(&self) -> (r: u64)
        ensures
            r as nat == self@.last_arrived,
    {
        self.last_arrived
    }

    /// The clock reading of the last update.
    pub fn last_updated(&self) -> (r: u64)
        ensures
            r as nat == self@.last_updated,
    {
        self.last_updated
    }

    /// The milliseconds between two arrivals.
    pub fn rate_limit_in_millis(&self) -> (r: u64)
        ensures
            r as nat == self@.rate_limit_in_millis,
    {
        self.rate_limit_in_millis
    }
}

} // verus!
