use vstd::prelude::*;
use crate::time_source::{instant_now, nanos_since};

verus! {

/// Whether calls to a service may pass.
#[derive(Debug, Clone, Copy, PartialEq, Eq, Structural)]
pub enum CircuitState {
    Closed,
    Open,
    HalfOpen,
}

/// The state of a breaker as a mathematical value; times are nanoseconds on
/// the breaker's own monotonic clock.
pub struct BreakerView {
    pub failure_threshold: u32,
    pub cooldown_secs: u64,
    pub half_open_probe_interval_secs: u64,
    pub state: CircuitState,
    pub failure_count: u64,
    pub last_failure_ns: Option<u64>,
    pub opened_at_ns: Option<u64>,
}

/// Whether the cooldown of `cooldown_secs` has passed between `opened` and `now`.
pub open spec fn cooled_down(opened: u64, now: u64, cooldown_secs: u64) -> bool {
    (if now >= opened { now - opened } else { 0 }) >= cooldown_secs * 1_000_000_000
}

/// Asking whether a call may pass at `now`: a closed or half-open breaker
/// lets it pass; an open one lets it pass only once the cooldown since it
/// opened has passed, and then becomes half-open.
pub open spec fn execute_step(v: BreakerView, now: u64) -> (bool, BreakerView) {
    match v.state {
        CircuitState::Closed => (true, v),
        CircuitState::HalfOpen => (true, v),
        CircuitState::Open => match v.opened_at_ns {
            Some(opened) => if cooled_down(opened, now, v.cooldown_secs) {
                (true, BreakerView { state: CircuitState::HalfOpen, ..v })
            } else {
                (false, v)
            },
            None => (false, v),
        },
    }
}

/// A success resets the failure count and closes the breaker.
pub open spec fn success_step(v: BreakerView) -> BreakerView {
    BreakerView { failure_count: 0, state: CircuitState::Closed, ..v }
}

/// A failure at `now` is counted; once the count reaches the threshold the
/// breaker opens at `now`.
pub open spec fn failure_step(v: BreakerView, now: u64) -> BreakerView {
    let failures = v.failure_count + 1;
    if failures >= v.failure_threshold {
        BreakerView {
            failure_count: failures as u64,
            last_failure_ns: Some(now),
            state: CircuitState::Open,
            opened_at_ns: Some(now),
            ..v
        }
    } else {
        BreakerView { failure_count: failures as u64, last_failure_ns: Some(now), ..v }
    }
}

/// A reset forgets every failure and closes the breaker.
pub open spec fn reset_step(v: BreakerView) -> BreakerView {
    BreakerView {
        failure_count: 0,
        state: CircuitState::Closed,
        last_failure_ns: None,
        opened_at_ns: None,
        ..v
    }
}

/// `n` failures in a row, all at `now`.
pub open spec fn failures_in_a_row(v: BreakerView, n: nat, now: u64) -> BreakerView
    decreases n,
{
    if n == 0 {
        v
    } else {
        failure_step(failures_in_a_row(v, (n - 1) as nat, now), now)
    }
}

/// Stops calls to a failing service: it opens after `failure_threshold`
/// failures without a success between, lets a probe through once
/// `cooldown_secs` have passed (half-open), and closes on a success.
pub struct CircuitBreaker {
    failure_threshold: u32,
    cooldown_secs: u64,
    half_open_probe_interval_secs: u64,
    state: CircuitState,
    failure_count: u64,
    last_failure_ns: Option<u64>,
    opened_at_ns: Option<u64>,
    clock: std::time::Instant,
}

impl View for CircuitBreaker {
    type V = BreakerView;

    closed spec fn view(&self) -> BreakerView {
        BreakerView {
            failure_threshold: self.failure_threshold,
            cooldown_secs: self.cooldown_secs,
            half_open_probe_interval_secs: self.half_open_probe_interval_secs,
            state: self.state,
            failure_count: self.failure_count,
            last_failure_ns: self.last_failure_ns,
            opened_at_ns: self.opened_at_ns,
        }
    }
}

impl CircuitBreaker {
    /// A closed breaker with no failures.
    pub fn new(failure_threshold: u32, cooldown_secs: u64, half_open_probe_interval_secs: u64) -> (r:
        Self)
        ensures
            r@ == (BreakerView {
                failure_threshold,
                cooldown_secs,
                half_open_probe_interval_secs,
                state: CircuitState::Closed,
                failure_count: 0,
                last_failure_ns: None,
                opened_at_ns: None,
            }),
    {
        CircuitBreaker {
            failure_threshold,
            cooldown_secs,
            half_open_probe_interval_secs,
            state: CircuitState::Closed,
            failure_count: 0,
            last_failure_ns: None,
            opened_at_ns: None,
            clock: instant_now(),
        }
    }

    /// Whether a call may pass at `now` (nanoseconds on the breaker's clock);
    /// an open breaker whose cooldown has passed becomes half-open.
    pub fn can_execute_at(&mut self, now: u64) -> (b: bool)
        ensures
            (b, final(self)@) == execute_step(old(self)@, now),
    {
        match self.state {
            CircuitState::Closed => true,
            CircuitState::HalfOpen => true,
            CircuitState::Open => match self.opened_at_ns {
                Some(opened) => {
                    let elapsed = now.saturating_sub(opened);
                    if (elapsed as u128) >= (self.cooldown_secs as u128) * 1_000_000_000u128 {
                        self.state = CircuitState::HalfOpen;
                        true
                    } else {
                        false
                    }
                },
                None => false,
            },
        }
    }

    /// Whether a call may pass now.
    pub fn can_execute(&mut self) -> (b: bool)
        ensures
            exists|now: u64| (b, final(self)@) == execute_step(old(self)@, now),
    {
        let now = nanos_since(&self.clock);
        self.can_execute_at(now)
    }

    /// A call succeeded: the failure count is reset and the breaker closes.
    pub fn record_success(&mut self)
        ensures
            final(self)@ == success_step(old(self)@),
    {
        self.failure_count = 0;
        self.state = CircuitState::Closed;
    }

    /// A call failed at `now`: it is counted, and the breaker opens once
    /// the count reaches the threshold.
    pub fn record_failure_at(&mut self, now: u64)
        requires
            old(self)@.failure_count < u64::MAX,
        ensures
            final(self)@ == failure_step(old(self)@, now),
    {
        let failures = self.failure_count + 1;
        self.failure_count = failures;
        self.last_failure_ns = Some(now);
        if failures >= self.failure_threshold as u64 {
            self.state = CircuitState::Open;
            self.opened_at_ns = Some(now);
        }
    }

    /// A call failed now.
    pub fn record_failure(&mut self)
        requires
            old(self)@.failure_count < u64::MAX,
        ensures
            exists|now: u64| final(self)@ == failure_step(old(self)@, now),
    {
        let now = nanos_since(&self.clock);
        self.record_failure_at(now);
    }

    /// The current state.
    pub fn state(&self) -> (s: CircuitState)
        ensures
            s == self@.state,
    {
        self.state
    }

    /// The failures counted since the last success or reset.
    pub fn failure_count(&self) -> (n: u64)
        ensures
            n == self@.failure_count,
    {
        self.failure_count
    }

    /// Forgets every failure and closes the breaker.
    pub fn reset(&mut self)
        ensures
            final(self)@ == reset_step(old(self)@),
    {
        self.failure_count = 0;
        self.state = CircuitState::Closed;
        self.last_failure_ns = None;
        self.opened_at_ns = None;
    }
}

/// From a breaker with no failures counted (after a success or a reset), as
/// many failures in a row as the threshold open it, and fewer leave its
/// state as it was.
pub proof fn law_threshold_failures_open(v: BreakerView, n: nat, now: u64)
    requires
        v.failure_count == 0,
        n <= v.failure_threshold,
    ensures
        failures_in_a_row(v, n, now).failure_count == n,
        failures_in_a_row(v, n, now).failure_threshold == v.failure_threshold,
        n > 0 && n == v.failure_threshold ==> failures_in_a_row(v, n, now).state == CircuitState::Open,
        n < v.failure_threshold ==> failures_in_a_row(v, n, now).state == v.state,
    decreases n,
{
    if n > 0 {
        law_threshold_failures_open(v, (n - 1) as nat, now);
        let prev = failures_in_a_row(v, (n - 1) as nat, now);
        assert(prev.failure_count == n - 1);
        assert(failures_in_a_row(v, n, now) == failure_step(prev, now));
        if n < v.failure_threshold {
            assert(prev.state == v.state);
        }
    }
}

/// A success always closes the breaker, and a reset also forgets when it
/// opened: the next call passes either way.
pub proof fn law_success_and_reset_close(v: BreakerView, now: u64)
    ensures
        success_step(v).state == CircuitState::Closed,
        success_step(v).failure_count == 0,
        execute_step(success_step(v), now).0,
        execute_step(reset_step(v), now).0,
        reset_step(reset_step(v)) == reset_step(v),
{
}

/// An open breaker blocks every call until its cooldown has passed, and
/// lets the first call after it through as a half-open probe.
pub proof fn law_open_blocks_until_cooldown(v: BreakerView, opened: u64, now: u64)
    requires
        v.state == CircuitState::Open,
        v.opened_at_ns == Some(opened),
    ensures
        !cooled_down(opened, now, v.cooldown_secs) ==> execute_step(v, now) == (false, v),
        cooled_down(opened, now, v.cooldown_secs) ==> execute_step(v, now).0 && execute_step(
            v,
            now,
        ).1.state == CircuitState::HalfOpen,
{
}

/// A failure that brings the count to the threshold or past it opens the
/// breaker at that moment, whatever state it was in (so a failed half-open
/// probe opens it again), and it then blocks every call until the cooldown
/// has passed; a failure that leaves the count below the threshold keeps
/// the state and the time it opened.
pub proof fn law_failure_at_threshold_opens(v: BreakerView, now: u64, later: u64)
    requires
        v.failure_count < u64::MAX,
    ensures
        failure_step(v, now).failure_count == v.failure_count + 1,
        failure_step(v, now).last_failure_ns == Some(now),
        v.failure_count + 1 >= v.failure_threshold ==> failure_step(v, now).state == CircuitState::Open
            && failure_step(v, now).opened_at_ns == Some(now),
        v.failure_count + 1 >= v.failure_threshold && !cooled_down(now, later, v.cooldown_secs)
            ==> !execute_step(failure_step(v, now), later).0,
        v.failure_count + 1 < v.failure_threshold ==> failure_step(v, now).state == v.state
            && failure_step(v, now).opened_at_ns == v.opened_at_ns,
{
}

} // verus!
