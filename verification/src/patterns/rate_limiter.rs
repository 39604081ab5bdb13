use vstd::prelude::*;
use vstd::string::*;
use crate::keyed::{KeyedVec, has_key, key_pos, keys_unique, lemma_key_pos_unique, lookup, seq_insert};
use crate::time_source::{instant_now, nanos_since};

verus! {

/// The length of a rate window: one minute, in nanoseconds.
pub const WINDOW_NS: u64 = 60_000_000_000;

/// The requests counted for one service in its current one-minute window.
#[derive(Debug, Clone, Copy, PartialEq, Eq, Structural)]
pub struct RateBucket {
    pub max_per_minute: u32,
    pub burst_capacity: u32,
    pub current_count: u32,
    pub window_start_ns: u64,
}

/// A request for the service of bucket `b` at `now`: a window older than a
/// minute is restarted at `now`; the request passes while the count is
/// below the per-minute limit plus the burst, and is then counted.
pub open spec fn check_step(b: RateBucket, now: u64) -> (bool, RateBucket) {
    let b1 = if (if now >= b.window_start_ns { now - b.window_start_ns } else { 0 }) >= WINDOW_NS {
        RateBucket { current_count: 0, window_start_ns: now, ..b }
    } else {
        b
    };
    if b1.current_count < b1.max_per_minute + b1.burst_capacity {
        (true, RateBucket { current_count: (b1.current_count + 1) as u32, ..b1 })
    } else {
        (false, b1)
    }
}

/// Whether the per-minute limit plus the burst of every bucket fits in 32
/// bits.
pub open spec fn limits_fit(m: Seq<(Seq<char>, RateBucket)>, id: Seq<char>) -> bool {
    match lookup(m, id) {
        Some(b) => b.max_per_minute + b.burst_capacity <= u32::MAX,
        None => true,
    }
}

/// Whether a request of `id` at `now`, answered `ok`, takes the buckets
/// `old_b` to `new_b`, as `check_rate_at` does: a configured service's
/// bucket moves as `check_step` says, in its place; an unconfigured
/// service passes and nothing changes.
pub open spec fn checked_at(
    old_b: Seq<(Seq<char>, RateBucket)>,
    id: Seq<char>,
    now: u64,
    ok: bool,
    new_b: Seq<(Seq<char>, RateBucket)>,
) -> bool {
    if has_key(old_b, id) {
        let p = key_pos(old_b, id);
        &&& ok == check_step(old_b[p].1, now).0
        &&& new_b == old_b.update(p, (id, check_step(old_b[p].1, now).1))
    } else {
        ok && new_b == old_b
    }
}

/// Counts requests per service in one-minute windows; services without a
/// configured limit are not limited.
pub struct RateLimiter {
    entries: KeyedVec<RateBucket>,
    clock: std::time::Instant,
}

impl RateLimiter {
    /// The configured buckets, keyed by service id.
    pub closed spec fn buckets(&self) -> Seq<(Seq<char>, RateBucket)> {
        self.entries@
    }

    /// A limiter with no limits configured.
    pub fn new() -> (r: Self)
        ensures
            r.buckets().len() == 0,
    {
        RateLimiter { entries: KeyedVec::new(), clock: instant_now() }
    }

    /// Sets the limit of `service_id` at `now`, starting a fresh window.
    pub fn configure_at(&mut self, service_id: &str, max_per_min: u32, burst: u32, now: u64)
        ensures
            keys_unique(final(self).buckets()),
            final(self).buckets() == seq_insert(
                old(self).buckets(),
                service_id@,
                RateBucket {
                    max_per_minute: max_per_min,
                    burst_capacity: burst,
                    current_count: 0,
                    window_start_ns: now,
                },
            ),
            lookup(final(self).buckets(), service_id@) == Some(
                RateBucket {
                    max_per_minute: max_per_min,
                    burst_capacity: burst,
                    current_count: 0,
                    window_start_ns: now,
                },
            ),
    {
        proof {
            use_type_invariant(&self.entries);
            crate::keyed::lemma_lookup_insert(
                self.entries@,
                service_id@,
                RateBucket {
                    max_per_minute: max_per_min,
                    burst_capacity: burst,
                    current_count: 0,
                    window_start_ns: now,
                },
                service_id@,
            );
        }
        self.entries.insert(
            String::from_str(service_id),
            RateBucket {
                max_per_minute: max_per_min,
                burst_capacity: burst,
                current_count: 0,
                window_start_ns: now,
            },
        );
        proof {
            use_type_invariant(&self.entries);
        }
    }

    /// Sets the limit of `service_id`, starting a fresh window now.
    pub fn configure(&mut self, service_id: &str, max_per_min: u32, burst: u32)
        ensures
            exists|now: u64|
                final(self).buckets() == seq_insert(
                    old(self).buckets(),
                    service_id@,
                    RateBucket {
                        max_per_minute: max_per_min,
                        burst_capacity: burst,
                        current_count: 0,
                        window_start_ns: now,
                    },
                ),
    {
        let now = nanos_since(&self.clock);
        self.configure_at(service_id, max_per_min, burst, now);
    }

    /// Whether the limit plus the burst of `service_id` fits in 32 bits, so
    /// that it can be checked.
    pub fn limit_fits(&self, service_id: &str) -> (b: bool)
        ensures
            b == limits_fit(self.buckets(), service_id@),
    {
        match self.entries.get(service_id) {
            Some(b) => (b.max_per_minute as u64) + (b.burst_capacity as u64) <= u32::MAX as u64,
            None => true,
        }
    }

    /// Whether a request of `service_id` at `now` may pass (it is then
    /// counted); a service without a limit always passes.
    pub fn check_rate_at(&mut self, service_id: &str, now: u64) -> (b: bool)
        requires
            limits_fit(old(self).buckets(), service_id@),
        ensures
            !has_key(old(self).buckets(), service_id@) ==> b && final(self).buckets() == old(
                self,
            ).buckets(),
            has_key(old(self).buckets(), service_id@) ==> ({
                let p = key_pos(old(self).buckets(), service_id@);
                let (ok, nb) = check_step(old(self).buckets()[p].1, now);
                b == ok && final(self).buckets() == old(self).buckets().update(p, (service_id@, nb))
            }),
            checked_at(old(self).buckets(), service_id@, now, b, final(self).buckets()),
    {
        match self.entries.find(service_id) {
            None => true,
            Some(p) => {
                let mut bucket = *self.entries.value_at(p);
                proof {
                    crate::keyed::lemma_key_pos_unique(self.entries@, p as int);
                }
                if now.saturating_sub(bucket.window_start_ns) >= WINDOW_NS {
                    bucket.current_count = 0;
                    bucket.window_start_ns = now;
                }
                let ok = if bucket.current_count < bucket.max_per_minute + bucket.burst_capacity {
                    bucket.current_count = bucket.current_count + 1;
                    true
                } else {
                    false
                };
                self.entries.replace_at(p, bucket);
                ok
            },
        }
    }

    /// Whether a request of `service_id` may pass now.
    pub fn check_rate(&mut self, service_id: &str) -> (b: bool)
        requires
            limits_fit(old(self).buckets(), service_id@),
        ensures
            !has_key(old(self).buckets(), service_id@) ==> b && final(self).buckets() == old(
                self,
            ).buckets(),
            has_key(old(self).buckets(), service_id@) ==> exists|now: u64|
                #![trigger check_step(old(self).buckets()[key_pos(old(self).buckets(), service_id@)].1, now)]
                {
                    let p = key_pos(old(self).buckets(), service_id@);
                    let (ok, nb) = check_step(old(self).buckets()[p].1, now);
                    b == ok && final(self).buckets() == old(self).buckets().update(
                        p,
                        (service_id@, nb),
                    )
                },
    {
        let now = nanos_since(&self.clock);
        self.check_rate_at(service_id, now)
    }

    /// The requests counted in the current window of `service_id` and its
    /// per-minute limit.
    pub fn current_usage(&self, service_id: &str) -> (r: Option<(u32, u32)>)
        ensures
            r == (match lookup(self.buckets(), service_id@) {
                Some(b) => Some((b.current_count, b.max_per_minute)),
                None => None,
            }),
    {
        match self.entries.get(service_id) {
            Some(b) => Some((b.current_count, b.max_per_minute)),
            None => None,
        }
    }
}

/// Within one window, a service configured with limit `max` and burst
/// `burst` lets exactly `max + burst` requests pass and refuses the next.
pub proof fn law_limit_plus_burst_per_window(b: RateBucket, now: u64)
    requires
        b.max_per_minute + b.burst_capacity <= u32::MAX,
        now >= b.window_start_ns,
        now - b.window_start_ns < WINDOW_NS,
    ensures
        check_step(b, now).0 == (b.current_count < b.max_per_minute + b.burst_capacity),
        b.current_count >= b.max_per_minute + b.burst_capacity ==> check_step(b, now) == (false, b),
        b.current_count < b.max_per_minute + b.burst_capacity ==> check_step(b, now).1.current_count
            == b.current_count + 1,
{
}

/// Once a minute has passed since the window started, the count starts
/// again from zero, so a configured service with a non-zero limit passes.
pub proof fn law_window_restarts(b: RateBucket, now: u64)
    requires
        now >= b.window_start_ns,
        now - b.window_start_ns >= WINDOW_NS,
        b.max_per_minute + b.burst_capacity > 0,
    ensures
        check_step(b, now).0,
        check_step(b, now).1.current_count == 1,
        check_step(b, now).1.window_start_ns == now,
{
}

/// The answers to requests at `times`, in order, and the bucket after them.
pub open spec fn check_all(b: RateBucket, times: Seq<u64>) -> (Seq<bool>, RateBucket)
    decreases times.len(),
{
    if times.len() == 0 {
        (Seq::empty(), b)
    } else {
        let (rs, b1) = check_all(b, times.drop_last());
        let (ok, b2) = check_step(b1, times.last());
        (rs.push(ok), b2)
    }
}

/// The smaller of `a` and `b`.
pub open spec fn min_int(a: int, b: int) -> int {
    if a < b {
        a
    } else {
        b
    }
}

/// Over any sequence of requests within the minute after a service was
/// configured (its count at zero), the first `max + burst` pass and every
/// later one is refused; after `k` requests the count is `min(k, max +
/// burst)` and the window has not moved.
pub proof fn law_requests_within_a_window(b: RateBucket, times: Seq<u64>)
    requires
        b.current_count == 0,
        b.max_per_minute + b.burst_capacity <= u32::MAX,
        forall|i: int|
            0 <= i < times.len() ==> b.window_start_ns <= #[trigger] times[i] < b.window_start_ns
                + WINDOW_NS,
    ensures
        check_all(b, times).0.len() == times.len(),
        forall|i: int|
            0 <= i < times.len() ==> #[trigger] check_all(b, times).0[i] == (i < b.max_per_minute
                + b.burst_capacity),
        check_all(b, times).1 == (RateBucket {
            current_count: min_int(times.len() as int, b.max_per_minute + b.burst_capacity) as u32,
            ..b
        }),
    decreases times.len(),
{
    if times.len() > 0 {
        let d = times.drop_last();
        assert forall|i: int| 0 <= i < d.len() implies b.window_start_ns <= #[trigger] d[i]
            < b.window_start_ns + WINDOW_NS by {
            assert(d[i] == times[i]);
        }
        law_requests_within_a_window(b, d);
        let (rs, b1) = check_all(b, d);
        let t = times.last();
        assert(t == times[times.len() - 1]);
        assert forall|i: int| 0 <= i < times.len() implies #[trigger] check_all(b, times).0[i] == (i
            < b.max_per_minute + b.burst_capacity) by {
            if i < d.len() {
                assert(check_all(b, times).0[i] == rs[i]);
            }
        }
    }
}

/// Through successive checks of a configured service, its bucket keeps
/// its place and moves as the checks so far say; the other keys stay.
proof fn lemma_checks_prefix(
    states: Seq<Seq<(Seq<char>, RateBucket)>>,
    id: Seq<char>,
    times: Seq<u64>,
    results: Seq<bool>,
    n: nat,
)
    requires
        states.len() == times.len() + 1,
        results.len() == times.len(),
        keys_unique(states[0]),
        has_key(states[0], id),
        forall|i: int|
            #![trigger times[i]]
            0 <= i < times.len() ==> checked_at(states[i], id, times[i], results[i], states[i + 1]),
        n <= times.len(),
    ensures
        keys_unique(states[n as int]),
        states[n as int].len() == states[0].len(),
        forall|j: int| 0 <= j < states[0].len() ==> #[trigger] states[n as int][j].0 == states[0][j].0,
        has_key(states[n as int], id),
        key_pos(states[n as int], id) == key_pos(states[0], id),
        states[n as int][key_pos(states[0], id)].1 == check_all(
            states[0][key_pos(states[0], id)].1,
            times.take(n as int),
        ).1,
        results.take(n as int) == check_all(states[0][key_pos(states[0], id)].1, times.take(n as int)).0,
    decreases n,
{
    let p = key_pos(states[0], id);
    let b = states[0][p].1;
    if n == 0 {
        assert(times.take(0) =~= Seq::<u64>::empty());
        assert(results.take(0) =~= Seq::<bool>::empty());
    } else {
        let m = (n - 1) as int;
        lemma_checks_prefix(states, id, times, results, (n - 1) as nat);
        let s = states[m];
        assert(checked_at(s, id, times[m], results[m], states[m + 1]));
        let t = states[m + 1];
        assert forall|j: int| 0 <= j < states[0].len() implies #[trigger] t[j].0 == states[0][j].0 by {
            assert(s[j].0 == states[0][j].0);
        }
        assert(keys_unique(t)) by {
            assert forall|i: int, j: int|
                0 <= i < t.len() && 0 <= j < t.len() && i != j implies #[trigger] t[i].0
                != #[trigger] t[j].0 by {
                assert(t[i].0 == states[0][i].0);
                assert(t[j].0 == states[0][j].0);
            }
        }
        lemma_key_pos_unique(t, p);
        assert(times.take(n as int).drop_last() =~= times.take(m));
        assert(times.take(n as int).last() == times[m]);
        assert(results.take(n as int) =~= results.take(m).push(results[m]));
    }
}

/// Successive checks of a service without a limit all pass and change
/// nothing.
proof fn lemma_checks_unlimited(
    states: Seq<Seq<(Seq<char>, RateBucket)>>,
    id: Seq<char>,
    times: Seq<u64>,
    results: Seq<bool>,
    n: nat,
)
    requires
        states.len() == times.len() + 1,
        results.len() == times.len(),
        !has_key(states[0], id),
        forall|i: int|
            #![trigger times[i]]
            0 <= i < times.len() ==> checked_at(states[i], id, times[i], results[i], states[i + 1]),
        n <= times.len(),
    ensures
        states[n as int] == states[0],
        forall|i: int| 0 <= i < n ==> #[trigger] results[i],
    decreases n,
{
    if n > 0 {
        let m = (n - 1) as int;
        lemma_checks_unlimited(states, id, times, results, (n - 1) as nat);
        assert(checked_at(states[m], id, times[m], results[m], states[m + 1]));
    }
}

/// Successive calls of `check_rate_at` for one service, all within the
/// minute after it was configured with limit `max` and burst `burst`
/// (`max + burst` fitting in 32 bits): the first `max + burst` pass, every
/// later one is refused, and after `k` checks its count is
/// `min(k, max + burst)` with the window unmoved. A service never
/// configured passes every check, and the buckets stay as they were.
/// `states` are the buckets before the first check and after each;
/// check `i` came at `times[i]` and was answered `results[i]`.
pub proof fn law_successive_checks(
    states: Seq<Seq<(Seq<char>, RateBucket)>>,
    id: Seq<char>,
    times: Seq<u64>,
    results: Seq<bool>,
)
    requires
        states.len() == times.len() + 1,
        results.len() == times.len(),
        keys_unique(states[0]),
        forall|i: int|
            #![trigger times[i]]
            0 <= i < times.len() ==> checked_at(states[i], id, times[i], results[i], states[i + 1]),
        lookup(states[0], id) matches Some(b) ==> {
            &&& b.current_count == 0
            &&& b.max_per_minute + b.burst_capacity <= u32::MAX
            &&& forall|i: int|
                0 <= i < times.len() ==> b.window_start_ns <= #[trigger] times[i] < b.window_start_ns
                    + WINDOW_NS
        },
    ensures
        lookup(states[0], id) matches Some(b) ==> {
            &&& forall|i: int|
                0 <= i < times.len() ==> #[trigger] results[i] == (i < b.max_per_minute
                    + b.burst_capacity)
            &&& lookup(states[times.len() as int], id) == Some(
                RateBucket {
                    current_count: min_int(times.len() as int, b.max_per_minute + b.burst_capacity)
                        as u32,
                    ..b
                },
            )
        },
        lookup(states[0], id) is None ==> (forall|i: int| 0 <= i < times.len() ==> #[trigger] results[i])
            && states[times.len() as int] == states[0],
{
    let n = times.len();
    if has_key(states[0], id) {
        let p = key_pos(states[0], id);
        let b = states[0][p].1;
        lemma_checks_prefix(states, id, times, results, n);
        assert(times.take(n as int) =~= times);
        assert(results.take(n as int) =~= results);
        law_requests_within_a_window(b, times);
        assert forall|i: int| 0 <= i < times.len() implies #[trigger] results[i] == (i
            < b.max_per_minute + b.burst_capacity) by {
            assert(results[i] == check_all(b, times).0[i]);
        }
    } else {
        lemma_checks_unlimited(states, id, times, results, n);
    }
}

} // verus!
