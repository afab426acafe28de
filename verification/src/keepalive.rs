//! Client-initiated WebSocket keepalive: ping the peer on a fixed interval and, when it stops
//! answering, force the connection to be redialled.
//!
//! The OCPP mapping is `OCPPCommCtrlr.WebSocketPingInterval` in 2.0.1/2.1 and the
//! `WebSocketPingInterval` configuration key in the 1.6 security whitepaper. A value of 0 means
//! pinging is disabled, and that is the one representation of "disabled" used here.

use vstd::prelude::*;
use crate::time::{Duration, NANOS_PER_MILLI, NANOS_PER_SEC};

verus! {

/// How often to ping, how long to wait for each pong, and how many consecutive misses mean the
/// connection is dead.
#[derive(Debug, Clone, Copy, PartialEq, Eq)]
pub struct KeepalivePolicy {
    /// Delay between pings. A zero interval disables pinging.
    pub interval: Duration,
    /// How long to wait for each pong before counting it as missed. `None` uses the client's
    /// own request timeout.
    pub timeout: Option<Duration>,
    /// Consecutive missed pongs before the connection is treated as dead and redialled. `0` is
    /// treated as `1`.
    pub max_missed: u32,
}

/// The interval of the default policy: one minute.
pub open spec fn default_ping_interval_nanos() -> nat {
    60 * (NANOS_PER_SEC as nat)
}

/// What `KeepalivePolicy::default()` holds: a one-minute interval, the client's own timeout,
/// and two tolerated misses.
pub open spec fn is_default_policy(p: KeepalivePolicy) -> bool {
    &&& p.interval.spec_nanos() == default_ping_interval_nanos()
    &&& p.timeout is None
    &&& p.max_missed == 2
}

/// `max_missed` with zero read as one.
pub open spec fn spec_misses_allowed(max_missed: u32) -> nat {
    if max_missed == 0 { 1 } else { max_missed as nat }
}

impl Default for KeepalivePolicy {
    fn default() -> (p: Self)
        ensures
            is_default_policy(p),
    {
        KeepalivePolicy { interval: Duration::from_secs(60), timeout: None, max_missed: 2 }
    }
}

impl KeepalivePolicy {
    /// A policy pinging every `interval`, with the default timeout and miss tolerance.
    pub fn every(interval: Duration) -> (p: Self)
        ensures
            p.interval == interval,
            p.timeout is None,
            p.max_missed == 2,
    {
        KeepalivePolicy { interval, timeout: None, max_missed: 2 }
    }

    /// `max_missed`, with `0` normalized to `1`: a policy that tolerated zero misses would
    /// still have to act on the first one.
    pub fn misses_allowed(&self) -> (n: u32)
        ensures
            n == spec_misses_allowed(self.max_missed),
            n >= 1,
            self.max_missed >= 1 ==> n == self.max_missed,
    {
        if self.max_missed == 0 {
            1
        } else {
            self.max_missed
        }
    }

    /// How long to wait for each pong: the policy's own timeout, else the client's.
    pub fn ping_timeout(&self, request_timeout: Duration) -> (t: Duration)
        ensures
            t == (match self.timeout {
                Some(own) => own,
                None => request_timeout,
            }),
    {
        match self.timeout {
            Some(own) => own,
            None => request_timeout,
        }
    }
}

/// Whether a client pings its peer on a schedule. Disabled by default for a client built from
/// raw transport halves; `Disabled` still leaves room to turn pinging on later.
#[derive(Debug, Clone, Copy, PartialEq, Eq)]
pub enum KeepaliveBehavior {
    Enabled(KeepalivePolicy),
    Disabled,
}

impl Default for KeepaliveBehavior {
    fn default() -> (b: Self)
        ensures
            b is Disabled,
    {
        KeepaliveBehavior::Disabled
    }
}

/// The interval a behavior starts with: none when disabled or when the interval is zero.
pub open spec fn spec_initial_interval(b: KeepaliveBehavior) -> Option<Duration> {
    match b {
        KeepaliveBehavior::Enabled(p) => if p.interval.spec_nanos() != 0 {
            Some(p.interval)
        } else {
            None
        },
        KeepaliveBehavior::Disabled => None,
    }
}

impl KeepaliveBehavior {
    /// The starting interval, or `None` when keepalive is off. A zero interval collapses to
    /// `None` so "disabled" has one representation inside the client.
    pub fn initial_interval(&self) -> (r: Option<Duration>)
        ensures
            r == spec_initial_interval(*self),
    {
        match self {
            KeepaliveBehavior::Enabled(policy) => {
                if !policy.interval.is_zero() {
                    Some(policy.interval)
                } else {
                    None
                }
            },
            KeepaliveBehavior::Disabled => None,
        }
    }

    /// The policy governing pings, whether or not pinging starts out enabled: a disabled
    /// behavior carries the default policy for pings enabled later.
    pub fn policy(&self) -> (p: KeepalivePolicy)
        ensures
            match *self {
                KeepaliveBehavior::Enabled(own) => p == own,
                KeepaliveBehavior::Disabled => is_default_policy(p),
            },
    {
        match self {
            KeepaliveBehavior::Enabled(policy) => *policy,
            KeepaliveBehavior::Disabled => KeepalivePolicy::default(),
        }
    }
}

/// The stored form of an interval: whole milliseconds, capped at `u32::MAX`, with 0 for off.
pub open spec fn spec_interval_millis(interval: Option<Duration>) -> u32 {
    match interval {
        None => 0,
        Some(d) => if d.spec_nanos() / (NANOS_PER_MILLI as nat) > u32::MAX {
            u32::MAX
        } else {
            (d.spec_nanos() / (NANOS_PER_MILLI as nat)) as u32
        },
    }
}

/// Reads a stored interval back: 0 is off, anything else that many milliseconds.
pub open spec fn spec_millis_interval_nanos(millis: u32) -> Option<nat> {
    if millis == 0 {
        None
    } else {
        Some((millis * NANOS_PER_MILLI) as nat)
    }
}

/// Stores an interval as milliseconds, capped at `u32::MAX` (about 49 days); `None` is 0.
pub fn interval_to_millis(interval: Option<Duration>) -> (m: u32)
    ensures
        m == spec_interval_millis(interval),
{
    match interval {
        None => 0,
        Some(d) => {
            let millis = d.as_millis();
            if millis > 4_294_967_295 {
                4_294_967_295
            } else {
                millis as u32
            }
        },
    }
}

/// Reads a stored interval: 0 is `None`, anything else that many milliseconds.
pub fn millis_to_interval(millis: u32) -> (r: Option<Duration>)
    ensures
        match r {
            None => millis == 0,
            Some(d) => millis != 0 && d.spec_nanos() == millis * NANOS_PER_MILLI,
        },
{
    if millis == 0 {
        None
    } else {
        Some(Duration::from_millis(millis as u64))
    }
}

/// The keepalive interval in force, changeable at runtime, plus the fixed policy governing each
/// ping.
#[derive(Debug, Clone, Copy)]
pub struct KeepaliveState {
    interval_millis: u32,
    policy: KeepalivePolicy,
}

impl KeepaliveState {
    /// The stored interval in milliseconds; 0 means off.
    pub closed spec fn spec_millis(&self) -> u32 {
        self.interval_millis
    }

    /// The policy governing each ping.
    pub closed spec fn spec_policy(&self) -> KeepalivePolicy {
        self.policy
    }

    /// The state a client starts with under `behavior`.
    pub fn new(behavior: KeepaliveBehavior) -> (s: Self)
        ensures
            s.spec_millis() == spec_interval_millis(spec_initial_interval(behavior)),
            match behavior {
                KeepaliveBehavior::Enabled(own) => s.spec_policy() == own,
                KeepaliveBehavior::Disabled => is_default_policy(s.spec_policy()),
            },
    {
        KeepaliveState {
            interval_millis: interval_to_millis(behavior.initial_interval()),
            policy: behavior.policy(),
        }
    }

    /// The current interval, or `None` when keepalive is off.
    pub fn interval(&self) -> (r: Option<Duration>)
        ensures
            match r {
                None => self.spec_millis() == 0,
                Some(d) => Some(d.spec_nanos()) == spec_millis_interval_nanos(self.spec_millis()),
            },
    {
        millis_to_interval(self.interval_millis)
    }

    /// Replace the interval; `None` turns pinging off.
    pub fn set_interval(&mut self, interval: Option<Duration>)
        ensures
            final(self).spec_millis() == spec_interval_millis(interval),
            final(self).spec_policy() == old(self).spec_policy(),
    {
        self.interval_millis = interval_to_millis(interval);
    }

    /// The policy governing each ping.
    pub fn policy(&self) -> (p: KeepalivePolicy)
        ensures
            p == self.spec_policy(),
    {
        self.policy
    }
}

/// What a ping interval written by the CSMS becomes: a zero duration is the spec's "disabled",
/// the same as `None`.
pub fn normalize_ping_interval(interval: Option<Duration>) -> (r: Option<Duration>)
    ensures
        r == (match interval {
            Some(d) => if d.spec_nanos() == 0 {
                None
            } else {
                Some(d)
            },
            None => None,
        }),
{
    match interval {
        Some(d) => {
            if d.is_zero() {
                None
            } else {
                Some(d)
            }
        },
        None => None,
    }
}

/// The miss counter after one more unanswered ping: it wraps to zero on reaching the
/// tolerance.
pub open spec fn spec_after_miss(missed: nat, allowed: nat) -> nat {
    if missed + 1 >= allowed { 0 } else { missed + 1 }
}

/// The miss counter after `k` consecutive unanswered pings starting from `start`.
pub open spec fn spec_after_misses(start: nat, allowed: nat, k: nat) -> nat
    decreases k,
{
    if k == 0 {
        start
    } else {
        spec_after_miss(spec_after_misses(start, allowed, (k - 1) as nat), allowed)
    }
}

/// Counts consecutive unanswered keepalive pings and decides when the peer is dead.
#[derive(Debug, Clone, Copy)]
pub struct KeepaliveMonitor {
    missed: u32,
    misses_allowed: u32,
}

impl KeepaliveMonitor {
    /// Consecutive misses counted so far.
    pub closed spec fn spec_missed(&self) -> nat {
        self.missed as nat
    }

    /// Misses tolerated before a redial.
    pub closed spec fn spec_allowed(&self) -> nat {
        self.misses_allowed as nat
    }

    /// The counter never reaches the tolerance: reaching it triggers a redial and a reset.
    pub open spec fn wf(&self) -> bool {
        &&& 1 <= self.spec_allowed()
        &&& self.spec_missed() < self.spec_allowed()
    }

    /// A fresh monitor for `policy`.
    pub fn new(policy: &KeepalivePolicy) -> (m: Self)
        ensures
            m.wf(),
            m.spec_missed() == 0,
            m.spec_allowed() == spec_misses_allowed(policy.max_missed),
    {
        KeepaliveMonitor { missed: 0, misses_allowed: policy.misses_allowed() }
    }

    /// Misses counted so far.
    pub fn missed(&self) -> (n: u32)
        ensures
            n == self.spec_missed(),
    {
        self.missed
    }

    /// The peer answered: the count starts over.
    pub fn record_answered(&mut self)
        requires
            old(self).wf(),
        ensures
            final(self).wf(),
            final(self).spec_missed() == 0,
            final(self).spec_allowed() == old(self).spec_allowed(),
    {
        self.missed = 0;
    }

    /// The interval was reconfigured: the count starts over.
    pub fn reset(&mut self)
        requires
            old(self).wf(),
        ensures
            final(self).wf(),
            final(self).spec_missed() == 0,
            final(self).spec_allowed() == old(self).spec_allowed(),
    {
        self.missed = 0;
    }

    /// A ping went unanswered. Returns whether the connection must now be redialled, which is
    /// exactly when this miss reaches the tolerance; the count then starts over.
    pub fn record_unanswered(&mut self) -> (force_redial: bool)
        requires
            old(self).wf(),
        ensures
            final(self).wf(),
            final(self).spec_allowed() == old(self).spec_allowed(),
            force_redial == (old(self).spec_missed() + 1 == old(self).spec_allowed()),
            final(self).spec_missed() == spec_after_miss(
                old(self).spec_missed(),
                old(self).spec_allowed(),
            ),
    {
        self.missed = self.missed + 1;
        if self.missed >= self.misses_allowed {
            self.missed = 0;
            true
        } else {
            false
        }
    }
}

/// A run of `k` consecutive unanswered pings, starting from a fresh count, leaves the count at
/// `k` modulo the tolerance: the redial fires on every `allowed`-th miss and never earlier.
pub proof fn lemma_misses_count_modulo_tolerance(allowed: nat, k: nat)
    requires
        allowed >= 1,
    ensures
        spec_after_misses(0, allowed, k) == k % allowed,
    decreases k,
{
    if k > 0 {
        lemma_misses_count_modulo_tolerance(allowed, (k - 1) as nat);
        let m = allowed as int;
        let prev = ((k - 1) as nat) % allowed;
        let q = ((k - 1) as int) / m;
        vstd::arithmetic::div_mod::lemma_fundamental_div_mod((k - 1) as int, m);
        assert(prev < allowed);
        if prev + 1 >= allowed {
            assert(k as int == m * (q + 1) + 0) by (nonlinear_arith)
                requires
                    (k - 1) as int == m * q + prev,
                    prev + 1 == m,
            ;
            vstd::arithmetic::div_mod::lemma_mod_multiples_vanish(q + 1, 0, m);
            vstd::arithmetic::div_mod::lemma_small_mod(0, allowed);
        } else {
            assert(k as int == m * q + (prev + 1)) by (nonlinear_arith)
                requires
                    (k - 1) as int == m * q + prev,
            ;
            vstd::arithmetic::div_mod::lemma_mod_multiples_vanish(q, (prev + 1) as int, m);
            vstd::arithmetic::div_mod::lemma_small_mod((prev + 1) as nat, allowed);
        }
    } else {
        vstd::arithmetic::div_mod::lemma_small_mod(0, allowed);
    }
}

/// A fresh monitor for a policy forces a redial on exactly the `max_missed`-th consecutive
/// unanswered ping (the first one when `max_missed` is 0), and on every `max_missed`-th after
/// it: the `k`-th miss of a run (counting from 1) forces a redial if and only if `k` is a
/// multiple of `max_missed`.
pub proof fn lemma_redial_on_the_max_missed_th_miss(p: KeepalivePolicy, m: KeepaliveMonitor, k: nat)
    requires
        m.wf(),
        m.spec_missed() == 0,
        m.spec_allowed() == spec_misses_allowed(p.max_missed),
        k >= 1,
    ensures
        p.max_missed >= 1 ==> m.spec_allowed() == p.max_missed,
        p.max_missed == 0 ==> m.spec_allowed() == 1,
        (spec_after_misses(0, m.spec_allowed(), (k - 1) as nat) + 1 == m.spec_allowed()) <==> k
            % (if p.max_missed == 0 { 1 } else { p.max_missed as nat }) == 0,
{
    let a = m.spec_allowed();
    lemma_misses_count_modulo_tolerance(a, (k - 1) as nat);
    let prev = ((k - 1) as nat) % a;
    let q = ((k - 1) as int) / (a as int);
    vstd::arithmetic::div_mod::lemma_fundamental_div_mod((k - 1) as int, a as int);
    if prev + 1 == a {
        assert(k as int == (a as int) * (q + 1) + 0) by (nonlinear_arith)
            requires
                (k - 1) as int == (a as int) * q + prev,
                prev + 1 == a,
        ;
        vstd::arithmetic::div_mod::lemma_mod_multiples_vanish(q + 1, 0, a as int);
        vstd::arithmetic::div_mod::lemma_small_mod(0, a);
    } else {
        assert(k as int == (a as int) * q + (prev + 1)) by (nonlinear_arith)
            requires
                (k - 1) as int == (a as int) * q + prev,
        ;
        vstd::arithmetic::div_mod::lemma_mod_multiples_vanish(q, (prev + 1) as int, a as int);
        vstd::arithmetic::div_mod::lemma_small_mod((prev + 1) as nat, a);
    }
}

/// A written interval reads back as written, to the millisecond: a zero or absent interval as
/// "off", and an interval of whole milliseconds (within the 49-day cap) exactly.
pub proof fn lemma_ping_interval_reads_back(interval: Option<Duration>)
    ensures
        ({
            let stored = spec_interval_millis(match interval {
                Some(d) => if d.spec_nanos() == 0 {
                    None
                } else {
                    Some(d)
                },
                None => None,
            });
            &&& (interval is None || interval.unwrap().spec_nanos() == 0) ==> spec_millis_interval_nanos(stored) is None
            &&& (interval matches Some(d) && d.spec_nanos() % (NANOS_PER_MILLI as nat) == 0
                && d.spec_nanos() != 0 && d.spec_nanos() / (NANOS_PER_MILLI as nat) <= u32::MAX)
                ==> spec_millis_interval_nanos(stored) == Some(interval.unwrap().spec_nanos())
        }),
{
    if let Some(d) = interval {
        let n = d.spec_nanos();
        let m = NANOS_PER_MILLI as nat;
        if n % m == 0 && n != 0 && n / m <= u32::MAX {
            vstd::arithmetic::div_mod::lemma_fundamental_div_mod(n as int, m as int);
            assert(n / m > 0) by {
                if n / m == 0 {
                    assert(n == m * (n / m) + n % m);
                }
            }
        }
    }
}

/// What the keepalive task does next.
#[derive(Debug, Clone, Copy, PartialEq, Eq)]
pub enum KeepaliveStep {
    /// The client was shut down: the task ends.
    Stop,
    /// Keepalive is off: wait until it is reconfigured.
    Park,
    /// Wait this long (or until reconfigured), then ping.
    Wait(Duration),
}

/// The keepalive task's next step: a shut-down client stops pinging for good, whatever the
/// interval; with keepalive off it parks; otherwise it waits out the interval.
pub fn keepalive_step(closed: bool, interval: Option<Duration>) -> (step: KeepaliveStep)
    ensures
        closed ==> step is Stop,
        !closed && interval is None ==> step is Park,
        !closed && interval is Some ==> step == KeepaliveStep::Wait(interval.unwrap()),
{
    if closed {
        KeepaliveStep::Stop
    } else {
        match interval {
            None => KeepaliveStep::Park,
            Some(d) => KeepaliveStep::Wait(d),
        }
    }
}

} // verus!
