//! Automatic-reconnect decisions for the client's background read loop: the backoff between
//! attempts, and what to do when the current transport stops.

use vstd::prelude::*;
use crate::ids::fresh_uuid;
use crate::time::{Duration, MAX_NANOS, NANOS_PER_SEC};
use vstd::arithmetic::power::pow;

verus! {

/// Bounded exponential backoff between reconnect attempts. The delay grows by `multiplier`
/// after each attempt that did not produce a working connection, capped at `max_delay`; the
/// number of attempts itself is unbounded.
#[derive(Debug, Clone, Copy, PartialEq, Eq)]
pub struct ReconnectPolicy {
    pub initial_delay: Duration,
    pub max_delay: Duration,
    pub multiplier: u32,
    /// Randomize each delay within `[delay / 2, delay]` ("equal jitter").
    pub jitter: bool,
}

/// What `ReconnectPolicy::default()` holds: one second growing by two up to a minute, with
/// jitter.
pub open spec fn is_default_reconnect_policy(p: ReconnectPolicy) -> bool {
    &&& p.initial_delay.spec_nanos() == NANOS_PER_SEC
    &&& p.max_delay.spec_nanos() == 60 * (NANOS_PER_SEC as nat)
    &&& p.multiplier == 2
    &&& p.jitter
}

impl Default for ReconnectPolicy {
    fn default() -> (p: Self)
        ensures
            is_default_reconnect_policy(p),
    {
        ReconnectPolicy {
            initial_delay: Duration::from_secs(1),
            max_delay: Duration::from_secs(60),
            multiplier: 2,
            jitter: true,
        }
    }
}

/// The growing delay before attempt `attempt`, or `None` once it has reached the cap (or left
/// the representable range) - from then on the cap applies for good.
pub open spec fn spec_backoff(init: nat, max: nat, mult: nat, attempt: nat) -> Option<nat>
    decreases attempt,
{
    if attempt == 0 {
        Some(init)
    } else {
        match spec_backoff(init, max, mult, (attempt - 1) as nat) {
            None => None,
            Some(v) => if v * mult <= MAX_NANOS && v * mult < max {
                Some(v * mult)
            } else {
                None
            },
        }
    }
}

/// The un-jittered delay, in nanoseconds, before reconnect attempt `attempt`: the initial delay
/// held to the cap for the first attempt, then the growing delay until it reaches the cap.
pub open spec fn spec_delay_for(p: ReconnectPolicy, attempt: nat) -> nat {
    if attempt == 0 {
        if p.initial_delay.spec_nanos() <= p.max_delay.spec_nanos() {
            p.initial_delay.spec_nanos()
        } else {
            p.max_delay.spec_nanos()
        }
    } else {
        match spec_backoff(
        p.initial_delay.spec_nanos(),
        p.max_delay.spec_nanos(),
        p.multiplier as nat,
        attempt,
    ) {
            Some(v) => v,
            None => p.max_delay.spec_nanos(),
        }
    }
}

/// The closed form of the delay: `initial_delay * multiplier^attempt`, capped at `max_delay`.
pub open spec fn spec_capped_growth(p: ReconnectPolicy, attempt: nat) -> int {
    let grown = p.initial_delay.spec_nanos() * pow(p.multiplier as int, attempt);
    if grown < p.max_delay.spec_nanos() {
        grown
    } else {
        p.max_delay.spec_nanos() as int
    }
}

/// Equal jitter: half the delay, plus the other half scaled by `fraction / u32::MAX`, with the
/// scaled part kept to its low 64 bits.
pub open spec fn spec_jitter(delay: nat, fraction: u32) -> nat {
    let half = delay / 2;
    half + (((half * fraction) as nat) / 4_294_967_295nat) % 18_446_744_073_709_551_616nat
}

impl ReconnectPolicy {
    /// The un-jittered delay before reconnect attempt number `attempt` (0 is the delay before
    /// the first retry, right after the disconnect), never above `max_delay`.
    pub fn delay_for(&self, attempt: u32) -> (d: Duration)
        ensures
            d.spec_nanos() == spec_delay_for(*self, attempt as nat),
    {
        if attempt == 0 {
            if self.max_delay.is_shorter_than(&self.initial_delay) {
                return self.max_delay;
            }
            return self.initial_delay;
        }
        let mut delay = self.initial_delay;
        let mut i: u32 = 0;
        while i < attempt
            invariant
                i <= attempt,
                spec_backoff(
                    self.initial_delay.spec_nanos(),
                    self.max_delay.spec_nanos(),
                    self.multiplier as nat,
                    i as nat,
                ) == Some(delay.spec_nanos()),
            decreases attempt - i,
        {
            match delay.checked_mul(self.multiplier) {
                Some(d) => {
                    if d.is_shorter_than(&self.max_delay) {
                        delay = d;
                    } else {
                        proof {
                            lemma_capped_stays_capped(*self, (i + 1) as nat, attempt as nat);
                        }
                        return self.max_delay;
                    }
                },
                None => {
                    proof {
                        lemma_capped_stays_capped(*self, (i + 1) as nat, attempt as nat);
                    }
                    return self.max_delay;
                },
            }
            i = i + 1;
        }
        delay
    }

    /// `delay_for` with equal jitter applied: spread over `[delay / 2, delay]`, or exactly the
    /// delay when `jitter` is off. The spread comes from a throwaway random UUID.
    pub fn jittered_delay_for(&self, attempt: u32) -> (d: Duration)
        ensures
            !self.jitter ==> d.spec_nanos() == spec_delay_for(*self, attempt as nat),
            self.jitter ==> exists|fraction: u32|
                d.spec_nanos() == #[trigger] spec_jitter(
                    spec_delay_for(*self, attempt as nat),
                    fraction,
                ),
    {
        let delay = self.delay_for(attempt);
        if !self.jitter {
            return delay;
        }
        let fraction = (fresh_uuid() % 0x1_0000_0000) as u32;
        let d = jitter_delay(delay, fraction);
        assert(d.spec_nanos() == spec_jitter(spec_delay_for(*self, attempt as nat), fraction));
        d
    }
}

/// Once the backoff has reached the cap at one attempt, every later attempt is capped too.
proof fn lemma_capped_stays_capped(p: ReconnectPolicy, from: nat, to: nat)
    requires
        from <= to,
        spec_backoff(
            p.initial_delay.spec_nanos(),
            p.max_delay.spec_nanos(),
            p.multiplier as nat,
            from,
        ) is None,
    ensures
        spec_backoff(
            p.initial_delay.spec_nanos(),
            p.max_delay.spec_nanos(),
            p.multiplier as nat,
            to,
        ) is None,
    decreases to - from,
{
    if from < to {
        lemma_capped_stays_capped(p, from + 1, to);
    }
}

/// Equal jitter of `delay` by `fraction` (a uniformly random `u32` in the client): half the
/// delay plus `fraction / u32::MAX` of the other half.
pub fn jitter_delay(delay: Duration, fraction: u32) -> (d: Duration)
    ensures
        d.spec_nanos() == spec_jitter(delay.spec_nanos(), fraction),
{
    let total = delay.as_nanos();
    let half = delay.checked_div(2).unwrap();
    let h = half.as_nanos();
    proof {
        assert(h <= MAX_NANOS / 2);
    }
    assert(h * (fraction as int) <= (MAX_NANOS / 2) * 4_294_967_295) by (nonlinear_arith)
        requires
            h <= MAX_NANOS / 2,
            fraction <= 4_294_967_295,
    ;
    let scaled = h * fraction as u128;
    let extra = scaled / 4_294_967_295;
    assert(extra <= h) by (nonlinear_arith)
        requires
            scaled == h * (fraction as int),
            fraction <= 4_294_967_295,
            extra == scaled / 4_294_967_295,
    ;
    let low = (extra % 0x1_0000_0000_0000_0000) as u64;
    let sum = half.checked_add(Duration::from_nanos(low));
    assert(h + low <= MAX_NANOS);
    sum.unwrap()
}

/// Whether a `connect_*` call reconnects automatically on disconnect. Enabled with the default
/// policy unless the caller opts out.
#[derive(Debug, Clone, Copy)]
pub enum ReconnectBehavior {
    Enabled(ReconnectPolicy),
    Disabled,
}

impl Default for ReconnectBehavior {
    fn default() -> (b: Self)
        ensures
            b matches ReconnectBehavior::Enabled(p) && is_default_reconnect_policy(p),
    {
        ReconnectBehavior::Enabled(ReconnectPolicy::default())
    }
}

/// The delay never exceeds `max_delay`, whatever the attempt.
pub proof fn lemma_delay_capped(p: ReconnectPolicy, attempt: nat)
    ensures
        spec_delay_for(p, attempt) <= p.max_delay.spec_nanos(),
{
    lemma_backoff_below_cap(p, attempt);
}

/// With a multiplier of at least one, the delay never shrinks from one attempt to the next.
pub proof fn lemma_delay_non_decreasing(p: ReconnectPolicy, attempt: nat)
    requires
        p.multiplier >= 1,
    ensures
        spec_delay_for(p, attempt) <= spec_delay_for(p, attempt + 1),
{
    let init = p.initial_delay.spec_nanos();
    let max = p.max_delay.spec_nanos();
    let m = p.multiplier as nat;
    lemma_backoff_below_cap(p, attempt);
    lemma_backoff_below_cap(p, attempt + 1);
    match spec_backoff(init, max, m, attempt) {
        Some(v) => {
            assert(v <= v * m) by (nonlinear_arith)
                requires
                    m >= 1,
            ;
        },
        None => {},
    }
}

/// From the first retry on, a growing delay that is still growing is below the cap.
proof fn lemma_backoff_below_cap(p: ReconnectPolicy, attempt: nat)
    ensures
        attempt >= 1 ==> (spec_backoff(
            p.initial_delay.spec_nanos(),
            p.max_delay.spec_nanos(),
            p.multiplier as nat,
            attempt,
        ) matches Some(v) ==> v < p.max_delay.spec_nanos()),
{
}

/// With a multiplier of at least one, the growing delay is `init * m^n` while it grows, and
/// once it stops (reaches the cap, or leaves the representable range) `init * m^n` has reached
/// the cap.
proof fn lemma_backoff_tracks_growth(init: nat, max: nat, m: nat, n: nat)
    requires
        m >= 1,
        max <= MAX_NANOS,
    ensures
        spec_backoff(init, max, m, n) matches Some(v) ==> v == init * pow(m as int, n),
        spec_backoff(init, max, m, n) is None ==> init * pow(m as int, n) >= max,
    decreases n,
{
    if n > 0 {
        lemma_backoff_tracks_growth(init, max, m, (n - 1) as nat);
        let before = pow(m as int, (n - 1) as nat);
        vstd::arithmetic::power::lemma_pow_positive(m as int, (n - 1) as nat);
        assert(pow(m as int, n) == m * before) by {
            reveal(pow);
        }
        assert(init * pow(m as int, n) == (init * before) * m) by (nonlinear_arith)
            requires
                pow(m as int, n) == m * before,
        ;
        assert(init * before <= (init * before) * m) by (nonlinear_arith)
            requires
                m >= 1,
                before > 0,
        ;
    } else {
        vstd::arithmetic::power::lemma_pow0(m as int);
    }
}

/// With a multiplier of zero the delay drops to nothing after the first attempt (or stays at a
/// zero cap).
proof fn lemma_backoff_without_growth(init: nat, max: nat, n: nat)
    requires
        n >= 1,
    ensures
        spec_backoff(init, max, 0, n) == (if 0 < max {
            Some(0nat)
        } else {
            None
        }),
    decreases n,
{
    if n > 1 {
        lemma_backoff_without_growth(init, max, (n - 1) as nat);
    } else {
        reveal_with_fuel(spec_backoff, 2);
    }
}

/// The delay in closed form: the initial delay times the multiplier to the power of the attempt,
/// capped at `max_delay`; a product beyond the representable range counts as above the cap.
pub proof fn lemma_delay_closed_form(p: ReconnectPolicy, attempt: nat)
    requires
        p.max_delay.spec_nanos() <= MAX_NANOS,
    ensures
        spec_delay_for(p, attempt) == spec_capped_growth(p, attempt),
{
    let init = p.initial_delay.spec_nanos();
    let max = p.max_delay.spec_nanos();
    let m = p.multiplier as nat;
    if attempt == 0 {
        vstd::arithmetic::power::lemma_pow0(m as int);
    } else if m == 0 {
        lemma_backoff_without_growth(init, max, attempt);
        assert(pow(0, attempt) == 0) by {
            reveal(pow);
        }
    } else {
        lemma_backoff_tracks_growth(init, max, m, attempt);
        lemma_backoff_below_cap(p, attempt);
    }
}

/// Jitter keeps the delay within `[delay / 2, delay]`, for every delay whose half fits the 64-bit
/// nanosecond count the jitter is computed in.
pub proof fn lemma_jitter_within_bounds(delay: nat, fraction: u32)
    requires
        delay / 2 <= u64::MAX,
    ensures
        delay / 2 <= spec_jitter(delay, fraction) <= delay,
{
    let half = delay / 2;
    let scaled = (half * fraction) as nat;
    assert(scaled / 4_294_967_295nat <= half) by (nonlinear_arith)
        requires
            scaled == half * fraction,
            fraction <= 4_294_967_295,
    ;
    vstd::arithmetic::div_mod::lemma_small_mod(
        scaled / 4_294_967_295nat,
        18_446_744_073_709_551_616nat,
    );
}

/// A zero delay stays zero under jitter.
pub proof fn lemma_jitter_of_zero(fraction: u32)
    ensures
        spec_jitter(0, fraction) == 0,
{
    assert(((0nat * fraction) as nat) / 4_294_967_295nat == 0);
}

/// The reconnect attempt counter that persists across connections: it advances on every dial
/// and starts over as soon as a connection carries inbound traffic.
#[derive(Debug, Clone, Copy)]
pub struct Backoff {
    attempt: u32,
}

impl Backoff {
    /// Attempts made since the last connection that carried traffic.
    pub closed spec fn spec_attempt(&self) -> nat {
        self.attempt as nat
    }

    /// No attempts yet.
    pub fn new() -> (b: Self)
        ensures
            b.spec_attempt() == 0,
    {
        Backoff { attempt: 0 }
    }

    /// Attempts made since the last connection that carried traffic.
    pub fn attempt(&self) -> (a: u32)
        ensures
            a == self.spec_attempt(),
    {
        self.attempt
    }

    /// Inbound traffic proves the connection works: the next redial waits the initial delay.
    pub fn on_traffic(&mut self)
        ensures
            final(self).spec_attempt() == 0,
    {
        self.attempt = 0;
    }

    /// The wait before the next dial, after which the attempt counter advances (saturating).
    pub fn next_delay(&mut self, policy: &ReconnectPolicy) -> (d: Duration)
        ensures
            final(self).spec_attempt() == if old(self).spec_attempt() == u32::MAX as nat {
                u32::MAX as nat
            } else {
                old(self).spec_attempt() + 1
            },
            !policy.jitter ==> d.spec_nanos() == spec_delay_for(*policy, old(self).spec_attempt()),
            policy.jitter ==> exists|fraction: u32|
                d.spec_nanos() == #[trigger] spec_jitter(
                    spec_delay_for(*policy, old(self).spec_attempt()),
                    fraction,
                ),
    {
        let d = policy.jittered_delay_for(self.attempt);
        self.attempt = self.attempt.saturating_add(1);
        d
    }
}

/// Why the read loop stopped reading the current transport.
#[derive(Debug, Clone, Copy, PartialEq, Eq)]
pub enum LoopExit {
    /// The transport ended or errored on its own.
    Eof,
    /// Keepalive (or a forced reconnect) gave up on an unresponsive peer.
    Forced,
    /// The client was shut down on purpose.
    Shutdown,
}

/// What the read loop does when its wake-up signal interrupts a read.
#[derive(Debug, Clone, Copy, PartialEq, Eq)]
pub enum WakeOutcome {
    /// Leave for good: the client was shut down.
    Shutdown,
    /// Abandon this transport and redial.
    Forced,
    /// Nothing to redial with: keep reading rather than going deaf.
    KeepReading,
}

/// The read loop was woken: an explicit shutdown outranks everything, and a forced reconnect is
/// honoured only when there is a reconnector to redial with.
pub fn on_wake(closed: bool, can_redial: bool) -> (w: WakeOutcome)
    ensures
        closed ==> w is Shutdown,
        !closed && can_redial ==> w is Forced,
        !closed && !can_redial ==> w is KeepReading,
{
    if closed {
        WakeOutcome::Shutdown
    } else if can_redial {
        WakeOutcome::Forced
    } else {
        WakeOutcome::KeepReading
    }
}

/// What follows once the read loop stopped reading a transport.
#[derive(Debug, Clone, Copy, PartialEq, Eq)]
pub enum AfterExit {
    /// Stop the read loop entirely.
    Stop,
    /// Redial, closing the abandoned transport first when it was given up on.
    Redial { close_first: bool },
}

/// After the current transport stopped: a shutdown is never undone by the reconnector, a client
/// without a reconnector goes quiet, and anything else is redialled.
pub fn after_exit(reason: LoopExit, closed: bool, can_redial: bool) -> (a: AfterExit)
    ensures
        (reason is Shutdown || closed) ==> a is Stop,
        !(reason is Shutdown || closed) && !can_redial ==> a is Stop,
        !(reason is Shutdown || closed) && can_redial ==> a == (AfterExit::Redial {
            close_first: reason is Forced,
        }),
{
    match reason {
        LoopExit::Shutdown => AfterExit::Stop,
        _ => {
            if closed || !can_redial {
                AfterExit::Stop
            } else {
                AfterExit::Redial {
                    close_first: match reason {
                        LoopExit::Forced => true,
                        _ => false,
                    },
                }
            }
        },
    }
}

} // verus!
