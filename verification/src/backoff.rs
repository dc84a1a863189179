//! The retry schedule of a waiting acquirer.
//!
//! A waiter polls the registry once per round. The delay between rounds
//! starts at a configured base, doubles after every failed round, and is
//! capped at a fixed maximum. `Backoff` is the loop's state: its current
//! delay, together with ghost bookkeeping that ties the executable state to
//! the mathematical delay sequence, so that the instants at which the waiter
//! re-polls — the retry boundaries — are pinned down exactly.

use vstd::prelude::*;

use vstd::arithmetic::mul::{lemma_mul_inequality, lemma_mul_is_associative};
use vstd::arithmetic::power2::{lemma2_to64, lemma_pow2_strictly_increases, lemma_pow2_unfold, pow2};

verus! {

/// Default timeout for the default-timeout acquisition mode: five seconds.
pub const DEFAULT_TIMEOUT_MS: u64 = 5000;

/// Default base retry delay: ten milliseconds.
pub const DEFAULT_RETRY_MS: u64 = 10;

/// Fixed cap on the retry delay: one second.
pub const MAX_BACKOFF_MS: u64 = 1000;

/// The retry delay slept through in round `round`: the base delay in round 0,
/// doubled after every completed round, capped at `cap`.
pub open spec fn delay_at(base: u64, cap: u64, round: nat) -> int
    decreases round,
{
    if round == 0 {
        base as int
    } else {
        vstd::math::min(2 * delay_at(base, cap, (round - 1) as nat), cap as int)
    }
}

/// The retry boundary of attempt number `n`: the total time a waiter that
/// started at 0 has slept when it makes its n-th re-poll. Attempt 0 is
/// immediate; attempt n + 1 follows one more delay.
pub open spec fn boundary(base: u64, cap: u64, n: nat) -> int
    decreases n,
{
    if n == 0 {
        0
    } else {
        boundary(base, cap, (n - 1) as nat) + delay_at(base, cap, (n - 1) as nat)
    }
}

/// Every delay of the schedule lies between 0 and the larger of base and cap.
pub proof fn lemma_delay_at_bounds(base: u64, cap: u64, round: nat)
    ensures
        0 <= delay_at(base, cap, round),
        delay_at(base, cap, round) <= vstd::math::max(base as int, cap as int),
    decreases round,
{
    if round != 0 {
        lemma_delay_at_bounds(base, cap, (round - 1) as nat);
    }
}

/// While the cap has not yet been reached, the delays double exactly: in
/// round `round` the waiter sleeps `2^round` times the base delay.
pub proof fn lemma_delay_doubles(base: u64, cap: u64, round: nat)
    requires
        pow2(round) * base <= cap,
    ensures
        delay_at(base, cap, round) == pow2(round) * base,
    decreases round,
{
    if round == 0 {
        lemma2_to64();
    } else {
        let prev = (round - 1) as nat;
        lemma_pow2_strictly_increases(prev, round);
        lemma_mul_inequality(pow2(prev) as int, pow2(round) as int, base as int);
        lemma_delay_doubles(base, cap, prev);
        lemma_pow2_unfold(round);
        lemma_mul_is_associative(2, pow2(prev) as int, base as int);
    }
}

/// The backoff sequence law: as long as the delays are below the cap, the
/// retry boundaries form the geometric sequence B, 3B, 7B, 15B, ... — attempt
/// number `n` stands at `(2^n - 1) * B` after start.
pub proof fn lemma_geometric_boundary(base: u64, cap: u64, n: nat)
    requires
        n > 0 ==> pow2((n - 1) as nat) * base <= cap,
    ensures
        boundary(base, cap, n) == (pow2(n) - 1) * base,
    decreases n,
{
    if n == 0 {
        lemma2_to64();
        assert(boundary(base, cap, n) == 0);
        assert((pow2(n) - 1) * base == 0);
    } else {
        let prev = (n - 1) as nat;
        if prev > 0 {
            lemma_pow2_strictly_increases((prev - 1) as nat, prev);
            lemma_mul_inequality(pow2((prev - 1) as nat) as int, pow2(prev) as int, base as int);
        }
        lemma_geometric_boundary(base, cap, prev);
        lemma_delay_doubles(base, cap, prev);
        assert(boundary(base, cap, n) == (pow2(prev) - 1) * base + pow2(prev) * base);
        assert((pow2(prev) - 1) * base + pow2(prev) * base == (2 * pow2(prev) - 1) * base)
            by (nonlinear_arith);
        lemma_pow2_unfold(n);
        assert(pow2(n) == 2 * pow2(prev));
        assert((2 * pow2(prev) - 1) * base == (pow2(n) - 1) * base);
        assert(boundary(base, cap, n) == (pow2(n) - 1) * base);
    }
}

/// With a positive base and cap, every round waits at least one millisecond,
/// so the retry boundaries grow without bound: however late a held key is
/// released, some later boundary reaches it.
pub proof fn lemma_boundary_reaches(base: u64, cap: u64, n: nat)
    requires
        base >= 1,
        cap >= 1,
    ensures
        boundary(base, cap, n) >= n,
    decreases n,
{
    if n != 0 {
        let prev = (n - 1) as nat;
        lemma_boundary_reaches(base, cap, prev);
        lemma_delay_at_positive(base, cap, prev);
    }
}

/// With a positive base and cap, every delay of the schedule is positive.
pub proof fn lemma_delay_at_positive(base: u64, cap: u64, round: nat)
    requires
        base >= 1,
        cap >= 1,
    ensures
        delay_at(base, cap, round) >= 1,
    decreases round,
{
    if round != 0 {
        lemma_delay_at_positive(base, cap, (round - 1) as nat);
    }
}

/// The backoff acquisition law's other half: a waiter polls exactly at the
/// retry boundaries, so for a key released at instant `release` there is a
/// first boundary at or past `release` — the round returned here. Every
/// earlier poll finds the key still held, and no boundary between the
/// release and this one is skipped.
pub proof fn lemma_first_boundary_reaching(base: u64, cap: u64, release: int) -> (n: nat)
    requires
        base >= 1,
        cap >= 1,
        release >= 0,
    ensures
        boundary(base, cap, n) >= release,
        forall|m: nat| m < n ==> boundary(base, cap, m) < release,
    decreases release,
{
    if release == 0 {
        0
    } else {
        let p = lemma_first_boundary_reaching(base, cap, release - 1);
        if boundary(base, cap, p) >= release {
            p
        } else {
            lemma_delay_at_positive(base, cap, p);
            assert(boundary(base, cap, (p + 1) as nat) == boundary(base, cap, p) + delay_at(
                base,
                cap,
                p,
            ));
            assert forall|m: nat| m < p + 1 implies boundary(base, cap, m) < release by {
                if m < p {
                    assert(boundary(base, cap, m) < release - 1);
                }
            }
            (p + 1) as nat
        }
    }
}

/// Retry boundaries never decrease as rounds pass.
pub proof fn lemma_boundary_monotone(base: u64, cap: u64, m: nat, n: nat)
    requires
        m <= n,
    ensures
        boundary(base, cap, m) <= boundary(base, cap, n),
    decreases n,
{
    if m < n {
        let prev = (n - 1) as nat;
        lemma_boundary_monotone(base, cap, m, prev);
        lemma_delay_at_bounds(base, cap, prev);
    }
}

/// What resolved one waiting round: the externally supplied cancellation
/// signal fired first, or the retry delay elapsed first.
pub enum WaitEvent {
    Cancelled,
    Elapsed,
}

/// The state of one waiter's retry schedule. `delay_ms` is the delay its next
/// wait will sleep; the ghost fields record how many rounds have completed
/// and how long the waiter has slept in total, which the type invariant ties
/// to the delay sequence and retry boundaries.
pub struct Backoff {
    base_ms: u64,
    cap_ms: u64,
    delay_ms: u64,
    rounds: Ghost<nat>,
    waited: Ghost<int>,
}

impl Backoff {
    /// The configured base delay.
    pub closed spec fn base(self) -> u64 {
        self.base_ms
    }

    /// The configured delay cap.
    pub closed spec fn cap(self) -> u64 {
        self.cap_ms
    }

    /// The delay the next wait will sleep.
    pub closed spec fn delay(self) -> u64 {
        self.delay_ms
    }

    /// How many waiting rounds have completed.
    pub closed spec fn rounds(self) -> nat {
        self.rounds@
    }

    /// The total time slept so far.
    pub closed spec fn waited(self) -> int {
        self.waited@
    }

    /// The executable state always follows the delay sequence: the current
    /// delay is the one scheduled for the current round, and the total slept
    /// time stands at that round's retry boundary.
    #[verifier::type_invariant]
    pub closed spec fn wf(self) -> bool {
        &&& self.delay_ms == delay_at(self.base_ms, self.cap_ms, self.rounds@)
        &&& self.waited@ == boundary(self.base_ms, self.cap_ms, self.rounds@)
    }

    /// A fresh schedule: round 0, nothing slept, first delay equal to the base.
    pub fn new(base_ms: u64, cap_ms: u64) -> (r: Backoff)
        ensures
            r.base() == base_ms,
            r.cap() == cap_ms,
            r.delay() == base_ms,
            r.rounds() == 0,
            r.waited() == 0,
    {
        Backoff { base_ms, cap_ms, delay_ms: base_ms, rounds: Ghost(0), waited: Ghost(0) }
    }

    /// The delay, in milliseconds, that the next wait sleeps. Its contract
    /// also carries the bridge from the executable state to the backoff law:
    /// the current delay is the one the delay sequence schedules for the
    /// current round, and the total slept time stands at that round's retry
    /// boundary.
    pub fn delay_ms(&self) -> (r: u64)
        ensures
            r == self.delay(),
            self.delay() == delay_at(self.base(), self.cap(), self.rounds()),
            self.waited() == boundary(self.base(), self.cap(), self.rounds()),
    {
        proof {
            use_type_invariant(self);
        }
        self.delay_ms
    }

    /// One waiting round has completed: account for the sleep that elapsed
    /// and double the delay, capped at the configured maximum.
    pub fn advance(&mut self)
        ensures
            final(self).base() == old(self).base(),
            final(self).cap() == old(self).cap(),
            final(self).rounds() == old(self).rounds() + 1,
            final(self).waited() == old(self).waited() + old(self).delay(),
            final(self).delay() == vstd::math::min(2 * old(self).delay(), old(self).cap() as int),
    {
        proof {
            use_type_invariant(&*self);
        }
        let d: u64 = self.delay_ms;
        let cap: u64 = self.cap_ms;
        let next: u64 = if d >= cap {
            cap
        } else if d > cap / 2 {
            cap
        } else {
            d * 2
        };
        assert(next == vstd::math::min(2 * d, cap as int));
        *self = Backoff {
            base_ms: self.base_ms,
            cap_ms: self.cap_ms,
            delay_ms: next,
            rounds: Ghost(self.rounds@ + 1),
            waited: Ghost(self.waited@ + d),
        };
    }

    /// The waiting loop's decision after a failed claim attempt, given which
    /// event resolved the round: a fired cancellation ends the wait at once,
    /// empty-handed and with the schedule unchanged; an elapsed retry delay
    /// completes the round, so the schedule advances and the loop polls again.
    pub fn next_round(&mut self, event: WaitEvent) -> (keep_going: bool)
        ensures
            keep_going == (event is Elapsed),
            event is Cancelled ==> *final(self) == *old(self),
            event is Elapsed ==> {
                &&& final(self).base() == old(self).base()
                &&& final(self).cap() == old(self).cap()
                &&& final(self).rounds() == old(self).rounds() + 1
                &&& final(self).waited() == old(self).waited() + old(self).delay()
                &&& final(self).delay() == vstd::math::min(
                    2 * old(self).delay(),
                    old(self).cap() as int,
                )
            },
    {
        match event {
            WaitEvent::Cancelled => false,
            WaitEvent::Elapsed => {
                self.advance();
                true
            },
        }
    }
}

} // verus!
