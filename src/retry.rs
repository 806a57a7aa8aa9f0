//! Exponential backoff between attempts of a fallible network step.
//!
//! The policy is a small state machine: after each attempt the caller reports
//! whether it succeeded, and [`Backoff::decide`] answers whether to return the
//! attempt's result or to sleep and try again.

use vstd::prelude::*;

verus! {

/// Delay before the second attempt, in seconds.
pub const INITIAL_BACKOFF_SECS: u64 = 2;

/// Largest delay the driver will still sleep before another attempt, in seconds.
pub const MAX_BACKOFF_SECS: u64 = 120;

/// What the caller does with the attempt it has just made.
#[derive(Debug, Clone, Copy, PartialEq, Eq, Structural)]
pub enum RetryAction {
    /// Hand the attempt's result (success or failure) to the caller unchanged.
    Return,
    /// Report the failure, sleep this many seconds, then attempt again.
    Sleep(u64),
}

/// Backoff state local to one retried operation.
#[derive(Debug)]
pub struct Backoff {
    pub timeout_secs: u64,
}

/// The delay used before attempt `k + 1`, after `k` earlier sleeps.
pub open spec fn backoff_delay(k: nat) -> nat
    decreases k,
{
    if k == 0 {
        INITIAL_BACKOFF_SECS as nat
    } else {
        2 * backoff_delay((k - 1) as nat)
    }
}

/// The driver gives up on a failure once the delay it would sleep exceeds the ceiling.
pub open spec fn gives_up(timeout: nat) -> bool {
    timeout > MAX_BACKOFF_SECS
}

/// The delays the driver sleeps when successive attempts have the given
/// outcomes (`true` for success), starting with delay `timeout`.
pub open spec fn sleeps(timeout: nat, outcomes: Seq<bool>) -> Seq<nat>
    decreases outcomes.len(),
{
    if outcomes.len() == 0 || outcomes[0] || gives_up(timeout) {
        Seq::empty()
    } else {
        seq![timeout] + sleeps(2 * timeout, outcomes.drop_first())
    }
}

/// The index of the attempt whose result the driver returns: the one made
/// after the last sleep.
pub open spec fn returned_attempt(timeout: nat, outcomes: Seq<bool>) -> nat {
    sleeps(timeout, outcomes).len()
}

/// `n` failed attempts.
pub open spec fn failures(n: nat) -> Seq<bool> {
    Seq::new(n, |i: int| false)
}

impl Backoff {
    pub open spec fn wf(&self) -> bool {
        INITIAL_BACKOFF_SECS <= self.timeout_secs <= 2 * MAX_BACKOFF_SECS
    }

    /// A fresh policy, whose first delay is the initial one.
    pub fn new() -> (r: Backoff)
        ensures
            r.wf(),
            r.timeout_secs == INITIAL_BACKOFF_SECS,
    {
        Backoff { timeout_secs: INITIAL_BACKOFF_SECS }
    }

    /// Decides what follows an attempt: return at once on success; on failure
    /// sleep the current delay and double it, unless that delay is past the
    /// ceiling, in which case the failure is returned.
    pub fn decide(&mut self, succeeded: bool) -> (r: RetryAction)
        requires
            old(self).wf(),
        ensures
            final(self).wf(),
            succeeded || gives_up(old(self).timeout_secs as nat) ==> r == RetryAction::Return
                && final(self).timeout_secs == old(self).timeout_secs,
            !succeeded && !gives_up(old(self).timeout_secs as nat) ==> r == RetryAction::Sleep(
                old(self).timeout_secs,
            ) && final(self).timeout_secs == 2 * old(self).timeout_secs,
    {
        if succeeded || self.timeout_secs > MAX_BACKOFF_SECS {
            RetryAction::Return
        } else {
            let t = self.timeout_secs;
            self.timeout_secs = t * 2;
            RetryAction::Sleep(t)
        }
    }
}

proof fn lemma_sleeps_until_success(j: nat, n: nat)
    requires
        n == 0 || !gives_up(backoff_delay((j + n - 1) as nat)),
    ensures
        sleeps(backoff_delay(j), failures(n).push(true)) == Seq::new(
            n,
            |i: int| backoff_delay(j + i as nat),
        ),
    decreases n,
{
    let outcomes = failures(n).push(true);
    if n == 0 {
        assert(outcomes[0]);
        assert(Seq::new(n, |i: int| backoff_delay(j + i as nat)) =~= Seq::<nat>::empty());
    } else {
        lemma_delay_monotone(j, (j + n - 1) as nat);
        assert(outcomes.drop_first() =~= failures((n - 1) as nat).push(true));
        assert(backoff_delay(j + 1) == 2 * backoff_delay(j));
        lemma_sleeps_until_success(j + 1, (n - 1) as nat);
        assert(Seq::new(n, |i: int| backoff_delay(j + i as nat)) =~= seq![backoff_delay(j)]
            + Seq::new((n - 1) as nat, |i: int| backoff_delay(j + 1 + i as nat)));
    }
}

proof fn lemma_delay_monotone(a: nat, b: nat)
    requires
        a <= b,
    ensures
        backoff_delay(a) <= backoff_delay(b),
    decreases b - a,
{
    if a < b {
        lemma_delay_monotone(a, (b - 1) as nat);
    }
}

/// An operation that fails `n` times and then succeeds, where the `n`-th delay
/// is still within the ceiling, has its success returned after exactly `n`
/// sleeps, of the doubling delays 2, 4, 8, ... seconds.
pub proof fn lemma_retry_returns_success(n: nat)
    requires
        n == 0 || backoff_delay((n - 1) as nat) <= MAX_BACKOFF_SECS,
    ensures
        sleeps(INITIAL_BACKOFF_SECS as nat, failures(n).push(true)) == Seq::new(
            n,
            |i: int| backoff_delay(i as nat),
        ),
        returned_attempt(INITIAL_BACKOFF_SECS as nat, failures(n).push(true)) == n,
        failures(n).push(true)[n as int],
{
    lemma_sleeps_until_success(0, n);
    assert(Seq::new(n, |i: int| backoff_delay(0 + i as nat)) =~= Seq::new(
        n,
        |i: int| backoff_delay(i as nat),
    ));
}

proof fn lemma_sleeps_all_fail(j: nat, n: nat)
    requires
        j <= 6,
        n > 6 - j,
    ensures
        sleeps(backoff_delay(j), failures(n)) == Seq::new(
            (6 - j) as nat,
            |i: int| backoff_delay(j + i as nat),
        ),
    decreases 6 - j,
{
    let outcomes = failures(n);
    reveal_with_fuel(backoff_delay, 7);
    if j == 6 {
        assert(gives_up(backoff_delay(j)));
        assert(Seq::new((6 - j) as nat, |i: int| backoff_delay(j + i as nat)) =~= Seq::<
            nat,
        >::empty());
    } else {
        lemma_delay_monotone(j, 5);
        assert(!gives_up(backoff_delay(j)));
        assert(!outcomes[0]);
        assert(outcomes.drop_first() =~= failures((n - 1) as nat));
        assert(backoff_delay(j + 1) == 2 * backoff_delay(j));
        lemma_sleeps_all_fail(j + 1, (n - 1) as nat);
        assert(Seq::new((6 - j) as nat, |i: int| backoff_delay(j + i as nat)) =~= seq![
            backoff_delay(j),
        ] + Seq::new((6 - (j + 1)) as nat, |i: int| backoff_delay(j + 1 + i as nat)));
    }
}

/// An operation that keeps failing is attempted at most seven times: the
/// driver sleeps 2, 4, 8, 16, 32 and 64 seconds, then the next delay (128 s)
/// is past the ceiling and the failure of that last attempt is returned.
pub proof fn lemma_retry_gives_up(n: nat)
    requires
        n >= 7,
    ensures
        sleeps(INITIAL_BACKOFF_SECS as nat, failures(n)) == seq![2nat, 4, 8, 16, 32, 64],
        returned_attempt(INITIAL_BACKOFF_SECS as nat, failures(n)) == 6,
        !failures(n)[6],
        gives_up(backoff_delay(6)),
{
    lemma_sleeps_all_fail(0, n);
    reveal_with_fuel(backoff_delay, 7);
    assert(Seq::new((6 - 0) as nat, |i: int| backoff_delay(0 + i as nat)) =~= seq![
        2nat,
        4,
        8,
        16,
        32,
        64,
    ]);
}

} // verus!
