//! Retry delay policy: the delay doubles after every failure up to a cap and
//! falls back to the base delay after a success.

use vstd::prelude::*;

verus! {

/// Mathematical model of a [`BackoffState`]: three delays in seconds.
pub struct BackoffView {
    pub current: nat,
    pub base: nat,
    pub max: nat,
}

/// The smaller of two natural numbers.
pub open spec fn min_nat(a: nat, b: nat) -> nat {
    if a <= b {
        a
    } else {
        b
    }
}

/// Two to the power `n`.
pub open spec fn pow2(n: nat) -> nat
    decreases n,
{
    if n == 0 {
        1
    } else {
        2 * pow2((n - 1) as nat)
    }
}

impl BackoffView {
    /// The state right after construction or after a success.
    pub open spec fn reset(self) -> BackoffView {
        BackoffView { current: self.base, ..self }
    }

    /// The state after one more failure: the delay is doubled and capped.
    pub open spec fn failed(self) -> BackoffView {
        BackoffView { current: min_nat(2 * self.current, self.max), ..self }
    }

    /// The state after `n` failures in a row.
    pub open spec fn failed_times(self, n: nat) -> BackoffView
        decreases n,
    {
        if n == 0 {
            self
        } else {
            self.failed_times((n - 1) as nat).failed()
        }
    }
}

/// Delay bookkeeping of the retry policy, in whole seconds.
#[derive(Clone, Copy, Debug)]
pub struct BackoffState {
    current_delay: u64,
    base_delay: u64,
    max_delay: u64,
}

impl View for BackoffState {
    type V = BackoffView;

    closed spec fn view(&self) -> BackoffView {
        BackoffView {
            current: self.current_delay as nat,
            base: self.base_delay as nat,
            max: self.max_delay as nat,
        }
    }
}

impl BackoffState {
    /// A fresh policy whose current delay is the base delay.
    pub fn new(base_delay: u64, max_delay: u64) -> (state: BackoffState)
        ensures
            state@ == (BackoffView {
                current: base_delay as nat,
                base: base_delay as nat,
                max: max_delay as nat,
            }),
    {
        BackoffState { current_delay: base_delay, base_delay, max_delay }
    }

    /// The delay to wait before the next cycle.
    pub fn current_delay(&self) -> (delay: u64)
        ensures
            delay as nat == self@.current,
    {
        self.current_delay
    }

    /// The delay used after a success.
    pub fn base_delay(&self) -> (delay: u64)
        ensures
            delay as nat == self@.base,
    {
        self.base_delay
    }

    /// The cap that a doubled delay never exceeds.
    pub fn max_delay(&self) -> (delay: u64)
        ensures
            delay as nat == self@.max,
    {
        self.max_delay
    }

    /// Records a fully successful cycle: the current delay is the base delay again.
    pub fn on_success(&mut self)
        ensures
            final(self)@ == old(self)@.reset(),
    {
        self.current_delay = self.base_delay;
    }

    /// Records a failure or a timeout: doubles the current delay, caps it, and
    /// returns the new delay for the caller to sleep.
    pub fn on_failure(&mut self) -> (delay: u64)
        ensures
            final(self)@ == old(self)@.failed(),
            delay as nat == final(self)@.current,
    {
        let next: u64 = match self.current_delay.checked_mul(2) {
            Some(doubled) => if doubled <= self.max_delay {
                doubled
            } else {
                self.max_delay
            },
            None => self.max_delay,
        };
        self.current_delay = next;
        next
    }
}

/// The delay after `n` failures in a row, counted from a state whose current
/// delay is the base delay `b` with cap `c`: the base delay itself before any
/// failure, then the base delay doubled once per failure and capped. A single
/// success after them makes the delay the base delay again.
pub proof fn lemma_backoff_law(b: nat, c: nat, n: nat)
    ensures
        (BackoffView { current: b, base: b, max: c }).failed_times(n) == (BackoffView {
            current: if n == 0 {
                b
            } else {
                min_nat(pow2(n) * b, c)
            },
            base: b,
            max: c,
        }),
        (BackoffView { current: b, base: b, max: c }).failed_times(n).reset().current == b,
    decreases n,
{
    let start = BackoffView { current: b, base: b, max: c };
    if n == 0 {
    } else if n == 1 {
        assert(start.failed_times(0) == start);
        assert(pow2(1) == 2) by {
            reveal_with_fuel(pow2, 2);
        }
    } else {
        lemma_backoff_law(b, c, (n - 1) as nat);
        let prev: nat = pow2((n - 1) as nat);
        assert(pow2(n) * b == 2 * (prev * b)) by (nonlinear_arith)
            requires
                pow2(n) == 2 * prev,
        ;
    }
}

/// Whatever state the failures started from, and however many there were, a
/// single success makes the next delay the base delay.
pub proof fn lemma_success_resets(s: BackoffView, n: nat)
    ensures
        s.failed_times(n).reset() == s.reset(),
        s.failed_times(n).reset().current == s.base,
    decreases n,
{
    if n > 0 {
        lemma_success_resets(s, (n - 1) as nat);
    }
}

/// A delay that has been capped once never exceeds the cap again, and the cap
/// and the base delay never change.
pub proof fn lemma_failures_stay_capped(s: BackoffView, n: nat)
    ensures
        s.failed_times(n).base == s.base,
        s.failed_times(n).max == s.max,
        n >= 1 ==> s.failed_times(n).current <= s.max,
    decreases n,
{
    if n > 0 {
        lemma_failures_stay_capped(s, (n - 1) as nat);
    }
}

} // verus!
