//! Exponentially increasing retry delays with jitter and an optional cap.
//!
//! All delays are integer milliseconds. The multiplier of the schedule is
//! the ratio of two integers, so the whole schedule is exact arithmetic:
//! the nominal delay starts at `init_backoff_ms`, is multiplied by
//! `base_numerator / base_denominator` after every retry, and never
//! exceeds `max_backoff_ms`. Each sleep is jittered uniformly within
//! [0.5, 1.0] of the current nominal delay; the jitter source is handed in
//! by the caller as a plain number.

use vstd::arithmetic::div_mod::{lemma_div_is_ordered, lemma_div_multiples_vanish};
use vstd::arithmetic::mul::{lemma_mul_inequality, lemma_mul_upper_bound};
use vstd::prelude::*;

verus! {

/// Error of a retry schedule that ran out of budget.
#[derive(Clone, Copy, Debug, PartialEq, Eq, Structural)]
pub enum BackoffError {
    /// The configured deadline was exceeded by the total time slept.
    DeadlineExceeded,
}

/// Number of steps the jitter interval [0.5, 1.0] is divided into; a
/// jitter input is reduced modulo `JITTER_STEPS + 1` to one of them.
pub const JITTER_STEPS: u64 = 1000;

/// Configuration of an exponential backoff schedule.
#[derive(Clone, Copy, Debug)]
pub struct BackoffConfig {
    /// First nominal delay, in milliseconds.
    pub init_backoff_ms: u64,
    /// Upper bound on the nominal delay, in milliseconds.
    pub max_backoff_ms: u64,
    /// Numerator of the multiplier applied after each retry.
    pub base_numerator: u64,
    /// Denominator of the multiplier; the ratio must be above one.
    pub base_denominator: u64,
    /// Total sleep budget, in milliseconds; `None` retries indefinitely.
    pub deadline_ms: Option<u64>,
}

impl BackoffConfig {
    /// A configuration is well-formed when its delays are positive and its
    /// multiplier is a ratio strictly above one.
    pub open spec fn wf(self) -> bool {
        &&& 1 <= self.init_backoff_ms <= self.max_backoff_ms
        &&& 1 <= self.base_denominator < self.base_numerator
    }
}

impl Default for BackoffConfig {
    /// 100 ms initial delay, tripled after each retry up to 500 s, with no
    /// deadline.
    fn default() -> (r: Self)
        ensures
            r.init_backoff_ms == 100,
            r.max_backoff_ms == 500000,
            r.base_numerator == 3,
            r.base_denominator == 1,
            r.deadline_ms is None,
            r.wf(),
    {
        BackoffConfig {
            init_backoff_ms: 100,
            max_backoff_ms: 500000,
            base_numerator: 3,
            base_denominator: 1,
            deadline_ms: None,
        }
    }
}

/// Nominal delay that follows `nominal` in the schedule: multiplied by the
/// base ratio and capped at the maximum.
pub open spec fn advance_spec(config: BackoffConfig, nominal: nat) -> nat {
    let grown = (nominal * config.base_numerator) / (config.base_denominator as int);
    if grown <= config.max_backoff_ms {
        grown as nat
    } else {
        config.max_backoff_ms as nat
    }
}

/// The jittered sleep drawn from a nominal delay: the half of the delay,
/// plus a fraction of the other half selected by the jitter input.
pub open spec fn sleep_spec(nominal: nat, jitter: u64) -> nat {
    let j = (jitter as int) % ((JITTER_STEPS + 1) as int);
    (nominal / 2 + ((nominal - nominal / 2) * j) / (JITTER_STEPS as int)) as nat
}

/// `a + b`, capped at `u64::MAX`.
pub open spec fn saturating_add_u64_spec(a: nat, b: nat) -> nat {
    if a + b <= u64::MAX {
        a + b
    } else {
        u64::MAX as nat
    }
}

/// Every jittered sleep lies within [0.5, 1.0] of its nominal delay.
pub proof fn lemma_sleep_spec_bounds(nominal: nat, jitter: u64)
    ensures
        nominal / 2 <= sleep_spec(nominal, jitter) <= nominal,
{
    let j = (jitter as nat) % ((JITTER_STEPS + 1) as nat);
    let rest = nominal - nominal / 2;
    assert(j <= JITTER_STEPS);
    lemma_mul_inequality(j as int, JITTER_STEPS as int, rest as int);
    lemma_div_is_ordered((rest * j) as int, (rest * JITTER_STEPS) as int, JITTER_STEPS as int);
    lemma_div_multiples_vanish(rest as int, JITTER_STEPS as int);
}

/// Driver of one backoff schedule: the nominal delay of the next retry and
/// the total amount of sleeping requested so far.
#[derive(Clone, Copy, Debug)]
pub struct Backoff {
    pub config: BackoffConfig,
    /// Nominal (un-jittered) delay of the next retry, in milliseconds.
    pub nominal_ms: u64,
    /// Total sleep requested so far, in milliseconds, saturating.
    pub total_slept_ms: u64,
}

impl Backoff {
    pub open spec fn wf(self) -> bool {
        &&& self.config.wf()
        &&& 1 <= self.nominal_ms <= self.config.max_backoff_ms
    }

    /// A fresh schedule starting at the configured initial delay.
    pub fn new(config: &BackoffConfig) -> (r: Self)
        requires
            config.wf(),
        ensures
            r.config == *config,
            r.nominal_ms == config.init_backoff_ms,
            r.total_slept_ms == 0,
            r.wf(),
    {
        Backoff { config: *config, nominal_ms: config.init_backoff_ms, total_slept_ms: 0 }
    }

    /// Draws the next sleep from the schedule: returns the jittered current
    /// delay, advances the nominal delay geometrically (capped at the
    /// maximum), and accounts the sleep against the deadline budget.
    pub fn next_sleep(&mut self, jitter: u64) -> (sleep_ms: u64)
        requires
            old(self).wf(),
        ensures
            final(self).wf(),
            final(self).config == old(self).config,
            sleep_ms as nat == sleep_spec(old(self).nominal_ms as nat, jitter),
            old(self).nominal_ms / 2 <= sleep_ms <= old(self).nominal_ms,
            final(self).nominal_ms as nat == advance_spec(
                old(self).config,
                old(self).nominal_ms as nat,
            ),
            final(self).total_slept_ms as nat == saturating_add_u64_spec(
                old(self).total_slept_ms as nat,
                sleep_ms as nat,
            ),
    {
        let nominal = self.nominal_ms;
        let j = jitter % (JITTER_STEPS + 1);
        let half = nominal / 2;
        let rest = nominal - half;
        proof {
            lemma_mul_upper_bound(rest as int, u64::MAX as int, j as int, JITTER_STEPS as int);
        }
        let extra128 = (rest as u128 * j as u128) / (JITTER_STEPS as u128);
        proof {
            lemma_sleep_spec_bounds(nominal as nat, jitter);
        }
        let sleep_ms = half + (extra128 as u64);

        proof {
            lemma_mul_upper_bound(
                nominal as int,
                u64::MAX as int,
                self.config.base_numerator as int,
                u64::MAX as int,
            );
        }
        let grown128 = (nominal as u128 * self.config.base_numerator as u128)
            / (self.config.base_denominator as u128);
        let max = self.config.max_backoff_ms;
        self.nominal_ms = if grown128 > max as u128 {
            max
        } else {
            grown128 as u64
        };
        proof {
            lemma_advance_keeps_wf(self.config, nominal as nat);
        }

        self.total_slept_ms = if self.total_slept_ms > u64::MAX - sleep_ms {
            u64::MAX
        } else {
            self.total_slept_ms + sleep_ms
        };
        sleep_ms
    }

    /// Whether the total sleep so far went past the configured deadline.
    pub fn deadline_exceeded(&self) -> (r: bool)
        ensures
            r == match self.config.deadline_ms {
                Some(d) => self.total_slept_ms > d,
                None => false,
            },
    {
        match self.config.deadline_ms {
            Some(d) => self.total_slept_ms > d,
            None => false,
        }
    }
}

/// Advancing a delay that is within bounds keeps it within bounds.
pub proof fn lemma_advance_keeps_wf(config: BackoffConfig, nominal: nat)
    requires
        config.wf(),
        1 <= nominal <= config.max_backoff_ms,
    ensures
        1 <= advance_spec(config, nominal) <= config.max_backoff_ms,
{
    let num = config.base_numerator as nat;
    let den = config.base_denominator as nat;
    assert(nominal * num >= nominal * den) by {
        lemma_mul_inequality(den as int, num as int, nominal as int);
    }
    assert(nominal * den >= den) by {
        lemma_mul_inequality(1, nominal as int, den as int);
    }
    lemma_div_is_ordered(den as int, (nominal * num) as int, den as int);
    assert(den as int / den as int == 1) by {
        lemma_div_multiples_vanish(1, den as int);
    }
}

/// Total sleep of a whole run of the schedule, one entry of `jitters` per
/// retry.
pub open spec fn run_total_spec(config: BackoffConfig, nominal: nat, jitters: Seq<u64>) -> nat
    decreases jitters.len(),
{
    if jitters.len() == 0 {
        0
    } else {
        sleep_spec(nominal, jitters[0]) + run_total_spec(
            config,
            advance_spec(config, nominal),
            jitters.drop_first(),
        )
    }
}

/// Sum of the first `n` nominal delays of the schedule.
pub open spec fn nominal_sum_spec(config: BackoffConfig, nominal: nat, n: nat) -> nat
    decreases n,
{
    if n == 0 {
        0
    } else {
        nominal + nominal_sum_spec(config, advance_spec(config, nominal), (n - 1) as nat)
    }
}

/// Sum of the halves of the first `n` nominal delays of the schedule.
pub open spec fn half_nominal_sum_spec(config: BackoffConfig, nominal: nat, n: nat) -> nat
    decreases n,
{
    if n == 0 {
        0
    } else {
        nominal / 2 + half_nominal_sum_spec(config, advance_spec(config, nominal), (n - 1) as nat)
    }
}

/// For any sequence of retries, the total time slept lies between the sum
/// of the halved nominal delays and the sum of the full nominal delays,
/// whatever jitter the caller supplies.
pub proof fn lemma_backoff_total_sleep_bounds(
    config: BackoffConfig,
    nominal: nat,
    jitters: Seq<u64>,
)
    ensures
        half_nominal_sum_spec(config, nominal, jitters.len()) <= run_total_spec(
            config,
            nominal,
            jitters,
        ),
        run_total_spec(config, nominal, jitters) <= nominal_sum_spec(
            config,
            nominal,
            jitters.len(),
        ),
    decreases jitters.len(),
{
    if jitters.len() > 0 {
        lemma_sleep_spec_bounds(nominal, jitters[0]);
        lemma_backoff_total_sleep_bounds(
            config,
            advance_spec(config, nominal),
            jitters.drop_first(),
        );
    }
}

} // verus!
