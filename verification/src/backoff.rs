//! Backoff policy: delays grow exponentially with the attempt index, start at
//! a configured minimum, are capped at a configured maximum, and may carry
//! uniformly sampled additive jitter. The policy itself is a pure function of
//! the attempt index (and, with jitter enabled, of a caller-supplied random
//! sample); the two retry regimes of this crate instantiate their own attempt
//! counters around it.

use vstd::arithmetic::mul::{lemma_mul_inequality, lemma_mul_is_associative};
use vstd::arithmetic::power::{lemma_pow_positive, lemma_pow_increases, pow};
use vstd::prelude::*;

verus! {

/// Configuration of the backoff schedule. Immutable once built; shared by all
/// calls made through one client. Delays are in milliseconds.
#[derive(Clone, Copy, Debug)]
pub struct BackoffConfig {
    /// Delay of the first retry; must be at least 1.
    pub min_delay_ms: u64,
    /// Upper bound on every computed delay.
    pub max_delay_ms: u64,
    /// Multiplier applied for each further attempt; must be at least 1.
    pub factor: u64,
    /// When set, a fresh uniform sample is added to each computed delay.
    pub jitter: bool,
    /// When set, bounds the total number of attempts of one logical call
    /// (the first attempt included). `None` means unbounded: stopping is then
    /// the caller's own responsibility.
    pub max_attempts: Option<u32>,
}

impl BackoffConfig {
    /// A configuration is usable when the factor cannot shrink delays, the
    /// minimum delay is positive, and the cap is not below the minimum.
    pub open spec fn wf(self) -> bool {
        &&& self.min_delay_ms >= 1
        &&& self.factor >= 1
        &&& self.min_delay_ms <= self.max_delay_ms
    }

    /// Whether a further attempt may follow the attempt with index
    /// `attempt` (indices start at 0).
    pub open spec fn spec_attempts_remain(self, attempt: nat) -> bool {
        match self.max_attempts {
            Some(n) => attempt + 1 < n,
            None => true,
        }
    }

    /// Whether this configuration is usable.
    pub fn is_well_formed(&self) -> (r: bool)
        ensures
            r == self.wf(),
    {
        self.min_delay_ms >= 1 && self.factor >= 1 && self.min_delay_ms <= self.max_delay_ms
    }

    /// Whether a further attempt may follow attempt number `attempt`.
    pub fn attempts_remain(&self, attempt: usize) -> (r: bool)
        ensures
            r == self.spec_attempts_remain(attempt as nat),
    {
        match self.max_attempts {
            Some(n) => attempt < n as usize && attempt + 1 < n as usize,
            None => true,
        }
    }
}

impl Default for BackoffConfig {
    /// The schedule used by a client that was not configured otherwise:
    /// 15 s growing by a factor of 2 with jitter, capped at 120 s, and at
    /// most 4 attempts per call.
    fn default() -> (r: Self)
        ensures
            r.min_delay_ms == 15000,
            r.max_delay_ms == 120000,
            r.factor == 2,
            r.jitter,
            r.max_attempts == Some(4u32),
            r.wf(),
    {
        BackoffConfig {
            min_delay_ms: 15000,
            max_delay_ms: 120000,
            factor: 2,
            jitter: true,
            max_attempts: Some(4),
        }
    }
}

/// The delay before the retry that follows attempt `attempt`, jitter aside:
/// `min(min_delay * factor^attempt, max_delay)`.
pub open spec fn spec_base_delay(cfg: BackoffConfig, attempt: nat) -> u64 {
    let raw = cfg.min_delay_ms * pow(cfg.factor as int, attempt);
    if raw >= cfg.max_delay_ms {
        cfg.max_delay_ms
    } else {
        raw as u64
    }
}

/// The jittered delay: the base delay plus `sample % base`, capped at
/// `max_delay`. The sample is uniform, so the added term is uniform over
/// `[0, base)` as the policy asks.
pub open spec fn spec_jittered_delay(cfg: BackoffConfig, attempt: nat, sample: u64) -> u64 {
    let base = spec_base_delay(cfg, attempt) as nat;
    let padded = base + sample as nat % base;
    if padded >= cfg.max_delay_ms {
        cfg.max_delay_ms
    } else {
        padded as u64
    }
}

/// The delay the policy computes for `attempt`: the jittered delay when
/// jitter is enabled, the base delay otherwise.
pub open spec fn spec_next_delay(cfg: BackoffConfig, attempt: nat, sample: u64) -> u64 {
    if cfg.jitter {
        spec_jittered_delay(cfg, attempt, sample)
    } else {
        spec_base_delay(cfg, attempt)
    }
}

/// The base delay never falls below the configured minimum (and so is
/// positive), and never exceeds the cap.
pub proof fn lemma_base_delay_bounds(cfg: BackoffConfig, attempt: nat)
    requires
        cfg.wf(),
    ensures
        cfg.min_delay_ms <= spec_base_delay(cfg, attempt),
        spec_base_delay(cfg, attempt) <= cfg.max_delay_ms,
{
    lemma_pow_positive(cfg.factor as int, attempt);
    lemma_mul_inequality(1, pow(cfg.factor as int, attempt), cfg.min_delay_ms as int);
    vstd::arithmetic::mul::lemma_mul_is_commutative(
        cfg.min_delay_ms as int,
        pow(cfg.factor as int, attempt),
    );
}

/// Every attempt's delay, jittered or not, stays at or below `max_delay`,
/// and the base delay is monotonically non-decreasing in the attempt index.
pub proof fn lemma_next_delay_capped(cfg: BackoffConfig, attempt: nat, sample: u64)
    requires
        cfg.wf(),
    ensures
        spec_next_delay(cfg, attempt, sample) <= cfg.max_delay_ms,
{
    lemma_base_delay_bounds(cfg, attempt);
}

/// Ignoring jitter, a later attempt never waits less than an earlier one.
pub proof fn lemma_base_delay_monotone(cfg: BackoffConfig, a1: nat, a2: nat)
    requires
        cfg.wf(),
        a1 <= a2,
    ensures
        spec_base_delay(cfg, a1) <= spec_base_delay(cfg, a2),
{
    lemma_pow_increases(cfg.factor as nat, a1, a2);
    lemma_base_delay_bounds(cfg, a1);
    lemma_base_delay_bounds(cfg, a2);
    lemma_pow_positive(cfg.factor as int, a1);
    lemma_pow_positive(cfg.factor as int, a2);
    vstd::arithmetic::mul::lemma_mul_strictly_positive(
        cfg.min_delay_ms as int,
        pow(cfg.factor as int, a1),
    );
    vstd::arithmetic::mul::lemma_mul_strictly_positive(
        cfg.min_delay_ms as int,
        pow(cfg.factor as int, a2),
    );
    lemma_mul_inequality(
        pow(cfg.factor as int, a1),
        pow(cfg.factor as int, a2),
        cfg.min_delay_ms as int,
    );
    vstd::arithmetic::mul::lemma_mul_is_commutative(
        cfg.min_delay_ms as int,
        pow(cfg.factor as int, a1),
    );
    vstd::arithmetic::mul::lemma_mul_is_commutative(
        cfg.min_delay_ms as int,
        pow(cfg.factor as int, a2),
    );
    lemma_base_delay_bounds(cfg, a1);
    lemma_base_delay_bounds(cfg, a2);
}

/// Once the raw exponential reaches the cap it stays there: from `a1` on,
/// a saturated base delay never comes back down.
proof fn lemma_base_delay_saturates(cfg: BackoffConfig, a1: nat, a2: nat)
    requires
        cfg.wf(),
        a1 <= a2,
        spec_base_delay(cfg, a1) == cfg.max_delay_ms,
    ensures
        spec_base_delay(cfg, a2) == cfg.max_delay_ms,
{
    lemma_base_delay_monotone(cfg, a1, a2);
    lemma_base_delay_bounds(cfg, a2);
}

/// The base delay for an attempt index: `min(min_delay * factor^attempt,
/// max_delay)`, computed without overflow.
pub fn next_base_delay(cfg: &BackoffConfig, attempt: usize) -> (r: u64)
    requires
        cfg.wf(),
    ensures
        r == spec_base_delay(*cfg, attempt as nat),
        r <= cfg.max_delay_ms,
{
    let mut cur: u64 = cfg.min_delay_ms;
    let mut i: usize = 0;
    proof {
        reveal(pow);
        assert(pow(cfg.factor as int, 0) == 1);
        assert(cfg.min_delay_ms * pow(cfg.factor as int, 0) == cfg.min_delay_ms);
    }
    while i < attempt
        invariant
            cfg.wf(),
            i <= attempt,
            cur == spec_base_delay(*cfg, i as nat),
        decreases attempt - i,
    {
        if cur >= cfg.max_delay_ms {
            proof {
                lemma_base_delay_bounds(*cfg, i as nat);
                lemma_base_delay_saturates(*cfg, i as nat, attempt as nat);
            }
            return cfg.max_delay_ms;
        }
        // cur < max_delay, so no clamping happened yet:
        // cur == min_delay * factor^i exactly.
        proof {
            reveal(pow);
            let f = cfg.factor as int;
            let p = pow(f, i as nat);
            lemma_pow_positive(f, i as nat);
            vstd::arithmetic::mul::lemma_mul_strictly_positive(cfg.min_delay_ms as int, p);
            assert(cur == cfg.min_delay_ms * p);
            assert(pow(f, (i + 1) as nat) == f * p);
            lemma_mul_is_associative(cfg.min_delay_ms as int, p, f);
            vstd::arithmetic::mul::lemma_mul_is_commutative(p, f);
            vstd::arithmetic::mul::lemma_mul_is_commutative(cfg.min_delay_ms as int, f * p);
            assert(cfg.min_delay_ms * pow(f, (i + 1) as nat) == cur * f);
        }
        cur = match cur.checked_mul(cfg.factor) {
            Some(next) => {
                if next >= cfg.max_delay_ms {
                    cfg.max_delay_ms
                } else {
                    next
                }
            },
            None => cfg.max_delay_ms,
        };
        i = i + 1;
    }
    proof {
        lemma_base_delay_bounds(*cfg, attempt as nat);
    }
    cur
}

/// The delay the policy asks for before the retry that follows attempt
/// `attempt`. `jitter_sample` is a fresh uniform random value; it is ignored
/// unless jitter is enabled. The result never exceeds `max_delay_ms`.
pub fn next_delay(cfg: &BackoffConfig, attempt: usize, jitter_sample: u64) -> (r: u64)
    requires
        cfg.wf(),
    ensures
        r == spec_next_delay(*cfg, attempt as nat, jitter_sample),
        r <= cfg.max_delay_ms,
{
    let base = next_base_delay(cfg, attempt);
    proof {
        lemma_base_delay_bounds(*cfg, attempt as nat);
    }
    if cfg.jitter {
        let pad = jitter_sample % base;
        match base.checked_add(pad) {
            Some(padded) => {
                if padded >= cfg.max_delay_ms {
                    cfg.max_delay_ms
                } else {
                    padded
                }
            },
            None => cfg.max_delay_ms,
        }
    } else {
        base
    }
}

} // verus!
