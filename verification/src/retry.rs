//! The request retrier: drives one logical call through repeated attempts.
//! Only rate limiting is retried; a server-supplied pause overrides the
//! backoff policy; every other error, and success, ends the call at once.
//!
//! The waiting and the network attempts themselves happen outside this
//! crate. What stands here is every decision: whether to retry, and for how
//! long to pause. `retry_decision` answers for one failed attempt;
//! `execute_outcomes` replays a whole call against a transcript of attempt
//! outcomes and returns exactly what the caller would observe.

use vstd::prelude::*;
use crate::backoff::{next_delay, spec_next_delay, BackoffConfig};
use crate::errors::AnthropicError;

verus! {

/// A server-supplied pause, scaled from seconds to milliseconds,
/// saturating.
pub open spec fn spec_retry_after_ms(secs: u64) -> u64 {
    if secs * 1000 > u64::MAX {
        u64::MAX
    } else {
        (secs * 1000) as u64
    }
}

/// The pause before the next attempt: the server-supplied one when the
/// rate-limited response named one, else the backoff policy's delay for the
/// current attempt index.
pub open spec fn spec_retry_pause(
    cfg: BackoffConfig,
    retry_after: Option<u64>,
    attempt: nat,
    sample: u64,
) -> u64 {
    match retry_after {
        Some(secs) => spec_retry_after_ms(secs),
        None => spec_next_delay(cfg, attempt, sample),
    }
}

/// What follows the failed attempt with index `attempt`: `Some(pause_ms)`
/// exactly when the error is a rate limit and the attempt budget is not
/// exhausted; `None` means the error surfaces to the caller.
pub open spec fn spec_retry_decision(
    cfg: BackoffConfig,
    attempt: nat,
    err: AnthropicError,
    sample: u64,
) -> Option<u64> {
    match err {
        AnthropicError::RateLimit { retry_after } => if cfg.spec_attempts_remain(attempt) {
            Some(spec_retry_pause(cfg, retry_after, attempt, sample))
        } else {
            None
        },
        _ => None,
    }
}

/// Decides what follows one failed attempt. Returns the pause in
/// milliseconds before the next attempt, or `None` when the error must
/// surface: errors other than rate limits are never retried, and neither is
/// anything once the attempt budget is spent.
pub fn retry_decision(
    cfg: &BackoffConfig,
    attempt: usize,
    err: &AnthropicError,
    jitter_sample: u64,
) -> (r: Option<u64>)
    requires
        cfg.wf(),
    ensures
        r == spec_retry_decision(*cfg, attempt as nat, *err, jitter_sample),
        r is Some <==> err.spec_is_rate_limit() && cfg.spec_attempts_remain(attempt as nat),
{
    match err {
        AnthropicError::RateLimit { retry_after } => {
            if cfg.attempts_remain(attempt) {
                match retry_after {
                    Some(secs) => match secs.checked_mul(1000) {
                        Some(ms) => Some(ms),
                        None => Some(u64::MAX),
                    },
                    None => Some(next_delay(cfg, attempt, jitter_sample)),
                }
            } else {
                None
            }
        },
        _ => None,
    }
}

/// What the classifier said of one completed network attempt. `Success`
/// stands for a decoded value (held by the caller); `Failure` carries the
/// classified error.
#[derive(Debug)]
pub enum AttemptOutcome {
    Success,
    Failure(AnthropicError),
}

impl Clone for AttemptOutcome {
    fn clone(&self) -> (r: Self)
        ensures
            r == *self,
    {
        match self {
            AttemptOutcome::Success => AttemptOutcome::Success,
            AttemptOutcome::Failure(e) => AttemptOutcome::Failure(e.clone()),
        }
    }
}

/// The caller-observable summary of one logical call: how many attempts ran,
/// the pauses slept between them, and the final error if there was one.
pub struct RetryRun {
    pub attempts: nat,
    pub pauses: Seq<u64>,
    pub failure: Option<AnthropicError>,
}

/// The retrier's reference semantics over a transcript of attempt outcomes,
/// starting at attempt index `i`. A transcript that runs out while the
/// retrier still wants to retry stands for a call that could not finish:
/// it counts every consumed attempt and surfaces `UnexpectedError`.
pub open spec fn spec_execute(
    cfg: BackoffConfig,
    outcomes: Seq<AttemptOutcome>,
    samples: Seq<u64>,
    i: nat,
) -> RetryRun
    decreases outcomes.len() - i,
{
    if i >= outcomes.len() {
        RetryRun { attempts: 0, pauses: Seq::empty(), failure: Some(AnthropicError::UnexpectedError) }
    } else {
        match outcomes[i as int] {
            AttemptOutcome::Success => RetryRun {
                attempts: 1,
                pauses: Seq::empty(),
                failure: None,
            },
            AttemptOutcome::Failure(e) => match spec_retry_decision(cfg, i, e, samples[i as int]) {
                Some(pause) => {
                    let rest = spec_execute(cfg, outcomes, samples, i + 1);
                    RetryRun {
                        attempts: 1 + rest.attempts,
                        pauses: seq![pause] + rest.pauses,
                        failure: rest.failure,
                    }
                },
                None => RetryRun { attempts: 1, pauses: Seq::empty(), failure: Some(e) },
            },
        }
    }
}

/// Replays one logical call against a transcript: `outcomes[i]` is what the
/// classifier said of attempt `i`, `samples[i]` the jitter sample that would
/// have been drawn before retrying it. Returns the caller-observable result,
/// the pauses slept, and the number of attempts made — exactly one when the
/// first outcome is anything but a rate limit.
pub fn execute_outcomes(
    cfg: &BackoffConfig,
    outcomes: &Vec<AttemptOutcome>,
    samples: &Vec<u64>,
) -> (r: (Result<(), AnthropicError>, Vec<u64>, usize))
    requires
        cfg.wf(),
        samples.len() == outcomes.len(),
    ensures
        ({
            let run = spec_execute(*cfg, outcomes@, samples@, 0);
            &&& r.2 == run.attempts
            &&& r.1@ == run.pauses
            &&& match run.failure {
                None => r.0 is Ok,
                Some(e) => r.0 == Err::<(), AnthropicError>(e),
            }
        }),
{
    let ghost run0 = spec_execute(*cfg, outcomes@, samples@, 0);
    let mut pauses: Vec<u64> = Vec::new();
    let mut i: usize = 0;
    while i < outcomes.len()
        invariant
            cfg.wf(),
            samples.len() == outcomes.len(),
            i <= outcomes.len(),
            run0 == spec_execute(*cfg, outcomes@, samples@, 0),
            ({
                let tail = spec_execute(*cfg, outcomes@, samples@, i as nat);
                &&& run0.attempts == i + tail.attempts
                &&& run0.pauses == pauses@ + tail.pauses
                &&& run0.failure == tail.failure
            }),
        decreases outcomes.len() - i,
    {
        let ghost tail = spec_execute(*cfg, outcomes@, samples@, i as nat);
        match &outcomes[i] {
            AttemptOutcome::Success => {
                proof {
                    assert(run0.pauses =~= pauses@);
                }
                return (Ok(()), pauses, i + 1);
            },
            AttemptOutcome::Failure(e) => {
                match retry_decision(cfg, i, e, samples[i]) {
                    Some(pause) => {
                        pauses.push(pause);
                        proof {
                            let next = spec_execute(*cfg, outcomes@, samples@, i as nat + 1);
                            assert(tail.pauses == seq![pause] + next.pauses);
                            assert(pauses@ + next.pauses =~= run0.pauses);
                        }
                    },
                    None => {
                        proof {
                            assert(run0.pauses =~= pauses@);
                        }
                        return (Err(e.clone()), pauses, i + 1);
                    },
                }
            },
        }
        i = i + 1;
    }
    proof {
        assert(run0.pauses =~= pauses@);
    }
    (Err(AnthropicError::UnexpectedError), pauses, i)
}

/// Law: rate limiting is fully absorbed while the budget lasts. With an
/// unbounded attempt budget, the error a call surfaces is never a rate
/// limit: only a non-transient error (or a transcript that ran out) ends it.
pub proof fn lemma_rate_limit_fully_absorbed_when_unbounded(
    cfg: BackoffConfig,
    outcomes: Seq<AttemptOutcome>,
    samples: Seq<u64>,
    i: nat,
)
    requires
        cfg.max_attempts is None,
    ensures
        !(spec_execute(cfg, outcomes, samples, i).failure matches Some(e)
            && e.spec_is_rate_limit()),
    decreases outcomes.len() - i,
{
    if i < outcomes.len() {
        match outcomes[i as int] {
            AttemptOutcome::Success => {},
            AttemptOutcome::Failure(e) => {
                if e is RateLimit {
                    lemma_rate_limit_fully_absorbed_when_unbounded(cfg, outcomes, samples, i + 1);
                }
            },
        }
    }
}

/// A rate-limited response that names a pause is honored to the second,
/// whatever the backoff policy would have computed.
pub proof fn lemma_server_pause_wins(cfg: BackoffConfig, attempt: nat, sample: u64, secs: u64)
    requires
        cfg.spec_attempts_remain(attempt),
        secs * 1000 <= u64::MAX,
    ensures
        spec_retry_decision(
            cfg,
            attempt,
            (AnthropicError::RateLimit { retry_after: Some(secs) }),
            sample,
        ) == Some((secs * 1000) as u64),
{
}

/// A rate-limited response that names no pause waits exactly the backoff
/// policy's delay for the current attempt index.
pub proof fn lemma_policy_pause_when_unnamed(cfg: BackoffConfig, attempt: nat, sample: u64)
    requires
        cfg.spec_attempts_remain(attempt),
    ensures
        spec_retry_decision(
            cfg,
            attempt,
            (AnthropicError::RateLimit { retry_after: None }),
            sample,
        ) == Some(spec_next_delay(cfg, attempt, sample)),
{
}

/// An error that is not a rate limit is never retried: the call makes
/// exactly one attempt, sleeps nowhere, and surfaces that error.
pub proof fn lemma_non_transient_not_retried(
    cfg: BackoffConfig,
    outcomes: Seq<AttemptOutcome>,
    samples: Seq<u64>,
    e: AnthropicError,
)
    requires
        outcomes.len() >= 1,
        outcomes[0] == AttemptOutcome::Failure(e),
        !e.spec_is_rate_limit(),
    ensures
        spec_execute(cfg, outcomes, samples, 0) == (RetryRun {
            attempts: 1 as nat,
            pauses: Seq::<u64>::empty(),
            failure: Some(e),
        }),
{
}

} // verus!
