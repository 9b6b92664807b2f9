use vstd::arithmetic::power2::{
    lemma2_to64, lemma_pow2_pos, lemma_pow2_strictly_increases, lemma_pow2_unfold, pow2,
};
use vstd::prelude::*;

verus! {

/// The first wait after a failure, in milliseconds; each further failure
/// doubles it.
pub const INITIAL_BACKOFF_MS: u64 = 100;

/// Once the doubling backoff of the finalized-slot query passes this many
/// milliseconds of cumulative waiting, the active endpoint is rotated and the
/// backoff resets.
pub const ROTATION_CEILING_MS: u64 = 10000;

/// The wait demanded after `k` consecutive failures: the initial wait doubled
/// `k` times.
pub open spec fn backoff_wait(k: nat) -> int {
    100 * (pow2(k) as int)
}

/// The doubled wait, clamped at a ceiling; with no configured ceiling the
/// clamp is the machine limit of the counter itself.
pub open spec fn clamped_backoff_wait(k: nat, ceiling: int) -> int {
    if backoff_wait(k) > ceiling {
        ceiling
    } else {
        backoff_wait(k)
    }
}

/// The total time waited over the first `k` failures.
pub open spec fn cumulative_wait(k: nat) -> int
    decreases k,
{
    if k == 0 {
        0
    } else {
        cumulative_wait((k - 1) as nat) + backoff_wait((k - 1) as nat)
    }
}

/// The doubling waits sum to a closed form: after `k` failures the total wait
/// is `100 * (2^k - 1)` milliseconds.
pub proof fn lemma_cumulative_wait_closed(k: nat)
    ensures
        cumulative_wait(k) == 100 * (pow2(k) - 1),
    decreases k,
{
    if k == 0 {
        lemma2_to64();
    } else {
        lemma_cumulative_wait_closed((k - 1) as nat);
        lemma_pow2_unfold(k);
    }
}

/// The rotation trigger — the next wait would pass the ceiling — fires for
/// exactly the same failure counts as the documented rule that the cumulative
/// wait since the last success has passed the ceiling.
pub proof fn lemma_rotation_matches_cumulative_wait(k: nat)
    ensures
        (backoff_wait(k) > ROTATION_CEILING_MS) <==> (cumulative_wait(k) > ROTATION_CEILING_MS),
{
    lemma_cumulative_wait_closed(k);
    lemma2_to64();
    if k < 7 {
        if k < 6 {
            lemma_pow2_strictly_increases(k, 6);
        }
        assert(pow2(k) <= 64);
    } else {
        if k > 7 {
            lemma_pow2_strictly_increases(7, k);
        }
        assert(pow2(k) >= 128);
    }
}

/// Doubling backoff with no ceiling but the counter's own range: the retry
/// policy of block fetches and slot-range listings, which wait ever longer
/// and never rotate endpoints.
pub struct Backoff {
    pub period_ms: u64,
    pub failures: Ghost<nat>,
}

impl Backoff {
    /// The stored period is always the doubled wait the failure count calls
    /// for, clamped only by the machine limit.
    pub open spec fn wf(self) -> bool {
        self.period_ms == clamped_backoff_wait(self.failures@, u64::MAX as int)
    }

    pub fn new() -> (r: Backoff)
        ensures
            r.wf(),
            r.failures@ == 0,
            r.period_ms == INITIAL_BACKOFF_MS,
    {
        proof {
            lemma2_to64();
        }
        Backoff { period_ms: INITIAL_BACKOFF_MS, failures: Ghost(0) }
    }

    /// Called on a failure: hand back how long to wait now, and double the
    /// period for the next attempt. The wait for failure `k` is exactly
    /// `min(100ms * 2^k, ceiling)`.
    pub fn next_wait(&mut self) -> (w: u64)
        requires
            old(self).wf(),
        ensures
            final(self).wf(),
            w == clamped_backoff_wait(old(self).failures@, u64::MAX as int),
            final(self).failures@ == old(self).failures@ + 1,
    {
        let w = self.period_ms;
        proof {
            lemma_pow2_unfold(self.failures@ + 1);
            lemma_pow2_pos(self.failures@);
        }
        if self.period_ms <= u64::MAX / 2 {
            self.period_ms = self.period_ms * 2;
        } else {
            self.period_ms = u64::MAX;
        }
        self.failures = Ghost(self.failures@ + 1);
        w
    }
}

/// What the caller of `RotatingBackoff::on_failure` must do before retrying:
/// either wait the given number of milliseconds, or retry at once on the
/// freshly rotated endpoint.
pub enum RetryAction {
    Wait(u64),
    Rotate,
}

/// The retry policy of the finalized-slot query: doubling backoff that, once
/// its cumulative wait passes the ceiling, rotates round-robin to the next
/// configured endpoint and starts over at the initial wait.
pub struct RotatingBackoff {
    pub period_ms: u64,
    pub active_endpoint: usize,
    pub endpoint_count: usize,
    pub failures: Ghost<nat>,
}

impl RotatingBackoff {
    /// The period always matches the failure count, which the ceiling keeps
    /// small, and the active endpoint is one of the configured set.
    pub open spec fn wf(self) -> bool {
        &&& self.period_ms == backoff_wait(self.failures@)
        &&& self.failures@ <= 7
        &&& self.endpoint_count >= 1
        &&& self.active_endpoint < self.endpoint_count
    }

    pub fn new(endpoint_count: usize) -> (r: RotatingBackoff)
        requires
            endpoint_count >= 1,
        ensures
            r.wf(),
            r.period_ms == INITIAL_BACKOFF_MS,
            r.active_endpoint == 0,
            r.endpoint_count == endpoint_count,
            r.failures@ == 0,
    {
        proof {
            lemma2_to64();
        }
        RotatingBackoff {
            period_ms: INITIAL_BACKOFF_MS,
            active_endpoint: 0,
            endpoint_count,
            failures: Ghost(0),
        }
    }

    /// Called on a failure of the finalized-slot query. Rotation happens
    /// exactly when the cumulative wait since the last reset has passed the
    /// ceiling; otherwise the caller waits the doubled backoff.
    pub fn on_failure(&mut self) -> (a: RetryAction)
        requires
            old(self).wf(),
        ensures
            final(self).wf(),
            final(self).endpoint_count == old(self).endpoint_count,
            (a is Rotate) <==> cumulative_wait(old(self).failures@) > ROTATION_CEILING_MS,
            a matches RetryAction::Wait(w) ==> {
                &&& w == backoff_wait(old(self).failures@)
                &&& final(self).failures@ == old(self).failures@ + 1
                &&& final(self).active_endpoint == old(self).active_endpoint
            },
            a is Rotate ==> {
                &&& final(self).period_ms == INITIAL_BACKOFF_MS
                &&& final(self).failures@ == 0
                &&& final(self).active_endpoint == (old(self).active_endpoint + 1) % (
                old(self).endpoint_count as int)
            },
    {
        proof {
            lemma_rotation_matches_cumulative_wait(self.failures@);
            lemma2_to64();
        }
        if self.period_ms > ROTATION_CEILING_MS {
            proof {
                let e = self.active_endpoint as int;
                let n = self.endpoint_count as int;
                if e + 1 < n {
                    vstd::arithmetic::div_mod::lemma_small_mod((e + 1) as nat, n as nat);
                } else {
                    vstd::arithmetic::div_mod::lemma_mod_self_0(n);
                }
            }
            self.active_endpoint = if self.active_endpoint + 1 < self.endpoint_count {
                self.active_endpoint + 1
            } else {
                0
            };
            self.period_ms = INITIAL_BACKOFF_MS;
            self.failures = Ghost(0);
            RetryAction::Rotate
        } else {
            let w = self.period_ms;
            proof {
                if self.failures@ == 7 {
                    assert(pow2(7) == 128);
                    assert(false);
                }
                lemma_pow2_unfold(self.failures@ + 1);
            }
            self.period_ms = self.period_ms * 2;
            self.failures = Ghost(self.failures@ + 1);
            RetryAction::Wait(w)
        }
    }
}

} // verus!
