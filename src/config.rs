//! The client configuration: timeout and retry policy, and the retry schedule
//! that the policy gives.
use crate::errors::Error;
use vstd::prelude::*;

verus! {

/// Request timeout in milliseconds.
pub const DEFAULT_TIMEOUT: u64 = 30000;

/// Shortest wait between two attempts, in milliseconds.
pub const DEFAULT_MIN_RETRY_INTERVAL: u64 = 100;

/// Longest wait between two attempts, in milliseconds.
pub const DEFAULT_MAX_RETRY_INTERVAL: u64 = 5000;

/// Attempts made after the first one has failed.
pub const DEFAULT_MAX_RETRIES: u32 = 3;

/// An immutable client configuration. Each setter gives a new value with one
/// field changed.
#[derive(PartialEq, Eq, Debug, Clone, Copy, Structural)]
pub struct Builder {
    /// Request timeout in milliseconds, from the start of the connection
    /// until the response body has been received.
    timeout: u64,
    /// Shortest wait between two attempts, in milliseconds.
    min_retry_interval: u64,
    /// Longest wait between two attempts, in milliseconds.
    max_retry_interval: u64,
    /// Attempts made after the first one has failed.
    max_retries: u32,
}

pub struct BuilderView {
    pub timeout: u64,
    pub min_retry_interval: u64,
    pub max_retry_interval: u64,
    pub max_retries: u32,
}

impl View for Builder {
    type V = BuilderView;

    closed spec fn view(&self) -> BuilderView {
        BuilderView {
            timeout: self.timeout,
            min_retry_interval: self.min_retry_interval,
            max_retry_interval: self.max_retry_interval,
            max_retries: self.max_retries,
        }
    }
}

/// The configuration that a new builder holds.
pub open spec fn default_view() -> BuilderView {
    BuilderView {
        timeout: DEFAULT_TIMEOUT,
        min_retry_interval: DEFAULT_MIN_RETRY_INTERVAL,
        max_retry_interval: DEFAULT_MAX_RETRY_INTERVAL,
        max_retries: DEFAULT_MAX_RETRIES,
    }
}

/// `x` doubled `n` times.
pub open spec fn doubled(x: nat, n: nat) -> nat
    decreases n,
{
    if n == 0 {
        x
    } else {
        2 * doubled(x, (n - 1) as nat)
    }
}

/// The wait before the retry that follows `n` failed retries: the shortest
/// interval doubled `n` times, but no longer than the longest interval.
pub open spec fn backoff(min: u64, max: u64, n: nat) -> nat {
    if doubled(min as nat, n) <= max {
        doubled(min as nat, n)
    } else {
        max as nat
    }
}

proof fn lemma_doubled_grows(x: nat, k: nat, n: nat)
    requires
        k <= n,
    ensures
        doubled(x, k) <= doubled(x, n),
    decreases n - k,
{
    if k < n {
        lemma_doubled_grows(x, k, (n - 1) as nat);
    }
}

impl Default for Builder {
    fn default() -> (r: Builder)
        ensures
            r@ == default_view(),
    {
        Builder {
            timeout: DEFAULT_TIMEOUT,
            min_retry_interval: DEFAULT_MIN_RETRY_INTERVAL,
            max_retry_interval: DEFAULT_MAX_RETRY_INTERVAL,
            max_retries: DEFAULT_MAX_RETRIES,
        }
    }
}

impl Builder {
    /// A configuration with the default values.
    pub fn new() -> (r: Builder)
        ensures
            r@ == default_view(),
    {
        Builder::default()
    }

    /// Sets the request timeout.
    pub fn set_timeout(self, arg: u64) -> (r: Result<Builder, Error>)
        ensures
            r is Ok,
            r->Ok_0@ == (BuilderView { timeout: arg, ..self@ }),
    {
        Ok(Builder { timeout: arg, ..self })
    }

    /// The request timeout.
    pub fn get_timeout(&self) -> (r: u64)
        ensures
            r == self@.timeout,
    {
        self.timeout
    }

    /// Sets the shortest wait between two attempts.
    pub fn set_min_retry_interval(self, arg: u64) -> (r: Result<Builder, Error>)
        ensures
            r is Ok,
            r->Ok_0@ == (BuilderView { min_retry_interval: arg, ..self@ }),
    {
        Ok(Builder { min_retry_interval: arg, ..self })
    }

    /// The shortest wait between two attempts.
    pub fn get_min_retry_interval(&self) -> (r: u64)
        ensures
            r == self@.min_retry_interval,
    {
        self.min_retry_interval
    }

    /// Sets the longest wait between two attempts.
    pub fn set_max_retry_interval(self, arg: u64) -> (r: Result<Builder, Error>)
        ensures
            r is Ok,
            r->Ok_0@ == (BuilderView { max_retry_interval: arg, ..self@ }),
    {
        Ok(Builder { max_retry_interval: arg, ..self })
    }

    /// The longest wait between two attempts.
    pub fn get_max_retry_interval(&self) -> (r: u64)
        ensures
            r == self@.max_retry_interval,
    {
        self.max_retry_interval
    }

    /// Sets how many attempts follow a failed first one.
    pub fn set_max_retries(self, arg: u32) -> (r: Result<Builder, Error>)
        ensures
            r is Ok,
            r->Ok_0@ == (BuilderView { max_retries: arg, ..self@ }),
    {
        Ok(Builder { max_retries: arg, ..self })
    }

    /// How many attempts follow a failed first one.
    pub fn get_max_retries(&self) -> (r: u32)
        ensures
            r == self@.max_retries,
    {
        self.max_retries
    }

    /// The wait, in milliseconds, before the retry that follows `n_past_retries`
    /// failed retries: exponential with base 2, bounded by the two intervals.
    pub fn retry_interval(&self, n_past_retries: u32) -> (r: u64)
        ensures
            r as nat == backoff(self@.min_retry_interval, self@.max_retry_interval, n_past_retries as nat),
    {
        let min = self.min_retry_interval;
        let max = self.max_retry_interval;
        if min > max {
            proof {
                lemma_doubled_grows(min as nat, 0, n_past_retries as nat);
            }
            return max;
        }
        let mut x: u64 = min;
        let mut k: u32 = 0;
        while k < n_past_retries
            invariant
                k <= n_past_retries,
                min == self.min_retry_interval,
                max == self.max_retry_interval,
                x as nat == doubled(min as nat, k as nat),
                x <= max,
            decreases n_past_retries - k,
        {
            if x > max / 2 {
                proof {
                    assert(2 * x > max);
                    assert(doubled(min as nat, (k + 1) as nat) == 2 * doubled(min as nat, k as nat));
                    lemma_doubled_grows(min as nat, (k + 1) as nat, n_past_retries as nat);
                }
                return max;
            }
            x = x * 2;
            k = k + 1;
        }
        x
    }

    /// Whether to retry after `n_past_retries` failed retries, and if so after
    /// how many milliseconds: none once the retry budget is spent.
    pub fn retry_delay(&self, n_past_retries: u32) -> (r: Option<u64>)
        ensures
            n_past_retries >= self@.max_retries ==> r is None,
            n_past_retries < self@.max_retries ==> r is Some && r->Some_0 as nat == backoff(
                self@.min_retry_interval,
                self@.max_retry_interval,
                n_past_retries as nat,
            ),
    {
        if n_past_retries >= self.max_retries {
            None
        } else {
            Some(self.retry_interval(n_past_retries))
        }
    }
}

} // verus!
