use vstd::arithmetic::div_mod::lemma_div_denominator;
use vstd::arithmetic::div_mod::lemma_div_multiples_vanish;
use vstd::prelude::*;

use crate::context::Context;

verus! {

/// The throughput value a worker thread returns for one sample.
///
/// Sample aggregation needs two operations of the result type: an additive
/// `combine`, used to add the workers' values together, and `normalize_time`,
/// which turns a raw count into a per-second rate for the measured window
/// length.  The combine operation must be associative and commutative, so
/// that the aggregate does not depend on the order in which worker threads
/// happen to be joined; every implementation carries a proof of both laws.
pub trait BenchResult: Sized + Clone {
    /// The neutral starting value of aggregation.
    spec fn spec_zero() -> Self;

    /// What `combine` returns.
    spec fn spec_combine(a: Self, b: Self) -> Self;

    /// What `normalize_time` returns for a window of `dur_ms` milliseconds.
    spec fn spec_normalize(a: Self, dur_ms: u64) -> Self;

    /// Combining is commutative.
    proof fn combine_commutes(a: Self, b: Self)
        ensures
            Self::spec_combine(a, b) == Self::spec_combine(b, a),
    ;

    /// Combining is associative.
    proof fn combine_associates(a: Self, b: Self, c: Self)
        ensures
            Self::spec_combine(Self::spec_combine(a, b), c) == Self::spec_combine(
                a,
                Self::spec_combine(b, c),
            ),
    ;

    /// The zero value is the identity of combining.
    proof fn zero_combines(a: Self)
        ensures
            Self::spec_combine(Self::spec_zero(), a) == a,
    ;

    /// The neutral starting value of aggregation.
    fn zero() -> (r: Self)
        ensures
            r == Self::spec_zero(),
    ;

    /// Add another worker's value to this one.
    fn combine(self, other: Self) -> (r: Self)
        ensures
            r == Self::spec_combine(self, other),
    ;

    /// Scale this value to a per-second rate for a window that lasted
    /// `dur_ms` milliseconds.
    fn normalize_time(self, dur_ms: u64) -> (r: Self)
        requires
            dur_ms > 0,
        ensures
            r == Self::spec_normalize(self, dur_ms),
    ;

    /// A one-number summary, fit for a status line.
    fn short_value(&self) -> usize;
}

impl BenchResult for usize {
    open spec fn spec_zero() -> usize {
        0
    }

    /// Saturating addition: a sum past `usize::MAX` sticks to `usize::MAX`.
    open spec fn spec_combine(a: usize, b: usize) -> usize {
        if a + b > usize::MAX {
            usize::MAX
        } else {
            (a + b) as usize
        }
    }

    /// The count scaled to a per-second rate: `a * 1000 / dur_ms`, rounded
    /// down, saturating at `usize::MAX`.
    open spec fn spec_normalize(a: usize, dur_ms: u64) -> usize {
        let scaled = a * 1000 / (dur_ms as int);
        if scaled > usize::MAX {
            usize::MAX
        } else {
            scaled as usize
        }
    }

    proof fn combine_commutes(a: usize, b: usize) {
    }

    proof fn combine_associates(a: usize, b: usize, c: usize) {
    }

    proof fn zero_combines(a: usize) {
    }

    fn zero() -> (r: usize)
        ensures
            r == <usize as BenchResult>::spec_zero(),
    {
        0
    }

    fn combine(self, other: usize) -> (r: usize)
        ensures
            r == <usize as BenchResult>::spec_combine(self, other),
    {
        self.saturating_add(other)
    }

    fn normalize_time(self, dur_ms: u64) -> (r: usize)
        ensures
            r == <usize as BenchResult>::spec_normalize(self, dur_ms),
    {
        let wide: u128 = (self as u128) * 1000;
        let scaled: u128 = wide / (dur_ms as u128);
        if scaled > (usize::MAX as u128) {
            usize::MAX
        } else {
            scaled as usize
        }
    }

    fn short_value(&self) -> (r: usize)
        ensures
            r == *self,
    {
        *self
    }
}

/// Time-normalization is the identity under a no-op window of exactly one
/// second: the per-second rate of a count taken over one second is the
/// count itself.
pub proof fn lemma_normalize_one_second(v: usize)
    ensures
        <usize as BenchResult>::spec_normalize(v, 1000) == v,
{
    lemma_div_multiples_vanish(v as int, 1000);
    assert(v * 1000 == 1000 * v);
}

/// Time-normalization scales inversely with the window length: doubling the
/// measured window halves the reported per-second rate for a fixed raw
/// count — exactly, in the rounded-down integer rate — as long as the rate
/// does not saturate.
pub proof fn lemma_normalize_halves(v: usize, dur_ms: u64)
    requires
        0 < dur_ms,
        2 * dur_ms <= u64::MAX,
        v * 1000 / (dur_ms as int) <= usize::MAX,
    ensures
        <usize as BenchResult>::spec_normalize(v, (2 * dur_ms) as u64)
            == <usize as BenchResult>::spec_normalize(v, dur_ms) / 2,
{
    let x = (v as int) * 1000;
    let d = dur_ms as int;
    lemma_div_denominator(x, d, 2);
    assert(x / d / 2 == x / (d * 2));
    vstd::arithmetic::div_mod::lemma_div_pos_is_pos(x, d);
    assert(x / d / 2 <= x / d);
}

/// Read-only access to the configuration record of a run: a display name, the
/// ordered list of thread counts to sample, and the length of one sample
/// window in seconds.  The harness never mutates a configuration.
pub trait BenchConfig: Sized {
    /// The configuration's name.
    spec fn spec_name(&self) -> Seq<char>;

    /// The thread counts to sample, in the order they run.
    spec fn spec_threads(&self) -> Seq<usize>;

    /// Seconds one sample window stays open.
    spec fn spec_bench_sec(&self) -> usize;

    /// The configuration's name.
    fn name(&self) -> (r: &String)
        ensures
            r@ == self.spec_name(),
    ;

    /// The thread counts to sample, in the order they run.
    fn thread(&self) -> (r: &[usize])
        ensures
            r@ == self.spec_threads(),
    ;

    /// Seconds one sample window stays open.
    fn bench_sec(&self) -> (r: usize)
        ensures
            r == self.spec_bench_sec(),
    ;
}

/// A benchmark workload.  The harness calls, in order: `load` once, `run`
/// once per worker thread per sample, `on_iteration_finished` after each
/// sample, `on_thread_finished` after each thread count's samples, and
/// `cleanup` once at the end.
///
/// `run` must call `wait_for_start` on its context exactly once, right after
/// its own initialization; the sample executor blocks until every worker has
/// done so, so a worker that skips the call stalls the whole run.
pub trait ShumaiBench: Sized {
    type Result: BenchResult;

    type Config: BenchConfig;

    /// Prepare data and warm up resources; called once, before any sampling.
    fn load(&mut self) -> Option<serde_json::Value>;

    /// One worker thread's share of one sample window.
    fn run(&self, context: Context<'_, Self::Config>) -> Self::Result;

    /// Called once after each finished sample, with the repeat index.
    fn on_iteration_finished(&mut self, _cur_iter: usize) {
    }

    /// Called once after all samples of one thread count, with that count.
    fn on_thread_finished(&mut self, _cur_thread: usize) {
    }

    /// Release resources; called once, after all sampling.
    fn cleanup(&mut self) -> Option<serde_json::Value>;
}

} // verus!
