use vstd::prelude::*;

use crate::bench::BenchConfig;
use crate::env::RunnerEnv;
use crate::metrics::Measure;

verus! {

/// What the workload's load phase produced: how long it took and whatever
/// metrics it chose to report.
pub struct LoadResults {
    pub time_elapsed_nanos: u64,
    pub user_metrics: Option<serde_json::Value>,
}

/// One sample's outcome: the aggregated throughput of the window's workers
/// and the collectors' outputs for that window.
pub struct BenchValue<R> {
    pub result: R,
    pub measurements: Vec<Measure>,
}

/// All samples taken at one thread count, in repeat order, plus whatever
/// annotation the workload left for that thread count.
pub struct ThreadResult<R> {
    pub thread_cnt: usize,
    pub iterations: Vec<BenchValue<R>>,
    pub on_thread_finished: Option<serde_json::Value>,
}

impl<R> ThreadResult<R> {
    /// A fresh, empty record for `thread_cnt` worker threads.
    pub fn new(thread_cnt: usize) -> (r: ThreadResult<R>)
        ensures
            r.thread_cnt == thread_cnt,
            r.iterations@ == Seq::<BenchValue<R>>::empty(),
            r.on_thread_finished is None,
    {
        ThreadResult { thread_cnt, iterations: Vec::new(), on_thread_finished: None }
    }

    /// Append one finished sample.
    pub fn push_iteration(&mut self, value: BenchValue<R>)
        ensures
            final(self).thread_cnt == old(self).thread_cnt,
            final(self).iterations@ == old(self).iterations@.push(value),
            final(self).on_thread_finished == old(self).on_thread_finished,
    {
        self.iterations.push(value);
    }
}

/// The terminal record of one full run: the configuration it ran under, the
/// load phase's output, the machine snapshot, one `ThreadResult` per
/// configured thread count in configuration order, and the cleanup phase's
/// output.
pub struct ShumaiResult<C: BenchConfig, R> {
    pub config: C,
    pub load_results: LoadResults,
    pub cleanup_results: Option<serde_json::Value>,
    pub env: RunnerEnv,
    pub bench_results: Vec<ThreadResult<R>>,
}

impl<C: BenchConfig, R> ShumaiResult<C, R> {
    /// A record holding everything known before sampling starts: no
    /// thread-count results yet, no cleanup output yet.
    pub fn new(config: C, load_results: LoadResults, env: RunnerEnv) -> (r: ShumaiResult<C, R>)
        ensures
            r.config == config,
            r.load_results == load_results,
            r.cleanup_results is None,
            r.env == env,
            r.bench_results@ == Seq::<ThreadResult<R>>::empty(),
    {
        ShumaiResult { config, load_results, cleanup_results: None, env, bench_results: Vec::new() }
    }

    /// Append one thread count's finished samples; everything else stays.
    pub fn add(&mut self, result: ThreadResult<R>)
        ensures
            final(self).config == old(self).config,
            final(self).load_results == old(self).load_results,
            final(self).cleanup_results == old(self).cleanup_results,
            final(self).env == old(self).env,
            final(self).bench_results@ == old(self).bench_results@.push(result),
    {
        self.bench_results.push(result);
    }
}

} // verus!
