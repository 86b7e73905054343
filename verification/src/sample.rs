use vstd::prelude::*;
use vstd::seq_lib::commutative_foldl;
use vstd::seq_lib::lemma_fold_left_permutation;

use crate::bench::BenchResult;
use crate::metrics::Measure;
use crate::report::BenchValue;

verus! {

/// Where one sample window stands in its lifecycle.
#[derive(Clone, Copy, Debug, PartialEq, Eq, Structural)]
pub enum SamplePhase {
    /// Workers are spawning and registering at the start barrier.
    WaitingReady,
    /// Every worker has registered; measurement collectors may start.
    Ready,
    /// Collectors are started; the window may open.
    Measuring,
    /// The running flag is up: workers execute measured work.
    Running,
    /// The running flag is down again; collectors may stop.
    Stopped,
    /// Collectors are stopped; workers may be joined.
    Joining,
    /// The sample's outcome has been assembled.
    Done,
}

/// The bookkeeping of one sample window, driven step by step by the loop
/// that owns the threads, the clock and the collectors.
///
/// The methods' contracts force the order the window protocol demands:
/// workers register first, and only an observation of the ready counter at
/// exactly the worker count moves the session past the barrier; collectors
/// start next; only then may the window open, stay open for its configured
/// length, close, and release the collectors and workers.  In particular a
/// session whose window is open certifies that the executor saw every
/// worker ready strictly before it opened — see
/// [`lemma_all_ready_before_running`].
pub struct SampleSession {
    thread_cnt: usize,
    window_ms: u64,
    phase: SamplePhase,
    ready_seen: Ghost<u64>,
}

impl SampleSession {
    /// How many workers this window runs.
    pub closed spec fn spec_thread_cnt(&self) -> usize {
        self.thread_cnt
    }

    /// How long the window stays open, in milliseconds.
    pub closed spec fn spec_window_ms(&self) -> u64 {
        self.window_ms
    }

    /// Where the window stands in its lifecycle.
    pub closed spec fn spec_phase(&self) -> SamplePhase {
        self.phase
    }

    /// The ready-counter value whose observation moved the session past the
    /// barrier.
    pub closed spec fn spec_ready_seen(&self) -> u64 {
        self.ready_seen@
    }

    /// The session invariant: past the barrier phase, the executor has
    /// observed the ready counter equal to the worker count.
    pub open spec fn wf(&self) -> bool {
        self.spec_phase() != SamplePhase::WaitingReady ==> self.spec_ready_seen()
            == self.spec_thread_cnt() as u64
    }

    /// How many workers this window runs.
    pub fn thread_cnt(&self) -> (r: usize)
        ensures
            r == self.spec_thread_cnt(),
    {
        self.thread_cnt
    }

    /// How long the window stays open, in milliseconds.
    pub fn window_ms(&self) -> (r: u64)
        ensures
            r == self.spec_window_ms(),
    {
        self.window_ms
    }

    /// Where the window stands in its lifecycle.
    pub fn phase(&self) -> (r: SamplePhase)
        ensures
            r == self.spec_phase(),
    {
        self.phase
    }

    /// A fresh session: the ready counter is zeroed, the running flag down,
    /// and the workers about to spawn.
    pub fn new(thread_cnt: usize, window_ms: u64) -> (s: SampleSession)
        ensures
            s.wf(),
            s.spec_phase() == SamplePhase::WaitingReady,
            s.spec_thread_cnt() == thread_cnt,
            s.spec_window_ms() == window_ms,
    {
        SampleSession { thread_cnt, window_ms, phase: SamplePhase::WaitingReady, ready_seen: Ghost(0) }
    }

    /// Report one read of the shared ready counter.  The session leaves the
    /// barrier phase exactly when the read value equals the worker count;
    /// any other value keeps the executor polling.  A worker that never
    /// registers therefore keeps the session — and the run — waiting
    /// forever; that is the documented contract violation, not an error the
    /// harness recovers from.
    pub fn observe_ready(&mut self, ready: u64) -> (all_ready: bool)
        requires
            old(self).wf(),
            old(self).spec_phase() == SamplePhase::WaitingReady,
        ensures
            final(self).wf(),
            all_ready == (ready == old(self).spec_thread_cnt() as u64),
            final(self).spec_thread_cnt() == old(self).spec_thread_cnt(),
            final(self).spec_window_ms() == old(self).spec_window_ms(),
            all_ready ==> final(self).spec_phase() == SamplePhase::Ready
                && final(self).spec_ready_seen() == ready,
            !all_ready ==> final(self).spec_phase() == SamplePhase::WaitingReady,
    {
        if ready == (self.thread_cnt as u64) {
            self.phase = SamplePhase::Ready;
            self.ready_seen = Ghost(ready);
            true
        } else {
            false
        }
    }

    /// All workers are ready: start every enabled collector, in their fixed
    /// order, before the window opens.
    pub fn start_measurements(&mut self)
        requires
            old(self).wf(),
            old(self).spec_phase() == SamplePhase::Ready,
        ensures
            final(self).wf(),
            final(self).spec_phase() == SamplePhase::Measuring,
            final(self).spec_thread_cnt() == old(self).spec_thread_cnt(),
            final(self).spec_window_ms() == old(self).spec_window_ms(),
            final(self).spec_ready_seen() == old(self).spec_ready_seen(),
    {
        self.phase = SamplePhase::Measuring;
    }

    /// Open the window: the caller stores `true` into the shared running
    /// flag right after this step and records the start instant.
    pub fn open_window(&mut self)
        requires
            old(self).wf(),
            old(self).spec_phase() == SamplePhase::Measuring,
        ensures
            final(self).wf(),
            final(self).spec_phase() == SamplePhase::Running,
            final(self).spec_thread_cnt() == old(self).spec_thread_cnt(),
            final(self).spec_window_ms() == old(self).spec_window_ms(),
            final(self).spec_ready_seen() == old(self).spec_ready_seen(),
    {
        self.phase = SamplePhase::Running;
    }

    /// The window-open decision: with `elapsed_ms` of the window gone,
    /// should the caller keep sleeping in short increments?
    pub fn window_should_stay_open(&self, elapsed_ms: u64) -> (r: bool)
        requires
            self.wf(),
            self.spec_phase() == SamplePhase::Running,
        ensures
            r == (elapsed_ms < self.spec_window_ms()),
    {
        elapsed_ms < self.window_ms
    }

    /// Close the window: the caller stores `false` into the shared running
    /// flag right after this step and records the end instant.
    pub fn close_window(&mut self)
        requires
            old(self).wf(),
            old(self).spec_phase() == SamplePhase::Running,
        ensures
            final(self).wf(),
            final(self).spec_phase() == SamplePhase::Stopped,
            final(self).spec_thread_cnt() == old(self).spec_thread_cnt(),
            final(self).spec_window_ms() == old(self).spec_window_ms(),
            final(self).spec_ready_seen() == old(self).spec_ready_seen(),
    {
        self.phase = SamplePhase::Stopped;
    }

    /// The window is closed: stop every collector, then join the workers.
    pub fn stop_measurements(&mut self)
        requires
            old(self).wf(),
            old(self).spec_phase() == SamplePhase::Stopped,
        ensures
            final(self).wf(),
            final(self).spec_phase() == SamplePhase::Joining,
            final(self).spec_thread_cnt() == old(self).spec_thread_cnt(),
            final(self).spec_window_ms() == old(self).spec_window_ms(),
            final(self).spec_ready_seen() == old(self).spec_ready_seen(),
    {
        self.phase = SamplePhase::Joining;
    }

    /// Assemble the sample's outcome from the joined workers' values — one
    /// per worker — the measured window length, and the collectors' outputs.
    pub fn collect<R: BenchResult>(
        &mut self,
        worker_results: Vec<R>,
        elapsed_ms: u64,
        measurements: Vec<Measure>,
    ) -> (outcome: BenchValue<R>)
        requires
            old(self).wf(),
            old(self).spec_phase() == SamplePhase::Joining,
            old(self).spec_thread_cnt() == worker_results@.len(),
            elapsed_ms > 0,
        ensures
            final(self).wf(),
            final(self).spec_phase() == SamplePhase::Done,
            final(self).spec_thread_cnt() == old(self).spec_thread_cnt(),
            final(self).spec_window_ms() == old(self).spec_window_ms(),
            final(self).spec_ready_seen() == old(self).spec_ready_seen(),
            outcome.result == spec_aggregate(worker_results@, elapsed_ms),
            outcome.measurements@ == measurements@,
    {
        self.phase = SamplePhase::Done;
        let result = aggregate(worker_results, elapsed_ms);
        BenchValue { result, measurements }
    }
}

/// No worker begins measured work prematurely: a session whose window is
/// open — or anything later — certifies that the executor observed the
/// shared ready counter at exactly the worker count, and that observation
/// happened strictly before the flag went up, because `observe_ready` is
/// the only way out of the barrier phase and `open_window` demands the
/// phases in between.
pub proof fn lemma_all_ready_before_running(s: &SampleSession)
    requires
        s.wf(),
        s.spec_phase() != SamplePhase::WaitingReady,
    ensures
        s.spec_ready_seen() == s.spec_thread_cnt() as u64,
{
}

/// The periodic-poll decision of an open window.  The executor holds the
/// window open by sleeping in short fixed increments; a collector that
/// samples an external source on a sub-second cadence is triggered roughly
/// once per second by counting those increments: every `ticks_per_second`
/// of them, and never on the zeroth.
pub fn poll_due(tick: u64, ticks_per_second: u64) -> (r: bool)
    requires
        ticks_per_second > 0,
    ensures
        r == (tick > 0 && tick % ticks_per_second == 0),
{
    tick > 0 && tick % ticks_per_second == 0
}

/// The spec-level combining step of aggregation, named so every contract
/// speaks of one and the same function.
pub open spec fn combine_step<R: BenchResult>() -> spec_fn(R, R) -> R {
    |acc: R, x: R| R::spec_combine(acc, x)
}

/// The raw combined throughput of a window's workers, folded left to right
/// over the join order.
pub open spec fn spec_total<R: BenchResult>(results: Seq<R>) -> R {
    results.fold_left(R::spec_zero(), combine_step::<R>())
}

/// One sample's aggregate: the workers' values combined, then normalized by
/// the measured — not the nominal — window length, to absorb scheduling
/// jitter.
pub open spec fn spec_aggregate<R: BenchResult>(results: Seq<R>, elapsed_ms: u64) -> R {
    R::spec_normalize(spec_total(results), elapsed_ms)
}

/// Combine all worker values, then normalize by the measured window length.
pub fn aggregate<R: BenchResult>(worker_results: Vec<R>, elapsed_ms: u64) -> (r: R)
    requires
        elapsed_ms > 0,
    ensures
        r == spec_aggregate(worker_results@, elapsed_ms),
{
    let ghost all = worker_results@;
    let mut rest = worker_results;
    let mut acc = R::zero();
    let ghost mut i: int = 0;
    while rest.len() > 0
        invariant
            0 <= i,
            i + rest@.len() == all.len(),
            rest@ == all.subrange(i, all.len() as int),
            acc == all.subrange(0, i).fold_left(R::spec_zero(), combine_step::<R>()),
        decreases rest.len(),
    {
        let x = rest.remove(0);
        acc = acc.combine(x);
        proof {
            i = i + 1;
            assert(rest@ =~= all.subrange(i, all.len() as int));
            let done = all.subrange(0, i);
            assert(done.drop_last() =~= all.subrange(0, i - 1));
            assert(done.last() == x);
        }
    }
    proof {
        assert(all.subrange(0, all.len() as int) =~= all);
    }
    acc.normalize_time(elapsed_ms)
}

/// Throughput combination is insensitive to order: two join orders holding
/// the same worker values — the same multiset — combine to the same raw
/// total, because the combine operation is associative and commutative.
pub proof fn lemma_total_permutation<R: BenchResult>(s1: Seq<R>, s2: Seq<R>)
    requires
        s1.to_multiset() == s2.to_multiset(),
    ensures
        spec_total::<R>(s1) == spec_total::<R>(s2),
{
    let f = combine_step::<R>();
    assert forall|x: R, y: R, v: R| #[trigger] f(f(v, x), y) == f(f(v, y), x) by {
        R::combine_associates(v, x, y);
        R::combine_associates(v, y, x);
        R::combine_commutes(x, y);
    }
    assert(commutative_foldl(f));
    lemma_fold_left_permutation(s1, s2, f, R::spec_zero());
}

/// The order workers are joined in never changes a sample's aggregate.
pub proof fn lemma_aggregate_permutation<R: BenchResult>(s1: Seq<R>, s2: Seq<R>, elapsed_ms: u64)
    requires
        s1.to_multiset() == s2.to_multiset(),
    ensures
        spec_aggregate::<R>(s1, elapsed_ms) == spec_aggregate::<R>(s2, elapsed_ms),
{
    lemma_total_permutation::<R>(s1, s2);
}

} // verus!
