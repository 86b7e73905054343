use vstd::prelude::*;

verus! {

/// One step of a run's plan.  A full run follows the plan in order: the load
/// phase first, then for each configured thread count its samples and hooks,
/// and the cleanup phase last.
#[derive(Clone, Copy, Debug, PartialEq, Eq, Structural)]
pub enum Step {
    /// Invoke the workload's load phase.
    Load,
    /// Run one sample window with `thread_cnt` workers; `iteration` is the
    /// repeat index within the current thread count, starting at zero.
    Sample { thread_cnt: usize, iteration: usize },
    /// Invoke `on_iteration_finished` with the repeat index just sampled.
    IterationFinished { iteration: usize },
    /// Invoke `on_thread_finished` after all of a thread count's samples.
    ThreadFinished { thread_cnt: usize },
    /// Invoke the workload's cleanup phase.
    Cleanup,
}

/// The sample/hook pairs of one thread count, repeat indices ascending:
/// `Sample 0, IterationFinished 0, ..., Sample repeat-1, IterationFinished
/// repeat-1`.
pub open spec fn spec_iteration_steps(thread_cnt: usize, repeat: usize) -> Seq<Step>
    decreases repeat,
{
    if repeat == 0 {
        Seq::empty()
    } else {
        spec_iteration_steps(thread_cnt, (repeat - 1) as usize) + seq![
            Step::Sample { thread_cnt, iteration: (repeat - 1) as usize },
            Step::IterationFinished { iteration: (repeat - 1) as usize },
        ]
    }
}

/// Everything one thread count contributes to the plan: its sample/hook
/// pairs, closed by its `ThreadFinished` hook.
pub open spec fn spec_thread_block(thread_cnt: usize, repeat: usize) -> Seq<Step> {
    spec_iteration_steps(thread_cnt, repeat).push(Step::ThreadFinished { thread_cnt })
}

/// The blocks of all configured thread counts, in configuration order.
pub open spec fn spec_blocks(threads: Seq<usize>, repeat: usize) -> Seq<Step>
    decreases threads.len(),
{
    if threads.len() == 0 {
        Seq::empty()
    } else {
        spec_blocks(threads.drop_last(), repeat) + spec_thread_block(threads.last(), repeat)
    }
}

/// The full plan of a run: load, every thread count's block in configuration
/// order, cleanup.
pub open spec fn spec_schedule(threads: Seq<usize>, repeat: usize) -> Seq<Step> {
    seq![Step::Load] + spec_blocks(threads, repeat) + seq![Step::Cleanup]
}

/// How many steps of `s` satisfy `p`.
pub open spec fn count_matching(s: Seq<Step>, p: spec_fn(Step) -> bool) -> nat
    decreases s.len(),
{
    if s.len() == 0 {
        0
    } else {
        count_matching(s.drop_last(), p) + (if p(s.last()) {
            1nat
        } else {
            0nat
        })
    }
}

/// How many workload `run` invocations the plan `s` asks for: each sample
/// step spawns one worker per configured thread.
pub open spec fn spec_worker_runs(s: Seq<Step>) -> nat
    decreases s.len(),
{
    if s.len() == 0 {
        0
    } else {
        spec_worker_runs(s.drop_last()) + (match s.last() {
            Step::Sample { thread_cnt, iteration: _ } => thread_cnt as nat,
            _ => 0nat,
        })
    }
}

/// The sum of a thread-count list.
pub open spec fn spec_sum(threads: Seq<usize>) -> nat
    decreases threads.len(),
{
    if threads.len() == 0 {
        0
    } else {
        spec_sum(threads.drop_last()) + (threads.last() as nat)
    }
}

/// Recognizes the load step; named so every contract speaks of one and the
/// same predicate.
pub open spec fn is_load_p() -> spec_fn(Step) -> bool {
    |s: Step| s == Step::Load
}

/// Recognizes the cleanup step.
pub open spec fn is_cleanup_p() -> spec_fn(Step) -> bool {
    |s: Step| s == Step::Cleanup
}

/// What one step contributes to the worker-invocation count.
pub open spec fn step_workers(x: Step) -> nat {
    match x {
        Step::Sample { thread_cnt, iteration: _ } => thread_cnt as nat,
        _ => 0nat,
    }
}

/// Counting a one-step plan.
proof fn lemma_count_matching_singleton(x: Step, p: spec_fn(Step) -> bool)
    ensures
        count_matching(seq![x], p) == if p(x) {
            1nat
        } else {
            0nat
        },
{
    reveal_with_fuel(count_matching, 2);
    assert(seq![x].drop_last() =~= Seq::<Step>::empty());
}

/// Counting one appended step.
proof fn lemma_count_matching_push(s: Seq<Step>, x: Step, p: spec_fn(Step) -> bool)
    ensures
        count_matching(s.push(x), p) == count_matching(s, p) + (if p(x) {
            1nat
        } else {
            0nat
        }),
{
    assert(s.push(x).drop_last() =~= s);
    assert(s.push(x).last() == x);
}

/// Worker count of a one-step plan.
proof fn lemma_worker_runs_singleton(x: Step)
    ensures
        spec_worker_runs(seq![x]) == step_workers(x),
{
    reveal_with_fuel(spec_worker_runs, 2);
    assert(seq![x].drop_last() =~= Seq::<Step>::empty());
}

/// Worker count of one appended step.
proof fn lemma_worker_runs_push(s: Seq<Step>, x: Step)
    ensures
        spec_worker_runs(s.push(x)) == spec_worker_runs(s) + step_workers(x),
{
    assert(s.push(x).drop_last() =~= s);
    assert(s.push(x).last() == x);
}

/// Counting distributes over concatenation.
proof fn lemma_count_matching_concat(a: Seq<Step>, b: Seq<Step>, p: spec_fn(Step) -> bool)
    ensures
        count_matching(a + b, p) == count_matching(a, p) + count_matching(b, p),
    decreases b.len(),
{
    if b.len() == 0 {
        assert(a + b =~= a);
    } else {
        assert((a + b).drop_last() =~= a + b.drop_last());
        lemma_count_matching_concat(a, b.drop_last(), p);
    }
}

/// Worker counting distributes over concatenation.
proof fn lemma_worker_runs_concat(a: Seq<Step>, b: Seq<Step>)
    ensures
        spec_worker_runs(a + b) == spec_worker_runs(a) + spec_worker_runs(b),
    decreases b.len(),
{
    if b.len() == 0 {
        assert(a + b =~= a);
    } else {
        assert((a + b).drop_last() =~= a + b.drop_last());
        lemma_worker_runs_concat(a, b.drop_last());
    }
}

/// The exact contents of one thread count's block: `2 * repeat + 1` steps,
/// the `k`-th sample at index `2k` directly followed by its iteration hook,
/// and the thread hook closing the block.  So, per thread count, the plan
/// asks for exactly `repeat` samples in ascending repeat order, each
/// `on_iteration_finished` comes right after its own sample, and
/// `on_thread_finished` comes after all of them.
pub proof fn lemma_thread_block_shape(thread_cnt: usize, repeat: usize)
    ensures
        spec_thread_block(thread_cnt, repeat).len() == 2 * repeat + 1,
        forall|k: int|
            0 <= k < repeat ==> #[trigger] spec_thread_block(thread_cnt, repeat)[2 * k]
                == (Step::Sample { thread_cnt, iteration: k as usize }),
        forall|k: int|
            0 <= k < repeat ==> #[trigger] spec_thread_block(thread_cnt, repeat)[2 * k + 1]
                == (Step::IterationFinished { iteration: k as usize }),
        spec_thread_block(thread_cnt, repeat)[2 * repeat] == (Step::ThreadFinished { thread_cnt }),
{
    lemma_iteration_steps_shape(thread_cnt, repeat);
}

/// The exact contents of the sample/hook pairs of one thread count.
proof fn lemma_iteration_steps_shape(thread_cnt: usize, repeat: usize)
    ensures
        spec_iteration_steps(thread_cnt, repeat).len() == 2 * repeat,
        forall|k: int|
            0 <= k < repeat ==> #[trigger] spec_iteration_steps(thread_cnt, repeat)[2 * k]
                == (Step::Sample { thread_cnt, iteration: k as usize }),
        forall|k: int|
            0 <= k < repeat ==> #[trigger] spec_iteration_steps(thread_cnt, repeat)[2 * k + 1]
                == (Step::IterationFinished { iteration: k as usize }),
    decreases repeat,
{
    if repeat > 0 {
        lemma_iteration_steps_shape(thread_cnt, (repeat - 1) as usize);
    }
}

/// Worker invocations of one thread count's sample/hook pairs.
proof fn lemma_iteration_steps_workers(thread_cnt: usize, repeat: usize)
    ensures
        spec_worker_runs(spec_iteration_steps(thread_cnt, repeat)) == thread_cnt * repeat,
    decreases repeat,
{
    if repeat == 0 {
        assert(thread_cnt * 0 == 0) by (nonlinear_arith);
    } else {
        lemma_iteration_steps_workers(thread_cnt, (repeat - 1) as usize);
        let prev = spec_iteration_steps(thread_cnt, (repeat - 1) as usize);
        let sample = Step::Sample { thread_cnt, iteration: (repeat - 1) as usize };
        let hook = Step::IterationFinished { iteration: (repeat - 1) as usize };
        assert(spec_iteration_steps(thread_cnt, repeat) =~= prev.push(sample).push(hook));
        lemma_worker_runs_push(prev, sample);
        lemma_worker_runs_push(prev.push(sample), hook);
        assert(thread_cnt * repeat == thread_cnt * (repeat - 1) + thread_cnt) by (nonlinear_arith)
            requires
                repeat >= 1,
        ;
    }
}

/// How many worker `run` invocations one thread count's block asks for:
/// `thread_cnt * repeat`.
pub proof fn lemma_thread_block_workers(thread_cnt: usize, repeat: usize)
    ensures
        spec_worker_runs(spec_thread_block(thread_cnt, repeat)) == thread_cnt * repeat,
{
    lemma_iteration_steps_workers(thread_cnt, repeat);
    lemma_worker_runs_push(
        spec_iteration_steps(thread_cnt, repeat),
        Step::ThreadFinished { thread_cnt },
    );
}

/// The plan's bracket: the load phase is the very first step and the only
/// one of its kind, the cleanup phase the very last and the only one of its
/// kind — one load call and one cleanup call bracketing all sampling.
pub proof fn lemma_schedule_brackets(threads: Seq<usize>, repeat: usize)
    ensures
        spec_schedule(threads, repeat).len() >= 2,
        spec_schedule(threads, repeat)[0] == Step::Load,
        spec_schedule(threads, repeat).last() == Step::Cleanup,
        count_matching(spec_schedule(threads, repeat), is_load_p()) == 1,
        count_matching(spec_schedule(threads, repeat), is_cleanup_p()) == 1,
{
    lemma_blocks_free_of_brackets(threads, repeat);
    lemma_count_matching_concat(seq![Step::Load], spec_blocks(threads, repeat), is_load_p());
    lemma_count_matching_concat(
        seq![Step::Load] + spec_blocks(threads, repeat),
        seq![Step::Cleanup],
        is_load_p(),
    );
    lemma_count_matching_concat(seq![Step::Load], spec_blocks(threads, repeat), is_cleanup_p());
    lemma_count_matching_concat(
        seq![Step::Load] + spec_blocks(threads, repeat),
        seq![Step::Cleanup],
        is_cleanup_p(),
    );
    lemma_count_matching_singleton(Step::Load, is_load_p());
    lemma_count_matching_singleton(Step::Cleanup, is_load_p());
    lemma_count_matching_singleton(Step::Load, is_cleanup_p());
    lemma_count_matching_singleton(Step::Cleanup, is_cleanup_p());
}

/// No load or cleanup step hides among one thread count's sample/hook pairs.
proof fn lemma_iteration_steps_free_of_brackets(thread_cnt: usize, repeat: usize)
    ensures
        count_matching(spec_iteration_steps(thread_cnt, repeat), is_load_p()) == 0,
        count_matching(spec_iteration_steps(thread_cnt, repeat), is_cleanup_p()) == 0,
    decreases repeat,
{
    if repeat > 0 {
        lemma_iteration_steps_free_of_brackets(thread_cnt, (repeat - 1) as usize);
        let prev = spec_iteration_steps(thread_cnt, (repeat - 1) as usize);
        let sample = Step::Sample { thread_cnt, iteration: (repeat - 1) as usize };
        let hook = Step::IterationFinished { iteration: (repeat - 1) as usize };
        assert(spec_iteration_steps(thread_cnt, repeat) =~= prev.push(sample).push(hook));
        lemma_count_matching_push(prev, sample, is_load_p());
        lemma_count_matching_push(prev.push(sample), hook, is_load_p());
        lemma_count_matching_push(prev, sample, is_cleanup_p());
        lemma_count_matching_push(prev.push(sample), hook, is_cleanup_p());
    }
}

/// No load or cleanup step hides among the sampling blocks.
proof fn lemma_blocks_free_of_brackets(threads: Seq<usize>, repeat: usize)
    ensures
        count_matching(spec_blocks(threads, repeat), is_load_p()) == 0,
        count_matching(spec_blocks(threads, repeat), is_cleanup_p()) == 0,
    decreases threads.len(),
{
    if threads.len() == 0 {
    } else {
        lemma_blocks_free_of_brackets(threads.drop_last(), repeat);
        lemma_count_matching_concat(
            spec_blocks(threads.drop_last(), repeat),
            spec_thread_block(threads.last(), repeat),
            is_load_p(),
        );
        lemma_count_matching_concat(
            spec_blocks(threads.drop_last(), repeat),
            spec_thread_block(threads.last(), repeat),
            is_cleanup_p(),
        );
        let t = threads.last();
        lemma_iteration_steps_free_of_brackets(t, repeat);
        lemma_count_matching_push(
            spec_iteration_steps(t, repeat),
            Step::ThreadFinished { thread_cnt: t },
            is_load_p(),
        );
        lemma_count_matching_push(
            spec_iteration_steps(t, repeat),
            Step::ThreadFinished { thread_cnt: t },
            is_cleanup_p(),
        );
    }
}

/// How many worker `run` invocations the whole plan asks for:
/// `repeat * (sum of all configured thread counts)` — for each thread count
/// `t`, exactly `t * repeat` of them within that thread count's block.
pub proof fn lemma_schedule_workers(threads: Seq<usize>, repeat: usize)
    ensures
        spec_worker_runs(spec_schedule(threads, repeat)) == repeat * spec_sum(threads),
{
    lemma_blocks_workers(threads, repeat);
    lemma_worker_runs_concat(seq![Step::Load], spec_blocks(threads, repeat));
    lemma_worker_runs_concat(
        seq![Step::Load] + spec_blocks(threads, repeat),
        seq![Step::Cleanup],
    );
    lemma_worker_runs_singleton(Step::Load);
    lemma_worker_runs_singleton(Step::Cleanup);
}

/// Worker invocations of all blocks together.
proof fn lemma_blocks_workers(threads: Seq<usize>, repeat: usize)
    ensures
        spec_worker_runs(spec_blocks(threads, repeat)) == repeat * spec_sum(threads),
    decreases threads.len(),
{
    if threads.len() == 0 {
        assert(repeat * spec_sum(threads) == 0) by (nonlinear_arith)
            requires
                spec_sum(threads) == 0,
        ;
    } else {
        lemma_blocks_workers(threads.drop_last(), repeat);
        lemma_worker_runs_concat(
            spec_blocks(threads.drop_last(), repeat),
            spec_thread_block(threads.last(), repeat),
        );
        lemma_thread_block_workers(threads.last(), repeat);
        assert(repeat * spec_sum(threads) == repeat * spec_sum(threads.drop_last())
            + (threads.last() as nat) * repeat) by (nonlinear_arith)
            requires
                spec_sum(threads) == spec_sum(threads.drop_last()) + threads.last(),
        ;
    }
}

/// The plan a run follows for the given thread counts and repeat count.
pub fn schedule(threads: &Vec<usize>, repeat: usize) -> (plan: Vec<Step>)
    ensures
        plan@ == spec_schedule(threads@, repeat),
{
    let mut plan: Vec<Step> = Vec::new();
    plan.push(Step::Load);
    let mut i: usize = 0;
    while i < threads.len()
        invariant
            i <= threads.len(),
            plan@ == seq![Step::Load] + spec_blocks(threads@.subrange(0, i as int), repeat),
        decreases threads.len() - i,
    {
        let t = threads[i];
        let mut j: usize = 0;
        while j < repeat
            invariant
                j <= repeat,
                i < threads@.len(),
                t == threads@[i as int],
                plan@ == seq![Step::Load] + spec_blocks(threads@.subrange(0, i as int), repeat)
                    + spec_iteration_steps(t, j),
            decreases repeat - j,
        {
            plan.push(Step::Sample { thread_cnt: t, iteration: j });
            plan.push(Step::IterationFinished { iteration: j });
            j = j + 1;
            proof {
                assert(plan@ =~= seq![Step::Load] + spec_blocks(
                    threads@.subrange(0, i as int),
                    repeat,
                ) + spec_iteration_steps(t, j));
            }
        }
        plan.push(Step::ThreadFinished { thread_cnt: t });
        i = i + 1;
        proof {
            let sub = threads@.subrange(0, i as int);
            assert(sub.drop_last() =~= threads@.subrange(0, i as int - 1));
            assert(sub.last() == t);
            assert(plan@ =~= seq![Step::Load] + spec_blocks(sub, repeat));
        }
    }
    plan.push(Step::Cleanup);
    proof {
        assert(threads@.subrange(0, threads@.len() as int) =~= threads@);
        assert(plan@ =~= spec_schedule(threads@, repeat));
    }
    plan
}

/// What the thread-count list of a run is once the environment has spoken:
/// an override keeps exactly the configured entries equal to it, in order;
/// no override keeps the configured list as it is.
pub open spec fn spec_resolve_threads(threads: Seq<usize>, only: Option<usize>) -> Seq<usize> {
    match only {
        Option::Some(t) => threads.filter(|x: usize| x == t),
        Option::None => threads,
    }
}

/// Restrict the configured thread counts to an externally requested one, if
/// any.  A request matching nothing leaves an empty list, and the run then
/// samples nothing for this configuration.
pub fn resolve_threads(threads: &Vec<usize>, only: Option<usize>) -> (r: Vec<usize>)
    ensures
        r@ == spec_resolve_threads(threads@, only),
{
    match only {
        Option::Some(t) => {
            let mut r: Vec<usize> = Vec::new();
            let mut i: usize = 0;
            while i < threads.len()
                invariant
                    i <= threads.len(),
                    r@ == threads@.subrange(0, i as int).filter(|x: usize| x == t),
                decreases threads.len() - i,
            {
                let candidate = threads[i];
                if candidate == t {
                    r.push(candidate);
                }
                i = i + 1;
                proof {
                    let sub = threads@.subrange(0, i as int);
                    assert(sub.drop_last() =~= threads@.subrange(0, i as int - 1));
                    reveal(Seq::filter);
                    assert(r@ =~= sub.filter(|x: usize| x == t));
                }
            }
            proof {
                assert(threads@.subrange(0, threads@.len() as int) =~= threads@);
            }
            r
        },
        Option::None => threads.clone(),
    }
}

/// What the repeat count and the window length (in milliseconds) of a run
/// are once the environment has spoken: a one-shot profile window of `t`
/// seconds replaces the whole repeat/duration schedule with a single sample
/// of that length; otherwise the configured pair stands.
pub open spec fn spec_resolve_repeat_time(
    repeat: usize,
    bench_sec: usize,
    profile_sec: Option<usize>,
) -> (usize, u64) {
    match profile_sec {
        Option::Some(t) => (1usize, (t * 1000) as u64),
        Option::None => (repeat, (bench_sec * 1000) as u64),
    }
}

/// Apply the one-shot profiling override, if any, to the configured repeat
/// count and window length.
pub fn resolve_repeat_time(repeat: usize, bench_sec: usize, profile_sec: Option<usize>) -> (r: (
    usize,
    u64,
))
    requires
        bench_sec * 1000 <= u64::MAX,
        profile_sec is Some ==> profile_sec.unwrap() * 1000 <= u64::MAX,
    ensures
        r == spec_resolve_repeat_time(repeat, bench_sec, profile_sec),
{
    match profile_sec {
        Option::Some(t) => (1, (t as u64) * 1000),
        Option::None => (repeat, (bench_sec as u64) * 1000),
    }
}

} // verus!
