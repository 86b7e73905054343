use std::sync::atomic::AtomicBool;
use std::sync::atomic::AtomicU64;
use std::sync::atomic::Ordering;

use shumai::BenchConfig;
use shumai::Context;
use shumai::BenchResult;
use shumai::BenchValue;
use shumai::Foo;
use shumai::LoadResults;
use shumai::Measure;
use shumai::MeasurementFlags;
use shumai::MeasurementKind;
use shumai::RunnerEnv;
use shumai::SamplePhase;
use shumai::SampleSession;
use shumai::ShumaiResult;
use shumai::Step;
use shumai::ThreadResult;
use shumai::metrics::active_measurements;
use shumai::sample::aggregate;
use shumai::schedule::resolve_repeat_time;
use shumai::schedule::resolve_threads;
use shumai::schedule::schedule;

fn foo_config() -> Foo {
    Foo::new("foo".to_string(), vec![1, 2, 4], 1, 1)
}

/// Drives one full sample window through the session protocol, standing in
/// for the loop that owns the real threads: each of the `thread_cnt`
/// simulated workers contributes `per_worker`, and the window is measured
/// at `elapsed_ms`.
fn simulate_sample(thread_cnt: usize, per_worker: usize, elapsed_ms: u64) -> BenchValue<usize> {
    let mut session = SampleSession::new(thread_cnt, elapsed_ms);
    assert_eq!(session.phase(), SamplePhase::WaitingReady);

    // Workers register one by one; the executor polls the ready counter.
    for seen in 0..thread_cnt as u64 {
        assert!(!session.observe_ready(seen));
        assert_eq!(session.phase(), SamplePhase::WaitingReady);
    }
    assert!(session.observe_ready(thread_cnt as u64));
    assert_eq!(session.phase(), SamplePhase::Ready);

    session.start_measurements();
    session.open_window();
    assert!(session.window_should_stay_open(0));
    assert!(!session.window_should_stay_open(elapsed_ms));
    session.close_window();
    session.stop_measurements();

    let worker_results = vec![per_worker; thread_cnt];
    let outcome = session.collect(worker_results, elapsed_ms, Vec::new());
    assert_eq!(session.phase(), SamplePhase::Done);
    outcome
}

#[test]
fn thread_scaling() {
    // Configuration {name: "foo", threads: [1, 2, 4], time: 1}, repeat 2: a
    // contention-free counting workload must yield one ThreadResult per
    // thread count, two samples each, with non-negative throughput that
    // does not decrease as the thread count grows.
    let config = foo_config();
    let repeat = 2;
    let threads = resolve_threads(&config.threads, None);
    let load = LoadResults { time_elapsed_nanos: 1, user_metrics: None };
    let mut results: ShumaiResult<Foo, usize> =
        ShumaiResult::new(config.clone(), load, RunnerEnv::new());

    for &t in threads.iter() {
        let mut thread_result = ThreadResult::new(t);
        for _ in 0..repeat {
            // Each simulated worker counts 1000 loop iterations per second.
            let outcome = simulate_sample(t, 1000, 1000);
            thread_result.push_iteration(outcome);
        }
        results.add(thread_result);
    }

    assert_eq!(results.bench_results.len(), 3);
    let mut last = 0usize;
    for (i, &t) in [1usize, 2, 4].iter().enumerate() {
        let tr = &results.bench_results[i];
        assert_eq!(tr.thread_cnt, t);
        assert_eq!(tr.iterations.len(), 2);
        for outcome in tr.iterations.iter() {
            assert_eq!(outcome.result, t * 1000);
            assert!(outcome.result >= last);
        }
        last = tr.iterations[0].result;
    }
    assert!(results.cleanup_results.is_none());
}

#[test]
fn barrier_holds_until_all_ready() {
    // A worker that never registers keeps the session in the barrier phase:
    // no read below the worker count lets the window open.
    let mut session = SampleSession::new(4, 1000);
    for seen in [0u64, 1, 2, 3, 5, 100] {
        assert!(!session.observe_ready(seen));
        assert_eq!(session.phase(), SamplePhase::WaitingReady);
    }
    assert!(session.observe_ready(4));
    assert_eq!(session.phase(), SamplePhase::Ready);
}

#[test]
fn schedule_shape() {
    let plan = schedule(&vec![1, 2], 2);
    let expected = vec![
        Step::Load,
        Step::Sample { thread_cnt: 1, iteration: 0 },
        Step::IterationFinished { iteration: 0 },
        Step::Sample { thread_cnt: 1, iteration: 1 },
        Step::IterationFinished { iteration: 1 },
        Step::ThreadFinished { thread_cnt: 1 },
        Step::Sample { thread_cnt: 2, iteration: 0 },
        Step::IterationFinished { iteration: 0 },
        Step::Sample { thread_cnt: 2, iteration: 1 },
        Step::IterationFinished { iteration: 1 },
        Step::ThreadFinished { thread_cnt: 2 },
        Step::Cleanup,
    ];
    assert_eq!(plan, expected);
}

#[test]
fn schedule_of_nothing() {
    assert_eq!(schedule(&Vec::new(), 5), vec![Step::Load, Step::Cleanup]);
    assert_eq!(schedule(&vec![3], 0), vec![
        Step::Load,
        Step::ThreadFinished { thread_cnt: 3 },
        Step::Cleanup,
    ]);
}

#[test]
fn thread_filter() {
    assert_eq!(resolve_threads(&vec![1, 2, 3], None), vec![1, 2, 3]);
    assert_eq!(resolve_threads(&vec![1, 2, 3], Some(2)), vec![2]);
    assert_eq!(resolve_threads(&vec![2, 1, 2], Some(2)), vec![2, 2]);
    assert_eq!(resolve_threads(&vec![1, 2, 3], Some(7)), Vec::<usize>::new());
}

#[test]
fn repeat_time_override() {
    assert_eq!(resolve_repeat_time(3, 2, None), (3, 2000));
    assert_eq!(resolve_repeat_time(3, 2, Some(60)), (1, 60000));
}

#[test]
fn normalize_is_identity_at_one_second() {
    assert_eq!(500usize.normalize_time(1000), 500);
    assert_eq!(0usize.normalize_time(1000), 0);
}

#[test]
fn normalize_scales_inversely() {
    // Doubling the window halves the rate; halving it doubles the rate.
    assert_eq!(500usize.normalize_time(2000), 250);
    assert_eq!(500usize.normalize_time(500), 1000);
    assert_eq!(7usize.normalize_time(2000), 3);
    // A very short window saturates instead of overflowing.
    assert_eq!(usize::MAX.normalize_time(1), usize::MAX);
}

#[test]
fn combine_is_order_insensitive() {
    let orders: [[usize; 3]; 6] = [
        [3, 5, 7],
        [3, 7, 5],
        [5, 3, 7],
        [5, 7, 3],
        [7, 3, 5],
        [7, 5, 3],
    ];
    for order in orders {
        let mut acc = 0usize;
        for v in order {
            acc = acc.combine(v);
        }
        assert_eq!(acc, 15);
    }
    assert_eq!(usize::MAX.combine(5), usize::MAX);
    assert_eq!(0usize.combine(9), 9);
}

#[test]
fn aggregate_combines_then_normalizes() {
    assert_eq!(aggregate(vec![10usize, 20, 30], 1000), 60);
    assert_eq!(aggregate(vec![10usize, 20, 30], 2000), 30);
    assert_eq!(aggregate(Vec::<usize>::new(), 1000), 0);
    assert_eq!(aggregate(vec![7usize], 1000), 7);
    // Saturated sums stay saturated instead of wrapping.
    assert_eq!(aggregate(vec![usize::MAX, 1], 1000), usize::MAX);
}

#[test]
fn measurement_order_is_fixed() {
    let all = MeasurementFlags { flamegraph: true, perf: true, pcm: true };
    assert_eq!(active_measurements(&all), vec![
        MeasurementKind::DiskIo,
        MeasurementKind::Flamegraph,
        MeasurementKind::Perf,
        MeasurementKind::Pcm,
    ]);
    let none = MeasurementFlags { flamegraph: false, perf: false, pcm: false };
    assert_eq!(active_measurements(&none), vec![MeasurementKind::DiskIo]);
    let some = MeasurementFlags { flamegraph: false, perf: true, pcm: false };
    assert_eq!(active_measurements(&some), vec![MeasurementKind::DiskIo, MeasurementKind::Perf]);
}

#[test]
fn poll_cadence() {
    // With 50 ms sleep increments, a poll falls on every 20th tick and
    // never on the zeroth.
    assert!(!shumai::sample::poll_due(0, 20));
    assert!(!shumai::sample::poll_due(1, 20));
    assert!(!shumai::sample::poll_due(19, 20));
    assert!(shumai::sample::poll_due(20, 20));
    assert!(!shumai::sample::poll_due(21, 20));
    assert!(shumai::sample::poll_due(40, 20));
}

#[test]
fn measurement_labels() {
    assert_eq!(MeasurementKind::DiskIo.label(), "disk_io");
    assert_eq!(MeasurementKind::Flamegraph.label(), "flamegraph");
    assert_eq!(MeasurementKind::Perf.label(), "perf");
    assert_eq!(MeasurementKind::Pcm.label(), "pcm");
}

#[test]
fn context_barrier_from_worker_view() {
    // With the running flag already up, a lone worker passes the barrier at
    // once and leaves exactly one registration on the ready counter.
    let ready = AtomicU64::new(0);
    let running = AtomicBool::new(true);
    let stream = AtomicU64::new(0);
    let config = foo_config();
    let ctx = Context::new(0, 1, &config, &ready, &running, &stream);
    assert!(ctx.is_running());
    ctx.wait_for_start();
    assert_eq!(ready.load(Ordering::Relaxed), 1);
    ctx.incr_stream_val(5);
    ctx.incr_stream_val(2);
    assert_eq!(stream.load(Ordering::Relaxed), 7);
    assert_eq!(ctx.thread_id(), 0);
    assert_eq!(ctx.thread_cnt(), 1);
    assert_eq!(ctx.config().a, 1);
    running.store(false, Ordering::Relaxed);
    assert!(!ctx.is_running());
}

#[test]
fn config_accessors() {
    let config = foo_config();
    assert_eq!(config.name().as_str(), "foo");
    assert_eq!(config.thread(), &[1, 2, 4]);
    assert_eq!(config.bench_sec(), 1);
    assert_eq!(config.a, 1);
}

#[test]
fn result_record_assembly() {
    let config = foo_config();
    let load = LoadResults {
        time_elapsed_nanos: 42,
        user_metrics: Some(serde_json::Value::Bool(true)),
    };
    let mut results: ShumaiResult<Foo, usize> =
        ShumaiResult::new(config, load, RunnerEnv::new());
    assert!(results.bench_results.is_empty());
    assert!(results.cleanup_results.is_none());
    assert_eq!(results.load_results.time_elapsed_nanos, 42);

    let mut tr = ThreadResult::new(2);
    tr.push_iteration(BenchValue {
        result: 11usize,
        measurements: vec![Measure::new("disk_io".to_string(), serde_json::Value::Null)],
    });
    assert_eq!(tr.iterations.len(), 1);
    assert_eq!(tr.iterations[0].measurements[0].name, "disk_io");
    results.add(tr);
    results.cleanup_results = Some(serde_json::Value::String("done".to_string()));
    assert_eq!(results.bench_results.len(), 1);
    assert_eq!(results.bench_results[0].thread_cnt, 2);
}

#[test]
fn empty_environment_snapshot() {
    let env = RunnerEnv::new();
    assert_eq!(env.kernel_version, "");
    assert_eq!(env.hostname, "");
    assert_eq!(env.os_version, "");
    assert_eq!(env.cpu_num, 0);
    assert_eq!(env.physical_core_num, 0);
    assert_eq!(env.total_memory, 0);
    let dflt = RunnerEnv::default();
    assert_eq!(dflt.hostname, "");
}
