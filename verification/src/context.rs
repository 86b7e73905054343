use std::sync::atomic::AtomicBool;
use std::sync::atomic::AtomicU64;
use std::sync::atomic::Ordering;
use vstd::prelude::*;

use crate::bench::BenchConfig;

verus! {

/// Relies on core::sync::atomic::AtomicBool::load and core::hint::spin_loop:
/// busy-waits until the shared flag reads true and returns only then.  The
/// wait ends when another thread — here the sample executor — stores true;
/// no bounded measure exists for it, so the spin stands outside the verified
/// code.
#[verifier::external_body]
fn spin_until_true(flag: &AtomicBool) {
    while !flag.load(Ordering::Relaxed) {
        core::hint::spin_loop();
    }
}

/// The handle a worker thread receives for one sample window.
///
/// It exposes the start barrier (`wait_for_start`) and the running flag
/// (`is_running`) over two atomics that the sample executor shares with all
/// workers of the window: a ready counter that each worker bumps exactly
/// once, and a flag that only the executor writes — false while workers
/// gather, true for the length of the measured window, false again to stop
/// them.  Workers only ever read the flag.
pub struct Context<'a, C: BenchConfig> {
    running: &'a AtomicBool,
    ready_thread: &'a AtomicU64,
    pub thread_id: usize,
    pub thread_cnt: usize,
    pub config: &'a C,
    pub stream_val: &'a AtomicU64,
}

impl<'a, C: BenchConfig> Context<'a, C> {
    /// The index of the worker holding this handle.
    pub closed spec fn spec_thread_id(&self) -> usize {
        self.thread_id
    }

    /// How many workers share this handle's window.
    pub closed spec fn spec_thread_cnt(&self) -> usize {
        self.thread_cnt
    }

    /// The configuration the window runs under.
    pub closed spec fn spec_config(&self) -> &'a C {
        self.config
    }

    /// The index of the worker holding this handle.
    pub fn thread_id(&self) -> (r: usize)
        ensures
            r == self.spec_thread_id(),
    {
        self.thread_id
    }

    /// How many workers share this handle's window.
    pub fn thread_cnt(&self) -> (r: usize)
        ensures
            r == self.spec_thread_cnt(),
    {
        self.thread_cnt
    }

    /// The configuration the window runs under.
    pub fn config(&self) -> (r: &'a C)
        ensures
            r == self.spec_config(),
    {
        self.config
    }

    /// The barrier that lines all workers of a window up: registers this
    /// worker as ready, then spins until the executor flips the running flag
    /// on.  Every `run` implementation must call this exactly once, right
    /// after its own initialization, or the executor waits forever for the
    /// ready count to fill up.
    pub fn wait_for_start(&self) {
        self.ready_thread.fetch_add(1, Ordering::Relaxed);
        spin_until_true(self.running);
    }

    /// One relaxed read of the running flag; a worker's loop condition
    /// during the measured window.
    pub fn is_running(&self) -> bool {
        self.running.load(Ordering::Relaxed)
    }

    /// Add `val` to the shared stream counter, e.g. to expose progress to a
    /// monitor while the window is open.
    pub fn incr_stream_val(&self, val: u64) {
        self.stream_val.fetch_add(val, Ordering::Relaxed);
    }

    /// A fresh handle for worker `thread_id` of a window of `thread_cnt`
    /// workers, over the window's shared atomics.
    pub fn new(
        thread_id: usize,
        thread_cnt: usize,
        config: &'a C,
        ready_thread: &'a AtomicU64,
        running: &'a AtomicBool,
        stream_val: &'a AtomicU64,
    ) -> (r: Context<'a, C>)
        ensures
            r.spec_thread_id() == thread_id,
            r.spec_thread_cnt() == thread_cnt,
            r.spec_config() == config,
    {
        Context { running, ready_thread, thread_id, thread_cnt, config, stream_val }
    }
}

} // verus!
