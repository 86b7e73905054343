use vstd::prelude::*;

use crate::bench::BenchConfig;

verus! {

/// A ready-made configuration record: a display name, the thread counts to
/// sample, the window length in seconds, and one free workload parameter.
#[derive(Clone, Debug)]
pub struct Foo {
    pub name: String,
    pub threads: Vec<usize>,
    pub time: usize,
    pub a: usize,
}

impl Foo {
    pub fn new(name: String, threads: Vec<usize>, time: usize, a: usize) -> (r: Foo)
        ensures
            r.name@ == name@,
            r.threads@ == threads@,
            r.time == time,
            r.a == a,
    {
        Foo { name, threads, time, a }
    }
}

impl BenchConfig for Foo {
    open spec fn spec_name(&self) -> Seq<char> {
        self.name@
    }

    open spec fn spec_threads(&self) -> Seq<usize> {
        self.threads@
    }

    open spec fn spec_bench_sec(&self) -> usize {
        self.time
    }

    fn name(&self) -> (r: &String) {
        &self.name
    }

    fn thread(&self) -> (r: &[usize]) {
        self.threads.as_slice()
    }

    fn bench_sec(&self) -> (r: usize) {
        self.time
    }
}

} // verus!
