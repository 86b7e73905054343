use vstd::prelude::*;

verus! {

/// A snapshot of the machine a benchmark ran on, recorded once per run next
/// to the benchmark numbers themselves.
///
/// The harness itself never reads these fields; gathering them is the job of
/// an unverified collaborator that queries the operating system and fills a
/// fresh snapshot in.  `new` returns the neutral snapshot that is used when
/// no such collaborator runs.
pub struct RunnerEnv {
    pub kernel_version: String,
    pub hostname: String,
    pub os_version: String,
    pub cpu_num: usize,
    pub physical_core_num: usize,
    pub total_memory: usize,
}

impl RunnerEnv {
    /// The neutral snapshot: empty names and zeroed counts.
    pub fn new() -> (r: RunnerEnv)
        ensures
            r.kernel_version@ == Seq::<char>::empty(),
            r.hostname@ == Seq::<char>::empty(),
            r.os_version@ == Seq::<char>::empty(),
            r.cpu_num == 0,
            r.physical_core_num == 0,
            r.total_memory == 0,
    {
        RunnerEnv {
            kernel_version: String::new(),
            hostname: String::new(),
            os_version: String::new(),
            cpu_num: 0,
            physical_core_num: 0,
            total_memory: 0,
        }
    }
}

impl Default for RunnerEnv {
    /// Same as `RunnerEnv::new`.
    fn default() -> (r: RunnerEnv)
        ensures
            r.kernel_version@ == Seq::<char>::empty(),
            r.hostname@ == Seq::<char>::empty(),
            r.os_version@ == Seq::<char>::empty(),
            r.cpu_num == 0,
            r.physical_core_num == 0,
            r.total_memory == 0,
    {
        RunnerEnv::new()
    }
}

} // verus!
