use vstd::prelude::*;

verus! {

/// One measurement's output for one sample: the collector's name and its
/// opaque, serializable payload.
pub struct Measure {
    pub name: String,
    pub value: serde_json::Value,
}

impl Measure {
    pub fn new(name: String, value: serde_json::Value) -> (r: Measure)
        ensures
            r.name@ == name@,
            r.value == value,
    {
        Measure { name, value }
    }
}

/// The closed set of process-wide measurement collectors the harness knows.
/// Each one follows the same lifecycle per sample: started after all workers
/// are ready, stopped right after the window closes, queried for its result
/// after that.  The drivers themselves — system queries, profilers, counter
/// files, remote pollers — run outside the library.
#[derive(Clone, Copy, Debug, PartialEq, Eq, Structural)]
pub enum MeasurementKind {
    /// The process's disk reads and writes over the window.
    DiskIo,
    /// A sampling CPU profiler rendered as a flame graph.
    Flamegraph,
    /// Hardware and software performance counters.
    Perf,
    /// A remote memory-traffic monitor polled during the window.
    Pcm,
}

impl MeasurementKind {
    /// The name under which this collector's output appears in the record.
    pub open spec fn spec_label(self) -> Seq<char> {
        match self {
            MeasurementKind::DiskIo => "disk_io"@,
            MeasurementKind::Flamegraph => "flamegraph"@,
            MeasurementKind::Perf => "perf"@,
            MeasurementKind::Pcm => "pcm"@,
        }
    }

    /// The name under which this collector's output appears in the record.
    pub fn label(&self) -> (r: String)
        ensures
            r@ == self.spec_label(),
    {
        match self {
            MeasurementKind::DiskIo => "disk_io".to_owned(),
            MeasurementKind::Flamegraph => "flamegraph".to_owned(),
            MeasurementKind::Perf => "perf".to_owned(),
            MeasurementKind::Pcm => "pcm".to_owned(),
        }
    }
}

/// Which optional collectors a run enables; the disk collector always runs.
#[derive(Clone, Copy, Debug, PartialEq, Eq, Structural)]
pub struct MeasurementFlags {
    pub flamegraph: bool,
    pub perf: bool,
    pub pcm: bool,
}

/// The fixed, deterministic order in which enabled collectors run: disk
/// accounting always and first, then the flame-graph profiler, the
/// performance counters and the remote poller, each only if enabled.
pub open spec fn spec_active_measurements(flags: MeasurementFlags) -> Seq<MeasurementKind> {
    seq![MeasurementKind::DiskIo] + (if flags.flamegraph {
        seq![MeasurementKind::Flamegraph]
    } else {
        Seq::empty()
    }) + (if flags.perf {
        seq![MeasurementKind::Perf]
    } else {
        Seq::empty()
    }) + (if flags.pcm {
        seq![MeasurementKind::Pcm]
    } else {
        Seq::empty()
    })
}

/// The collectors a run with the given flags drives, in the order their
/// `start` calls happen.
pub fn active_measurements(flags: &MeasurementFlags) -> (r: Vec<MeasurementKind>)
    ensures
        r@ == spec_active_measurements(*flags),
{
    let mut r: Vec<MeasurementKind> = Vec::new();
    r.push(MeasurementKind::DiskIo);
    if flags.flamegraph {
        r.push(MeasurementKind::Flamegraph);
    }
    if flags.perf {
        r.push(MeasurementKind::Perf);
    }
    if flags.pcm {
        r.push(MeasurementKind::Pcm);
    }
    proof {
        assert(r@ =~= spec_active_measurements(*flags));
    }
    r
}

/// What the disk collector reports: bytes the process read and wrote during
/// the window.
#[derive(Clone, Copy, Debug, PartialEq, Eq, Structural)]
pub struct DiskUsage {
    pub bytes_read: usize,
    pub bytes_written: usize,
}

} // verus!
