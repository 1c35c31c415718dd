//! The metrics a record can hold and the counter bundles that produce them.
use vstd::prelude::*;

verus! {

/// A family of counters with a shared reset / enable / disable / read lifecycle.
#[derive(Clone, Copy, Debug, PartialEq, Eq, Structural)]
pub enum BundleKind {
    /// Monotonic clock delta, in microseconds.
    Time,
    /// Energy per power domain.
    Rapl,
    /// Cache read misses and branch mispredictions, summed over CPUs.
    Misses,
    /// Core and package C-state residencies.
    CState,
    /// CPU cycles, summed over CPUs.
    Cycles,
}

/// One metric column of a measurement record.
#[derive(Clone, Copy, Debug, PartialEq, Eq, Structural)]
pub enum Metric {
    Time,
    Pkg,
    Cores,
    Gpu,
    Ram,
    Psys,
    Cycles,
    L1dMisses,
    L1iMisses,
    LlcMisses,
    BranchMisses,
    C1Core,
    C3Core,
    C6Core,
    C7Core,
    C2Pkg,
    C3Pkg,
    C6Pkg,
    C8Pkg,
    C10Pkg,
}

/// Where the kernel exposes the event of a metric.
#[derive(Clone, Copy, Debug, PartialEq, Eq, Structural)]
pub enum EventSource {
    /// The monotonic clock; no kernel event.
    Clock,
    /// A dynamic event of the `power` PMU.
    Power,
    /// A generic hardware or cache event.
    Hardware,
    /// A dynamic event of the `cstate_core` PMU.
    CStateCore,
    /// A dynamic event of the `cstate_pkg` PMU.
    CStatePkg,
}

impl Metric {
    /// The bundle that produces this metric.
    pub open spec fn spec_bundle(self) -> BundleKind {
        match self {
            Metric::Time => BundleKind::Time,
            Metric::Pkg | Metric::Cores | Metric::Gpu | Metric::Ram | Metric::Psys => BundleKind::Rapl,
            Metric::Cycles => BundleKind::Cycles,
            Metric::L1dMisses | Metric::L1iMisses | Metric::LlcMisses
            | Metric::BranchMisses => BundleKind::Misses,
            _ => BundleKind::CState,
        }
    }

    /// The bundle that produces this metric.
    pub fn bundle(&self) -> (r: BundleKind)
        ensures
            r == self.spec_bundle(),
    {
        match self {
            Metric::Time => BundleKind::Time,
            Metric::Pkg | Metric::Cores | Metric::Gpu | Metric::Ram | Metric::Psys => BundleKind::Rapl,
            Metric::Cycles => BundleKind::Cycles,
            Metric::L1dMisses | Metric::L1iMisses | Metric::LlcMisses
            | Metric::BranchMisses => BundleKind::Misses,
            _ => BundleKind::CState,
        }
    }

    /// Where the event of this metric is found.
    pub open spec fn spec_source(self) -> EventSource {
        match self {
            Metric::Time => EventSource::Clock,
            Metric::Pkg | Metric::Cores | Metric::Gpu | Metric::Ram | Metric::Psys => EventSource::Power,
            Metric::Cycles | Metric::L1dMisses | Metric::L1iMisses | Metric::LlcMisses
            | Metric::BranchMisses => EventSource::Hardware,
            Metric::C1Core | Metric::C3Core | Metric::C6Core | Metric::C7Core => EventSource::CStateCore,
            _ => EventSource::CStatePkg,
        }
    }

    /// Where the event of this metric is found.
    pub fn source(&self) -> (r: EventSource)
        ensures
            r == self.spec_source(),
    {
        match self {
            Metric::Time => EventSource::Clock,
            Metric::Pkg | Metric::Cores | Metric::Gpu | Metric::Ram | Metric::Psys => EventSource::Power,
            Metric::Cycles | Metric::L1dMisses | Metric::L1iMisses | Metric::LlcMisses
            | Metric::BranchMisses => EventSource::Hardware,
            Metric::C1Core | Metric::C3Core | Metric::C6Core | Metric::C7Core => EventSource::CStateCore,
            _ => EventSource::CStatePkg,
        }
    }

    /// The kernel's name of the event behind this metric.
    pub open spec fn spec_event_name(self) -> Seq<char> {
        match self {
            Metric::Time => "time"@,
            Metric::Pkg => "energy-pkg"@,
            Metric::Cores => "energy-cores"@,
            Metric::Gpu => "energy-gpu"@,
            Metric::Ram => "energy-ram"@,
            Metric::Psys => "energy-psys"@,
            Metric::Cycles => "cycles"@,
            Metric::L1dMisses => "l1d_misses"@,
            Metric::L1iMisses => "l1i_misses"@,
            Metric::LlcMisses => "llc_misses"@,
            Metric::BranchMisses => "branch_misses"@,
            Metric::C1Core => "c1-residency"@,
            Metric::C3Core => "c3-residency"@,
            Metric::C6Core => "c6-residency"@,
            Metric::C7Core => "c7-residency"@,
            Metric::C2Pkg => "c2-residency"@,
            Metric::C3Pkg => "c3-residency"@,
            Metric::C6Pkg => "c6-residency"@,
            Metric::C8Pkg => "c8-residency"@,
            Metric::C10Pkg => "c10-residency"@,
        }
    }

    /// The kernel's name of the event behind this metric.
    pub fn event_name(&self) -> (r: &'static str)
        ensures
            r@ == self.spec_event_name(),
    {
        match self {
            Metric::Time => "time",
            Metric::Pkg => "energy-pkg",
            Metric::Cores => "energy-cores",
            Metric::Gpu => "energy-gpu",
            Metric::Ram => "energy-ram",
            Metric::Psys => "energy-psys",
            Metric::Cycles => "cycles",
            Metric::L1dMisses => "l1d_misses",
            Metric::L1iMisses => "l1i_misses",
            Metric::LlcMisses => "llc_misses",
            Metric::BranchMisses => "branch_misses",
            Metric::C1Core => "c1-residency",
            Metric::C3Core => "c3-residency",
            Metric::C6Core => "c6-residency",
            Metric::C7Core => "c7-residency",
            Metric::C2Pkg => "c2-residency",
            Metric::C3Pkg => "c3-residency",
            Metric::C6Pkg => "c6-residency",
            Metric::C8Pkg => "c8-residency",
            Metric::C10Pkg => "c10-residency",
        }
    }
}

impl BundleKind {
    /// The metrics this bundle can produce, in column order.
    pub open spec fn spec_metrics(self) -> Seq<Metric> {
        match self {
            BundleKind::Time => seq![Metric::Time],
            BundleKind::Rapl => seq![Metric::Pkg, Metric::Cores, Metric::Gpu, Metric::Ram, Metric::Psys],
            BundleKind::Misses => seq![
                Metric::L1dMisses,
                Metric::L1iMisses,
                Metric::LlcMisses,
                Metric::BranchMisses,
            ],
            BundleKind::CState => seq![
                Metric::C1Core,
                Metric::C3Core,
                Metric::C6Core,
                Metric::C7Core,
                Metric::C2Pkg,
                Metric::C3Pkg,
                Metric::C6Pkg,
                Metric::C8Pkg,
                Metric::C10Pkg,
            ],
            BundleKind::Cycles => seq![Metric::Cycles],
        }
    }

    /// The metrics this bundle can produce, in column order.
    pub fn metrics(&self) -> (r: Vec<Metric>)
        ensures
            r@ == self.spec_metrics(),
    {
        let r = match self {
            BundleKind::Time => vec![Metric::Time],
            BundleKind::Rapl => vec![Metric::Pkg, Metric::Cores, Metric::Gpu, Metric::Ram, Metric::Psys],
            BundleKind::Misses => vec![
                Metric::L1dMisses,
                Metric::L1iMisses,
                Metric::LlcMisses,
                Metric::BranchMisses,
            ],
            BundleKind::CState => vec![
                Metric::C1Core,
                Metric::C3Core,
                Metric::C6Core,
                Metric::C7Core,
                Metric::C2Pkg,
                Metric::C3Pkg,
                Metric::C6Pkg,
                Metric::C8Pkg,
                Metric::C10Pkg,
            ],
            BundleKind::Cycles => vec![Metric::Cycles],
        };
        assert(r@ =~= self.spec_metrics());
        r
    }
}

} // verus!
