//! The record written for each measured iteration, and its row in the output table.
use vstd::prelude::*;
use crate::bundle::{has_metric, sum_metric, total, BundleConfig, Reading};
use crate::metric::Metric;
use crate::schedule::MeasurementMode;
use crate::text::{decimal, push_decimal};

verus! {

/// Relies on `chrono::Utc::now` and `DateTime::timestamp_micros`: the current
/// time in microseconds since the Unix epoch, whatever the clock says.
#[verifier::external_body]
fn now_micros() -> (r: i64) {
    chrono::Utc::now().timestamp_micros()
}

/// Every metric, in column order.
pub open spec fn all_metrics() -> Seq<Metric> {
    seq![
        Metric::Time,
        Metric::Pkg,
        Metric::Cores,
        Metric::Gpu,
        Metric::Ram,
        Metric::Psys,
        Metric::Cycles,
        Metric::L1dMisses,
        Metric::L1iMisses,
        Metric::LlcMisses,
        Metric::BranchMisses,
        Metric::C1Core,
        Metric::C3Core,
        Metric::C6Core,
        Metric::C7Core,
        Metric::C2Pkg,
        Metric::C3Pkg,
        Metric::C6Pkg,
        Metric::C8Pkg,
        Metric::C10Pkg,
    ]
}

/// Every metric, in column order.
pub fn metric_columns() -> (r: Vec<Metric>)
    ensures
        r@ == all_metrics(),
{
    let r = vec![
        Metric::Time,
        Metric::Pkg,
        Metric::Cores,
        Metric::Gpu,
        Metric::Ram,
        Metric::Psys,
        Metric::Cycles,
        Metric::L1dMisses,
        Metric::L1iMisses,
        Metric::LlcMisses,
        Metric::BranchMisses,
        Metric::C1Core,
        Metric::C3Core,
        Metric::C6Core,
        Metric::C7Core,
        Metric::C2Pkg,
        Metric::C3Pkg,
        Metric::C6Pkg,
        Metric::C8Pkg,
        Metric::C10Pkg,
    ];
    assert(r@ =~= all_metrics());
    r
}

proof fn lemma_all_metrics_complete(m: Metric)
    ensures
        all_metrics().contains(m),
{
    let s = all_metrics();
    match m {
        Metric::Time => assert(s[0] == m),
        Metric::Pkg => assert(s[1] == m),
        Metric::Cores => assert(s[2] == m),
        Metric::Gpu => assert(s[3] == m),
        Metric::Ram => assert(s[4] == m),
        Metric::Psys => assert(s[5] == m),
        Metric::Cycles => assert(s[6] == m),
        Metric::L1dMisses => assert(s[7] == m),
        Metric::L1iMisses => assert(s[8] == m),
        Metric::LlcMisses => assert(s[9] == m),
        Metric::BranchMisses => assert(s[10] == m),
        Metric::C1Core => assert(s[11] == m),
        Metric::C3Core => assert(s[12] == m),
        Metric::C6Core => assert(s[13] == m),
        Metric::C7Core => assert(s[14] == m),
        Metric::C2Pkg => assert(s[15] == m),
        Metric::C3Pkg => assert(s[16] == m),
        Metric::C6Pkg => assert(s[17] == m),
        Metric::C8Pkg => assert(s[18] == m),
        Metric::C10Pkg => assert(s[19] == m),
    }
}

/// The CPUs of an affinity set, comma separated.
pub open spec fn cpu_list(cpus: Seq<usize>) -> Seq<char>
    decreases cpus.len(),
{
    if cpus.len() == 0 {
        Seq::empty()
    } else if cpus.len() == 1 {
        decimal(cpus[0] as nat)
    } else {
        cpu_list(cpus.drop_last()) + seq![','] + decimal(cpus.last() as nat)
    }
}

/// The CPUs of an affinity set, comma separated.
pub fn affinity_text(cpus: &Vec<usize>) -> (r: String)
    ensures
        r@ == cpu_list(cpus@),
{
    let mut s = String::new();
    let mut i: usize = 0;
    while i < cpus.len()
        invariant
            i <= cpus.len(),
            s@ == cpu_list(cpus@.take(i as int)),
        decreases cpus.len() - i,
    {
        assert(cpus@.take(i as int + 1).drop_last() =~= cpus@.take(i as int));
        if i > 0 {
            proof {
                reveal_strlit(",");
            }
            s.append(",");
        }
        push_decimal(&mut s, cpus[i] as u64);
        i = i + 1;
        assert(s@ =~= cpu_list(cpus@.take(i as int)));
    }
    assert(cpus@.take(i as int) =~= cpus@);
    s
}

/// One row of results: who was measured, how, which iteration, and the value of
/// each metric (nothing for a metric that was not measured). Time is in
/// microseconds and energy in millijoules; the end time is in microseconds since
/// the Unix epoch.
#[derive(Debug)]
pub struct Measurement {
    pub language: String,
    pub scenario: String,
    pub test: String,
    pub affinity: Option<String>,
    pub niceness: Option<i32>,
    pub mode: MeasurementMode,
    pub iteration: usize,
    pub time: Option<u64>,
    pub pkg: Option<u64>,
    pub cores: Option<u64>,
    pub gpu: Option<u64>,
    pub ram: Option<u64>,
    pub psys: Option<u64>,
    pub cycles: Option<u64>,
    pub l1d_misses: Option<u64>,
    pub l1i_misses: Option<u64>,
    pub llc_misses: Option<u64>,
    pub branch_misses: Option<u64>,
    pub c1_core_residency: Option<u64>,
    pub c3_core_residency: Option<u64>,
    pub c6_core_residency: Option<u64>,
    pub c7_core_residency: Option<u64>,
    pub c2_pkg_residency: Option<u64>,
    pub c3_pkg_residency: Option<u64>,
    pub c6_pkg_residency: Option<u64>,
    pub c8_pkg_residency: Option<u64>,
    pub c10_pkg_residency: Option<u64>,
    pub ended: i64,
}

impl Measurement {
    /// The value the record holds for `m`.
    pub open spec fn value(&self, m: Metric) -> Option<u64> {
        match m {
            Metric::Time => self.time,
            Metric::Pkg => self.pkg,
            Metric::Cores => self.cores,
            Metric::Gpu => self.gpu,
            Metric::Ram => self.ram,
            Metric::Psys => self.psys,
            Metric::Cycles => self.cycles,
            Metric::L1dMisses => self.l1d_misses,
            Metric::L1iMisses => self.l1i_misses,
            Metric::LlcMisses => self.llc_misses,
            Metric::BranchMisses => self.branch_misses,
            Metric::C1Core => self.c1_core_residency,
            Metric::C3Core => self.c3_core_residency,
            Metric::C6Core => self.c6_core_residency,
            Metric::C7Core => self.c7_core_residency,
            Metric::C2Pkg => self.c2_pkg_residency,
            Metric::C3Pkg => self.c3_pkg_residency,
            Metric::C6Pkg => self.c6_pkg_residency,
            Metric::C8Pkg => self.c8_pkg_residency,
            Metric::C10Pkg => self.c10_pkg_residency,
        }
    }

    /// A record of iteration `iteration` with no metric measured yet.
    pub fn new(
        language: &str,
        scenario: &str,
        test: &str,
        mode: MeasurementMode,
        iteration: usize,
        affinity: &Option<Vec<usize>>,
        niceness: Option<i32>,
        ended: i64,
    ) -> (r: Measurement)
        ensures
            r.language@ == language@,
            r.scenario@ == scenario@,
            r.test@ == test@,
            r.mode == mode,
            r.iteration == iteration,
            r.niceness == niceness,
            r.ended == ended,
            affinity is None ==> r.affinity is None,
            affinity matches Some(a) ==> (r.affinity matches Some(t) && t@ == cpu_list(a@)),
            forall|m: Metric| (#[trigger] r.value(m)) is None,
    {
        let affinity_str = match affinity {
            Some(cpus) => Some(affinity_text(cpus)),
            None => None,
        };
        Measurement {
            language: String::from_str(language),
            scenario: String::from_str(scenario),
            test: String::from_str(test),
            affinity: affinity_str,
            niceness,
            mode,
            iteration,
            time: None,
            pkg: None,
            cores: None,
            gpu: None,
            ram: None,
            psys: None,
            cycles: None,
            l1d_misses: None,
            l1i_misses: None,
            llc_misses: None,
            branch_misses: None,
            c1_core_residency: None,
            c3_core_residency: None,
            c6_core_residency: None,
            c7_core_residency: None,
            c2_pkg_residency: None,
            c3_pkg_residency: None,
            c6_pkg_residency: None,
            c8_pkg_residency: None,
            c10_pkg_residency: None,
            ended,
        }
    }

    /// A record of iteration `iteration` with no metric measured yet, ended now.
    pub fn stamped(
        language: &str,
        scenario: &str,
        test: &str,
        mode: MeasurementMode,
        iteration: usize,
        affinity: &Option<Vec<usize>>,
        niceness: Option<i32>,
    ) -> (r: Measurement)
        ensures
            r.language@ == language@,
            r.scenario@ == scenario@,
            r.test@ == test@,
            r.mode == mode,
            r.iteration == iteration,
            r.niceness == niceness,
            affinity is None ==> r.affinity is None,
            affinity matches Some(a) ==> (r.affinity matches Some(t) && t@ == cpu_list(a@)),
            forall|m: Metric| (#[trigger] r.value(m)) is None,
    {
        Measurement::new(language, scenario, test, mode, iteration, affinity, niceness, now_micros())
    }

    /// The value the record holds for `m`.
    pub fn get(&self, m: Metric) -> (r: Option<u64>)
        ensures
            r == self.value(m),
    {
        match m {
            Metric::Time => self.time,
            Metric::Pkg => self.pkg,
            Metric::Cores => self.cores,
            Metric::Gpu => self.gpu,
            Metric::Ram => self.ram,
            Metric::Psys => self.psys,
            Metric::Cycles => self.cycles,
            Metric::L1dMisses => self.l1d_misses,
            Metric::L1iMisses => self.l1i_misses,
            Metric::LlcMisses => self.llc_misses,
            Metric::BranchMisses => self.branch_misses,
            Metric::C1Core => self.c1_core_residency,
            Metric::C3Core => self.c3_core_residency,
            Metric::C6Core => self.c6_core_residency,
            Metric::C7Core => self.c7_core_residency,
            Metric::C2Pkg => self.c2_pkg_residency,
            Metric::C3Pkg => self.c3_pkg_residency,
            Metric::C6Pkg => self.c6_pkg_residency,
            Metric::C8Pkg => self.c8_pkg_residency,
            Metric::C10Pkg => self.c10_pkg_residency,
        }
    }

    /// Sets the value of `m`, leaving every other field as it is.
    pub fn set(&mut self, m: Metric, v: Option<u64>)
        ensures
            final(self).value(m) == v,
            forall|o: Metric| o != m ==> #[trigger] final(self).value(o) == old(self).value(o),
            final(self).language == old(self).language,
            final(self).scenario == old(self).scenario,
            final(self).test == old(self).test,
            final(self).affinity == old(self).affinity,
            final(self).niceness == old(self).niceness,
            final(self).mode == old(self).mode,
            final(self).iteration == old(self).iteration,
            final(self).ended == old(self).ended,
    {
        match m {
            Metric::Time => self.time = v,
            Metric::Pkg => self.pkg = v,
            Metric::Cores => self.cores = v,
            Metric::Gpu => self.gpu = v,
            Metric::Ram => self.ram = v,
            Metric::Psys => self.psys = v,
            Metric::Cycles => self.cycles = v,
            Metric::L1dMisses => self.l1d_misses = v,
            Metric::L1iMisses => self.l1i_misses = v,
            Metric::LlcMisses => self.llc_misses = v,
            Metric::BranchMisses => self.branch_misses = v,
            Metric::C1Core => self.c1_core_residency = v,
            Metric::C3Core => self.c3_core_residency = v,
            Metric::C6Core => self.c6_core_residency = v,
            Metric::C7Core => self.c7_core_residency = v,
            Metric::C2Pkg => self.c2_pkg_residency = v,
            Metric::C3Pkg => self.c3_pkg_residency = v,
            Metric::C6Pkg => self.c6_pkg_residency = v,
            Metric::C8Pkg => self.c8_pkg_residency = v,
            Metric::C10Pkg => self.c10_pkg_residency = v,
        }
    }

    /// Fills in every metric that `readings` holds a value of, with the sum over
    /// all its counters; other metrics keep their value. Fails with the first
    /// metric (in column order) whose sum does not fit in 64 bits.
    pub fn populate(&mut self, readings: &Vec<Reading>) -> (r: Result<(), Metric>)
        ensures
            r is Ok <==> forall|m: Metric| #[trigger] total(readings@, m) <= u64::MAX,
            r is Ok ==> forall|m: Metric|
                #[trigger] final(self).value(m) == if has_metric(readings@, m) {
                    Some(total(readings@, m) as u64)
                } else {
                    old(self).value(m)
                },
            r matches Err(m) ==> total(readings@, m) > u64::MAX,
            final(self).language == old(self).language,
            final(self).scenario == old(self).scenario,
            final(self).test == old(self).test,
            final(self).mode == old(self).mode,
            final(self).iteration == old(self).iteration,
            final(self).ended == old(self).ended,
    {
        let cols = metric_columns();
        let mut i: usize = 0;
        while i < cols.len()
            invariant
                cols@ == all_metrics(),
                i <= cols.len(),
                forall|j: int| 0 <= j < i ==> total(readings@, #[trigger] cols@[j]) <= u64::MAX,
                forall|m: Metric|
                    #[trigger] self.value(m) == if cols@.take(i as int).contains(m) && has_metric(
                        readings@,
                        m,
                    ) {
                        Some(total(readings@, m) as u64)
                    } else {
                        old(self).value(m)
                    },
                self.language == old(self).language,
                self.scenario == old(self).scenario,
                self.test == old(self).test,
                self.mode == old(self).mode,
                self.iteration == old(self).iteration,
                self.ended == old(self).ended,
            decreases cols.len() - i,
        {
            let m = cols[i];
            let ghost before = *self;
            match sum_metric(readings, m) {
                Err(e) => {
                    return Err(e);
                },
                Ok(Some(v)) => {
                    self.set(m, Some(v));
                },
                Ok(None) => {},
            }
            i = i + 1;
            assert forall|o: Metric| #[trigger] self.value(o) == if cols@.take(i as int).contains(o)
                && has_metric(readings@, o) {
                Some(total(readings@, o) as u64)
            } else {
                old(self).value(o)
            } by {
                if o == m {
                    assert(cols@.take(i as int)[i - 1] == o);
                } else {
                    let cur = cols@.take(i as int);
                    let prev = cols@.take(i as int - 1);
                    if cur.contains(o) {
                        let j = choose|j: int| 0 <= j < cur.len() && cur[j] == o;
                        assert(prev[j] == o);
                    }
                    if prev.contains(o) {
                        let j = choose|j: int| 0 <= j < prev.len() && prev[j] == o;
                        assert(cur[j] == o);
                    }
                }
            }
        }
        assert(cols@.take(i as int) =~= all_metrics());
        assert forall|m: Metric| #[trigger] total(readings@, m) <= u64::MAX by {
            lemma_all_metrics_complete(m);
            let j = choose|j: int| 0 <= j < all_metrics().len() && all_metrics()[j] == m;
            assert(total(readings@, cols@[j]) <= u64::MAX);
        }
        assert forall|m: Metric| cols@.take(i as int).contains(m) by {
            lemma_all_metrics_complete(m);
        }
        Ok(())
    }
}

impl Measurement {
    /// Fills the record from the readings of the bundles of `config`, as
    /// `populate` does; the cycle count, a sum over CPUs, reads 0 when its bundle
    /// is requested but no cycle counter could be opened. On failure the record
    /// is left partly filled and must be dropped.
    pub fn populate_for(&mut self, config: &BundleConfig, readings: &Vec<Reading>) -> (r: Result<
        (),
        Metric,
    >)
        ensures
            r is Ok <==> forall|m: Metric| #[trigger] total(readings@, m) <= u64::MAX,
            r is Ok ==> forall|m: Metric|
                #[trigger] final(self).value(m) == if has_metric(readings@, m) {
                    Some(total(readings@, m) as u64)
                } else if m == Metric::Cycles && config.cycles {
                    Some(0u64)
                } else {
                    old(self).value(m)
                },
            r matches Err(m) ==> total(readings@, m) > u64::MAX,
            final(self).language == old(self).language,
            final(self).scenario == old(self).scenario,
            final(self).test == old(self).test,
            final(self).mode == old(self).mode,
            final(self).iteration == old(self).iteration,
            final(self).ended == old(self).ended,
    {
        if config.cycles {
            self.set(Metric::Cycles, Some(0));
        }
        self.populate(readings)
    }
}

/// A record that starts empty and is filled from counters of the requested
/// bundles holds a value exactly for the metrics that some counter measured,
/// and for the cycle count when cycles are requested; so a column is non-empty
/// only if its bundle was requested.
pub proof fn lemma_columns_follow_bundles(
    c: BundleConfig,
    before: Measurement,
    after: Measurement,
    readings: Seq<Reading>,
)
    requires
        forall|m: Metric| (#[trigger] before.value(m)) is None,
        forall|i: int| 0 <= i < readings.len() ==> c.spec_enabled(#[trigger] readings[i].metric.spec_bundle()),
        forall|m: Metric|
            #[trigger] after.value(m) == if has_metric(readings, m) {
                Some(total(readings, m) as u64)
            } else if m == Metric::Cycles && c.cycles {
                Some(0u64)
            } else {
                before.value(m)
            },
    ensures
        forall|m: Metric|
            (#[trigger] after.value(m)) is Some <==> has_metric(readings, m) || (m == Metric::Cycles
                && c.cycles),
        forall|m: Metric| (#[trigger] after.value(m)) is Some ==> c.spec_enabled(m.spec_bundle()),
{
    assert forall|m: Metric| (#[trigger] after.value(m)) is Some implies c.spec_enabled(
        m.spec_bundle(),
    ) by {
        if has_metric(readings, m) {
            let i = choose|i: int| 0 <= i < readings.len() && readings[i].metric == m;
            assert(c.spec_enabled(readings[i].metric.spec_bundle()));
        }
    }
}

} // verus!
