//! Which bundles a run measures, the counters each bundle opens, the wall-time
//! bundle, and how per-CPU counter values are summed into one value per metric.
use vstd::prelude::*;
use crate::metric::{BundleKind, Metric};

verus! {

/// Which bundles the user asked for.
#[derive(Clone, Copy, Debug, PartialEq, Eq, Structural)]
pub struct BundleConfig {
    pub time: bool,
    pub rapl: bool,
    pub misses: bool,
    pub cstates: bool,
    pub cycles: bool,
}

/// A bundle configuration that cannot be measured.
#[derive(Clone, Copy, Debug, PartialEq, Eq, Structural)]
pub enum ConfigError {
    /// No bundle was requested.
    NoEvents,
}

impl ConfigError {
    /// The message shown to the user.
    pub fn message(&self) -> (r: &'static str)
        ensures
            r@ == "No events specified"@,
    {
        "No events specified"
    }
}

/// `seq![k]` when `on`, else the empty sequence.
pub open spec fn only_if(on: bool, k: BundleKind) -> Seq<BundleKind> {
    if on { seq![k] } else { Seq::empty() }
}

impl BundleConfig {
    /// Whether the bundle `k` is requested.
    pub open spec fn spec_enabled(self, k: BundleKind) -> bool {
        match k {
            BundleKind::Time => self.time,
            BundleKind::Rapl => self.rapl,
            BundleKind::Misses => self.misses,
            BundleKind::CState => self.cstates,
            BundleKind::Cycles => self.cycles,
        }
    }

    /// Whether any bundle is requested.
    pub open spec fn spec_any(self) -> bool {
        self.time || self.rapl || self.misses || self.cstates || self.cycles
    }

    /// The order bundles are enabled in: time last, so that the wall-time
    /// interval encloses every counter interval.
    pub open spec fn spec_enable_order(self) -> Seq<BundleKind> {
        only_if(self.rapl, BundleKind::Rapl) + only_if(self.misses, BundleKind::Misses) + only_if(
            self.cstates,
            BundleKind::CState,
        ) + only_if(self.cycles, BundleKind::Cycles) + only_if(self.time, BundleKind::Time)
    }

    /// The order bundles are disabled in: time first.
    pub open spec fn spec_disable_order(self) -> Seq<BundleKind> {
        only_if(self.time, BundleKind::Time) + only_if(self.cycles, BundleKind::Cycles) + only_if(
            self.cstates,
            BundleKind::CState,
        ) + only_if(self.misses, BundleKind::Misses) + only_if(self.rapl, BundleKind::Rapl)
    }

    /// Whether the bundle `k` is requested.
    pub fn enabled(&self, k: BundleKind) -> (r: bool)
        ensures
            r == self.spec_enabled(k),
    {
        match k {
            BundleKind::Time => self.time,
            BundleKind::Rapl => self.rapl,
            BundleKind::Misses => self.misses,
            BundleKind::CState => self.cstates,
            BundleKind::Cycles => self.cycles,
        }
    }

    /// The requested bundles in enable order, or `NoEvents` when none is requested.
    pub fn create_bundles(&self) -> (r: Result<Vec<BundleKind>, ConfigError>)
        ensures
            !self.spec_any() <==> r == Err::<Vec<BundleKind>, ConfigError>(ConfigError::NoEvents),
            r matches Ok(v) ==> v@ == self.spec_enable_order(),
    {
        if !(self.time || self.rapl || self.misses || self.cstates || self.cycles) {
            return Err(ConfigError::NoEvents);
        }
        Ok(self.enable_order())
    }

    /// The requested bundles in enable order.
    pub fn enable_order(&self) -> (r: Vec<BundleKind>)
        ensures
            r@ == self.spec_enable_order(),
    {
        let mut r: Vec<BundleKind> = Vec::new();
        if self.rapl {
            r.push(BundleKind::Rapl);
        }
        if self.misses {
            r.push(BundleKind::Misses);
        }
        if self.cstates {
            r.push(BundleKind::CState);
        }
        if self.cycles {
            r.push(BundleKind::Cycles);
        }
        if self.time {
            r.push(BundleKind::Time);
        }
        assert(r@ =~= self.spec_enable_order());
        r
    }

    /// The requested bundles in disable order.
    pub fn disable_order(&self) -> (r: Vec<BundleKind>)
        ensures
            r@ == self.spec_disable_order(),
    {
        let mut r: Vec<BundleKind> = Vec::new();
        if self.time {
            r.push(BundleKind::Time);
        }
        if self.cycles {
            r.push(BundleKind::Cycles);
        }
        if self.cstates {
            r.push(BundleKind::CState);
        }
        if self.misses {
            r.push(BundleKind::Misses);
        }
        if self.rapl {
            r.push(BundleKind::Rapl);
        }
        assert(r@ =~= self.spec_disable_order());
        r
    }
}

/// The enable and the disable order hold exactly the requested bundles; the time bundle, when requested, is enabled last and disabled first.
pub proof fn lemma_time_outermost(c: BundleConfig)
    ensures
        forall|k: BundleKind| c.spec_enable_order().contains(k) <==> c.spec_enabled(k),
        forall|k: BundleKind| c.spec_disable_order().contains(k) <==> c.spec_enabled(k),
        c.time ==> c.spec_enable_order().last() == BundleKind::Time,
        c.time ==> c.spec_disable_order()[0] == BundleKind::Time,
{
    let tm = only_if(c.time, BundleKind::Time);
    let ra = only_if(c.rapl, BundleKind::Rapl);
    let mi = only_if(c.misses, BundleKind::Misses);
    let cs = only_if(c.cstates, BundleKind::CState);
    let cy = only_if(c.cycles, BundleKind::Cycles);
    assert forall|k: BundleKind| c.spec_enable_order().contains(k) <==> c.spec_enabled(k) by {
        lemma_concat_contains(ra, mi, k);
        lemma_concat_contains(ra + mi, cs, k);
        lemma_concat_contains(ra + mi + cs, cy, k);
        lemma_concat_contains(ra + mi + cs + cy, tm, k);
        lemma_when_contains(c.time, BundleKind::Time, k);
        lemma_when_contains(c.rapl, BundleKind::Rapl, k);
        lemma_when_contains(c.misses, BundleKind::Misses, k);
        lemma_when_contains(c.cstates, BundleKind::CState, k);
        lemma_when_contains(c.cycles, BundleKind::Cycles, k);
    }
    assert forall|k: BundleKind| c.spec_disable_order().contains(k) <==> c.spec_enabled(k) by {
        lemma_concat_contains(tm, cy, k);
        lemma_concat_contains(tm + cy, cs, k);
        lemma_concat_contains(tm + cy + cs, mi, k);
        lemma_concat_contains(tm + cy + cs + mi, ra, k);
        lemma_when_contains(c.time, BundleKind::Time, k);
        lemma_when_contains(c.rapl, BundleKind::Rapl, k);
        lemma_when_contains(c.misses, BundleKind::Misses, k);
        lemma_when_contains(c.cstates, BundleKind::CState, k);
        lemma_when_contains(c.cycles, BundleKind::Cycles, k);
    }
}

proof fn lemma_when_contains(on: bool, k: BundleKind, x: BundleKind)
    ensures
        only_if(on, k).contains(x) <==> on && x == k,
{
    if on && x == k {
        assert(only_if(on, k)[0] == x);
    }
}

proof fn lemma_concat_contains<A>(a: Seq<A>, b: Seq<A>, x: A)
    ensures
        (a + b).contains(x) <==> a.contains(x) || b.contains(x),
{
    if (a + b).contains(x) {
        let i = choose|i: int| 0 <= i < (a + b).len() && (a + b)[i] == x;
        if i < a.len() {
            assert(a[i] == x);
        } else {
            assert(b[i - a.len()] == x);
        }
    }
    if a.contains(x) {
        let i = choose|i: int| 0 <= i < a.len() && a[i] == x;
        assert((a + b)[i] == x);
    }
    if b.contains(x) {
        let i = choose|i: int| 0 <= i < b.len() && b[i] == x;
        assert((a + b)[a.len() + i] == x);
    }
}

/// One kernel counter a bundle opens: an event on a CPU.
#[derive(Clone, Copy, Debug, PartialEq, Eq, Structural)]
pub struct CounterSpec {
    pub metric: Metric,
    pub cpu: usize,
}

/// One counter of `m` for each CPU of `cpus`, in that order.
pub open spec fn per_cpu(m: Metric, cpus: Seq<usize>) -> Seq<CounterSpec> {
    Seq::new(cpus.len(), |i: int| CounterSpec { metric: m, cpu: cpus[i] })
}

/// One counter of each metric of `ms` on CPU 0.
pub open spec fn on_cpu_zero(ms: Seq<Metric>) -> Seq<CounterSpec> {
    Seq::new(ms.len(), |i: int| CounterSpec { metric: ms[i], cpu: 0 })
}

/// The counters that the bundle `k` opens over the CPUs `cpus`. Energy and package
/// C-state events are read on CPU 0; the others once per CPU.
pub open spec fn spec_counter_plan(k: BundleKind, cpus: Seq<usize>) -> Seq<CounterSpec> {
    match k {
        BundleKind::Time => Seq::empty(),
        BundleKind::Rapl => on_cpu_zero(k.spec_metrics()),
        BundleKind::Misses => per_cpu(Metric::L1dMisses, cpus) + per_cpu(Metric::L1iMisses, cpus)
            + per_cpu(Metric::LlcMisses, cpus) + per_cpu(Metric::BranchMisses, cpus),
        BundleKind::CState => per_cpu(Metric::C1Core, cpus) + per_cpu(Metric::C3Core, cpus)
            + per_cpu(Metric::C6Core, cpus) + per_cpu(Metric::C7Core, cpus) + on_cpu_zero(
            seq![Metric::C2Pkg, Metric::C3Pkg, Metric::C6Pkg, Metric::C8Pkg, Metric::C10Pkg],
        ),
        BundleKind::Cycles => per_cpu(Metric::Cycles, cpus),
    }
}

fn push_per_cpu(out: &mut Vec<CounterSpec>, m: Metric, cpus: &Vec<usize>)
    ensures
        final(out)@ == old(out)@ + per_cpu(m, cpus@),
{
    let ghost start = out@;
    let mut i: usize = 0;
    while i < cpus.len()
        invariant
            i <= cpus.len(),
            out@ == start + per_cpu(m, cpus@.take(i as int)),
        decreases cpus.len() - i,
    {
        out.push(CounterSpec { metric: m, cpu: cpus[i] });
        i = i + 1;
        assert(out@ =~= start + per_cpu(m, cpus@.take(i as int)));
    }
    assert(cpus@.take(i as int) =~= cpus@);
}

fn push_on_cpu_zero(out: &mut Vec<CounterSpec>, ms: &Vec<Metric>)
    ensures
        final(out)@ == old(out)@ + on_cpu_zero(ms@),
{
    let ghost start = out@;
    let mut i: usize = 0;
    while i < ms.len()
        invariant
            i <= ms.len(),
            out@ == start + on_cpu_zero(ms@.take(i as int)),
        decreases ms.len() - i,
    {
        out.push(CounterSpec { metric: ms[i], cpu: 0 });
        i = i + 1;
        assert(out@ =~= start + on_cpu_zero(ms@.take(i as int)));
    }
    assert(ms@.take(i as int) =~= ms@);
}

/// The counters that the bundle `k` opens over the CPUs `cpus`.
pub fn counter_plan(k: BundleKind, cpus: &Vec<usize>) -> (r: Vec<CounterSpec>)
    ensures
        r@ == spec_counter_plan(k, cpus@),
{
    let mut r: Vec<CounterSpec> = Vec::new();
    match k {
        BundleKind::Time => {},
        BundleKind::Rapl => {
            push_on_cpu_zero(&mut r, &k.metrics());
        },
        BundleKind::Misses => {
            push_per_cpu(&mut r, Metric::L1dMisses, cpus);
            push_per_cpu(&mut r, Metric::L1iMisses, cpus);
            push_per_cpu(&mut r, Metric::LlcMisses, cpus);
            push_per_cpu(&mut r, Metric::BranchMisses, cpus);
        },
        BundleKind::CState => {
            push_per_cpu(&mut r, Metric::C1Core, cpus);
            push_per_cpu(&mut r, Metric::C3Core, cpus);
            push_per_cpu(&mut r, Metric::C6Core, cpus);
            push_per_cpu(&mut r, Metric::C7Core, cpus);
            let pkg = vec![Metric::C2Pkg, Metric::C3Pkg, Metric::C6Pkg, Metric::C8Pkg, Metric::C10Pkg];
            push_on_cpu_zero(&mut r, &pkg);
        },
        BundleKind::Cycles => {
            push_per_cpu(&mut r, Metric::Cycles, cpus);
        },
    }
    assert(r@ =~= spec_counter_plan(k, cpus@));
    r
}

/// Every counter a bundle opens measures a metric of that bundle.
pub proof fn lemma_plan_within_bundle(k: BundleKind, cpus: Seq<usize>)
    ensures
        forall|i: int|
            0 <= i < spec_counter_plan(k, cpus).len()
                ==> (#[trigger] spec_counter_plan(k, cpus)[i]).metric.spec_bundle() == k,
{
    let p = spec_counter_plan(k, cpus);
    assert forall|i: int| 0 <= i < p.len() implies (#[trigger] p[i]).metric.spec_bundle() == k by {
        let n = cpus.len() as int;
        match k {
            BundleKind::Misses => {
                if i < n {} else if i < 2 * n {} else if i < 3 * n {} else {}
            },
            BundleKind::CState => {
                if i < n {} else if i < 2 * n {} else if i < 3 * n {} else if i < 4 * n {} else {}
            },
            _ => {},
        }
    }
}

/// `0, 1, ..., n - 1`.
pub open spec fn first_cpus(n: nat) -> Seq<usize> {
    Seq::new(n, |i: int| i as usize)
}

/// The CPUs `0, 1, ..., n - 1`.
pub fn cpu_range(n: usize) -> (r: Vec<usize>)
    ensures
        r@ == first_cpus(n as nat),
{
    let mut r: Vec<usize> = Vec::new();
    let mut i: usize = 0;
    while i < n
        invariant
            i <= n,
            r@ == first_cpus(i as nat),
        decreases n - i,
    {
        r.push(i);
        i = i + 1;
        assert(r@ =~= first_cpus(i as nat));
    }
    r
}

/// Relies on `num_cpus::get`: the number of logical CPUs available to this
/// process, which its documentation promises is at least 1.
#[verifier::external_body]
fn logical_cpu_count() -> (r: usize)
    ensures
        r >= 1,
{
    num_cpus::get()
}

/// Relies on `num_cpus::get_physical`: the number of physical cores, which its
/// documentation promises is at least 1.
#[verifier::external_body]
fn physical_cpu_count() -> (r: usize)
    ensures
        r >= 1,
{
    num_cpus::get_physical()
}

/// The CPUs the bundle `k` counts on: the affinity set when one is given, else
/// every logical CPU (every physical core for the C-state bundle).
pub fn counter_cpus(k: BundleKind, affinity: &Option<Vec<usize>>) -> (r: Vec<usize>)
    ensures
        affinity matches Some(a) ==> r@ == a@,
        affinity is None ==> exists|n: nat| n >= 1 && r@ == first_cpus(n),
{
    match affinity {
        Some(a) => a.clone(),
        None => {
            let n = match k {
                BundleKind::CState => physical_cpu_count(),
                _ => logical_cpu_count(),
            };
            cpu_range(n)
        },
    }
}

/// The wall-time bundle: elapsed microseconds since the latest enable.
#[derive(Clone, Copy, Debug, PartialEq, Eq, Structural)]
pub struct TimeBundle {
    /// The clock reading, in microseconds, at the latest enable since the latest reset.
    pub start: Option<u64>,
}

impl TimeBundle {
    /// A bundle that has not been enabled.
    pub fn new() -> (r: TimeBundle)
        ensures
            r.start is None,
    {
        TimeBundle { start: None }
    }

    /// Forgets the start of the interval.
    pub fn reset(&mut self)
        ensures
            final(self).start is None,
    {
        self.start = None;
    }

    /// Starts the interval at the clock reading `now_us`.
    pub fn enable(&mut self, now_us: u64)
        ensures
            final(self).start == Some(now_us),
    {
        self.start = Some(now_us);
    }

    /// Leaves the interval as it is: the elapsed time is taken at read.
    pub fn disable(&mut self)
        ensures
            *final(self) == *old(self),
    {
    }

    /// Microseconds elapsed from the start to the clock reading `now_us`
    /// (zero if the clock reads earlier); nothing when not enabled.
    pub fn read(&self, now_us: u64) -> (r: Option<u64>)
        ensures
            self.start is None ==> r is None,
            self.start matches Some(s) ==> r == Some(
                if now_us >= s { (now_us - s) as u64 } else { 0u64 },
            ),
    {
        match self.start {
            None => None,
            Some(s) => Some(now_us.saturating_sub(s)),
        }
    }
}

/// Reads of the time bundle without a reset in between never decrease.
pub proof fn lemma_time_monotone(b: TimeBundle, s: u64, t1: u64, t2: u64)
    requires
        b.start == Some(s),
        t1 <= t2,
    ensures
        (if t1 >= s { t1 - s } else { 0 }) <= (if t2 >= s { t2 - s } else { 0 }),
{
}

/// A value read from one kernel counter.
#[derive(Clone, Copy, Debug, PartialEq, Eq, Structural)]
pub struct Reading {
    pub metric: Metric,
    pub value: u64,
}

/// The sum of the values of `m` in `rs`.
pub open spec fn total(rs: Seq<Reading>, m: Metric) -> nat
    decreases rs.len(),
{
    if rs.len() == 0 {
        0
    } else {
        total(rs.drop_last(), m) + if rs.last().metric == m {
            rs.last().value as nat
        } else {
            0
        }
    }
}

/// Whether `rs` holds a value of `m`.
pub open spec fn has_metric(rs: Seq<Reading>, m: Metric) -> bool {
    exists|i: int| 0 <= i < rs.len() && rs[i].metric == m
}

/// The value a record holds for `m` after reading `rs`: the sum over every
/// counter of `m` when there is one, else nothing.
pub open spec fn aggregate(rs: Seq<Reading>, m: Metric) -> Option<nat> {
    if has_metric(rs, m) { Some(total(rs, m)) } else { None }
}

/// Sums the values of `m` over all counters of `rs`: `Ok(None)` when no counter
/// of `m` was read, `Err(m)` when the sum does not fit in 64 bits.
pub fn sum_metric(rs: &Vec<Reading>, m: Metric) -> (r: Result<Option<u64>, Metric>)
    ensures
        r matches Ok(v) ==> (v matches Some(x) ==> aggregate(rs@, m) == Some(x as nat)) && (
        v is None ==> aggregate(rs@, m) is None),
        r is Err <==> total(rs@, m) > u64::MAX,
        r matches Err(e) ==> e == m,
{
    let mut acc: u64 = 0;
    let mut found = false;
    let mut i: usize = 0;
    while i < rs.len()
        invariant
            i <= rs.len(),
            acc as nat == total(rs@.take(i as int), m),
            found == has_metric(rs@.take(i as int), m),
        decreases rs.len() - i,
    {
        let ghost prefix = rs@.take(i as int);
        assert(rs@.take(i as int + 1).drop_last() =~= prefix);
        let rd = rs[i];
        if rd.metric == m {
            proof {
                lemma_total_prefix_le(rs@, m, i as int + 1);
            }
            if acc > u64::MAX - rd.value {
                return Err(m);
            }
            acc = acc + rd.value;
            found = true;
        }
        i = i + 1;
        assert(found == has_metric(rs@.take(i as int), m)) by {
            if has_metric(rs@.take(i as int), m) && !found {
                let j = choose|j: int| 0 <= j < i && rs@.take(i as int)[j].metric == m;
                assert(prefix[j] == rs@[j]);
            }
            if found && !has_metric(prefix, m) {
                assert(rs@.take(i as int)[i - 1].metric == m);
            }
            if has_metric(prefix, m) {
                let j = choose|j: int| 0 <= j < i - 1 && prefix[j].metric == m;
                assert(rs@.take(i as int)[j] == prefix[j]);
            }
        };
    }
    assert(rs@.take(i as int) =~= rs@);
    if found { Ok(Some(acc)) } else { Ok(None) }
}

proof fn lemma_total_prefix_le(rs: Seq<Reading>, m: Metric, k: int)
    requires
        0 <= k <= rs.len(),
    ensures
        total(rs.take(k), m) <= total(rs, m),
    decreases rs.len() - k,
{
    if k < rs.len() {
        lemma_total_prefix_le(rs, m, k + 1);
        assert(rs.take(k + 1).drop_last() =~= rs.take(k));
    } else {
        assert(rs.take(k) =~= rs);
    }
}

/// Summing grows with the counters: two reads of the same counters, the later
/// one at least as large on each counter, give sums in the same order.
pub proof fn lemma_total_monotone(a: Seq<Reading>, b: Seq<Reading>, m: Metric)
    requires
        a.len() == b.len(),
        forall|i: int| 0 <= i < a.len() ==> a[i].metric == b[i].metric && a[i].value <= b[i].value,
    ensures
        total(a, m) <= total(b, m),
        aggregate(a, m) is Some <==> aggregate(b, m) is Some,
    decreases a.len(),
{
    if a.len() > 0 {
        lemma_total_monotone(a.drop_last(), b.drop_last(), m);
    }
    if has_metric(a, m) {
        let i = choose|i: int| 0 <= i < a.len() && a[i].metric == m;
        assert(b[i].metric == m);
    }
    if has_metric(b, m) {
        let i = choose|i: int| 0 <= i < b.len() && b[i].metric == m;
        assert(a[i].metric == m);
    }
}

/// Counters that counted nothing sum to zero.
pub proof fn lemma_total_zero(a: Seq<Reading>, m: Metric)
    requires
        forall|i: int| 0 <= i < a.len() ==> a[i].value == 0,
    ensures
        total(a, m) == 0,
    decreases a.len(),
{
    if a.len() > 0 {
        lemma_total_zero(a.drop_last(), m);
    }
}

} // verus!
