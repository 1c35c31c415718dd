//! The three measurement modes and the order of operations each one performs.
use vstd::prelude::*;

verus! {

/// How a child is measured.
#[derive(Clone, Copy, Debug, PartialEq, Eq, Structural)]
pub enum MeasurementMode {
    /// The whole lifetime of one child per iteration; no cooperation needed.
    Process,
    /// One cooperative window in one child per iteration.
    External,
    /// One cooperative window per iteration, all in a single child.
    Internal,
}

impl MeasurementMode {
    /// The lowercase name of the mode.
    pub open spec fn spec_name(self) -> Seq<char> {
        match self {
            MeasurementMode::Process => "process"@,
            MeasurementMode::External => "external"@,
            MeasurementMode::Internal => "internal"@,
        }
    }

    /// The lowercase name of the mode.
    pub fn name(&self) -> (r: &'static str)
        ensures
            r@ == self.spec_name(),
    {
        match self {
            MeasurementMode::Process => "process",
            MeasurementMode::External => "external",
            MeasurementMode::Internal => "internal",
        }
    }

    /// How many iterations' worth of expected output the child's stdout must hold:
    /// all of them for a single long-lived child, else one.
    pub open spec fn spec_verify_iterations(self, iterations: nat) -> nat {
        match self {
            MeasurementMode::Internal => iterations,
            _ => 1,
        }
    }

    /// How many iterations' worth of expected output the child's stdout must hold.
    pub fn verify_iterations(&self, iterations: usize) -> (r: usize)
        ensures
            r as nat == self.spec_verify_iterations(iterations as nat),
    {
        match self {
            MeasurementMode::Internal => iterations,
            _ => 1,
        }
    }
}

/// One operation of the harness during the measurement of a test.
#[derive(Clone, Copy, Debug, PartialEq, Eq, Structural)]
pub enum Step {
    /// Prepare the control channel for a child that will run this many windows.
    SetIterations(usize),
    /// Start the child.
    Spawn,
    /// Apply CPU affinity and niceness to the child.
    Configure,
    /// Block until the child announces READY.
    WaitForStart,
    /// Reset then enable every bundle.
    ResetEnable,
    /// Send PROCEED: the child enters its hot region.
    SignalProceed,
    /// Block until the child announces DONE.
    WaitForEnd,
    /// Disable every bundle.
    Disable,
    /// Tell the child no further windows follow and release the channel.
    Cleanup,
    /// Wait for the child to exit, collecting its output.
    WaitExit,
    /// Fail the test unless the child exited with status zero.
    CheckExit,
    /// Read every bundle into the record of this (1-based) iteration.
    Record(usize),
}

/// One iteration in Process mode.
pub open spec fn process_cycle(i: usize) -> Seq<Step> {
    Seq::empty().push(Step::Spawn).push(Step::Configure).push(Step::ResetEnable).push(
        Step::WaitExit,
    ).push(Step::Disable).push(Step::CheckExit).push(Step::Record(i))
}

/// One iteration in External mode.
pub open spec fn external_cycle(i: usize) -> Seq<Step> {
    Seq::empty().push(Step::SetIterations(1)).push(Step::Spawn).push(Step::Configure).push(
        Step::WaitForStart,
    ).push(Step::ResetEnable).push(Step::SignalProceed).push(Step::WaitForEnd).push(
        Step::Disable,
    ).push(Step::Cleanup).push(Step::WaitExit).push(Step::CheckExit).push(Step::Record(i))
}

/// One iteration in Internal mode.
pub open spec fn internal_cycle(i: usize) -> Seq<Step> {
    Seq::empty().push(Step::WaitForStart).push(Step::ResetEnable).push(Step::SignalProceed).push(
        Step::WaitForEnd,
    ).push(Step::Disable).push(Step::Record(i))
}

/// The steps of iteration `i` in `mode`.
pub open spec fn cycle(mode: MeasurementMode, i: usize) -> Seq<Step> {
    match mode {
        MeasurementMode::Process => process_cycle(i),
        MeasurementMode::External => external_cycle(i),
        MeasurementMode::Internal => internal_cycle(i),
    }
}

/// The steps of iterations `1..=k`.
pub open spec fn cycles(mode: MeasurementMode, k: nat) -> Seq<Step>
    decreases k,
{
    if k == 0 {
        Seq::empty()
    } else {
        cycles(mode, (k - 1) as nat) + cycle(mode, k as usize)
    }
}

/// What Internal mode does before its first iteration.
pub open spec fn internal_prologue(n: usize) -> Seq<Step> {
    Seq::empty().push(Step::SetIterations(n)).push(Step::Spawn).push(Step::Configure)
}

/// What Internal mode does after its last iteration.
pub open spec fn internal_epilogue() -> Seq<Step> {
    Seq::empty().push(Step::Cleanup).push(Step::WaitExit).push(Step::CheckExit)
}

/// Every step of a successful measurement of `n` iterations in `mode`.
pub open spec fn spec_schedule(mode: MeasurementMode, n: usize) -> Seq<Step> {
    match mode {
        MeasurementMode::Internal => internal_prologue(n) + cycles(mode, n as nat)
            + internal_epilogue(),
        _ => cycles(mode, n as nat),
    }
}

fn push_cycle(out: &mut Vec<Step>, mode: MeasurementMode, i: usize)
    ensures
        final(out)@ == old(out)@ + cycle(mode, i),
{
    let ghost start = out@;
    match mode {
        MeasurementMode::Process => {
            out.push(Step::Spawn);
            out.push(Step::Configure);
            out.push(Step::ResetEnable);
            out.push(Step::WaitExit);
            out.push(Step::Disable);
            out.push(Step::CheckExit);
            out.push(Step::Record(i));
        },
        MeasurementMode::External => {
            out.push(Step::SetIterations(1));
            out.push(Step::Spawn);
            out.push(Step::Configure);
            out.push(Step::WaitForStart);
            out.push(Step::ResetEnable);
            out.push(Step::SignalProceed);
            out.push(Step::WaitForEnd);
            out.push(Step::Disable);
            out.push(Step::Cleanup);
            out.push(Step::WaitExit);
            out.push(Step::CheckExit);
            out.push(Step::Record(i));
        },
        MeasurementMode::Internal => {
            out.push(Step::WaitForStart);
            out.push(Step::ResetEnable);
            out.push(Step::SignalProceed);
            out.push(Step::WaitForEnd);
            out.push(Step::Disable);
            out.push(Step::Record(i));
        },
    }
    assert(out@ =~= start + cycle(mode, i));
}

/// The steps of measuring `iterations` iterations in `mode`, in the order the
/// harness performs them when every step succeeds.
pub fn schedule(mode: MeasurementMode, iterations: usize) -> (r: Vec<Step>)
    ensures
        r@ == spec_schedule(mode, iterations),
{
    let mut r: Vec<Step> = Vec::new();
    if mode == MeasurementMode::Internal {
        r.push(Step::SetIterations(iterations));
        r.push(Step::Spawn);
        r.push(Step::Configure);
    }
    let ghost head = r@;
    let mut i: usize = 0;
    while i < iterations
        invariant
            i <= iterations,
            r@ == head + cycles(mode, i as nat),
        decreases iterations - i,
    {
        i = i + 1;
        push_cycle(&mut r, mode, i);
        assert(r@ =~= head + cycles(mode, i as nat));
    }
    if mode == MeasurementMode::Internal {
        r.push(Step::Cleanup);
        r.push(Step::WaitExit);
        r.push(Step::CheckExit);
    }
    assert(r@ =~= spec_schedule(mode, iterations));
    r
}

/// How many times `x` occurs in `s`.
pub open spec fn count(s: Seq<Step>, x: Step) -> nat
    decreases s.len(),
{
    if s.len() == 0 {
        0
    } else {
        count(s.drop_last(), x) + if s.last() == x {
            1nat
        } else {
            0
        }
    }
}

/// The iteration indices of the `Record` steps of `s`, in order.
pub open spec fn records(s: Seq<Step>) -> Seq<usize>
    decreases s.len(),
{
    if s.len() == 0 {
        Seq::empty()
    } else {
        match s.last() {
            Step::Record(i) => records(s.drop_last()).push(i),
            _ => records(s.drop_last()),
        }
    }
}

/// `1, 2, ..., n`.
pub open spec fn one_to(n: nat) -> Seq<usize> {
    Seq::new(n, |i: int| (i + 1) as usize)
}

pub broadcast proof fn lemma_count_push(s: Seq<Step>, a: Step, x: Step)
    ensures
        #[trigger] count(s.push(a), x) == count(s, x) + if a == x {
            1nat
        } else {
            0
        },
{
    assert(s.push(a).drop_last() =~= s);
}

pub broadcast proof fn lemma_records_push(s: Seq<Step>, a: Step)
    ensures
        #[trigger] records(s.push(a)) == match a {
            Step::Record(i) => records(s).push(i),
            _ => records(s),
        },
{
    assert(s.push(a).drop_last() =~= s);
}

pub proof fn lemma_count_concat(a: Seq<Step>, b: Seq<Step>, x: Step)
    ensures
        count(a + b, x) == count(a, x) + count(b, x),
    decreases b.len(),
{
    if b.len() == 0 {
        assert(a + b =~= a);
    } else {
        lemma_count_concat(a, b.drop_last(), x);
        assert((a + b).drop_last() =~= a + b.drop_last());
    }
}

pub proof fn lemma_records_concat(a: Seq<Step>, b: Seq<Step>)
    ensures
        records(a + b) == records(a) + records(b),
    decreases b.len(),
{
    if b.len() == 0 {
        assert(a + b =~= a);
        assert(records(a) + records(b) =~= records(a));
    } else {
        lemma_records_concat(a, b.drop_last());
        assert((a + b).drop_last() =~= a + b.drop_last());
        match b.last() {
            Step::Record(i) => {
                assert(records(a) + records(b.drop_last()).push(i) =~= (records(a) + records(
                    b.drop_last(),
                )).push(i));
            },
            _ => {},
        }
    }
}

/// How often `x` occurs in one iteration of `mode`.
pub open spec fn per_cycle(mode: MeasurementMode, x: Step) -> nat {
    match x {
        Step::Spawn | Step::Configure | Step::WaitExit | Step::CheckExit => match mode {
            MeasurementMode::Internal => 0,
            _ => 1,
        },
        Step::WaitForStart | Step::SignalProceed | Step::WaitForEnd => match mode {
            MeasurementMode::Process => 0,
            _ => 1,
        },
        Step::ResetEnable | Step::Disable => 1,
        Step::SetIterations(k) => match mode {
            MeasurementMode::External => if k == 1 {
                1
            } else {
                0
            },
            _ => 0,
        },
        Step::Cleanup => match mode {
            MeasurementMode::External => 1,
            _ => 0,
        },
        Step::Record(_) => 0,
    }
}

proof fn lemma_cycle_facts(mode: MeasurementMode, i: usize, x: Step)
    ensures
        x !is Record ==> count(cycle(mode, i), x) == per_cycle(mode, x),
        records(cycle(mode, i)) == seq![i],
{
    broadcast use lemma_count_push, lemma_records_push;

    assert(records(Seq::<Step>::empty()) =~= Seq::<usize>::empty());
    assert(Seq::<usize>::empty().push(i) =~= seq![i]);
}

proof fn lemma_cycles_facts(mode: MeasurementMode, k: nat, x: Step)
    ensures
        x !is Record ==> count(cycles(mode, k), x) == k * per_cycle(mode, x),
        records(cycles(mode, k)) == one_to(k),
    decreases k,
{
    if k == 0 {
        assert(records(Seq::<Step>::empty()) =~= one_to(0));
        assert(count(cycles(mode, k), x) == 0);
        assert(0 * per_cycle(mode, x) == 0);
    } else {
        lemma_cycles_facts(mode, (k - 1) as nat, x);
        lemma_cycle_facts(mode, k as usize, x);
        lemma_count_concat(cycles(mode, (k - 1) as nat), cycle(mode, k as usize), x);
        lemma_records_concat(cycles(mode, (k - 1) as nat), cycle(mode, k as usize));
        assert(one_to((k - 1) as nat) + seq![k as usize] =~= one_to(k));
        let p = per_cycle(mode, x);
        let km1 = (k - 1) as nat;
        assert(k * p == km1 * p + p) by (nonlinear_arith)
            requires
                km1 + 1 == k,
        ;
        assert(cycles(mode, k) == cycles(mode, km1) + cycle(mode, k as usize));
        if x !is Record {
            assert(count(cycles(mode, km1), x) == km1 * p);
            assert(count(cycle(mode, k as usize), x) == p);
            assert(count(cycles(mode, k), x) == km1 * p + p);
        }
    }
}

/// A successful measurement of `n` iterations writes one record per iteration,
/// numbered `1..=n` in order; it enables and disables the bundles once per
/// iteration; the child is started once per iteration in Process and External
/// mode and once in all in Internal mode; the READY / PROCEED / DONE cycle runs
/// once per iteration in External and Internal mode and never in Process mode.
pub proof fn lemma_schedule_shape(mode: MeasurementMode, n: usize)
    ensures
        records(spec_schedule(mode, n)) == one_to(n as nat),
        count(spec_schedule(mode, n), Step::ResetEnable) == n,
        count(spec_schedule(mode, n), Step::Disable) == n,
        count(spec_schedule(mode, n), Step::Spawn) == match mode {
            MeasurementMode::Internal => 1,
            _ => n as nat,
        },
        count(spec_schedule(mode, n), Step::WaitForStart) == match mode {
            MeasurementMode::Process => 0,
            _ => n as nat,
        },
        count(spec_schedule(mode, n), Step::SignalProceed) == match mode {
            MeasurementMode::Process => 0,
            _ => n as nat,
        },
        count(spec_schedule(mode, n), Step::WaitForEnd) == match mode {
            MeasurementMode::Process => 0,
            _ => n as nat,
        },
        count(spec_schedule(mode, n), Step::WaitExit) == match mode {
            MeasurementMode::Internal => 1,
            _ => n as nat,
        },
{
    broadcast use lemma_count_push, lemma_records_push;

    let c = cycles(mode, n as nat);
    assert forall|x: Step| x !is Record implies count(spec_schedule(mode, n), x) == count(
        c,
        x,
    ) + match mode {
        MeasurementMode::Internal => count(internal_prologue(n), x) + count(
            internal_epilogue(),
            x,
        ),
        _ => 0,
    } by {
        lemma_cycles_facts(mode, n as nat, x);
        if mode == MeasurementMode::Internal {
            lemma_count_concat(internal_prologue(n), c, x);
            lemma_count_concat(internal_prologue(n) + c, internal_epilogue(), x);
        }
    }
    let nn = n as nat;
    assert(per_cycle(mode, Step::ResetEnable) == 1);
    assert(nn * 1 == nn);
    lemma_cycles_facts(mode, n as nat, Step::Spawn);
    lemma_cycles_facts(mode, n as nat, Step::ResetEnable);
    lemma_cycles_facts(mode, n as nat, Step::Disable);
    lemma_cycles_facts(mode, n as nat, Step::WaitForStart);
    lemma_cycles_facts(mode, n as nat, Step::SignalProceed);
    lemma_cycles_facts(mode, n as nat, Step::WaitForEnd);
    lemma_cycles_facts(mode, n as nat, Step::WaitExit);
    if mode == MeasurementMode::Internal {
        lemma_records_concat(internal_prologue(n), c);
        lemma_records_concat(internal_prologue(n) + c, internal_epilogue());
        assert(records(Seq::<Step>::empty()) =~= Seq::<usize>::empty());
        assert(records(internal_prologue(n)) =~= Seq::<usize>::empty());
        assert(records(internal_epilogue()) =~= Seq::<usize>::empty());
        assert(records(spec_schedule(mode, n)) =~= one_to(n as nat));
    }
}

/// The number of steps of one iteration in `mode`.
pub open spec fn cycle_len(mode: MeasurementMode) -> nat {
    match mode {
        MeasurementMode::Process => 7,
        MeasurementMode::External => 12,
        MeasurementMode::Internal => 6,
    }
}

/// Where in its iteration a Process or External child is started.
pub open spec fn spawn_at(mode: MeasurementMode) -> int {
    match mode {
        MeasurementMode::External => 1,
        _ => 0,
    }
}

/// Where in its iteration a Process or External child is waited for.
pub open spec fn wait_at(mode: MeasurementMode) -> int {
    match mode {
        MeasurementMode::External => 9,
        _ => 3,
    }
}

proof fn lemma_cycles_index(mode: MeasurementMode, k: nat, p: int)
    requires
        0 <= p < k * cycle_len(mode),
    ensures
        cycles(mode, k).len() == k * cycle_len(mode),
        cycles(mode, k)[p] == cycle(mode, (p / cycle_len(mode) as int + 1) as usize)[p
            % cycle_len(mode) as int],
    decreases k,
{
    let l = cycle_len(mode) as int;
    lemma_cycles_len(mode, k);
    lemma_cycles_len(mode, (k - 1) as nat);
    assert(cycle(mode, k as usize).len() == l);
    let km1 = k - 1;
    assert(k * l == km1 * l + l) by (nonlinear_arith)
        requires
            km1 == k - 1,
    ;
    if p < km1 * l {
        lemma_cycles_index(mode, (k - 1) as nat, p);
    } else {
        let q = p - km1 * l;
        assert(0 <= q < l);
        assert(p / l == km1 && p % l == q) by (nonlinear_arith)
            requires
                p == km1 * l + q,
                0 <= q < l,
                l > 0,
                km1 >= 0,
        ;
    }
}

proof fn lemma_cycles_len(mode: MeasurementMode, k: nat)
    ensures
        cycles(mode, k).len() == k * cycle_len(mode),
    decreases k,
{
    if k > 0 {
        lemma_cycles_len(mode, (k - 1) as nat);
        let km1 = (k - 1) as nat;
        let l = cycle_len(mode);
        assert(k * l == km1 * l + l) by (nonlinear_arith)
            requires
                km1 == k - 1,
        ;
    }
}

/// In Process and External mode, each child is waited for before the next one
/// is started: between two starts there is a wait for exit, so at most one
/// child is alive at a time.
pub proof fn lemma_one_child_at_a_time(mode: MeasurementMode, n: usize, p: int, q: int)
    requires
        mode != MeasurementMode::Internal,
        0 <= p < q < spec_schedule(mode, n).len(),
        spec_schedule(mode, n)[p] == Step::Spawn,
        spec_schedule(mode, n)[q] == Step::Spawn,
    ensures
        exists|r: int| p < r < q && spec_schedule(mode, n)[r] == Step::WaitExit,
{
    let l = cycle_len(mode) as int;
    let k = n as nat;
    lemma_cycles_len(mode, k);
    lemma_cycles_index(mode, k, p);
    lemma_cycles_index(mode, k, q);
    let cp = p / l;
    let cq = q / l;
    assert(p % l == spawn_at(mode));
    assert(q % l == spawn_at(mode));
    assert(p == cp * l + spawn_at(mode) && q == cq * l + spawn_at(mode)) by (nonlinear_arith)
        requires
            l > 0,
            p % l == spawn_at(mode),
            q % l == spawn_at(mode),
            cp == p / l,
            cq == q / l,
    ;
    assert(cp < cq) by (nonlinear_arith)
        requires
            p == cp * l + spawn_at(mode),
            q == cq * l + spawn_at(mode),
            p < q,
            l > 0,
    ;
    let r = cp * l + wait_at(mode);
    assert(cq * l >= cp * l + l) by (nonlinear_arith)
        requires
            cq >= cp + 1,
            l > 0,
    ;
    assert(spawn_at(mode) < wait_at(mode) < l);
    assert(p < r && r < q);
    lemma_cycles_index(mode, k, r);
    assert(r / l == cp && r % l == wait_at(mode)) by (nonlinear_arith)
        requires
            r == cp * l + wait_at(mode),
            0 <= wait_at(mode) < l,
            cp >= 0,
    ;
    assert(spec_schedule(mode, n)[r] == Step::WaitExit);
}

} // verus!
