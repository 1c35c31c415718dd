//! The output table: its header, the row of a record, and how rows of successive
//! runs accumulate in one file.
use vstd::prelude::*;
use crate::metric::Metric;
use crate::record::{all_metrics, metric_columns, Measurement};
use crate::text::{decimal, digit_char, digit_str, push_decimal, signed_decimal, i64_to_decimal};

verus! {

/// The column names, in order.
pub open spec fn spec_header() -> Seq<Seq<char>> {
    seq![
        "language"@,
        "scenario"@,
        "test"@,
        "affinity"@,
        "niceness"@,
        "mode"@,
        "iteration"@,
        "time_us"@,
        "pkg_j"@,
        "cores_j"@,
        "gpu_j"@,
        "ram_j"@,
        "psys_j"@,
        "cycles"@,
        "l1d_misses"@,
        "l1i_misses"@,
        "llc_misses"@,
        "branch_misses"@,
        "c1_core_residency"@,
        "c3_core_residency"@,
        "c6_core_residency"@,
        "c7_core_residency"@,
        "c2_pkg_residency"@,
        "c3_pkg_residency"@,
        "c6_pkg_residency"@,
        "c8_pkg_residency"@,
        "c10_pkg_residency"@,
        "ended_us_epoch"@,
    ]
}

/// The column names, in order.
pub fn header() -> (r: Vec<String>)
    ensures
        r@.len() == spec_header().len(),
        forall|i: int| 0 <= i < r@.len() ==> #[trigger] r@[i]@ == spec_header()[i],
{
    let names = [
        "language",
        "scenario",
        "test",
        "affinity",
        "niceness",
        "mode",
        "iteration",
        "time_us",
        "pkg_j",
        "cores_j",
        "gpu_j",
        "ram_j",
        "psys_j",
        "cycles",
        "l1d_misses",
        "l1i_misses",
        "llc_misses",
        "branch_misses",
        "c1_core_residency",
        "c3_core_residency",
        "c6_core_residency",
        "c7_core_residency",
        "c2_pkg_residency",
        "c3_pkg_residency",
        "c6_pkg_residency",
        "c8_pkg_residency",
        "c10_pkg_residency",
        "ended_us_epoch",
    ];
    assert(names@.len() == 28);
    let mut r: Vec<String> = Vec::new();
    let mut i: usize = 0;
    while i < 28
        invariant
            i <= 28,
            names@.len() == 28,
            forall|j: int| 0 <= j < 28 ==> #[trigger] names@[j]@ == spec_header()[j],
            r@.len() == i,
            forall|j: int| 0 <= j < i ==> #[trigger] r@[j]@ == spec_header()[j],
        decreases 28 - i,
    {
        r.push(String::from_str(names[i]));
        i = i + 1;
    }
    r
}

/// Whether the metric is an energy, written in joules.
pub open spec fn is_energy(m: Metric) -> bool {
    m == Metric::Pkg || m == Metric::Cores || m == Metric::Gpu || m == Metric::Ram || m
        == Metric::Psys
}

/// Millijoules written as joules with three decimals.
pub open spec fn joules_text(mj: nat) -> Seq<char> {
    decimal(mj / 1000) + seq![
        '.',
        digit_char((mj % 1000) / 100),
        digit_char((mj % 100) / 10),
        digit_char(mj % 10),
    ]
}

/// The cell of metric `m` holding `v`: empty when nothing was measured.
pub open spec fn metric_cell(m: Metric, v: Option<u64>) -> Seq<char> {
    match v {
        None => Seq::empty(),
        Some(x) => if is_energy(m) {
            joules_text(x as nat)
        } else {
            decimal(x as nat)
        },
    }
}

/// The cells of a record, in column order.
pub open spec fn spec_row(r: Measurement) -> Seq<Seq<char>> {
    seq![
        r.language@,
        r.scenario@,
        r.test@,
        match r.affinity {
            Some(a) => a@,
            None => Seq::empty(),
        },
        match r.niceness {
            Some(n) => signed_decimal(n as int),
            None => Seq::empty(),
        },
        r.mode.spec_name(),
        decimal(r.iteration as nat),
    ] + all_metrics().map_values(|m: Metric| metric_cell(m, r.value(m))) + seq![
        signed_decimal(r.ended as int),
    ]
}

/// Appends millijoules written as joules with three decimals.
pub fn push_joules(s: &mut String, mj: u64)
    ensures
        final(s)@ == old(s)@ + joules_text(mj as nat),
{
    push_decimal(s, mj / 1000);
    proof {
        reveal_strlit(".");
    }
    s.append(".");
    s.append(digit_str((mj % 1000) / 100));
    s.append(digit_str((mj % 100) / 10));
    s.append(digit_str(mj % 10));
    assert(final(s)@ =~= old(s)@ + joules_text(mj as nat));
}

/// The cell of metric `m` holding `v`.
pub fn cell(m: Metric, v: Option<u64>) -> (r: String)
    ensures
        r@ == metric_cell(m, v),
{
    let mut s = String::new();
    match v {
        None => {},
        Some(x) => {
            let energy = match m {
                Metric::Pkg | Metric::Cores | Metric::Gpu | Metric::Ram | Metric::Psys => true,
                _ => false,
            };
            if energy {
                push_joules(&mut s, x);
            } else {
                push_decimal(&mut s, x);
            }
        },
    }
    assert(s@ =~= metric_cell(m, v));
    s
}

impl Measurement {
    /// The cells of this record, in column order.
    pub fn row(&self) -> (r: Vec<String>)
        ensures
            r@.len() == spec_row(*self).len(),
            forall|i: int| 0 <= i < r@.len() ==> #[trigger] r@[i]@ == spec_row(*self)[i],
    {
        let ghost want = spec_row(*self);
        let mut r: Vec<String> = Vec::new();
        r.push(self.language.clone());
        r.push(self.scenario.clone());
        r.push(self.test.clone());
        r.push(
            match &self.affinity {
                Some(a) => a.clone(),
                None => String::new(),
            },
        );
        r.push(
            match self.niceness {
                Some(n) => i64_to_decimal(n as i64),
                None => String::new(),
            },
        );
        r.push(String::from_str(self.mode.name()));
        let mut it = String::new();
        push_decimal(&mut it, self.iteration as u64);
        r.push(it);
        assert(forall|j: int| 0 <= j < 7 ==> #[trigger] r@[j]@ == want[j]);
        let cols = metric_columns();
        let mut i: usize = 0;
        while i < cols.len()
            invariant
                cols@ == all_metrics(),
                want == spec_row(*self),
                i <= cols.len(),
                r@.len() == 7 + i,
                forall|j: int| 0 <= j < 7 + i ==> #[trigger] r@[j]@ == want[j],
            decreases cols.len() - i,
        {
            let m = cols[i];
            r.push(cell(m, self.get(m)));
            i = i + 1;
        }
        r.push(i64_to_decimal(self.ended));
        r
    }
}

/// Whether a header row goes first: only into a file that did not exist.
pub open spec fn spec_needs_header(file_existed: bool) -> bool {
    !file_existed
}

/// Whether a header row goes first: only into a file that did not exist.
pub fn needs_header(file_existed: bool) -> (r: bool)
    ensures
        r == spec_needs_header(file_existed),
{
    !file_existed
}

/// The rows written to a file for `recs`, after the header when `with_header`.
pub open spec fn table(with_header: bool, recs: Seq<Measurement>) -> Seq<Seq<Seq<char>>> {
    (if with_header {
        seq![spec_header()]
    } else {
        Seq::empty()
    }) + recs.map_values(|r: Measurement| spec_row(r))
}

/// Two runs appending to one file, the first creating it, leave a single header
/// followed by the records of both runs in the order they were written.
pub proof fn lemma_runs_concatenate(first: Seq<Measurement>, second: Seq<Measurement>)
    ensures
        table(spec_needs_header(false), first) + table(spec_needs_header(true), second) == table(
            true,
            first + second,
        ),
{
    assert((first + second).map_values(|r: Measurement| spec_row(r)) =~= first.map_values(
        |r: Measurement| spec_row(r),
    ) + second.map_values(|r: Measurement| spec_row(r)));
    assert(table(spec_needs_header(false), first) + table(spec_needs_header(true), second)
        =~= table(true, first + second));
}

} // verus!
