use green_languages::bundle::{
    counter_cpus, counter_plan, cpu_range, sum_metric, BundleConfig, ConfigError, CounterSpec,
    Reading, TimeBundle,
};
use green_languages::metric::{BundleKind, EventSource, Metric};
use green_languages::record::Measurement;
use green_languages::schedule::MeasurementMode;

fn config(time: bool, rapl: bool, misses: bool, cstates: bool, cycles: bool) -> BundleConfig {
    BundleConfig { time, rapl, misses, cstates, cycles }
}

#[test]
fn no_flags_is_an_error() {
    let c = config(false, false, false, false, false);
    assert_eq!(c.create_bundles(), Err(ConfigError::NoEvents));
    assert_eq!(ConfigError::NoEvents.message(), "No events specified");
}

#[test]
fn time_is_enabled_last_and_disabled_first() {
    let c = config(true, true, true, true, true);
    assert_eq!(
        c.create_bundles().unwrap(),
        vec![BundleKind::Rapl, BundleKind::Misses, BundleKind::CState, BundleKind::Cycles, BundleKind::Time]
    );
    assert_eq!(
        c.disable_order(),
        vec![BundleKind::Time, BundleKind::Cycles, BundleKind::CState, BundleKind::Misses, BundleKind::Rapl]
    );
    let only_time = config(true, false, false, false, false);
    assert_eq!(only_time.create_bundles().unwrap(), vec![BundleKind::Time]);
}

#[test]
fn misses_plan_covers_each_cpu() {
    let plan = counter_plan(BundleKind::Misses, &vec![2, 5]);
    assert_eq!(plan.len(), 8);
    assert_eq!(plan[0], CounterSpec { metric: Metric::L1dMisses, cpu: 2 });
    assert_eq!(plan[1], CounterSpec { metric: Metric::L1dMisses, cpu: 5 });
    assert_eq!(plan[7], CounterSpec { metric: Metric::BranchMisses, cpu: 5 });
}

#[test]
fn cstate_plan_reads_packages_on_cpu_zero() {
    let plan = counter_plan(BundleKind::CState, &vec![1, 3]);
    assert_eq!(plan.len(), 4 * 2 + 5);
    assert_eq!(plan[8], CounterSpec { metric: Metric::C2Pkg, cpu: 0 });
    assert_eq!(plan[12], CounterSpec { metric: Metric::C10Pkg, cpu: 0 });
    assert!(plan.iter().all(|c| c.metric.bundle() == BundleKind::CState));
}

#[test]
fn rapl_plan_and_event_names() {
    let plan = counter_plan(BundleKind::Rapl, &vec![4]);
    let names: Vec<&str> = plan.iter().map(|c| c.metric.event_name()).collect();
    assert_eq!(names, vec!["energy-pkg", "energy-cores", "energy-gpu", "energy-ram", "energy-psys"]);
    assert!(plan.iter().all(|c| c.cpu == 0 && c.metric.source() == EventSource::Power));
    assert!(counter_plan(BundleKind::Time, &vec![0, 1]).is_empty());
    assert_eq!(counter_plan(BundleKind::Cycles, &vec![0, 1]).len(), 2);
}

#[test]
fn counter_cpus_prefers_affinity() {
    assert_eq!(counter_cpus(BundleKind::Cycles, &Some(vec![0, 2])), vec![0, 2]);
    let all = counter_cpus(BundleKind::Cycles, &None);
    assert_eq!(all, cpu_range(all.len()));
    assert_eq!(cpu_range(3), vec![0, 1, 2]);
}

#[test]
fn time_bundle_measures_since_enable() {
    let mut t = TimeBundle::new();
    assert_eq!(t.read(100), None);
    t.reset();
    t.enable(1_000_000);
    t.disable();
    let elapsed = t.read(1_060_000).unwrap();
    assert!((50_000..=100_000).contains(&elapsed));
    assert!(t.read(1_070_000).unwrap() >= elapsed);
    assert_eq!(t.read(999_000), Some(0));
    t.reset();
    assert_eq!(t.read(2_000_000), None);
}

#[test]
fn sums_collapse_per_cpu_counters() {
    let rs = vec![
        Reading { metric: Metric::C6Core, value: 10 },
        Reading { metric: Metric::Cycles, value: 7 },
        Reading { metric: Metric::C6Core, value: 32 },
    ];
    assert_eq!(sum_metric(&rs, Metric::C6Core), Ok(Some(42)));
    assert_eq!(sum_metric(&rs, Metric::Cycles), Ok(Some(7)));
    assert_eq!(sum_metric(&rs, Metric::C1Core), Ok(None));
    let big = vec![
        Reading { metric: Metric::Cycles, value: u64::MAX },
        Reading { metric: Metric::Cycles, value: 1 },
    ];
    assert_eq!(sum_metric(&big, Metric::Cycles), Err(Metric::Cycles));
}

#[test]
fn idle_counters_read_zero_and_later_reads_grow() {
    let zero = vec![
        Reading { metric: Metric::Cycles, value: 0 },
        Reading { metric: Metric::Cycles, value: 0 },
    ];
    assert_eq!(sum_metric(&zero, Metric::Cycles), Ok(Some(0)));
    let later = vec![
        Reading { metric: Metric::Cycles, value: 5 },
        Reading { metric: Metric::Cycles, value: 9 },
    ];
    assert!(sum_metric(&later, Metric::Cycles).unwrap() >= sum_metric(&zero, Metric::Cycles).unwrap());
}

fn empty_record() -> Measurement {
    Measurement::new("c", "demo", "1", MeasurementMode::Process, 1, &None, None, 0)
}

#[test]
fn populated_columns_follow_enabled_bundles() {
    let mut m = empty_record();
    let rs = vec![
        Reading { metric: Metric::Time, value: 1234 },
        Reading { metric: Metric::Cycles, value: 10 },
        Reading { metric: Metric::Cycles, value: 20 },
    ];
    assert_eq!(m.populate(&rs), Ok(()));
    assert_eq!(m.time, Some(1234));
    assert_eq!(m.cycles, Some(30));
    assert_eq!(m.pkg, None);
    assert_eq!(m.l1d_misses, None);
    assert_eq!(m.c6_core_residency, None);
}

#[test]
fn missing_psys_leaves_its_column_empty() {
    let mut m = empty_record();
    let rs = vec![
        Reading { metric: Metric::Pkg, value: 1500 },
        Reading { metric: Metric::Cores, value: 750 },
    ];
    assert_eq!(m.populate(&rs), Ok(()));
    assert_eq!(m.pkg, Some(1500));
    assert_eq!(m.cores, Some(750));
    assert_eq!(m.psys, None);
    assert_eq!(m.get(Metric::Psys), None);
}

#[test]
fn overflowing_sum_fails_the_read() {
    let mut m = empty_record();
    let rs = vec![
        Reading { metric: Metric::LlcMisses, value: u64::MAX },
        Reading { metric: Metric::LlcMisses, value: 2 },
    ];
    assert_eq!(m.populate(&rs), Err(Metric::LlcMisses));
}

#[test]
fn requested_cycles_read_zero_without_counters() {
    let mut m = empty_record();
    let c = BundleConfig { time: true, rapl: false, misses: false, cstates: false, cycles: true };
    let rs = vec![Reading { metric: Metric::Time, value: 9 }];
    assert_eq!(m.populate_for(&c, &rs), Ok(()));
    assert_eq!(m.cycles, Some(0));
    assert_eq!(m.time, Some(9));
    let mut n = empty_record();
    let rs2 = vec![Reading { metric: Metric::Cycles, value: 4 }, Reading { metric: Metric::Cycles, value: 6 }];
    assert_eq!(n.populate_for(&c, &rs2), Ok(()));
    assert_eq!(n.cycles, Some(10));
    let mut o = empty_record();
    let none = BundleConfig { time: true, rapl: false, misses: false, cstates: false, cycles: false };
    assert_eq!(o.populate_for(&none, &vec![]), Ok(()));
    assert_eq!(o.cycles, None);
}

#[test]
fn counter_cpus_without_affinity_is_never_empty() {
    assert!(!counter_cpus(BundleKind::Cycles, &None).is_empty());
    assert!(!counter_cpus(BundleKind::CState, &None).is_empty());
}
