use ycsb_harness::config::BenchConfig;
use ycsb_harness::config::ConfigError;
use ycsb_harness::orchestrator::Directive;
use ycsb_harness::orchestrator::Orchestrator;
use ycsb_harness::orchestrator::Stage;
use ycsb_harness::partition::PhasePlan;
use ycsb_harness::report::ops_per_second;
use ycsb_harness::report::ThroughputResult;
use ycsb_harness::report::NANOS_PER_SECOND;
use ycsb_harness::workload::WorkloadKind;

fn config(workload: WorkloadKind) -> BenchConfig {
    BenchConfig {
        threads: 8,
        workload,
        recordcount: 100,
        operationcount: 10_000,
        zipfian: false,
        zipf_s_milli: 1030,
    }
}

#[test]
fn the_rate_is_operations_per_second() {
    assert_eq!(NANOS_PER_SECOND, 1_000_000_000);
    assert_eq!(ops_per_second(1000, 500_000_000), Some(2000));
    assert_eq!(ops_per_second(1000, 1_000_000_000), Some(1000));
    assert_eq!(ops_per_second(200_000_000, 10_000_000_000), Some(20_000_000));
    assert_eq!(ops_per_second(0, 1_000_000), Some(0));
    assert_eq!(ops_per_second(1, 1), Some(1_000_000_000));
}

#[test]
fn the_rate_is_rounded_down_to_whole_operations() {
    assert_eq!(ops_per_second(10, 3_000_000_000), Some(3));
    assert_eq!(ops_per_second(1, 3_000_000_000), Some(0));
    assert_eq!(ops_per_second(2, 1_500_000_001), Some(1));
}

#[test]
fn no_rate_is_defined_for_no_time() {
    assert_eq!(ops_per_second(1000, 0), None);
    assert_eq!(ops_per_second(0, 0), None);
}

#[test]
fn the_rate_of_the_largest_run_does_not_overflow() {
    assert_eq!(
        ops_per_second(usize::MAX, 1),
        Some(usize::MAX as u128 * 1_000_000_000)
    );
    assert_eq!(ops_per_second(usize::MAX, u128::MAX), Some(0));
}

#[test]
fn a_result_holds_its_rate() {
    let r = ThroughputResult::new("workloadc", 250_000_000, 1000);
    assert_eq!(r.workload_name, "workloadc");
    assert_eq!(r.elapsed_nanos, 250_000_000);
    assert_eq!(r.total_ops, 1000);
    assert_eq!(r.ops_per_second, Some(4000));
    let none = ThroughputResult::new("workloadc", 0, 1000);
    assert_eq!(none.ops_per_second, None);
}

#[test]
fn zero_threads_fail_before_anything_is_loaded() {
    let rejected = Orchestrator::new(BenchConfig { threads: 0, ..config(WorkloadKind::All) });
    match rejected {
        Err(e) => assert_eq!(e, ConfigError::ZeroThreads),
        Ok(_) => panic!("a run with no worker was started"),
    }
}

#[test]
fn a_bad_skew_fails_before_anything_is_loaded() {
    let rejected = Orchestrator::new(BenchConfig {
        zipfian: true,
        zipf_s_milli: 1000,
        ..config(WorkloadKind::All)
    });
    assert!(matches!(rejected, Err(ConfigError::SkewNotAboveOne)));
}

#[test]
fn an_empty_domain_fails_before_anything_is_loaded() {
    let rejected = Orchestrator::new(BenchConfig { recordcount: 0, ..config(WorkloadKind::All) });
    assert!(matches!(rejected, Err(ConfigError::EmptyDomain)));
}

#[test]
fn a_run_starts_with_the_load_of_its_first_workload() {
    let run = Orchestrator::new(config(WorkloadKind::All)).ok().unwrap();
    assert!(!run.is_finished());
    assert_eq!(run.current, 0);
    assert_eq!(run.stage, Stage::Load);
    assert!(run.results().is_empty());
    match run.next_directive() {
        Directive::Load { workload, record_count } => {
            assert_eq!(workload.name, "workloada");
            assert_eq!(record_count, 100);
        },
        other => panic!("unexpected directive {:?}", other),
    }
}

#[test]
fn a_workload_goes_through_load_warmup_settle_and_measure() {
    let mut run = Orchestrator::new(config(WorkloadKind::C)).ok().unwrap();
    assert!(matches!(run.next_directive(), Directive::Load { record_count: 100, .. }));
    run.complete(111);
    match run.next_directive() {
        Directive::Warmup { workload, plan } => {
            assert_eq!(workload.name, "workloadc");
            assert_eq!(plan, PhasePlan { total_ops: 500, worker_count: 8 });
        },
        other => panic!("unexpected directive {:?}", other),
    }
    run.complete(222);
    assert!(matches!(run.next_directive(), Directive::Settle { millis: 200 }));
    run.complete(333);
    match run.next_directive() {
        Directive::Measure { workload, plan } => {
            assert_eq!(workload.name, "workloadc");
            assert_eq!(workload.readprop, 100);
            assert_eq!(plan, PhasePlan { total_ops: 10_000, worker_count: 8 });
        },
        other => panic!("unexpected directive {:?}", other),
    }
    assert!(run.results().is_empty());
    run.complete(2_000_000_000);
    assert!(run.is_finished());
    assert!(matches!(run.next_directive(), Directive::Finished));
    let results = run.results();
    assert_eq!(results.len(), 1);
    assert_eq!(results[0].workload_name, "workloadc");
    assert_eq!(results[0].total_ops, 10_000);
    assert_eq!(results[0].elapsed_nanos, 2_000_000_000);
    assert_eq!(results[0].ops_per_second, Some(5_000));
}

#[test]
fn only_the_measured_phase_is_timed() {
    let mut run = Orchestrator::new(config(WorkloadKind::B)).ok().unwrap();
    run.complete(7);
    run.complete(8);
    run.complete(9);
    assert!(run.results().is_empty());
    run.complete(10);
    assert_eq!(run.results().len(), 1);
    assert_eq!(run.results()[0].elapsed_nanos, 10);
}

#[test]
fn all_workloads_report_in_registry_order() {
    let mut run = Orchestrator::new(config(WorkloadKind::All)).ok().unwrap();
    let mut loads = Vec::new();
    let mut steps = 0;
    loop {
        match run.next_directive() {
            Directive::Finished => break,
            Directive::Load { workload, .. } => {
                // The workload before has reported by the time the next one loads.
                assert_eq!(run.results().len(), loads.len());
                loads.push(workload.name);
                run.complete(0);
            },
            Directive::Warmup { .. } => run.complete(0),
            Directive::Settle { .. } => run.complete(0),
            Directive::Measure { .. } => run.complete(1_000_000_000 * (loads.len() as u128)),
        }
        steps += 1;
    }
    assert_eq!(steps, 24);
    let names = vec!["workloada", "workloadb", "workloadc", "workloadd", "workloade", "workloadf"];
    assert_eq!(loads, names);
    let results = run.results();
    assert_eq!(results.len(), 6);
    for (i, result) in results.iter().enumerate() {
        assert_eq!(result.workload_name, names[i]);
        assert_eq!(result.total_ops, 10_000);
        assert_eq!(result.elapsed_nanos, 1_000_000_000 * (i as u128 + 1));
        assert_eq!(result.ops_per_second, Some(10_000 / (i as u128 + 1)));
    }
}

#[test]
fn a_finished_run_stays_finished() {
    let mut run = Orchestrator::new(config(WorkloadKind::D)).ok().unwrap();
    for _ in 0..4 {
        run.complete(5);
    }
    assert!(run.is_finished());
    run.complete(6);
    run.complete(7);
    assert!(run.is_finished());
    assert!(matches!(run.next_directive(), Directive::Finished));
    assert_eq!(run.results().len(), 1);
    assert_eq!(run.results()[0].elapsed_nanos, 5);
}
