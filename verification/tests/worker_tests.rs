use ycsb_harness::partition::PhasePlan;
use ycsb_harness::record::make_value;
use ycsb_harness::sampler::KeySampler;
use ycsb_harness::sampler::RankSource;
use ycsb_harness::store::load;
use ycsb_harness::store::SharedStore;
use ycsb_harness::worker::operation_for;
use ycsb_harness::worker::run_worker;
use ycsb_harness::worker::OpTally;
use ycsb_harness::worker::Operation;
use ycsb_harness::workload::selected_workloads;
use ycsb_harness::workload::Action;
use ycsb_harness::workload::WorkloadKind;
use ycsb_harness::workload::YcsbWorkload;

/// A rank source that counts up from one.
struct Counting {
    next: usize,
}

impl RankSource for Counting {
    fn next_rank(&mut self) -> usize {
        self.next += 1;
        self.next
    }
}

fn workload(kind: WorkloadKind) -> YcsbWorkload {
    selected_workloads(kind)[0]
}

fn uniform(domain_size: usize) -> KeySampler<Counting> {
    KeySampler::uniform(domain_size)
}

fn shared(record_count: usize) -> SharedStore {
    SharedStore::new(load(record_count))
}

fn total(tally: &OpTally) -> usize {
    tally.reads + tally.updates + tally.inserts + tally.scans
}

#[test]
fn a_read_looks_the_key_up() {
    assert_eq!(operation_for(Action::Read, 7), Operation::Lookup { key: 7 });
}

#[test]
fn update_and_insert_both_write_the_key() {
    assert_eq!(operation_for(Action::Update, 7), Operation::Write { key: 7 });
    assert_eq!(operation_for(Action::Insert, 7), Operation::Write { key: 7 });
}

#[test]
fn a_scan_leaves_the_store_alone() {
    assert_eq!(operation_for(Action::Scan, 7), Operation::Nothing);
}

#[test]
fn a_new_tally_is_empty() {
    assert_eq!(OpTally::new(), OpTally { reads: 0, updates: 0, inserts: 0, scans: 0 });
    assert_eq!(OpTally::new().total_count(), 0);
}

#[test]
fn a_tally_counts_each_kind_apart() {
    let mut tally = OpTally::new();
    tally.record(Action::Read);
    tally.record(Action::Read);
    tally.record(Action::Update);
    tally.record(Action::Insert);
    tally.record(Action::Insert);
    tally.record(Action::Insert);
    tally.record(Action::Scan);
    assert_eq!(tally, OpTally { reads: 2, updates: 1, inserts: 3, scans: 1 });
    assert_eq!(tally.total_count(), 7);
    assert_eq!(tally.write_count(), 4);
}

#[test]
fn read_only_run_reads_every_time_and_never_writes() {
    // recordcount=1000, operationcount=1000, threads=1, workload=c
    let loaded = load(1000);
    assert_eq!(loaded.len(), 1000);
    let store = SharedStore::new(loaded);
    let plan = PhasePlan::new(1000, 1).unwrap();
    let shares = plan.partition();
    assert_eq!(shares, vec![1000]);
    let mut sampler = uniform(1000);
    let tally = run_worker(&store, &workload(WorkloadKind::C), &mut sampler, shares[0]);
    assert_eq!(tally.reads, 1000);
    assert_eq!(tally.write_count(), 0);
    assert_eq!(tally.scans, 0);
    assert_eq!(tally.total_count(), 1000);
    assert_eq!(store.map().len(), 1000);
    for key in 0..1000 {
        assert_eq!(**store.map().get(&key).unwrap().value(), *make_value(key));
    }
}

#[test]
fn eight_workers_run_every_operation_and_keep_to_the_domain() {
    // workload=a, recordcount=100, operationcount=10000, threads=8, uniform keys;
    // each worker has a handle to the shared store and a sampler of its own.
    let store = shared(100);
    let plan = PhasePlan::new(10_000, 8).unwrap();
    let shares = plan.partition();
    let mix = workload(WorkloadKind::A);
    let mut tallies: Vec<OpTally> = Vec::new();
    for ops in shares {
        let store = store.clone();
        let mut sampler = uniform(100);
        tallies.push(run_worker(&store, &mix, &mut sampler, ops));
    }
    assert_eq!(tallies.len(), 8);
    for tally in &tallies {
        assert_eq!(total(tally), 1250);
        assert_eq!(tally.inserts, 0);
        assert_eq!(tally.scans, 0);
    }
    assert_eq!(tallies.iter().map(total).sum::<usize>(), 10_000);
    let reads: usize = tallies.iter().map(|t| t.reads).sum();
    assert!(reads > 4_000 && reads < 6_000);
    assert_eq!(store.map().len(), 100);
    for entry in store.map().iter() {
        assert!(*entry.key() < 100);
        assert_eq!(**entry.value(), *make_value(*entry.key()));
    }
}

#[test]
fn a_worker_without_operations_does_nothing() {
    let store = shared(10);
    let mut sampler = uniform(10);
    let tally = run_worker(&store, &workload(WorkloadKind::A), &mut sampler, 0);
    assert_eq!(tally, OpTally::new());
    assert_eq!(store.map().len(), 10);
}

#[test]
fn writes_store_the_record_of_the_sampled_key() {
    let store = shared(0);
    let all_inserts =
        YcsbWorkload { name: "inserts", readprop: 0, updateprop: 0, insertprop: 100, scanprop: 0 };
    let mut sampler = uniform(50);
    let tally = run_worker(&store, &all_inserts, &mut sampler, 2000);
    assert_eq!(tally, OpTally { reads: 0, updates: 0, inserts: 2000, scans: 0 });
    assert_eq!(store.map().len(), 50);
    for entry in store.map().iter() {
        assert!(*entry.key() < 50);
        assert_eq!(**entry.value(), *make_value(*entry.key()));
    }
}

#[test]
fn updates_write_whether_or_not_the_key_exists() {
    let store = shared(0);
    let all_updates =
        YcsbWorkload { name: "updates", readprop: 0, updateprop: 100, insertprop: 0, scanprop: 0 };
    let mut sampler = KeySampler::zipfian(10, Counting { next: 0 });
    let tally = run_worker(&store, &all_updates, &mut sampler, 4);
    assert_eq!(tally, OpTally { reads: 0, updates: 4, inserts: 0, scans: 0 });
    let mut keys: Vec<usize> = store.map().iter().map(|e| *e.key()).collect();
    keys.sort();
    assert_eq!(keys, vec![1, 2, 3, 4]);
}

#[test]
fn scans_count_as_work_but_leave_the_store_alone() {
    let store = shared(0);
    let all_scans =
        YcsbWorkload { name: "scans", readprop: 0, updateprop: 0, insertprop: 0, scanprop: 100 };
    let mut sampler = uniform(50);
    let tally = run_worker(&store, &all_scans, &mut sampler, 500);
    assert_eq!(tally, OpTally { reads: 0, updates: 0, inserts: 0, scans: 500 });
    assert!(store.map().is_empty());
}

#[test]
fn reads_of_missing_keys_are_no_error() {
    let store = shared(0);
    let mut sampler = uniform(50);
    let tally = run_worker(&store, &workload(WorkloadKind::C), &mut sampler, 500);
    assert_eq!(tally.reads, 500);
    assert!(store.map().is_empty());
}

#[test]
fn a_scan_heavy_mix_touches_the_store_only_for_its_reads() {
    let store = shared(20);
    let mut sampler = uniform(200);
    let tally = run_worker(&store, &workload(WorkloadKind::E), &mut sampler, 10_000);
    assert_eq!(tally.total_count(), 10_000);
    assert_eq!(tally.write_count(), 0);
    assert!(tally.reads > 5_000 && tally.reads < 6_000);
    assert!(tally.scans > 4_000 && tally.scans < 5_000);
    assert_eq!(store.map().len(), 20);
}

#[test]
fn a_mixed_run_follows_its_shares() {
    let store = shared(100);
    let mut sampler = uniform(100);
    let tally = run_worker(&store, &workload(WorkloadKind::F), &mut sampler, 40_000);
    assert_eq!(tally.total_count(), 40_000);
    for count in [tally.reads, tally.updates, tally.inserts, tally.scans] {
        assert!(count > 9_000 && count < 11_000);
    }
}

#[test]
fn the_sampler_keeps_its_kind_and_its_domain() {
    let store = shared(10);
    let mut sampler = KeySampler::zipfian(10, Counting { next: 0 });
    run_worker(&store, &workload(WorkloadKind::A), &mut sampler, 25);
    match sampler {
        KeySampler::Zipfian { domain_size, ranks } => {
            assert_eq!(domain_size, 10);
            assert_eq!(ranks.next, 25);
        },
        KeySampler::Uniform { .. } => panic!("the sampler changed its kind"),
    }
}
