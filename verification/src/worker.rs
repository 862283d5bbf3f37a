//! One worker of a phase: a loop of operations against the shared store.

use crate::record::make_value;
use crate::partition::assigned_to_first;
use crate::partition::lemma_shares_sum_to_total;
use crate::partition::PhasePlan;
use crate::rng::unit_draw;
use crate::sampler::KeySampler;
use crate::sampler::RankSource;
use crate::store::store_get;
use crate::store::store_put;
use crate::store::SharedStore;
use crate::workload::lemma_selected_action_has_share;
use crate::workload::Action;
use crate::workload::YcsbWorkload;
use crate::workload::DRAW_SCALE;
use crate::workload::SHARE_TOTAL;
use vstd::prelude::*;

verus! {

/// What a worker does to the store for one unit of work.
#[derive(Copy, Clone, Debug, PartialEq, Eq, Structural)]
pub enum Operation {
    /// Look the key up; the answer is discarded.
    Lookup { key: usize },
    /// Write a freshly built record at the key, whether or not it exists.
    Write { key: usize },
    /// Leave the store alone.
    Nothing,
}

/// The store operation that carries out `action` at `key`: a read looks the
/// key up, an update and an insert alike write the key, a scan does nothing.
pub open spec fn operation_of(action: Action, key: usize) -> Operation {
    match action {
        Action::Read => Operation::Lookup { key },
        Action::Update => Operation::Write { key },
        Action::Insert => Operation::Write { key },
        Action::Scan => Operation::Nothing,
    }
}

/// The store operation that carries out `action` at `key`.
pub fn operation_for(action: Action, key: usize) -> (op: Operation)
    ensures
        op == operation_of(action, key),
{
    match action {
        Action::Read => Operation::Lookup { key },
        Action::Update => Operation::Write { key },
        Action::Insert => Operation::Write { key },
        Action::Scan => Operation::Nothing,
    }
}

/// Carries out one operation against the shared store. A write stores the
/// record built for its key. Other workers use the store at the same time, so
/// nothing is learnt of its entries.
fn perform(store: &SharedStore, op: Operation) {
    match op {
        Operation::Lookup { key } => {
            let _ = store_get(store, key);
        },
        Operation::Write { key } => {
            store_put(store, key, make_value(key));
        },
        Operation::Nothing => {},
    }
}

/// How often `action` occurs in a sequence of operations.
pub open spec fn occurrences(actions: Seq<Action>, action: Action) -> nat
    decreases actions.len(),
{
    if actions.len() == 0 {
        0
    } else {
        occurrences(actions.drop_last(), action) + if actions.last() == action {
            1nat
        } else {
            0nat
        }
    }
}

/// How many units of work of each kind a worker has completed.
#[derive(Copy, Clone, Debug, PartialEq, Eq, Structural)]
pub struct OpTally {
    pub reads: usize,
    pub updates: usize,
    pub inserts: usize,
    pub scans: usize,
}

impl OpTally {
    /// The number of completed units of one kind.
    pub open spec fn count(&self, action: Action) -> int {
        match action {
            Action::Read => self.reads as int,
            Action::Update => self.updates as int,
            Action::Insert => self.inserts as int,
            Action::Scan => self.scans as int,
        }
    }

    /// The number of completed units of all kinds.
    pub open spec fn total(&self) -> int {
        self.reads + self.updates + self.inserts + self.scans
    }

    /// The number of units that wrote to the store.
    pub open spec fn writes(&self) -> int {
        self.updates + self.inserts
    }

    /// Whether this is the tally of a run in which `draws` were the uniform
    /// draws, in this order: each is a proper draw, and each kind is counted
    /// as often as the draws select it under `workload`.
    pub open spec fn tallies(&self, workload: YcsbWorkload, draws: Seq<u64>) -> bool {
        &&& forall|i: int| 0 <= i < draws.len() ==> draws[i] < DRAW_SCALE
        &&& forall|action: Action|
            self.count(action) == occurrences(workload.actions_for(draws), action)
    }

    /// The empty tally.
    pub fn new() -> (tally: OpTally)
        ensures
            tally == (OpTally { reads: 0, updates: 0, inserts: 0, scans: 0 }),
    {
        OpTally { reads: 0, updates: 0, inserts: 0, scans: 0 }
    }

    /// Counts one more unit of kind `action`.
    pub fn record(&mut self, action: Action)
        requires
            old(self).total() < usize::MAX,
        ensures
            forall|other: Action|
                final(self).count(other) == old(self).count(other) + if other == action {
                    1int
                } else {
                    0int
                },
            final(self).total() == old(self).total() + 1,
    {
        match action {
            Action::Read => {
                self.reads = self.reads + 1;
            },
            Action::Update => {
                self.updates = self.updates + 1;
            },
            Action::Insert => {
                self.inserts = self.inserts + 1;
            },
            Action::Scan => {
                self.scans = self.scans + 1;
            },
        }
    }

    /// The number of units that wrote to the store: updates and inserts.
    pub fn write_count(&self) -> (writes: usize)
        requires
            self.total() <= usize::MAX,
        ensures
            writes == self.writes(),
    {
        self.updates + self.inserts
    }

    /// The number of units of all kinds.
    pub fn total_count(&self) -> (total: usize)
        requires
            self.total() <= usize::MAX,
        ensures
            total == self.total(),
    {
        self.reads + self.updates + self.inserts + self.scans
    }
}

/// A tally accounts for every draw: its counts add up to their number.
pub proof fn lemma_tally_accounts_for_every_draw(
    tally: OpTally,
    workload: YcsbWorkload,
    draws: Seq<u64>,
)
    requires
        tally.tallies(workload, draws),
    ensures
        tally.total() == draws.len(),
{
    let actions = workload.actions_for(draws);
    lemma_occurrences_add_up(actions);
    assert(tally.count(Action::Read) == occurrences(actions, Action::Read));
    assert(tally.count(Action::Update) == occurrences(actions, Action::Update));
    assert(tally.count(Action::Insert) == occurrences(actions, Action::Insert));
    assert(tally.count(Action::Scan) == occurrences(actions, Action::Scan));
}

/// A tally counts nothing of a kind whose share in the mix is zero.
pub proof fn lemma_tally_respects_shares(
    tally: OpTally,
    workload: YcsbWorkload,
    draws: Seq<u64>,
    action: Action,
)
    requires
        workload.wf(),
        tally.tallies(workload, draws),
        workload.share(action) == 0,
    ensures
        tally.count(action) == 0,
{
    lemma_unselected_never_occurs(workload, draws, action);
}

/// Under a mix that is all reads every unit of work is a read: the tally
/// counts as many reads as there were draws, and no write and no scan.
pub proof fn lemma_read_only_mix_only_reads(tally: OpTally, workload: YcsbWorkload, draws: Seq<u64>)
    requires
        workload.wf(),
        workload.readprop == SHARE_TOTAL,
        tally.tallies(workload, draws),
    ensures
        tally.reads == draws.len(),
        tally.writes() == 0,
        tally.scans == 0,
{
    lemma_tally_accounts_for_every_draw(tally, workload, draws);
    lemma_tally_respects_shares(tally, workload, draws, Action::Update);
    lemma_tally_respects_shares(tally, workload, draws, Action::Insert);
    lemma_tally_respects_shares(tally, workload, draws, Action::Scan);
}

/// The units of work that a sequence of tallies accounts for together.
pub open spec fn units_of(tallies: Seq<OpTally>) -> int
    decreases tallies.len(),
{
    if tallies.len() == 0 {
        0
    } else {
        units_of(tallies.drop_last()) + tallies.last().total()
    }
}

/// A phase runs every operation of its plan, and none twice: where each
/// worker's tally accounts for the worker's share, the tallies of all workers
/// together account for the plan's total.
pub proof fn lemma_phase_runs_every_operation(plan: PhasePlan, tallies: Seq<OpTally>)
    requires
        plan.wf(),
        tallies.len() == plan.worker_count,
        forall|tid: int| 0 <= tid < tallies.len() ==> (#[trigger] tallies[tid]).total() == plan.share(tid),
    ensures
        units_of(tallies) == plan.total_ops,
{
    lemma_units_of_first_workers(plan, tallies, tallies.len());
    assert(tallies.take(tallies.len() as int) =~= tallies);
    lemma_shares_sum_to_total(plan);
}

/// The tallies of the first `n` workers account for the shares of the first
/// `n` workers.
proof fn lemma_units_of_first_workers(plan: PhasePlan, tallies: Seq<OpTally>, n: nat)
    requires
        plan.wf(),
        n <= tallies.len(),
        forall|tid: int| 0 <= tid < tallies.len() ==> (#[trigger] tallies[tid]).total() == plan.share(tid),
    ensures
        units_of(tallies.take(n as int)) == assigned_to_first(
            plan.total_ops as int,
            plan.worker_count as int,
            n,
        ),
    decreases n,
{
    if n > 0 {
        lemma_units_of_first_workers(plan, tallies, (n - 1) as nat);
        assert(tallies.take(n as int).drop_last() =~= tallies.take(n - 1));
    }
}

/// In any sequence of operations, the occurrences of the four kinds add up
/// to its length.
pub proof fn lemma_occurrences_add_up(actions: Seq<Action>)
    ensures
        occurrences(actions, Action::Read) + occurrences(actions, Action::Update) + occurrences(
            actions,
            Action::Insert,
        ) + occurrences(actions, Action::Scan) == actions.len(),
    decreases actions.len(),
{
    if actions.len() > 0 {
        lemma_occurrences_add_up(actions.drop_last());
    }
}

/// A kind without a share in the mix occurs in no selection.
pub proof fn lemma_unselected_never_occurs(workload: YcsbWorkload, draws: Seq<u64>, action: Action)
    requires
        workload.wf(),
        forall|i: int| 0 <= i < draws.len() ==> draws[i] < DRAW_SCALE,
        workload.share(action) == 0,
    ensures
        occurrences(workload.actions_for(draws), action) == 0,
    decreases draws.len(),
{
    let actions = workload.actions_for(draws);
    if draws.len() > 0 {
        lemma_unselected_never_occurs(workload, draws.drop_last(), action);
        assert(actions.drop_last() =~= workload.actions_for(draws.drop_last()));
        lemma_selected_action_has_share(workload, draws.last());
    }
}

/// Runs `ops` units of work against the shared store. Each unit takes a
/// uniform draw, which selects its kind under `workload`, and a key from
/// `sampler`; a scan counts as a unit though it leaves the store alone.
///
/// Whatever the draws were, there were `ops` of them, and the tally counts
/// each kind as often as they selected it. So the tally accounts for every
/// unit, and counts none of a kind whose share in the mix is zero. The
/// sampler keeps its kind and its domain.
pub fn run_worker<R: RankSource>(
    store: &SharedStore,
    workload: &YcsbWorkload,
    sampler: &mut KeySampler<R>,
    ops: usize,
) -> (tally: OpTally)
    requires
        workload.wf(),
        old(sampler).wf(),
    ensures
        exists|draws: Seq<u64>| draws.len() == ops && #[trigger] tally.tallies(*workload, draws),
        tally.total() == ops,
        forall|action: Action| workload.share(action) == 0 ==> tally.count(action) == 0,
        final(sampler).domain_size() == old(sampler).domain_size(),
        (*final(sampler) is Uniform) <==> (*old(sampler) is Uniform),
{
    let mut rng = rand::thread_rng();
    let mut tally = OpTally::new();
    let mut done: usize = 0;
    let ghost mut draws: Seq<u64> = Seq::empty();
    assert(workload.actions_for(draws) =~= Seq::empty());
    while done < ops
        invariant
            workload.wf(),
            sampler.wf(),
            sampler.domain_size() == old(sampler).domain_size(),
            (*sampler is Uniform) <==> (*old(sampler) is Uniform),
            done <= ops,
            draws.len() == done,
            tally.tallies(*workload, draws),
            tally.total() == done,
        decreases ops - done,
    {
        let draw = unit_draw(&mut rng);
        let key = sampler.next_key();
        let action = workload.choose_action(draw);
        perform(store, operation_for(action, key));
        tally.record(action);
        proof {
            let before = draws;
            draws = draws.push(draw);
            assert(draws.drop_last() =~= before);
            assert(workload.actions_for(draws).drop_last() =~= workload.actions_for(before));
        }
        done = done + 1;
    }
    proof {
        assert forall|action: Action| workload.share(action) == 0 implies tally.count(action)
            == 0 by {
            lemma_tally_respects_shares(tally, *workload, draws, action);
        }
    }
    tally
}

} // verus!
