//! The workload mixes and the choice of an operation from a uniform draw.

use vstd::prelude::*;

verus! {

/// Selector of a workload mix: one of the six canonical mixes, or all of them.
#[derive(Copy, Clone, Debug, PartialEq, Eq, Structural)]
pub enum WorkloadKind {
    A,
    B,
    C,
    D,
    E,
    F,
    All,
}

/// The kinds of operation that a mix distributes over.
#[derive(Copy, Clone, Debug, PartialEq, Eq, Structural)]
pub enum Action {
    Read,
    Update,
    Insert,
    Scan,
}

/// The sum that the four shares of a mix add up to: shares are hundredths.
pub const SHARE_TOTAL: u64 = 100;

/// Number of random bits in a uniform draw.
pub const DRAW_BITS: u64 = 53;

/// A uniform draw `d` stands for the fraction `d / DRAW_SCALE` of the unit
/// interval, so draws range over `0 .. DRAW_SCALE`.
pub const DRAW_SCALE: u64 = 0x20_0000_0000_0000;

/// A named workload mix. Each share is the probability of its kind of
/// operation in hundredths.
#[derive(Copy, Clone, Debug)]
pub struct YcsbWorkload {
    /// The name that reports go by.
    pub name: &'static str,
    /// Share of reads.
    pub readprop: u64,
    /// Share of updates.
    pub updateprop: u64,
    /// Share of inserts.
    pub insertprop: u64,
    /// Share of scans.
    pub scanprop: u64,
}

/// Whether the draw `draw`, read as a fraction of the unit interval, lies
/// strictly below the probability `share / SHARE_TOTAL`.
pub open spec fn draw_below(draw: u64, share: int) -> bool {
    draw * SHARE_TOTAL < share * DRAW_SCALE
}

impl YcsbWorkload {
    /// A mix is well formed when its four shares partition the whole.
    pub open spec fn wf(&self) -> bool {
        self.readprop + self.updateprop + self.insertprop + self.scanprop == SHARE_TOTAL
    }

    /// The share of one kind of operation.
    pub open spec fn share(&self, action: Action) -> int {
        match action {
            Action::Read => self.readprop as int,
            Action::Update => self.updateprop as int,
            Action::Insert => self.insertprop as int,
            Action::Scan => self.scanprop as int,
        }
    }

    /// The operation selected by a draw: the unit interval is cut into four
    /// half-open bands, laid out in the order read, update, insert, scan, each
    /// as wide as its share, and the draw selects the band it falls in.
    pub open spec fn action_for(&self, draw: u64) -> Action {
        if draw_below(draw, self.readprop as int) {
            Action::Read
        } else if draw_below(draw, self.readprop + self.updateprop) {
            Action::Update
        } else if draw_below(draw, self.readprop + self.updateprop + self.insertprop) {
            Action::Insert
        } else {
            Action::Scan
        }
    }

    /// Selects the operation for one uniform draw.
    pub fn choose_action(&self, draw: u64) -> (action: Action)
        requires
            self.wf(),
            draw < DRAW_SCALE,
        ensures
            action == self.action_for(draw),
    {
        let scaled: u64 = draw * SHARE_TOTAL;
        let read_end: u64 = self.readprop;
        let update_end: u64 = read_end + self.updateprop;
        let insert_end: u64 = update_end + self.insertprop;
        if scaled < read_end * DRAW_SCALE {
            Action::Read
        } else if scaled < update_end * DRAW_SCALE {
            Action::Update
        } else if scaled < insert_end * DRAW_SCALE {
            Action::Insert
        } else {
            Action::Scan
        }
    }

    /// The operations selected by a sequence of draws, one for each draw.
    pub open spec fn actions_for(&self, draws: Seq<u64>) -> Seq<Action> {
        Seq::new(draws.len(), |i: int| self.action_for(draws[i]))
    }

    /// Selects the operation for each draw of a sequence: the selection
    /// depends on the mix and the draws alone, so the same draws always give
    /// the same operations.
    pub fn select_actions(&self, draws: &Vec<u64>) -> (actions: Vec<Action>)
        requires
            self.wf(),
            forall|i: int| 0 <= i < draws@.len() ==> draws@[i] < DRAW_SCALE,
        ensures
            actions@ == self.actions_for(draws@),
    {
        let mut actions: Vec<Action> = Vec::new();
        let mut i: usize = 0;
        while i < draws.len()
            invariant
                self.wf(),
                forall|k: int| 0 <= k < draws@.len() ==> draws@[k] < DRAW_SCALE,
                i <= draws@.len(),
                actions@.len() == i,
                forall|k: int| 0 <= k < i ==> actions@[k] == self.action_for(draws@[k]),
            decreases draws@.len() - i,
        {
            let action = self.choose_action(draws[i]);
            actions.push(action);
            i = i + 1;
        }
        assert(actions@ =~= self.actions_for(draws@));
        actions
    }
}

/// The place of a kind of operation in the order in which the bands of a mix
/// are laid out.
pub open spec fn band_index(action: Action) -> int {
    match action {
        Action::Read => 0,
        Action::Update => 1,
        Action::Insert => 2,
        Action::Scan => 3,
    }
}

/// Only a kind of operation with a share in the mix is ever selected.
pub proof fn lemma_selected_action_has_share(workload: YcsbWorkload, draw: u64)
    requires
        workload.wf(),
        draw < DRAW_SCALE,
    ensures
        workload.share(workload.action_for(draw)) > 0,
{
}

/// The bands follow each other in the order read, update, insert, scan: a
/// larger draw never selects an earlier kind.
pub proof fn lemma_selection_follows_band_order(workload: YcsbWorkload, low: u64, high: u64)
    requires
        low <= high,
    ensures
        band_index(workload.action_for(low)) <= band_index(workload.action_for(high)),
{
}

/// Replaying a sequence of draws against a fixed mix selects the same
/// sequence of operations: two runs whose draws agree select alike.
pub proof fn lemma_replay_selects_same_actions(
    workload: YcsbWorkload,
    first: Seq<u64>,
    second: Seq<u64>,
)
    requires
        first.len() == second.len(),
        forall|i: int| 0 <= i < first.len() ==> first[i] == second[i],
    ensures
        workload.actions_for(first) == workload.actions_for(second),
{
    assert(workload.actions_for(first) =~= workload.actions_for(second));
}

/// Workload A: half reads, half updates.
pub open spec fn workload_a() -> YcsbWorkload {
    YcsbWorkload { name: "workloada", readprop: 50, updateprop: 50, insertprop: 0, scanprop: 0 }
}

/// Workload B: read mostly.
pub open spec fn workload_b() -> YcsbWorkload {
    YcsbWorkload { name: "workloadb", readprop: 95, updateprop: 5, insertprop: 0, scanprop: 0 }
}

/// Workload C: read only.
pub open spec fn workload_c() -> YcsbWorkload {
    YcsbWorkload { name: "workloadc", readprop: 100, updateprop: 0, insertprop: 0, scanprop: 0 }
}

/// Workload D: reads with some updates and a few inserts.
pub open spec fn workload_d() -> YcsbWorkload {
    YcsbWorkload { name: "workloadd", readprop: 75, updateprop: 20, insertprop: 5, scanprop: 0 }
}

/// Workload E: reads and scans.
pub open spec fn workload_e() -> YcsbWorkload {
    YcsbWorkload { name: "workloade", readprop: 55, updateprop: 0, insertprop: 0, scanprop: 45 }
}

/// Workload F: all four kinds in equal shares.
pub open spec fn workload_f() -> YcsbWorkload {
    YcsbWorkload { name: "workloadf", readprop: 25, updateprop: 25, insertprop: 25, scanprop: 25 }
}

/// The registry: the mixes that a selector stands for, in their fixed order.
pub open spec fn registry(kind: WorkloadKind) -> Seq<YcsbWorkload> {
    match kind {
        WorkloadKind::A => seq![workload_a()],
        WorkloadKind::B => seq![workload_b()],
        WorkloadKind::C => seq![workload_c()],
        WorkloadKind::D => seq![workload_d()],
        WorkloadKind::E => seq![workload_e()],
        WorkloadKind::F => seq![workload_f()],
        WorkloadKind::All => seq![
            workload_a(),
            workload_b(),
            workload_c(),
            workload_d(),
            workload_e(),
            workload_f(),
        ],
    }
}

/// Every mix of the registry is a partition: its four shares add up to the
/// whole.
pub proof fn lemma_registry_mixes_are_partitions(kind: WorkloadKind, i: int)
    requires
        0 <= i < registry(kind).len(),
    ensures
        registry(kind)[i].wf(),
        registry(kind)[i].readprop + registry(kind)[i].updateprop + registry(kind)[i].insertprop
            + registry(kind)[i].scanprop == SHARE_TOTAL,
{
}

/// The mixes selected by `kind`, in registry order.
pub fn selected_workloads(kind: WorkloadKind) -> (workloads: Vec<YcsbWorkload>)
    ensures
        workloads@ == registry(kind),
        forall|i: int| 0 <= i < workloads@.len() ==> (#[trigger] workloads@[i]).wf(),
{
    let a = YcsbWorkload {
        name: "workloada",
        readprop: 50,
        updateprop: 50,
        insertprop: 0,
        scanprop: 0,
    };
    let b = YcsbWorkload {
        name: "workloadb",
        readprop: 95,
        updateprop: 5,
        insertprop: 0,
        scanprop: 0,
    };
    let c = YcsbWorkload {
        name: "workloadc",
        readprop: 100,
        updateprop: 0,
        insertprop: 0,
        scanprop: 0,
    };
    let d = YcsbWorkload {
        name: "workloadd",
        readprop: 75,
        updateprop: 20,
        insertprop: 5,
        scanprop: 0,
    };
    let e = YcsbWorkload {
        name: "workloade",
        readprop: 55,
        updateprop: 0,
        insertprop: 0,
        scanprop: 45,
    };
    let f = YcsbWorkload {
        name: "workloadf",
        readprop: 25,
        updateprop: 25,
        insertprop: 25,
        scanprop: 25,
    };

    match kind {
        WorkloadKind::A => vec![a],
        WorkloadKind::B => vec![b],
        WorkloadKind::C => vec![c],
        WorkloadKind::D => vec![d],
        WorkloadKind::E => vec![e],
        WorkloadKind::F => vec![f],
        WorkloadKind::All => vec![a, b, c, d, e, f],
    }
}

} // verus!
