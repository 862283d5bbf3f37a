//! The split of a phase's operations over its workers.

use crate::config::ConfigError;
use vstd::arithmetic::div_mod::lemma_fundamental_div_mod;
use vstd::arithmetic::div_mod::lemma_mod_bound;
use vstd::prelude::*;

verus! {

/// A phase: so many operations, run by so many workers.
#[derive(Copy, Clone, Debug, PartialEq, Eq, Structural)]
pub struct PhasePlan {
    pub total_ops: usize,
    pub worker_count: usize,
}

/// The number of operations that worker `tid` of `workers` runs out of
/// `total`: the whole part of the quotient, and one more for each of the
/// first `total mod workers` workers.
pub open spec fn worker_share(total: int, workers: int, tid: int) -> int {
    total / workers + if tid < total % workers {
        1int
    } else {
        0int
    }
}

/// The operations assigned to the first `n` workers together.
pub open spec fn assigned_to_first(total: int, workers: int, n: nat) -> int
    decreases n,
{
    if n == 0 {
        0
    } else {
        assigned_to_first(total, workers, (n - 1) as nat) + worker_share(total, workers, n - 1)
    }
}

/// The sum of a sequence of shares.
pub open spec fn sum_of(shares: Seq<usize>) -> int
    decreases shares.len(),
{
    if shares.len() == 0 {
        0
    } else {
        sum_of(shares.drop_last()) + shares.last()
    }
}

impl PhasePlan {
    /// A plan is well formed when it has at least one worker.
    pub open spec fn wf(&self) -> bool {
        self.worker_count >= 1
    }

    /// The share of worker `tid` under this plan.
    pub open spec fn share(&self, tid: int) -> int {
        worker_share(self.total_ops as int, self.worker_count as int, tid)
    }

    /// Makes a plan, or rejects a worker count of zero.
    pub fn new(total_ops: usize, worker_count: usize) -> (plan: Result<PhasePlan, ConfigError>)
        ensures
            plan is Err <==> worker_count == 0,
            plan matches Err(e) ==> e == ConfigError::ZeroThreads,
            plan matches Ok(p) ==> p == (PhasePlan { total_ops, worker_count }) && p.wf(),
    {
        if worker_count == 0 {
            Err(ConfigError::ZeroThreads)
        } else {
            Ok(PhasePlan { total_ops, worker_count })
        }
    }

    /// The number of operations that worker `tid` runs.
    pub fn ops_for_worker(&self, tid: usize) -> (ops: usize)
        requires
            self.wf(),
            tid < self.worker_count,
        ensures
            ops == self.share(tid as int),
    {
        let base: usize = self.total_ops / self.worker_count;
        let rem: usize = self.total_ops % self.worker_count;
        proof {
            lemma_share_bounds(self.total_ops as int, self.worker_count as int, tid as int);
        }
        if tid < rem {
            base + 1
        } else {
            base
        }
    }

    /// The shares of all workers, by worker index. Together they cover the
    /// plan's operations exactly, and no two of them differ by more than one.
    pub fn partition(&self) -> (shares: Vec<usize>)
        requires
            self.wf(),
        ensures
            shares@.len() == self.worker_count,
            forall|tid: int| 0 <= tid < self.worker_count ==> #[trigger] shares@[tid] == self.share(tid),
            sum_of(shares@) == self.total_ops,
            forall|i: int, j: int|
                0 <= i < shares@.len() && 0 <= j < shares@.len() ==> #[trigger] shares@[i]
                    - #[trigger] shares@[j] <= 1,
    {
        let ghost total = self.total_ops as int;
        let ghost workers = self.worker_count as int;
        let mut shares: Vec<usize> = Vec::new();
        let mut tid: usize = 0;
        while tid < self.worker_count
            invariant
                self.wf(),
                total == self.total_ops,
                workers == self.worker_count,
                tid <= self.worker_count,
                shares@.len() == tid,
                forall|k: int| 0 <= k < tid ==> #[trigger] shares@[k] == self.share(k),
                sum_of(shares@) == assigned_to_first(total, workers, tid as nat),
            decreases self.worker_count - tid,
        {
            let ops = self.ops_for_worker(tid);
            let ghost before = shares@;
            shares.push(ops);
            assert(shares@.drop_last() =~= before);
            tid = tid + 1;
        }
        proof {
            lemma_shares_sum_to_total(*self);
        }
        shares
    }
}

/// A share is never negative and never more than the total.
pub proof fn lemma_share_bounds(total: int, workers: int, tid: int)
    requires
        0 <= total,
        1 <= workers,
        0 <= tid < workers,
    ensures
        0 <= worker_share(total, workers, tid) <= total,
{
    lemma_fundamental_div_mod(total, workers);
    assert(workers * (total / workers) >= total / workers) by (nonlinear_arith)
        requires
            workers >= 1,
            total / workers >= 0,
    ;
    if tid < total % workers {
        assert(total / workers + 1 <= total);
    }
}

/// The first `n` workers together run `n` whole parts of the quotient, and
/// one more operation for each of them that is among the first
/// `total mod workers`.
pub proof fn lemma_assigned_to_first(total: int, workers: int, n: nat)
    requires
        0 <= total,
        1 <= workers,
    ensures
        assigned_to_first(total, workers, n) == n * (total / workers) + if n <= total % workers {
            n as int
        } else {
            total % workers
        },
    decreases n,
{
    let quotient = total / workers;
    lemma_mod_bound(total, workers);
    if n == 0 {
        assert(0 * quotient == 0);
    } else {
        lemma_assigned_to_first(total, workers, (n - 1) as nat);
        assert(n * quotient == (n - 1) * quotient + quotient) by (nonlinear_arith);
    }
}

/// The shares cover the total exactly: summed over all workers of a plan
/// they give its number of operations, none lost and none counted twice.
pub proof fn lemma_shares_sum_to_total(plan: PhasePlan)
    requires
        plan.wf(),
    ensures
        assigned_to_first(plan.total_ops as int, plan.worker_count as int, plan.worker_count as nat)
            == plan.total_ops,
{
    let total = plan.total_ops as int;
    let workers = plan.worker_count as int;
    lemma_assigned_to_first(total, workers, workers as nat);
    lemma_fundamental_div_mod(total, workers);
}

/// The shares are balanced: those of any two workers of a plan differ by at
/// most one operation.
pub proof fn lemma_shares_differ_by_at_most_one(plan: PhasePlan, i: int, j: int)
    requires
        plan.wf(),
        0 <= i < plan.worker_count,
        0 <= j < plan.worker_count,
    ensures
        -1 <= plan.share(i) - plan.share(j) <= 1,
{
}

} // verus!
