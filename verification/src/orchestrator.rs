//! The sequence of phases of a benchmark run, as a machine that a driver
//! steps through: the machine says what to do next, the driver does it and
//! reports back.

use crate::config::BenchConfig;
use crate::config::ConfigError;
use crate::config::SETTLE_MILLIS;
use crate::partition::PhasePlan;
use crate::report::ThroughputResult;
use crate::workload::registry;
use crate::workload::selected_workloads;
use crate::workload::YcsbWorkload;
use vstd::prelude::*;

verus! {

/// The step of a workload's run that comes next.
#[derive(Copy, Clone, Debug, PartialEq, Eq, Structural)]
pub enum Stage {
    Load,
    Warmup,
    Settle,
    Measure,
}

/// What the driver is to do next.
#[derive(Copy, Clone, Debug)]
pub enum Directive {
    /// Discard the store of the workload before, make a fresh one, and load
    /// `record_count` records into it. Not timed.
    Load { workload: YcsbWorkload, record_count: usize },
    /// Run a phase under `plan` against the loaded store. Not timed.
    Warmup { workload: YcsbWorkload, plan: PhasePlan },
    /// Let the store settle for `millis` milliseconds.
    Settle { millis: u64 },
    /// Run a phase under `plan` against the store and time it, from just
    /// before the first worker starts until the last one has ended.
    Measure { workload: YcsbWorkload, plan: PhasePlan },
    /// Every selected workload has run.
    Finished,
}

/// The state of a run: the workloads up to `current` have run and reported,
/// and `stage` is the next step of workload `current`.
pub struct RunState {
    pub config: BenchConfig,
    pub workloads: Seq<YcsbWorkload>,
    pub current: nat,
    pub stage: Stage,
    pub results: Seq<ThroughputResult>,
}

impl RunState {
    /// The state before anything has run.
    pub open spec fn initial(config: BenchConfig) -> RunState {
        RunState {
            config,
            workloads: registry(config.workload),
            current: 0,
            stage: Stage::Load,
            results: Seq::empty(),
        }
    }

    /// A state is well formed when its configuration is valid, its workloads
    /// are those that the configuration selects, and it holds one result for
    /// each workload that has run, in the same order, each for the configured
    /// number of operations.
    pub open spec fn wf(&self) -> bool {
        &&& self.config.valid()
        &&& self.workloads == registry(self.config.workload)
        &&& self.current <= self.workloads.len()
        &&& self.results.len() == self.current
        &&& self.current == self.workloads.len() ==> self.stage == Stage::Load
        &&& forall|i: int|
            0 <= i < self.current ==> {
                &&& (#[trigger] self.results[i]).workload_name == self.workloads[i].name
                &&& self.results[i].total_ops == self.config.operationcount
                &&& self.results[i].wf()
            }
    }

    /// Whether every selected workload has run.
    pub open spec fn finished(&self) -> bool {
        self.current >= self.workloads.len()
    }

    /// What the driver is to do in this state.
    pub open spec fn directive(&self) -> Directive {
        if self.finished() {
            Directive::Finished
        } else {
            let workload = self.workloads[self.current as int];
            match self.stage {
                Stage::Load => Directive::Load { workload, record_count: self.config.recordcount },
                Stage::Warmup => Directive::Warmup {
                    workload,
                    plan: self.config.spec_warmup_plan(),
                },
                Stage::Settle => Directive::Settle { millis: SETTLE_MILLIS },
                Stage::Measure => Directive::Measure {
                    workload,
                    plan: self.config.spec_measurement_plan(),
                },
            }
        }
    }

    /// The state after the driver has done what this state directs, where
    /// `elapsed_nanos` is the time that a measured phase took. A finished run
    /// stays as it is; only a measurement adds a result, and it moves on to
    /// the next workload.
    pub open spec fn after(&self, elapsed_nanos: u128) -> RunState {
        if self.finished() {
            *self
        } else {
            match self.stage {
                Stage::Load => RunState { stage: Stage::Warmup, ..*self },
                Stage::Warmup => RunState { stage: Stage::Settle, ..*self },
                Stage::Settle => RunState { stage: Stage::Measure, ..*self },
                Stage::Measure => RunState {
                    current: self.current + 1,
                    stage: Stage::Load,
                    results: self.results.push(
                        ThroughputResult::of(
                            self.workloads[self.current as int].name,
                            elapsed_nanos,
                            self.config.operationcount,
                        ),
                    ),
                    ..*self
                },
            }
        }
    }
}

impl RunState {
    /// The state after the driver has carried out one directive after the
    /// other, as many as `reports` is long, and reported `reports[k]` as the
    /// time that step `k` took.
    pub open spec fn after_all(&self, reports: Seq<u128>) -> RunState
        decreases reports.len(),
    {
        if reports.len() == 0 {
            *self
        } else {
            self.after_all(reports.drop_last()).after(reports.last())
        }
    }
}

/// The number of directives that one workload takes: load, warmup, settle,
/// measure.
pub open spec fn steps_per_workload() -> int {
    4
}

/// The stage that a workload is at after so many of its steps.
pub open spec fn stage_after(steps: nat) -> Stage {
    if steps == 0 {
        Stage::Load
    } else if steps == 1 {
        Stage::Warmup
    } else if steps == 2 {
        Stage::Settle
    } else {
        Stage::Measure
    }
}

/// A step keeps a well-formed state well formed.
pub proof fn lemma_step_keeps_wf(state: RunState, elapsed_nanos: u128)
    requires
        state.wf(),
    ensures
        state.after(elapsed_nanos).wf(),
{
}

/// Where a run stands after some of its steps: it has finished a workload
/// for every four steps, in registry order, and holds for each of them the
/// result of its measurement, timed by the report of its fourth step.
pub proof fn lemma_run_progress(config: BenchConfig, reports: Seq<u128>)
    requires
        config.valid(),
        reports.len() <= steps_per_workload() * registry(config.workload).len(),
    ensures
        ({
            let state = RunState::initial(config).after_all(reports);
            &&& state.wf()
            &&& state.config == config
            &&& state.current == reports.len() / 4
            &&& state.stage == stage_after(reports.len() % 4)
            &&& forall|i: int|
                0 <= i < state.current ==> #[trigger] state.results[i] == ThroughputResult::of(
                    registry(config.workload)[i].name,
                    reports[4 * i + 3],
                    config.operationcount,
                )
        }),
    decreases reports.len(),
{
    if reports.len() > 0 {
        let earlier = reports.drop_last();
        lemma_run_progress(config, earlier);
        let before = RunState::initial(config).after_all(earlier);
        lemma_step_keeps_wf(before, reports.last());
        let state = before.after(reports.last());
        assert forall|i: int| 0 <= i < state.current implies #[trigger] state.results[i]
            == ThroughputResult::of(
            registry(config.workload)[i].name,
            reports[4 * i + 3],
            config.operationcount,
        ) by {
            if i < before.current {
                assert(state.results[i] == before.results[i]);
                assert(earlier[4 * i + 3] == reports[4 * i + 3]);
            }
        }
    }
}

/// A whole run reports once for every selected workload, in registry order:
/// after four steps for each workload the run is finished, and result `i` is
/// that of workload `i`, for the configured number of operations in the time
/// that its measurement took.
pub proof fn lemma_run_reports_each_workload_in_order(config: BenchConfig, reports: Seq<u128>)
    requires
        config.valid(),
        reports.len() == steps_per_workload() * registry(config.workload).len(),
    ensures
        ({
            let end = RunState::initial(config).after_all(reports);
            &&& end.finished()
            &&& end.directive() is Finished
            &&& end.results.len() == registry(config.workload).len()
            &&& forall|i: int|
                0 <= i < end.results.len() ==> #[trigger] end.results[i] == ThroughputResult::of(
                    registry(config.workload)[i].name,
                    reports[4 * i + 3],
                    config.operationcount,
                )
        }),
{
    lemma_run_progress(config, reports);
}

/// The orchestrator of a benchmark run.
pub struct Orchestrator {
    pub config: BenchConfig,
    pub workloads: Vec<YcsbWorkload>,
    pub current: usize,
    pub stage: Stage,
    pub results: Vec<ThroughputResult>,
}

impl View for Orchestrator {
    type V = RunState;

    open spec fn view(&self) -> RunState {
        RunState {
            config: self.config,
            workloads: self.workloads@,
            current: self.current as nat,
            stage: self.stage,
            results: self.results@,
        }
    }
}

impl Orchestrator {
    /// Starts a run, or rejects the configuration before anything is loaded.
    pub fn new(config: BenchConfig) -> (outcome: Result<Orchestrator, ConfigError>)
        ensures
            outcome is Ok <==> config.valid(),
            outcome matches Err(e) ==> config.rejection() == Some(e),
            outcome matches Ok(orchestrator) ==> orchestrator@ == RunState::initial(config)
                && orchestrator@.wf(),
    {
        match config.validate() {
            Err(e) => Err(e),
            Ok(()) => {
                let orchestrator = Orchestrator {
                    config,
                    workloads: selected_workloads(config.workload),
                    current: 0,
                    stage: Stage::Load,
                    results: Vec::new(),
                };
                assert(orchestrator@.results =~= Seq::empty());
                Ok(orchestrator)
            },
        }
    }

    /// Whether every selected workload has run.
    pub fn is_finished(&self) -> (finished: bool)
        ensures
            finished == self@.finished(),
    {
        self.current >= self.workloads.len()
    }

    /// What the driver is to do next.
    pub fn next_directive(&self) -> (directive: Directive)
        requires
            self@.wf(),
        ensures
            directive == self@.directive(),
    {
        if self.current >= self.workloads.len() {
            Directive::Finished
        } else {
            let workload = self.workloads[self.current];
            match self.stage {
                Stage::Load => Directive::Load { workload, record_count: self.config.recordcount },
                Stage::Warmup => Directive::Warmup { workload, plan: self.config.warmup_plan() },
                Stage::Settle => Directive::Settle { millis: SETTLE_MILLIS },
                Stage::Measure => Directive::Measure {
                    workload,
                    plan: self.config.measurement_plan(),
                },
            }
        }
    }

    /// Takes note that the driver has done what was directed. For a measured
    /// phase `elapsed_nanos` is the time it took; for any other step the
    /// argument is ignored.
    pub fn complete(&mut self, elapsed_nanos: u128)
        requires
            old(self)@.wf(),
        ensures
            final(self)@ == old(self)@.after(elapsed_nanos),
            final(self)@.wf(),
    {
        if self.current < self.workloads.len() {
            match self.stage {
                Stage::Load => {
                    self.stage = Stage::Warmup;
                },
                Stage::Warmup => {
                    self.stage = Stage::Settle;
                },
                Stage::Settle => {
                    self.stage = Stage::Measure;
                },
                Stage::Measure => {
                    let result = ThroughputResult::new(
                        self.workloads[self.current].name,
                        elapsed_nanos,
                        self.config.operationcount,
                    );
                    self.results.push(result);
                    self.current = self.current + 1;
                    self.stage = Stage::Load;
                },
            }
        }
    }

    /// The results so far: one for each workload that has run, in registry
    /// order.
    pub fn results(&self) -> (results: &Vec<ThroughputResult>)
        ensures
            results@ == self@.results,
    {
        &self.results
    }
}

} // verus!
