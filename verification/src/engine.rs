//! The stress engine: the decision core of the run loop.
//!
//! A run is the full core×project matrix: in sequential mode every project is
//! cleaned and built under each requested core's pin in turn; in parallel mode
//! the project list is driven once under the union of all requested cores'
//! units.  The engine hands out one job at a time and is told each outcome; a
//! clean failure is recoverable, a build failure is fatal to the whole run,
//! and a completed run restarts from the top, identically, without carrying
//! any state over.  The outer loop is driven by the caller and is infinite by
//! design: it ends only with a fatal outcome or outside interruption.

use vstd::prelude::*;

use crate::cli::Mode;
use crate::units::{spec_units_for, spec_units_for_many, units_for, units_for_many};

verus! {

/// One build job: which project to clean and build, pinned to which execution
/// units.  `core` names the single stressed core in sequential mode and is
/// `None` in parallel mode, where all requested cores are stressed at once.
pub struct Job {
    pub core: Option<usize>,
    pub project: usize,
    pub units: Vec<usize>,
}

/// The spec-level value of a [`Job`].
pub ghost struct JobView {
    pub core: Option<usize>,
    pub project: usize,
    pub units: Seq<usize>,
}

impl View for Job {
    type V = JobView;

    open spec fn view(&self) -> JobView {
        JobView { core: self.core, project: self.project, units: self.units@ }
    }
}

/// Result of one build attempt: whether the external build command exited
/// successfully, its captured output, and the wall-clock time it took.  A
/// build that ran and failed is a normal, reportable outcome here, not an
/// error of the harness.
pub struct BuildOutcome {
    pub success: bool,
    pub stdout: String,
    pub stderr: String,
    pub duration_ms: u64,
}

/// The engine's decision after an outcome is recorded.
#[derive(Debug, Clone, Copy, PartialEq, Eq, Structural)]
pub enum Decision {
    /// Go on to the next job of the current run.
    Continue,
    /// The run completed; the engine is back at its run-start state.
    RunCompleted,
    /// A build failed: the run is aborted and no further jobs are handed out.
    FatalBuild,
}

/// Why the engine refuses to start.
#[derive(Debug, Clone, Copy, PartialEq, Eq, Structural)]
pub enum EngineError {
    /// Discovery produced no eligible projects.
    NoProjects,
    /// No cores were requested.
    NoCores,
}

impl EngineError {
    /// Human-readable description of the error.
    pub fn describe(&self) -> (r: &'static str)
        ensures
            *self is NoProjects ==> r@ == "no projects found"@,
            *self is NoCores ==> r@ == "no cores to stress"@,
    {
        match self {
            EngineError::NoProjects => "no projects found",
            EngineError::NoCores => "no cores to stress",
        }
    }
}

/// Drives the core×project matrix of one run and decides, after every
/// outcome, whether the run goes on, completed, or must be aborted.
pub struct Engine {
    pub mode: Mode,
    pub cores: Vec<usize>,
    pub n_physical: usize,
    pub n_projects: usize,
    pub core_idx: usize,
    pub project_idx: usize,
    pub failed: Option<usize>,
}

impl Engine {
    /// Number of pin positions a run walks through: one per requested core in
    /// sequential mode, a single union pin in parallel mode.
    pub open spec fn lane_count(self) -> int {
        match self.mode {
            Mode::Sequential => self.cores@.len() as int,
            Mode::Parallel => 1,
        }
    }

    /// Well-formedness: at least one core and one project, every core index
    /// valid for the host, and the current position inside the matrix.
    pub open spec fn wf(self) -> bool {
        &&& self.cores@.len() > 0
        &&& self.n_projects > 0
        &&& forall|i: int| 0 <= i < self.cores@.len() ==> self.cores@[i] < self.n_physical
        &&& self.n_physical <= usize::MAX / 2
        &&& 0 <= self.core_idx < self.lane_count()
        &&& self.project_idx < self.n_projects
    }

    /// The engine stands at the start of a run and no failure is recorded.
    pub open spec fn at_run_start(self) -> bool {
        &&& self.core_idx == 0
        &&& self.project_idx == 0
        &&& self.failed is None
    }

    /// The two engines drive the same matrix: same mode, cores, host core
    /// count and project count.
    pub open spec fn same_inputs(self, other: Engine) -> bool {
        &&& self.mode == other.mode
        &&& self.cores@ == other.cores@
        &&& self.n_physical == other.n_physical
        &&& self.n_projects == other.n_projects
    }

    /// The job the engine will hand out at its current position.
    pub open spec fn spec_job(self) -> JobView {
        match self.mode {
            Mode::Sequential => JobView {
                core: Some(self.cores@[self.core_idx as int]),
                project: self.project_idx,
                units: spec_units_for(self.cores@[self.core_idx as int], self.n_physical),
            },
            Mode::Parallel => JobView {
                core: None,
                project: self.project_idx,
                units: spec_units_for_many(self.cores@, self.n_physical),
            },
        }
    }

    /// Builds an engine at the start of its first run.  Zero eligible
    /// projects is a fatal precondition failure, never silently "nothing to
    /// do"; so is an empty core list.
    pub fn new(mode: Mode, cores: Vec<usize>, n_physical: usize, n_projects: usize) -> (r: Result<
        Engine,
        EngineError,
    >)
        requires
            forall|i: int| 0 <= i < cores@.len() ==> cores@[i] < n_physical,
            n_physical <= usize::MAX / 2,
        ensures
            r matches Err(EngineError::NoProjects) <==> n_projects == 0,
            r matches Err(EngineError::NoCores) <==> (n_projects > 0 && cores@.len() == 0),
            r matches Ok(e) ==> {
                &&& e.wf()
                &&& e.at_run_start()
                &&& e.mode == mode
                &&& e.cores@ == cores@
                &&& e.n_physical == n_physical
                &&& e.n_projects == n_projects
            },
    {
        if n_projects == 0 {
            Err(EngineError::NoProjects)
        } else if cores.len() == 0 {
            Err(EngineError::NoCores)
        } else {
            Ok(
                Engine {
                    mode,
                    cores,
                    n_physical,
                    n_projects,
                    core_idx: 0,
                    project_idx: 0,
                    failed: None,
                },
            )
        }
    }

    /// The project index of the build that aborted the run, if any.
    pub fn failed_project(&self) -> (r: Option<usize>)
        ensures
            r == self.failed,
    {
        self.failed
    }

    /// The job at the engine's current position: project `project_idx`,
    /// pinned to the current core's units in sequential mode and to the union
    /// of all requested cores' units in parallel mode.
    pub fn next_job(&self) -> (j: Job)
        requires
            self.wf(),
            self.failed is None,
        ensures
            j@ == self.spec_job(),
    {
        match self.mode {
            Mode::Sequential => {
                let c = self.cores[self.core_idx];
                Job {
                    core: Some(c),
                    project: self.project_idx,
                    units: units_for(c, self.n_physical),
                }
            },
            Mode::Parallel => Job {
                core: None,
                project: self.project_idx,
                units: units_for_many(&self.cores, self.n_physical),
            },
        }
    }

    /// Records the outcome of the clean operation that precedes a build.  A
    /// clean failure most commonly means "nothing to clean": it is logged by
    /// the caller and ignored here — it never moves the engine and never
    /// aborts the run.
    pub fn record_clean(&mut self, outcome_ok: bool) -> (d: Decision)
        ensures
            *final(self) == *old(self),
            d == Decision::Continue,
    {
        let _ = outcome_ok;
        Decision::Continue
    }

    /// Records the outcome of the current job's build and moves the engine.
    ///
    /// A successful build advances to the next project, then to the next pin
    /// position, and completes the run after the last; a completed run resets
    /// the engine to its run-start state over unchanged inputs, so repeated
    /// runs process the same job sequence.  An unsuccessful build is fatal:
    /// the failing project is recorded, the position does not move, and the
    /// decision is `FatalBuild` exactly in that case.
    pub fn record_build(&mut self, outcome: &BuildOutcome) -> (d: Decision)
        requires
            old(self).wf(),
            old(self).failed is None,
        ensures
            final(self).wf(),
            final(self).same_inputs(*old(self)),
            d == Decision::FatalBuild <==> !outcome.success,
            !outcome.success ==> {
                &&& final(self).failed == Some(old(self).project_idx)
                &&& final(self).core_idx == old(self).core_idx
                &&& final(self).project_idx == old(self).project_idx
            },
            outcome.success ==> final(self).failed is None,
            (outcome.success && old(self).project_idx + 1 < old(self).n_projects) ==> {
                &&& d == Decision::Continue
                &&& final(self).core_idx == old(self).core_idx
                &&& final(self).project_idx == old(self).project_idx + 1
            },
            (outcome.success && old(self).project_idx + 1 == old(self).n_projects && old(
                self,
            ).core_idx + 1 < old(self).lane_count()) ==> {
                &&& d == Decision::Continue
                &&& final(self).core_idx == old(self).core_idx + 1
                &&& final(self).project_idx == 0
            },
            (outcome.success && old(self).project_idx + 1 == old(self).n_projects && old(
                self,
            ).core_idx + 1 == old(self).lane_count()) ==> {
                &&& d == Decision::RunCompleted
                &&& final(self).at_run_start()
            },
    {
        if !outcome.success {
            self.failed = Some(self.project_idx);
            return Decision::FatalBuild;
        }
        if self.project_idx + 1 < self.n_projects {
            self.project_idx = self.project_idx + 1;
            return Decision::Continue;
        }
        self.project_idx = 0;
        let lanes = match self.mode {
            Mode::Sequential => self.cores.len(),
            Mode::Parallel => 1,
        };
        if self.core_idx + 1 < lanes {
            self.core_idx = self.core_idx + 1;
            Decision::Continue
        } else {
            self.core_idx = 0;
            Decision::RunCompleted
        }
    }
}

/// Runs repeat identically: the job an engine hands out is a function of its
/// inputs and its position alone.  Since a recorded outcome never changes the
/// inputs and a completed run resets the position to the run start, every
/// successful run processes exactly the job sequence of the first, whatever
/// the elapsed times were.
pub proof fn lemma_runs_identical(a: Engine, b: Engine)
    requires
        a.wf(),
        b.wf(),
        a.same_inputs(b),
        a.core_idx == b.core_idx,
        a.project_idx == b.project_idx,
    ensures
        a.spec_job() == b.spec_job(),
{
}

/// The fatal summary line for a failed build, naming the project.
pub fn build_failure_message(name: &str) -> (r: String)
    ensures
        r@ == "failed to build "@ + name@,
{
    let mut r = String::from_str("failed to build ");
    r.append(name);
    r
}

} // verus!
