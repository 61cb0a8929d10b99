//! The orchestrator: steps run strictly one after another, every step runs
//! whatever became of the earlier ones, and the outcomes are folded into a
//! verdict once the last one is recorded.
//!
//! The orchestrator never does the outside work itself. It is a state machine:
//! each call hands it what happened and hands back what to do next.

use vstd::prelude::*;
use crate::canvas::{
    Badge, Color, PaintOp, PaintView, badge_plan, label_plan, ops_view, status_plan,
    paint_badge, paint_label, paint_status,
};
use crate::runner::{ProcessEnd, StepOutcome, StepSpec, StepView, outcome, outcome_matches, passes};

verus! {

/// A failure of the surroundings, which stops a run before any step executes.
#[derive(Clone, Copy, Debug, PartialEq, Eq, Structural)]
pub enum EnvFailure {
    /// The log directory could not be created or written.
    LogDirectory,
    /// The terminal's dimensions could not be determined.
    TerminalSize,
}

/// Where a run stands.
#[derive(Clone, Copy, Debug, PartialEq, Eq, Structural)]
pub enum Phase {
    Idle,
    /// Step `i` is in flight; steps before it have been recorded.
    Running(usize),
    Done,
    Aborted(EnvFailure),
}

/// What the caller is to do next.
#[derive(Clone, Copy, Debug, PartialEq, Eq, Structural)]
pub enum Action {
    /// Launch step `i` and report how its process ended.
    Run(usize),
    /// Every step is recorded; exit with this code.
    Finish(u8),
    /// The run is over before any step ran.
    Abort(EnvFailure),
}

/// Every outcome passed (vacuously so for none).
pub open spec fn all_passed(outcomes: Seq<StepOutcome>) -> bool {
    forall|i: int| 0 <= i < outcomes.len() ==> #[trigger] outcomes[i].succeeded
}

/// The process exit code: 0 when every step succeeded, 1 otherwise.
pub open spec fn verdict_code(pass: bool) -> u8 {
    if pass {
        0
    } else {
        1
    }
}

/// All outcomes of one completed run, in the order of its steps.
#[derive(Debug)]
pub struct RunReport {
    pub outcomes: Vec<StepOutcome>,
}

impl RunReport {
    /// Whether every step of the run succeeded; true for a run of no steps.
    pub fn overall_success(&self) -> (r: bool)
        ensures
            r == all_passed(self.outcomes@),
    {
        let mut i: usize = 0;
        while i < self.outcomes.len()
            invariant
                0 <= i <= self.outcomes.len(),
                all_passed(self.outcomes@.take(i as int)),
            decreases self.outcomes.len() - i,
        {
            if !self.outcomes[i].succeeded {
                assert(!self.outcomes@[i as int].succeeded);
                return false;
            }
            assert(all_passed(self.outcomes@.take(i as int + 1))) by {
                assert forall|j: int| 0 <= j < i + 1 implies #[trigger] self.outcomes@.take(
                    i as int + 1,
                )[j].succeeded by {
                    if j < i {
                        assert(self.outcomes@.take(i as int)[j].succeeded);
                    }
                }
            }
            i = i + 1;
        }
        assert(self.outcomes@.take(i as int) =~= self.outcomes@);
        true
    }

    /// The process exit code of the run: 0 when every step succeeded, 1 otherwise.
    pub fn exit_code(&self) -> (r: u8)
        ensures
            r == verdict_code(all_passed(self.outcomes@)),
    {
        if self.overall_success() {
            0
        } else {
            1
        }
    }
}

/// A run of no steps passes and exits with 0.
pub proof fn lemma_empty_run_passes(report: RunReport)
    requires
        report.outcomes@.len() == 0,
    ensures
        all_passed(report.outcomes@),
        verdict_code(all_passed(report.outcomes@)) == 0,
{
}

/// Each outcome is that of the step at the same position, for some way in
/// which its process ended.
pub open spec fn outcomes_belong(outcomes: Seq<StepOutcome>, log_dir: Seq<char>, steps: Seq<StepView>) -> bool {
    forall|j: int| 0 <= j < outcomes.len() ==> belongs(#[trigger] outcomes[j], log_dir, steps[j])
}

/// `o` is the outcome of `step` for some way in which its process ended.
pub open spec fn belongs(o: StepOutcome, log_dir: Seq<char>, step: StepView) -> bool {
    exists|end: ProcessEnd| outcome_matches(o, log_dir, step, end)
}

/// The orchestrator of one run.
pub struct Gate {
    steps: Vec<StepSpec>,
    log_dir: String,
    outcomes: Vec<StepOutcome>,
    phase: Phase,
}

impl Gate {
    /// The steps of the run, in order.
    pub closed spec fn steps(&self) -> Seq<StepView> {
        self.steps@.map_values(|s: StepSpec| s@)
    }

    /// The directory under which the steps' output is archived.
    pub closed spec fn log_dir(&self) -> Seq<char> {
        self.log_dir@
    }

    /// The outcomes recorded so far, in the order of the steps.
    pub closed spec fn outcomes(&self) -> Seq<StepOutcome> {
        self.outcomes@
    }

    pub closed spec fn phase(&self) -> Phase {
        self.phase
    }

    /// The number of outcomes that a phase has recorded.
    pub open spec fn recorded_in(phase: Phase, n: int) -> int {
        match phase {
            Phase::Idle => 0,
            Phase::Running(i) => i as int,
            Phase::Done => n,
            Phase::Aborted(_) => 0,
        }
    }

    /// The outcomes belong, one for one and in order, to a prefix of the steps
    /// whose length the phase gives; a step in flight is one of the steps.
    pub open spec fn wf(&self) -> bool {
        &&& self.outcomes().len() == Self::recorded_in(self.phase(), self.steps().len() as int)
        &&& (self.phase() matches Phase::Running(i) ==> i < self.steps().len())
        &&& outcomes_belong(self.outcomes(), self.log_dir(), self.steps())
    }

    /// A run of `steps` that has not started, archiving under `log_dir`.
    pub fn new(steps: Vec<StepSpec>, log_dir: &str) -> (r: Gate)
        ensures
            r.wf(),
            r.phase() == Phase::Idle,
            r.steps() == steps@.map_values(|s: StepSpec| s@),
            r.log_dir() == log_dir@,
            r.outcomes().len() == 0,
    {
        Gate { steps, log_dir: String::from_str(log_dir), outcomes: Vec::new(), phase: Phase::Idle }
    }

    pub fn current_phase(&self) -> (r: Phase)
        ensures
            r == self.phase(),
    {
        self.phase
    }

    /// How many outcomes have been recorded.
    pub fn outcomes_len(&self) -> (r: usize)
        ensures
            r == self.outcomes().len(),
    {
        self.outcomes.len()
    }

    /// Step `i` of the run.
    pub fn step(&self, i: usize) -> (r: &StepSpec)
        requires
            i < self.steps().len(),
        ensures
            r@ == self.steps()[i as int],
    {
        &self.steps[i]
    }

    /// Starts the run once the surroundings have been set up. A failed set-up
    /// ends the run at once with no step run and nothing recorded; otherwise
    /// the first step is launched, or the run passes at once if there is none.
    pub fn start(&mut self, env: Result<(), EnvFailure>) -> (a: Action)
        requires
            old(self).wf(),
            old(self).phase() == Phase::Idle,
        ensures
            final(self).wf(),
            final(self).steps() == old(self).steps(),
            final(self).log_dir() == old(self).log_dir(),
            final(self).outcomes().len() == 0,
            match env {
                Err(e) => final(self).phase() == Phase::Aborted(e) && a == Action::Abort(e),
                Ok(_) => if old(self).steps().len() == 0 {
                    final(self).phase() == Phase::Done && a == Action::Finish(0)
                } else {
                    final(self).phase() == Phase::Running(0) && a == Action::Run(0)
                },
            },
    {
        match env {
            Err(e) => {
                self.phase = Phase::Aborted(e);
                Action::Abort(e)
            },
            Ok(_) => {
                if self.steps.len() == 0 {
                    self.phase = Phase::Done;
                    Action::Finish(0)
                } else {
                    self.phase = Phase::Running(0);
                    Action::Run(0)
                }
            },
        }
    }

    /// Records how the process of the step in flight ended. The next step is
    /// launched whatever this one's outcome; after the last one the run is
    /// done and the verdict's exit code is handed back.
    pub fn step_finished(&mut self, end: ProcessEnd) -> (a: Action)
        requires
            old(self).wf(),
            old(self).phase() matches Phase::Running(_),
        ensures
            final(self).wf(),
            final(self).steps() == old(self).steps(),
            final(self).log_dir() == old(self).log_dir(),
            final(self).outcomes().drop_last() == old(self).outcomes(),
            final(self).outcomes().len() == old(self).outcomes().len() + 1,
            outcome_matches(
                final(self).outcomes().last(),
                old(self).log_dir(),
                old(self).steps()[old(self).outcomes().len() as int],
                end,
            ),
            ({
                let i = old(self).outcomes().len();
                if i + 1 < old(self).steps().len() {
                    final(self).phase() == Phase::Running((i + 1) as usize) && a == Action::Run(
                        (i + 1) as usize,
                    )
                } else {
                    final(self).phase() == Phase::Done && a == Action::Finish(
                        verdict_code(all_passed(final(self).outcomes())),
                    )
                }
            }),
    {
        let i = match self.phase {
            Phase::Running(i) => i,
            _ => 0,
        };
        assert(i < self.steps@.len());
        let o = outcome(self.log_dir.as_str(), &self.steps[i], end);
        let ghost start = *self;
        self.outcomes.push(o);
        let ghost outs = self.outcomes();
        let ghost dir = self.log_dir();
        let ghost steps = self.steps();
        assert(start.wf());
        assert forall|j: int| 0 <= j < outs.len() implies belongs(#[trigger] outs[j], dir, steps[j]) by {
            if j < start.outcomes().len() {
                assert(start.outcomes()[j] == outs[j]);
                assert(belongs(start.outcomes()[j], start.log_dir(), start.steps()[j]));
            } else {
                assert(outcome_matches(outs[j], dir, steps[j], end));
            }
        }
        assert(outcomes_belong(outs, dir, steps));
        let ghost before = start.outcomes@;
        assert(self.steps@.len() == start.steps@.len());
        assert(i < self.steps@.len());
        assert(self.outcomes@.len() == i + 1);
        assert(outcomes_belong(self.outcomes(), self.log_dir(), self.steps()));
        assert(self.outcomes@.drop_last() =~= before);
        let n = self.steps.len();
        if i < n - 1 {
            self.phase = Phase::Running(i + 1);
            Action::Run(i + 1)
        } else {
            self.phase = Phase::Done;
            let code = self.verdict();
            Action::Finish(code)
        }
    }

    fn verdict(&self) -> (r: u8)
        ensures
            r == verdict_code(all_passed(self.outcomes())),
    {
        let mut i: usize = 0;
        while i < self.outcomes.len()
            invariant
                0 <= i <= self.outcomes.len(),
                forall|j: int| 0 <= j < i ==> #[trigger] self.outcomes@[j].succeeded,
            decreases self.outcomes.len() - i,
        {
            if !self.outcomes[i].succeeded {
                return 1;
            }
            i = i + 1;
        }
        0
    }

    /// What the row of step `i` shows while it is in flight: its label and the
    /// first spinner frame.
    pub fn running_paint(&self, i: usize, cols: u16) -> (r: Vec<PaintOp>)
        requires
            i < self.steps().len(),
        ensures
            ops_view(r@) == label_plan(self.steps()[i as int].row, Color::Green, self.steps()[i as int].label)
                + badge_plan(self.steps()[i as int].row, cols, Badge::Spinner(0)),
    {
        let s = &self.steps[i];
        let mut ops = paint_label(s.row, Color::Green, s.label.as_str());
        let mut badge = paint_badge(s.row, cols, Badge::Spinner(0));
        let ghost first = ops@;
        let ghost second = badge@;
        ops.append(&mut badge);
        assert(ops_view(ops@) =~= ops_view(first) + ops_view(second));
        ops
    }

    /// What the row of recorded step `i` shows for good: its pass or fail
    /// message with a green `[ ok ]` or a red `[ !! ]` badge.
    pub fn result_paint(&self, i: usize, cols: u16) -> (r: Vec<PaintOp>)
        requires
            self.wf(),
            i < self.outcomes().len(),
        ensures
            ({
                let s = self.steps()[i as int];
                ops_view(r@) == if self.outcomes()[i as int].succeeded {
                    status_plan(s.row, cols, s.passed, Badge::Passed)
                } else {
                    status_plan(s.row, cols, s.failed, Badge::Failed)
                }
            }),
    {
        let s = &self.steps[i];
        if self.outcomes[i].succeeded {
            paint_status(s.row, cols, s.passed.as_str(), Badge::Passed)
        } else {
            paint_status(s.row, cols, s.failed.as_str(), Badge::Failed)
        }
    }

    /// Ends the run: the report of a finished run, or the failure that
    /// stopped it.
    pub fn into_report(self) -> (r: Result<RunReport, EnvFailure>)
        requires
            self.wf(),
            self.phase() == Phase::Done || self.phase() matches Phase::Aborted(_),
        ensures
            match self.phase() {
                Phase::Aborted(e) => r == Err::<RunReport, EnvFailure>(e),
                _ => r matches Ok(rep) && rep.outcomes@ == self.outcomes(),
            },
    {
        match self.phase {
            Phase::Aborted(e) => Err(e),
            _ => Ok(RunReport { outcomes: self.outcomes }),
        }
    }
}

/// Runs `steps` in order under `log_dir`, the process of step `i` ending as
/// `ends[i]`: one outcome per step, in the order of the steps, each the
/// outcome of its own step; a failed step never keeps a later one from running.
pub fn run_all(steps: Vec<StepSpec>, log_dir: &str, ends: &Vec<ProcessEnd>) -> (r: RunReport)
    requires
        steps.len() == ends.len(),
    ensures
        r.outcomes@.len() == steps@.len(),
        forall|i: int|
            0 <= i < steps@.len() ==> outcome_matches(
                #[trigger] r.outcomes@[i],
                log_dir@,
                steps@[i]@,
                ends@[i],
            ),
{
    let ghost views = steps@.map_values(|s: StepSpec| s@);
    let n = steps.len();
    let mut gate = Gate::new(steps, log_dir);
    let mut a = gate.start(Ok(()));
    while a != Action::Finish(0) && a != Action::Finish(1)
        invariant
            gate.wf(),
            gate.steps() == views,
            gate.log_dir() == log_dir@,
            views.len() == n,
            n == ends.len(),
            a == Action::Finish(0) || a == Action::Finish(1) || (a == Action::Run(
                gate.outcomes().len() as usize,
            ) && gate.phase() == Phase::Running(gate.outcomes().len() as usize)),
            (a == Action::Finish(0) || a == Action::Finish(1)) ==> gate.phase() == Phase::Done,
            forall|j: int|
                0 <= j < gate.outcomes().len() ==> outcome_matches(
                    #[trigger] gate.outcomes()[j],
                    log_dir@,
                    views[j],
                    ends@[j],
                ),
        decreases n - gate.outcomes().len(),
    {
        let i = gate.outcomes_len();
        let ghost prev = gate.outcomes();
        a = gate.step_finished(ends[i]);
        assert forall|j: int| 0 <= j < gate.outcomes().len() implies outcome_matches(
            #[trigger] gate.outcomes()[j],
            log_dir@,
            views[j],
            ends@[j],
        ) by {
            if j < prev.len() {
                assert(gate.outcomes()[j] == gate.outcomes().drop_last()[j]);
            }
        }
    }
    match gate.into_report() {
        Ok(rep) => rep,
        Err(_) => RunReport { outcomes: Vec::new() },
    }
}

/// A run passes exactly when the process of every one of its steps exited
/// with status 0; so a run of no steps passes.
pub proof fn lemma_run_passes_iff_all_exit_zero(
    outcomes: Seq<StepOutcome>,
    log_dir: Seq<char>,
    steps: Seq<StepView>,
    ends: Seq<ProcessEnd>,
)
    requires
        outcomes.len() == steps.len(),
        ends.len() == steps.len(),
        forall|i: int|
            0 <= i < steps.len() ==> outcome_matches(#[trigger] outcomes[i], log_dir, steps[i], ends[i]),
    ensures
        all_passed(outcomes) <==> (forall|i: int| 0 <= i < ends.len() ==> #[trigger] passes(ends[i])),
        steps.len() == 0 ==> all_passed(outcomes) && verdict_code(all_passed(outcomes)) == 0,
{
    if all_passed(outcomes) {
        assert forall|i: int| 0 <= i < ends.len() implies #[trigger] passes(ends[i]) by {
            assert(outcomes[i].succeeded);
        }
    }
    if forall|i: int| 0 <= i < ends.len() ==> #[trigger] passes(ends[i]) {
        assert forall|i: int| 0 <= i < outcomes.len() implies #[trigger] outcomes[i].succeeded by {
            assert(outcome_matches(outcomes[i], log_dir, steps[i], ends[i]));
            assert(passes(ends[i]));
        }
    }
}

} // verus!
