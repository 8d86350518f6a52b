//! The course of a run once its context is formed: which step the caller
//! performs next, and where each result leads.
//!
//! File-production modes end the run when their files are written. The
//! positioning modes and the report-only run go on to the report, which is
//! assembled once, after every extra page is known.

use crate::error::Error;
use crate::mode::OperationMode;
use vstd::prelude::*;

verus! {

/// How a run ended.
#[derive(Clone, Copy, Debug, PartialEq, Eq, Structural)]
pub enum Completion {
    /// The files of a file-production mode were written.
    FilesProduced,
    /// The report was generated.
    Reported,
    /// A step failed; the run stopped there.
    Failed(Error),
}

/// Where a run stands.
#[derive(Clone, Copy, Debug, PartialEq, Eq, Structural)]
pub enum Phase {
    /// The output directory is to be prepared.
    Preparing,
    /// The mode's own work is to be done.
    Operating,
    /// The report is to be assembled with this many extra pages.
    Reporting(usize),
    /// The report is to be opened for the user.
    Viewing,
    /// The run is over.
    Done(Completion),
}

/// What the caller does next.
#[derive(Clone, Copy, Debug, PartialEq, Eq, Structural)]
pub enum Action {
    /// Make sure the output directory exists.
    PrepareOutput,
    /// Run the file-production mode.
    Produce(OperationMode),
    /// Run the positioning solver, with or without a base station, and
    /// keep the page it returns.
    Solve { differential: bool },
    /// Attach the extra pages collected so far, then generate the report.
    AssembleReport { extra_pages: usize },
    /// Open the report for the user.
    OpenReport,
    /// Stop: the run is over.
    Stop(Completion),
}

/// A run in progress.
#[derive(Clone, Copy, Debug, PartialEq, Eq, Structural)]
pub struct Run {
    pub mode: OperationMode,
    pub quiet: bool,
    pub phase: Phase,
}

/// What the caller reports about the step it was asked to perform.
pub type StepResult = Result<(), Error>;

/// The phase a run starts in. A differential run without a reference site
/// fails before any work is done.
pub open spec fn first_phase(mode: OperationMode, has_reference_site: bool) -> Phase {
    if mode.produces_files() {
        Phase::Preparing
    } else if mode.differential() && !has_reference_site {
        Phase::Done(Completion::Failed(Error::MissingReferenceSite))
    } else if mode.positions() {
        Phase::Operating
    } else {
        Phase::Reporting(0)
    }
}

/// The step a run asks for in its current phase.
pub open spec fn action_of(run: Run) -> Action {
    match run.phase {
        Phase::Preparing => Action::PrepareOutput,
        Phase::Operating => if run.mode.positions() {
            Action::Solve { differential: run.mode.differential() }
        } else {
            Action::Produce(run.mode)
        },
        Phase::Reporting(extra_pages) => Action::AssembleReport { extra_pages },
        Phase::Viewing => Action::OpenReport,
        Phase::Done(completion) => Action::Stop(completion),
    }
}

/// The phase that follows once the caller reports the result of the step.
/// A failure while operating or reporting ends the run with that failure;
/// preparing the output directory and opening the report cannot fail the
/// run.
pub open spec fn phase_after(run: Run, result: StepResult) -> Phase {
    match run.phase {
        Phase::Preparing => Phase::Operating,
        Phase::Operating => match result {
            Err(error) => Phase::Done(Completion::Failed(error)),
            Ok(_) => if run.mode.positions() {
                Phase::Reporting(1)
            } else {
                Phase::Done(Completion::FilesProduced)
            },
        },
        Phase::Reporting(_) => match result {
            Err(error) => Phase::Done(Completion::Failed(error)),
            Ok(_) => if run.quiet {
                Phase::Done(Completion::Reported)
            } else {
                Phase::Viewing
            },
        },
        Phase::Viewing => Phase::Done(Completion::Reported),
        Phase::Done(completion) => Phase::Done(completion),
    }
}

/// The run after one more step.
pub open spec fn stepped(run: Run, result: StepResult) -> Run {
    Run { mode: run.mode, quiet: run.quiet, phase: phase_after(run, result) }
}

/// The run after the steps whose results are `results`, in order.
pub open spec fn run_after(run: Run, results: Seq<StepResult>) -> Run
    decreases results.len(),
{
    if results.len() == 0 {
        run
    } else {
        stepped(run_after(run, results.drop_last()), results.last())
    }
}

/// How often the report was assembled during the steps whose results are
/// `results`.
pub open spec fn reports_assembled(run: Run, results: Seq<StepResult>) -> nat
    decreases results.len(),
{
    if results.len() == 0 {
        0
    } else {
        let before = run_after(run, results.drop_last());
        reports_assembled(run, results.drop_last()) + if before.phase is Reporting {
            1nat
        } else {
            0nat
        }
    }
}

/// A fresh run of `mode`.
pub open spec fn fresh(mode: OperationMode, quiet: bool, has_reference_site: bool) -> Run {
    Run { mode, quiet, phase: first_phase(mode, has_reference_site) }
}

impl Run {
    /// A run of `mode` that has not done anything yet.
    pub fn new(mode: OperationMode, quiet: bool, has_reference_site: bool) -> (run: Run)
        ensures
            run == fresh(mode, quiet, has_reference_site),
    {
        let phase = if mode.is_file_production() {
            Phase::Preparing
        } else if mode.is_differential() && !has_reference_site {
            Phase::Done(Completion::Failed(Error::MissingReferenceSite))
        } else if mode.is_positioning() {
            Phase::Operating
        } else {
            Phase::Reporting(0)
        };
        Run { mode, quiet, phase }
    }

    /// The step the caller performs next.
    pub fn action(&self) -> (action: Action)
        ensures
            action == action_of(*self),
    {
        match self.phase {
            Phase::Preparing => Action::PrepareOutput,
            Phase::Operating => {
                if self.mode.is_positioning() {
                    Action::Solve { differential: self.mode.is_differential() }
                } else {
                    Action::Produce(self.mode)
                }
            },
            Phase::Reporting(extra_pages) => Action::AssembleReport { extra_pages },
            Phase::Viewing => Action::OpenReport,
            Phase::Done(completion) => Action::Stop(completion),
        }
    }

    /// Takes in the result of the step last asked for.
    pub fn advance(&mut self, result: StepResult)
        ensures
            *final(self) == stepped(*old(self), result),
    {
        let next = match self.phase {
            Phase::Preparing => Phase::Operating,
            Phase::Operating => match result {
                Err(error) => Phase::Done(Completion::Failed(error)),
                Ok(_) => {
                    if self.mode.is_positioning() {
                        Phase::Reporting(1)
                    } else {
                        Phase::Done(Completion::FilesProduced)
                    }
                },
            },
            Phase::Reporting(_) => match result {
                Err(error) => Phase::Done(Completion::Failed(error)),
                Ok(_) => {
                    if self.quiet {
                        Phase::Done(Completion::Reported)
                    } else {
                        Phase::Viewing
                    }
                },
            },
            Phase::Viewing => Phase::Done(Completion::Reported),
            Phase::Done(completion) => Phase::Done(completion),
        };
        self.phase = next;
    }

    /// Whether the run is over.
    pub fn is_done(&self) -> (b: bool)
        ensures
            b == self.phase is Done,
    {
        match self.phase {
            Phase::Done(_) => true,
            _ => false,
        }
    }

    /// What the run ends with, once it is over: nothing to complain about
    /// when files were produced or the report was generated, the failure
    /// otherwise.
    pub fn outcome(&self) -> (outcome: Option<StepResult>)
        ensures
            outcome == match self.phase {
                Phase::Done(Completion::Failed(error)) => Some(Err::<(), Error>(error)),
                Phase::Done(_) => Some(Ok::<(), Error>(())),
                _ => None::<StepResult>,
            },
    {
        match self.phase {
            Phase::Done(Completion::Failed(error)) => Some(Err(error)),
            Phase::Done(_) => Some(Ok(())),
            _ => None,
        }
    }
}

/// What holds of a run of `mode` at every moment, given how often the
/// report has been assembled so far.
pub open spec fn on_course(run: Run, mode: OperationMode, assembled: nat) -> bool {
    &&& run.mode == mode
    &&& match run.phase {
        Phase::Preparing => mode.produces_files() && assembled == 0,
        Phase::Operating => assembled == 0 && !(mode is ReportOnly),
        Phase::Reporting(extra_pages) => !mode.produces_files() && assembled == 0 && extra_pages
            == mode.page_count(),
        Phase::Viewing => !mode.produces_files() && assembled == 1,
        Phase::Done(Completion::FilesProduced) => mode.produces_files() && assembled == 0,
        Phase::Done(Completion::Reported) => !mode.produces_files() && assembled == 1,
        Phase::Done(Completion::Failed(_)) => assembled <= 1 && (mode.produces_files()
            ==> assembled == 0),
    }
}

/// A run stays on course whatever results are reported to it.
pub proof fn lemma_run_stays_on_course(
    mode: OperationMode,
    quiet: bool,
    has_reference_site: bool,
    results: Seq<StepResult>,
)
    ensures
        on_course(
            run_after(fresh(mode, quiet, has_reference_site), results),
            mode,
            reports_assembled(fresh(mode, quiet, has_reference_site), results),
        ),
    decreases results.len(),
{
    if results.len() > 0 {
        lemma_run_stays_on_course(mode, quiet, has_reference_site, results.drop_last());
    }
}

/// A file-production run never assembles the report, whatever happens, and
/// never ends as reported. Any other run assembles it at most once, and
/// exactly once if it ends as reported.
pub proof fn lemma_report_assembly(
    mode: OperationMode,
    quiet: bool,
    has_reference_site: bool,
    results: Seq<StepResult>,
)
    ensures
        mode.produces_files() ==> reports_assembled(
            fresh(mode, quiet, has_reference_site),
            results,
        ) == 0,
        mode.produces_files() ==> run_after(fresh(mode, quiet, has_reference_site), results).phase
            != Phase::Done(Completion::Reported),
        reports_assembled(fresh(mode, quiet, has_reference_site), results) <= 1,
        run_after(fresh(mode, quiet, has_reference_site), results).phase == Phase::Done(
            Completion::Reported,
        ) ==> reports_assembled(fresh(mode, quiet, has_reference_site), results) == 1,
        run_after(fresh(mode, quiet, has_reference_site), results).phase == Phase::Done(
            Completion::FilesProduced,
        ) ==> mode.produces_files(),
{
    lemma_run_stays_on_course(mode, quiet, has_reference_site, results);
}

/// A run whose every step succeeds is over after four steps at most. It
/// then has produced its files, if the mode produces files, and has
/// generated the report otherwise, unless it is a differential run without
/// a reference site, which fails at once.
pub proof fn lemma_successful_run_completes(
    mode: OperationMode,
    quiet: bool,
    has_reference_site: bool,
    results: Seq<StepResult>,
)
    requires
        results.len() >= 4,
        forall|i: int| 0 <= i < results.len() ==> (#[trigger] results[i]) is Ok,
    ensures
        run_after(fresh(mode, quiet, has_reference_site), results).phase == Phase::Done(
            if mode.produces_files() {
                Completion::FilesProduced
            } else if mode.differential() && !has_reference_site {
                Completion::Failed(Error::MissingReferenceSite)
            } else {
                Completion::Reported
            },
        ),
        !mode.produces_files() && !(mode.differential() && !has_reference_site)
            ==> reports_assembled(fresh(mode, quiet, has_reference_site), results) == 1,
{
    let start = fresh(mode, quiet, has_reference_site);
    lemma_settled_after_four(start, results, results.len() as int);
    assert(results.take(results.len() as int) =~= results);
    lemma_report_assembly(mode, quiet, has_reference_site, results);
}

/// After `n >= 4` successful steps the run is over, with the completion its
/// starting phase leads to.
proof fn lemma_settled_after_four(start: Run, results: Seq<StepResult>, n: int)
    requires
        4 <= n <= results.len(),
        forall|i: int| 0 <= i < results.len() ==> (#[trigger] results[i]) is Ok,
    ensures
        run_after(start, results.take(n)).phase == run_after(start, results.take(4)).phase,
        run_after(start, results.take(4)).phase is Done,
        start.phase is Preparing && start.mode.produces_files() ==> run_after(
            start,
            results.take(4),
        ).phase == Phase::Done(Completion::FilesProduced),
        (start.phase is Operating && start.mode.positions()) || start.phase is Reporting
            ==> run_after(start, results.take(4)).phase == Phase::Done(Completion::Reported),
        start.phase is Done ==> run_after(start, results.take(4)).phase == start.phase,
    decreases n,
{
    let r0 = results.take(0);
    let r1 = results.take(1);
    let r2 = results.take(2);
    let r3 = results.take(3);
    let r4 = results.take(4);
    assert(r1.drop_last() =~= r0);
    assert(r2.drop_last() =~= r1);
    assert(r3.drop_last() =~= r2);
    assert(r4.drop_last() =~= r3);
    assert(r1.last() == results[0] && r2.last() == results[1] && r3.last() == results[2]
        && r4.last() == results[3]);
    assert(run_after(start, r0) == start);
    assert(run_after(start, r1) == stepped(run_after(start, r0), r1.last()));
    assert(run_after(start, r2) == stepped(run_after(start, r1), r2.last()));
    assert(run_after(start, r3) == stepped(run_after(start, r2), r3.last()));
    assert(run_after(start, r4) == stepped(run_after(start, r3), r4.last()));
    if n > 4 {
        lemma_settled_after_four(start, results, n - 1);
        assert(results.take(n).drop_last() =~= results.take(n - 1));
    }
}

} // verus!
