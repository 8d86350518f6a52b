use rinex_cli::error::Error;
use rinex_cli::mode::OperationMode;
use rinex_cli::run::{Action, Completion, Phase, Run};

const FILE_MODES: [OperationMode; 5] = [
    OperationMode::Filegen,
    OperationMode::Merge,
    OperationMode::Split,
    OperationMode::TimeBin,
    OperationMode::Diff,
];

/// Drives a run to its end with every step succeeding; returns the actions asked for.
fn drive(mut run: Run) -> (Vec<Action>, Run) {
    let mut actions = Vec::new();
    for _ in 0..10 {
        let action = run.action();
        actions.push(action);
        if run.is_done() {
            break;
        }
        run.advance(Ok(()));
    }
    (actions, run)
}

fn reports(actions: &[Action]) -> usize {
    actions.iter().filter(|a| matches!(a, Action::AssembleReport { .. })).count()
}

#[test]
fn subcommand_names() {
    let pick = |s: &str| OperationMode::from_subcommand(Some(&s.to_string()));
    assert_eq!(pick("filegen"), OperationMode::Filegen);
    assert_eq!(pick("merge"), OperationMode::Merge);
    assert_eq!(pick("split"), OperationMode::Split);
    assert_eq!(pick("tbin"), OperationMode::TimeBin);
    assert_eq!(pick("diff"), OperationMode::Diff);
    assert_eq!(pick("ppp"), OperationMode::Ppp);
    assert_eq!(pick("rtk"), OperationMode::Rtk);
    assert_eq!(pick("RTK"), OperationMode::ReportOnly);
    assert_eq!(pick(""), OperationMode::ReportOnly);
    assert_eq!(pick("quality"), OperationMode::ReportOnly);
    assert_eq!(OperationMode::from_subcommand(None), OperationMode::ReportOnly);
}

#[test]
fn mode_families() {
    for mode in FILE_MODES {
        assert!(mode.is_file_production());
        assert!(mode.needs_output_directory());
        assert!(!mode.continues_to_report());
        assert!(!mode.is_positioning());
        assert!(!mode.is_differential());
    }
    for mode in [OperationMode::Ppp, OperationMode::Rtk] {
        assert!(!mode.is_file_production());
        assert!(!mode.needs_output_directory());
        assert!(mode.continues_to_report());
        assert!(mode.is_positioning());
    }
    assert!(OperationMode::Rtk.is_differential());
    assert!(!OperationMode::Ppp.is_differential());
    assert!(OperationMode::ReportOnly.continues_to_report());
    assert!(!OperationMode::ReportOnly.is_positioning());
    assert!(!OperationMode::ReportOnly.is_file_production());
}

#[test]
fn file_production_never_reaches_the_report() {
    for mode in FILE_MODES {
        for quiet in [false, true] {
            let (actions, run) = drive(Run::new(mode, quiet, false));
            assert_eq!(
                actions,
                vec![
                    Action::PrepareOutput,
                    Action::Produce(mode),
                    Action::Stop(Completion::FilesProduced)
                ]
            );
            assert_eq!(reports(&actions), 0);
            assert_eq!(run.outcome(), Some(Ok(())));
        }
    }
}

#[test]
fn positioning_reports_once_with_one_extra_page() {
    let (actions, run) = drive(Run::new(OperationMode::Ppp, false, false));
    assert_eq!(
        actions,
        vec![
            Action::Solve { differential: false },
            Action::AssembleReport { extra_pages: 1 },
            Action::OpenReport,
            Action::Stop(Completion::Reported)
        ]
    );
    assert_eq!(reports(&actions), 1);
    assert_eq!(run.outcome(), Some(Ok(())));

    let (actions, _) = drive(Run::new(OperationMode::Rtk, true, true));
    assert_eq!(
        actions,
        vec![
            Action::Solve { differential: true },
            Action::AssembleReport { extra_pages: 1 },
            Action::Stop(Completion::Reported)
        ]
    );
}

#[test]
fn default_run_reports_once_without_extra_pages() {
    let (actions, _) = drive(Run::new(OperationMode::ReportOnly, false, false));
    assert_eq!(
        actions,
        vec![
            Action::AssembleReport { extra_pages: 0 },
            Action::OpenReport,
            Action::Stop(Completion::Reported)
        ]
    );
    let (actions, _) = drive(Run::new(OperationMode::ReportOnly, true, false));
    assert_eq!(
        actions,
        vec![Action::AssembleReport { extra_pages: 0 }, Action::Stop(Completion::Reported)]
    );
    assert_eq!(reports(&actions), 1);
}

#[test]
fn differential_run_without_site_fails_at_once() {
    let run = Run::new(OperationMode::Rtk, false, false);
    assert!(run.is_done());
    assert_eq!(run.action(), Action::Stop(Completion::Failed(Error::MissingReferenceSite)));
    assert_eq!(run.outcome(), Some(Err(Error::MissingReferenceSite)));
}

#[test]
fn failures_end_the_run() {
    let mut run = Run::new(OperationMode::Merge, false, false);
    run.advance(Ok(()));
    run.advance(Err(Error::MergeError));
    assert_eq!(run.phase, Phase::Done(Completion::Failed(Error::MergeError)));
    assert_eq!(run.outcome(), Some(Err(Error::MergeError)));
    run.advance(Ok(()));
    assert_eq!(run.phase, Phase::Done(Completion::Failed(Error::MergeError)));

    let mut run = Run::new(OperationMode::Ppp, false, false);
    run.advance(Err(Error::PositioningSolverError));
    assert_eq!(run.action(), Action::Stop(Completion::Failed(Error::PositioningSolverError)));

    let mut run = Run::new(OperationMode::ReportOnly, false, false);
    assert_eq!(run.outcome(), None);
    run.advance(Err(Error::StdioError));
    assert_eq!(run.outcome(), Some(Err(Error::StdioError)));
}

#[test]
fn preparing_the_output_cannot_fail_the_run() {
    let mut run = Run::new(OperationMode::Split, false, false);
    run.advance(Err(Error::StdioError));
    assert_eq!(run.phase, Phase::Operating);
    assert_eq!(run.action(), Action::Produce(OperationMode::Split));
}

#[test]
fn error_messages() {
    assert_eq!(Error::StdioError.message(), "i/o error");
    assert_eq!(Error::RinexError.message(), "rinex error");
    assert_eq!(Error::MissingObservationRinex.message(), "missing OBS RINEX");
    assert_eq!(Error::MissingNavigationRinex.message(), "missing (BRDC) NAV RINEX");
    assert_eq!(Error::MissingIONEX.message(), "missing IONEX");
    assert_eq!(Error::MissingMeteoRinex.message(), "missing Meteo RINEX");
    assert_eq!(Error::MissingClockRinex.message(), "missing Clock RINEX");
    assert_eq!(Error::MergeError.message(), "merge ops failure");
    assert_eq!(Error::SplitError.message(), "split ops failure");
    assert_eq!(Error::PositioningSolverError.message(), "positioning solver error");
    assert_eq!(Error::CsvError.message(), "csv export error");
    assert_eq!(Error::ContextBootstrap.message(), "failed to initialize a context");
    assert_eq!(
        Error::MissingGeodeticMarker.message(),
        "remote site does not have its geodetic marker defined"
    );
    assert_eq!(Error::MissingReferenceSite.message(), "missing reference site");
    assert_eq!(Error::MissingPosition.message(), "missing receiver position");
}
