//! The operating modes of a run, of which exactly one is selected.

use vstd::prelude::*;

verus! {

/// The command a run executes. Exactly one is selected per run; when the
/// user names none, the run only produces the report.
#[derive(Clone, Copy, Debug, PartialEq, Eq, Structural)]
pub enum OperationMode {
    /// Emits derived files from the context.
    Filegen,
    /// Combines two datasets into one output file.
    Merge,
    /// Splits one dataset at boundaries.
    Split,
    /// Re-chunks a dataset by time interval.
    TimeBin,
    /// Emits a differenced dataset.
    Diff,
    /// Single-receiver positioning.
    Ppp,
    /// Differential positioning against a base station.
    Rtk,
    /// No command: the report alone.
    ReportOnly,
}

/// The mode a command name selects. A name that is not a command, like no
/// name at all, selects the report alone.
pub open spec fn mode_named(name: Seq<char>) -> OperationMode {
    if name == "filegen"@ {
        OperationMode::Filegen
    } else if name == "merge"@ {
        OperationMode::Merge
    } else if name == "split"@ {
        OperationMode::Split
    } else if name == "tbin"@ {
        OperationMode::TimeBin
    } else if name == "diff"@ {
        OperationMode::Diff
    } else if name == "ppp"@ {
        OperationMode::Ppp
    } else if name == "rtk"@ {
        OperationMode::Rtk
    } else {
        OperationMode::ReportOnly
    }
}

/// Whether `name` spells exactly `word`.
fn spells(name: &String, word: &str) -> (b: bool)
    ensures
        b == (name@ == word@),
{
    let owned = word.to_owned();
    *name == owned
}

impl OperationMode {
    /// The mode produces files and ends the run without a report.
    pub open spec fn produces_files(self) -> bool {
        self is Filegen || self is Merge || self is Split || self is TimeBin || self is Diff
    }

    /// The mode runs a positioning solver and adds a page to the report.
    pub open spec fn positions(self) -> bool {
        self is Ppp || self is Rtk
    }

    /// The mode pairs the rover with a base station.
    pub open spec fn differential(self) -> bool {
        self is Rtk
    }

    /// Number of extra pages the mode contributes to the report.
    pub open spec fn page_count(self) -> nat {
        if self.positions() {
            1
        } else {
            0
        }
    }

    /// The mode selected by the command the user named, if any.
    pub fn from_subcommand(name: Option<&String>) -> (mode: OperationMode)
        ensures
            mode == match name {
                Some(n) => mode_named(n@),
                None => OperationMode::ReportOnly,
            },
    {
        match name {
            None => OperationMode::ReportOnly,
            Some(n) => {
                if spells(n, "filegen") {
                    OperationMode::Filegen
                } else if spells(n, "merge") {
                    OperationMode::Merge
                } else if spells(n, "split") {
                    OperationMode::Split
                } else if spells(n, "tbin") {
                    OperationMode::TimeBin
                } else if spells(n, "diff") {
                    OperationMode::Diff
                } else if spells(n, "ppp") {
                    OperationMode::Ppp
                } else if spells(n, "rtk") {
                    OperationMode::Rtk
                } else {
                    OperationMode::ReportOnly
                }
            },
        }
    }

    /// Whether the mode produces files and ends the run without a report.
    pub fn is_file_production(self) -> (b: bool)
        ensures
            b == self.produces_files(),
    {
        match self {
            OperationMode::Filegen
            | OperationMode::Merge
            | OperationMode::Split
            | OperationMode::TimeBin
            | OperationMode::Diff => true,
            _ => false,
        }
    }

    /// Whether the mode runs a positioning solver.
    pub fn is_positioning(self) -> (b: bool)
        ensures
            b == self.positions(),
    {
        match self {
            OperationMode::Ppp | OperationMode::Rtk => true,
            _ => false,
        }
    }

    /// Whether the mode pairs the rover with a base station, so that a
    /// second dataset has to be loaded.
    pub fn is_differential(self) -> (b: bool)
        ensures
            b == self.differential(),
    {
        match self {
            OperationMode::Rtk => true,
            _ => false,
        }
    }

    /// Whether the run goes on to the report after the mode's own work.
    pub fn continues_to_report(self) -> (b: bool)
        ensures
            b == !self.produces_files(),
    {
        !self.is_file_production()
    }

    /// Whether the output directory has to exist before the mode runs.
    pub fn needs_output_directory(self) -> (b: bool)
        ensures
            b == self.produces_files(),
    {
        self.is_file_production()
    }
}

/// Every mode belongs to exactly one of three families: file production,
/// positioning, or the report alone.
pub proof fn lemma_modes_are_exclusive(mode: OperationMode)
    ensures
        mode.produces_files() || mode.positions() || mode is ReportOnly,
        !(mode.produces_files() && mode.positions()),
        !(mode.produces_files() && mode is ReportOnly),
        !(mode.positions() && mode is ReportOnly),
{
}

} // verus!
