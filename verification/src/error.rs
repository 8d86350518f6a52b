//! What can go wrong in a run.

use vstd::prelude::*;

verus! {

/// A condition that ends a run, or that an operation reports when it lacks
/// what it needs.
#[derive(Clone, Copy, Debug, PartialEq, Eq, Structural)]
pub enum Error {
    /// The empty dataset could not be set up.
    ContextBootstrap,
    /// The base-station dataset declares no position.
    MissingGeodeticMarker,
    /// A differential computation was asked for without a reference site.
    MissingReferenceSite,
    /// An operation needs the receiver position and none was resolved.
    MissingPosition,
    StdioError,
    RinexError,
    MissingObservationRinex,
    MissingNavigationRinex,
    MissingIONEX,
    MissingMeteoRinex,
    MissingClockRinex,
    MergeError,
    SplitError,
    PositioningSolverError,
    CsvError,
}

impl Error {
    /// The text shown for this error.
    pub open spec fn text(self) -> Seq<char> {
        match self {
            Error::ContextBootstrap => "failed to initialize a context"@,
            Error::MissingGeodeticMarker => "remote site does not have its geodetic marker defined"@,
            Error::MissingReferenceSite => "missing reference site"@,
            Error::MissingPosition => "missing receiver position"@,
            Error::StdioError => "i/o error"@,
            Error::RinexError => "rinex error"@,
            Error::MissingObservationRinex => "missing OBS RINEX"@,
            Error::MissingNavigationRinex => "missing (BRDC) NAV RINEX"@,
            Error::MissingIONEX => "missing IONEX"@,
            Error::MissingMeteoRinex => "missing Meteo RINEX"@,
            Error::MissingClockRinex => "missing Clock RINEX"@,
            Error::MergeError => "merge ops failure"@,
            Error::SplitError => "split ops failure"@,
            Error::PositioningSolverError => "positioning solver error"@,
            Error::CsvError => "csv export error"@,
        }
    }

    /// The text shown for this error.
    pub fn message(&self) -> (text: &'static str)
        ensures
            text@ == self.text(),
    {
        match self {
            Error::ContextBootstrap => "failed to initialize a context",
            Error::MissingGeodeticMarker => "remote site does not have its geodetic marker defined",
            Error::MissingReferenceSite => "missing reference site",
            Error::MissingPosition => "missing receiver position",
            Error::StdioError => "i/o error",
            Error::RinexError => "rinex error",
            Error::MissingObservationRinex => "missing OBS RINEX",
            Error::MissingNavigationRinex => "missing (BRDC) NAV RINEX",
            Error::MissingIONEX => "missing IONEX",
            Error::MissingMeteoRinex => "missing Meteo RINEX",
            Error::MissingClockRinex => "missing Clock RINEX",
            Error::MergeError => "merge ops failure",
            Error::SplitError => "split ops failure",
            Error::PositioningSolverError => "positioning solver error",
            Error::CsvError => "csv export error",
        }
    }
}

} // verus!
