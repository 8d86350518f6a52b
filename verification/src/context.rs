//! Resolving the receiver position, pairing the rover with a reference
//! site, and forming the context every operation works on.

use crate::dataset::{declared_by, AggregateDataset, RecordView};
use crate::error::Error;
use crate::mode::OperationMode;
use crate::position::{is_floor_sqrt, squared_distance, GeodeticPosition};
use vstd::prelude::*;

verus! {

/// Where a resolved position came from.
#[derive(Clone, Copy, Debug, PartialEq, Eq, Structural)]
pub enum PositionSource {
    /// Given by the user.
    Manual,
    /// Declared by the dataset.
    Dataset,
    /// Neither the user nor the dataset gave one.
    Undefined,
}

/// The base station of a differential run: its dataset and the position
/// that dataset declares.
#[derive(Clone, Debug)]
pub struct ReferenceSite {
    pub data: AggregateDataset,
    pub rx_ecef: GeodeticPosition,
}

/// What every operation of a run works on.
#[derive(Clone, Debug)]
pub struct AnalysisContext {
    /// Display name, derived from the rover input.
    pub name: String,
    /// The rover dataset.
    pub data: AggregateDataset,
    /// The base station, in a differential run whose base station declares
    /// its position.
    pub reference_site: Option<ReferenceSite>,
    /// Whether the report is left unopened.
    pub quiet: bool,
    /// The resolved rover position.
    pub rx_ecef: Option<GeodeticPosition>,
}

/// The authoritative position: the user's if there is one, else the one
/// the dataset declares, else none.
pub open spec fn resolved(
    manual_override: Option<GeodeticPosition>,
    declared: Option<GeodeticPosition>,
) -> Option<GeodeticPosition> {
    match manual_override {
        Some(position) => Some(position),
        None => declared,
    }
}

/// Where the authoritative position comes from.
pub open spec fn source_of(
    manual_override: Option<GeodeticPosition>,
    declared: Option<GeodeticPosition>,
) -> PositionSource {
    if manual_override is Some {
        PositionSource::Manual
    } else if declared is Some {
        PositionSource::Dataset
    } else {
        PositionSource::Undefined
    }
}

/// The reference site a run has: in a differential run whose base-station
/// dataset declares a position, that dataset with that position.
pub open spec fn site_of(mode: OperationMode, base: Option<Seq<RecordView>>) -> Option<
    (Seq<RecordView>, GeodeticPosition),
> {
    if mode.differential() && base is Some && declared_by(base->0) is Some {
        Some((base->0, declared_by(base->0)->0))
    } else {
        None
    }
}

/// The position a run works with: the manual override if one is given,
/// whatever the dataset declares; else the position the dataset declares;
/// else none, which is no error here.
pub fn resolve(manual_override: Option<GeodeticPosition>, dataset: &AggregateDataset) -> (position:
    Option<GeodeticPosition>)
    ensures
        position == resolved(manual_override, declared_by(dataset@)),
        manual_override is Some ==> position == manual_override,
        manual_override is None ==> position == declared_by(dataset@),
        position is None <==> manual_override is None && declared_by(dataset@) is None,
{
    match manual_override {
        Some(position) => Some(position),
        None => dataset.reference_position(),
    }
}

/// Where the position `resolve` returns comes from.
pub fn position_source(manual_override: Option<GeodeticPosition>, dataset: &AggregateDataset) -> (source:
    PositionSource)
    ensures
        source == source_of(manual_override, declared_by(dataset@)),
{
    if manual_override.is_some() {
        PositionSource::Manual
    } else if dataset.reference_position().is_some() {
        PositionSource::Dataset
    } else {
        PositionSource::Undefined
    }
}

/// The position an operation that cannot do without one works with, or
/// `Error::MissingPosition` if none was resolved.
pub fn require_position(position: Option<GeodeticPosition>) -> (r: Result<GeodeticPosition, Error>)
    ensures
        r == match position {
            Some(p) => Ok::<GeodeticPosition, Error>(p),
            None => Err::<GeodeticPosition, Error>(Error::MissingPosition),
        },
{
    match position {
        Some(p) => Ok(p),
        None => Err(Error::MissingPosition),
    }
}

/// Distance in millimetres, rounded down, between the rover and the base
/// station, when the rover position is known and both positions are within
/// the range distances can be computed in.
pub fn baseline(rover: Option<GeodeticPosition>, base: &GeodeticPosition) -> (distance: Option<u64>)
    ensures
        distance is Some <==> rover is Some && rover->0.in_range() && base.in_range(),
        distance is Some ==> is_floor_sqrt(squared_distance(rover->0, *base), distance->0 as nat),
{
    match rover {
        Some(position) => {
            if position.is_in_range() && base.is_in_range() {
                Some(position.baseline_to(base))
            } else {
                None
            }
        },
        None => None,
    }
}

impl ReferenceSite {
    /// The site's position is the one its dataset declares.
    pub open spec fn well_formed(self) -> bool {
        declared_by(self.data@) == Some(self.rx_ecef)
    }

    /// The reference site made of the base-station dataset, which must
    /// declare a position; without one there is no site, only
    /// `Error::MissingGeodeticMarker`.
    pub fn new(data: AggregateDataset) -> (r: Result<ReferenceSite, Error>)
        ensures
            r is Ok <==> declared_by(data@) is Some,
            r is Ok ==> r->Ok_0.data@ == data@ && r->Ok_0.rx_ecef == declared_by(data@)->0
                && r->Ok_0.well_formed(),
            r is Err ==> r->Err_0 == Error::MissingGeodeticMarker,
    {
        match data.reference_position() {
            Some(rx_ecef) => Ok(ReferenceSite { data, rx_ecef }),
            None => Err(Error::MissingGeodeticMarker),
        }
    }

    /// Distance in millimetres, rounded down, from the rover to this site.
    pub fn baseline_from(&self, rover: Option<GeodeticPosition>) -> (distance: Option<u64>)
        ensures
            distance is Some <==> rover is Some && rover->0.in_range() && self.rx_ecef.in_range(),
            distance is Some ==> is_floor_sqrt(
                squared_distance(rover->0, self.rx_ecef),
                distance->0 as nat,
            ),
    {
        baseline(rover, &self.rx_ecef)
    }
}

impl AnalysisContext {
    /// Every reference site the context holds is well formed.
    pub open spec fn well_formed(self) -> bool {
        self.reference_site is Some ==> self.reference_site->0.well_formed()
    }

    /// The reference site as contracts see it.
    pub open spec fn site_view(self) -> Option<(Seq<RecordView>, GeodeticPosition)> {
        match self.reference_site {
            Some(site) => Some((site.data@, site.rx_ecef)),
            None => None,
        }
    }

    /// Forms the context of a run.
    ///
    /// The rover position is resolved from the override and the rover
    /// dataset. A reference site is present exactly when the mode is
    /// differential, a base-station dataset is handed in and that dataset
    /// declares a position; in every other case the context has none.
    pub fn assemble(
        name: String,
        data: AggregateDataset,
        manual_override: Option<GeodeticPosition>,
        mode: OperationMode,
        base_station: Option<AggregateDataset>,
        quiet: bool,
    ) -> (context: AnalysisContext)
        ensures
            context.name@ == name@,
            context.data@ == data@,
            context.quiet == quiet,
            context.rx_ecef == resolved(manual_override, declared_by(data@)),
            context.site_view() == site_of(
                mode,
                match base_station {
                    Some(base) => Some(base@),
                    None => None,
                },
            ),
            context.well_formed(),
    {
        let rx_ecef = resolve(manual_override, &data);
        let reference_site = if mode.is_differential() {
            match base_station {
                Some(base) => match ReferenceSite::new(base) {
                    Ok(site) => Some(site),
                    Err(_) => None,
                },
                None => None,
            }
        } else {
            None
        };
        AnalysisContext { name, data, reference_site, quiet, rx_ecef }
    }

    /// The rover position, or `Error::MissingPosition` if none was resolved.
    pub fn position(&self) -> (r: Result<GeodeticPosition, Error>)
        ensures
            r == match self.rx_ecef {
                Some(p) => Ok::<GeodeticPosition, Error>(p),
                None => Err::<GeodeticPosition, Error>(Error::MissingPosition),
            },
    {
        require_position(self.rx_ecef)
    }

    /// Whether the context pairs the rover with a reference site.
    pub fn has_reference_site(&self) -> (b: bool)
        ensures
            b == self.reference_site is Some,
    {
        self.reference_site.is_some()
    }

    /// Distance in millimetres, rounded down, between the rover and the
    /// reference site, when there is a site, the rover position is known
    /// and both positions are within the range distances can be computed in.
    pub fn baseline(&self) -> (distance: Option<u64>)
        ensures
            distance is Some <==> self.reference_site is Some && self.rx_ecef is Some
                && self.rx_ecef->0.in_range() && self.reference_site->0.rx_ecef.in_range(),
            distance is Some ==> is_floor_sqrt(
                squared_distance(self.rx_ecef->0, self.reference_site->0.rx_ecef),
                distance->0 as nat,
            ),
    {
        match &self.reference_site {
            Some(site) => site.baseline_from(self.rx_ecef),
            None => None,
        }
    }
}

/// A reference site exists only in a differential run whose base-station
/// dataset declares a position, and then carries exactly that dataset and
/// that position.
pub proof fn lemma_site_needs_marker(mode: OperationMode, base: Option<Seq<RecordView>>)
    ensures
        site_of(mode, base) is Some <==> mode.differential() && base is Some && declared_by(
            base->0,
        ) is Some,
        site_of(mode, base) is Some ==> site_of(mode, base)->0 == (
            base->0,
            declared_by(base->0)->0,
        ),
{
}

} // verus!
