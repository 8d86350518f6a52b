use rinex_cli::context::{
    baseline, position_source, require_position, resolve, AnalysisContext, PositionSource,
    ReferenceSite,
};
use rinex_cli::dataset::{AggregateDataset, Record};
use rinex_cli::error::Error;
use rinex_cli::mode::OperationMode;
use rinex_cli::position::{
    display_unit, floor_sqrt, GeodeticPosition, LengthUnit, COORDINATE_LIMIT,
    KILOMETRE_THRESHOLD_MM,
};
use rinex_cli::probe::Format;

fn at(x_mm: i64, y_mm: i64, z_mm: i64) -> GeodeticPosition {
    GeodeticPosition { x_mm, y_mm, z_mm }
}

fn dataset(declared: Option<GeodeticPosition>) -> AggregateDataset {
    AggregateDataset {
        records: vec![Record {
            path: "obs.rnx".to_string(),
            format: Format::Rinex,
            declared_position: declared,
        }],
    }
}

#[test]
fn override_wins_over_dataset() {
    let manual = at(1, 2, 3);
    let declared = at(9, 9, 9);
    assert_eq!(resolve(Some(manual), &dataset(Some(declared))), Some(manual));
    assert_eq!(resolve(Some(manual), &dataset(None)), Some(manual));
    assert_eq!(resolve(Some(manual), &AggregateDataset::new()), Some(manual));
    assert_eq!(position_source(Some(manual), &dataset(Some(declared))), PositionSource::Manual);
}

#[test]
fn dataset_position_is_used_without_override() {
    let declared = at(4_000_000_000, 1_000_000_000, 4_800_000_000);
    assert_eq!(resolve(None, &dataset(Some(declared))), Some(declared));
    assert_eq!(position_source(None, &dataset(Some(declared))), PositionSource::Dataset);
}

#[test]
fn no_position_is_not_an_error_until_required() {
    assert_eq!(resolve(None, &dataset(None)), None);
    assert_eq!(resolve(None, &AggregateDataset::new()), None);
    assert_eq!(position_source(None, &dataset(None)), PositionSource::Undefined);
    assert_eq!(require_position(None), Err(Error::MissingPosition));
    assert_eq!(require_position(Some(at(1, 1, 1))), Ok(at(1, 1, 1)));
}

#[test]
fn reference_site_needs_a_marker() {
    assert_eq!(ReferenceSite::new(dataset(None)).err(), Some(Error::MissingGeodeticMarker));
    assert_eq!(
        ReferenceSite::new(AggregateDataset::new()).err(),
        Some(Error::MissingGeodeticMarker)
    );
    let marker = at(5, 6, 7);
    let site = ReferenceSite::new(dataset(Some(marker))).unwrap();
    assert_eq!(site.rx_ecef, marker);
    assert_eq!(site.data.len(), 1);
    assert_eq!(site.data.records[0].path, "obs.rnx");
}

#[test]
fn baseline_is_the_euclidean_norm() {
    // (0,0,0) m and (3,4,0) m are 5 m apart
    let d = baseline(Some(at(0, 0, 0)), &at(3_000, 4_000, 0)).unwrap();
    assert_eq!(d, 5_000);
    let metres = d as f64 / 1000.0;
    assert!((metres - 5.0).abs() < 1e-9);
    assert_eq!(baseline(Some(at(1, 2, 3)), &at(1, 2, 3)), Some(0));
    assert_eq!(baseline(Some(at(-1_000, 0, 0)), &at(1_000, 0, 0)), Some(2_000));
    // sqrt(1 + 1 + 1) rounds down to 1
    assert_eq!(baseline(Some(at(0, 0, 0)), &at(1, 1, 1)), Some(1));
    // sqrt(2^2 + 3^2 + 6^2) = 7
    assert_eq!(baseline(Some(at(2, 3, 6)), &at(0, 0, 0)), Some(7));
    assert_eq!(at(0, 0, 0).squared_distance_to(&at(3, 4, 12)), 169);
    assert_eq!(at(0, 0, 0).baseline_to(&at(3, 4, 12)), 13);
}

#[test]
fn baseline_without_rover_position_is_not_computed() {
    assert_eq!(baseline(None, &at(1, 2, 3)), None);
}

#[test]
fn baseline_at_the_coordinate_limit() {
    let far = at(COORDINATE_LIMIT, COORDINATE_LIMIT, COORDINATE_LIMIT);
    let opposite = at(-COORDINATE_LIMIT, -COORDINATE_LIMIT, -COORDINATE_LIMIT);
    let d = baseline(Some(far), &opposite).unwrap() as u128;
    let exact: u128 = 3 * (1u128 << 126);
    assert!(d * d <= exact && exact < (d + 1) * (d + 1));
    assert_eq!(baseline(Some(at(COORDINATE_LIMIT + 1, 0, 0)), &at(0, 0, 0)), None);
    assert_eq!(baseline(Some(at(0, 0, 0)), &at(0, i64::MIN, 0)), None);
}

#[test]
fn positions_within_the_limit() {
    assert_eq!(GeodeticPosition::new(1, 2, 3), Some(at(1, 2, 3)));
    assert_eq!(
        GeodeticPosition::new(COORDINATE_LIMIT, -COORDINATE_LIMIT, 0),
        Some(at(COORDINATE_LIMIT, -COORDINATE_LIMIT, 0))
    );
    assert_eq!(GeodeticPosition::new(COORDINATE_LIMIT + 1, 0, 0), None);
    assert_eq!(GeodeticPosition::new(0, -COORDINATE_LIMIT - 1, 0), None);
    assert_eq!(GeodeticPosition::new(0, 0, i64::MAX), None);
    assert!(at(0, 0, 0).is_in_range());
    assert!(!at(0, 0, i64::MIN).is_in_range());
}

#[test]
fn integer_square_roots() {
    assert_eq!(floor_sqrt(0), 0);
    assert_eq!(floor_sqrt(1), 1);
    assert_eq!(floor_sqrt(3), 1);
    assert_eq!(floor_sqrt(4), 2);
    assert_eq!(floor_sqrt(24), 4);
    assert_eq!(floor_sqrt(25), 5);
    assert_eq!(floor_sqrt(25_000_000), 5_000);
    assert_eq!(floor_sqrt(u128::MAX), u64::MAX);
    assert_eq!(floor_sqrt((u64::MAX as u128) * (u64::MAX as u128) - 1), u64::MAX - 1);
}

#[test]
fn kilometres_only_above_one_kilometre() {
    assert_eq!(display_unit(0), LengthUnit::Metres);
    assert_eq!(display_unit(KILOMETRE_THRESHOLD_MM), LengthUnit::Metres);
    assert_eq!(display_unit(KILOMETRE_THRESHOLD_MM + 1), LengthUnit::Kilometres);
    assert_eq!(display_unit(u64::MAX), LengthUnit::Kilometres);
}

#[test]
fn context_pairs_only_in_differential_mode() {
    let marker = at(3_000, 4_000, 0);
    let rover = at(0, 0, 0);
    let ctx = AnalysisContext::assemble(
        "rover".to_string(),
        dataset(None),
        Some(rover),
        OperationMode::Rtk,
        Some(dataset(Some(marker))),
        true,
    );
    assert_eq!(ctx.name, "rover");
    assert!(ctx.quiet);
    assert_eq!(ctx.rx_ecef, Some(rover));
    assert!(ctx.has_reference_site());
    assert_eq!(ctx.reference_site.as_ref().unwrap().rx_ecef, marker);
    assert_eq!(ctx.baseline(), Some(5_000));
    assert_eq!(ctx.position(), Ok(rover));

    let ctx = AnalysisContext::assemble(
        "rover".to_string(),
        dataset(None),
        None,
        OperationMode::Ppp,
        Some(dataset(Some(marker))),
        false,
    );
    assert!(!ctx.has_reference_site());
    assert_eq!(ctx.baseline(), None);
    assert_eq!(ctx.position(), Err(Error::MissingPosition));
    assert!(!ctx.quiet);
}

#[test]
fn context_without_marker_has_no_site() {
    let ctx = AnalysisContext::assemble(
        "rover".to_string(),
        dataset(Some(at(1, 1, 1))),
        None,
        OperationMode::Rtk,
        Some(dataset(None)),
        false,
    );
    assert!(ctx.reference_site.is_none());
    assert_eq!(ctx.rx_ecef, Some(at(1, 1, 1)));
    let ctx = AnalysisContext::assemble(
        "rover".to_string(),
        dataset(None),
        None,
        OperationMode::Rtk,
        None,
        false,
    );
    assert!(ctx.reference_site.is_none());
}

#[test]
fn site_baseline() {
    let site = ReferenceSite::new(dataset(Some(at(0, 0, 12_000)))).unwrap();
    assert_eq!(site.baseline_from(Some(at(3_000, 4_000, 0))), Some(13_000));
    assert_eq!(site.baseline_from(None), None);
}
