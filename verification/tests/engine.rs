use geocoord::coord::LatLonCoord;
use geocoord::defstr::proj_string;
use geocoord::engine::{corners_to_ranges, merc_definition, CoordError, Mercator, Projection};

#[test]
fn proj_string_empty() {
    let s = proj_string(Vec::new());
    assert_eq!(s, "");
}

#[test]
fn proj_string_single_entry() {
    let s = proj_string(vec![("proj", "merc")]);
    assert_eq!(s, "+proj=merc");
}

#[test]
fn proj_string_joins_with_spaces() {
    let s = proj_string(vec![
        ("proj", "merc"),
        ("lon_0", "0"),
        ("x_0", "0"),
        ("y_0", "0"),
        ("units", "m"),
    ]);
    assert_eq!(s, "+proj=merc +lon_0=0 +x_0=0 +y_0=0 +units=m");
}

#[test]
fn merc_definition_default_parameters() {
    // The decimal texts of the default configuration: central meridian 0,
    // false easting 0, false northing 0.
    let lon_0 = (0.0f64).to_string();
    let x_0 = (0.0f64).to_string();
    let y_0 = (0.0f64).to_string();
    let s = merc_definition(&lon_0, &x_0, &y_0);
    assert_eq!(s, "+proj=merc +lon_0=0 +x_0=0 +y_0=0 +units=m");
}

#[test]
fn merc_definition_nonzero_parameters() {
    let s = merc_definition(&(-90.5f64).to_string(), &(500000.0f64).to_string(), &"0".to_string());
    assert_eq!(s, "+proj=merc +lon_0=-90.5 +x_0=500000 +y_0=0 +units=m");
}

// A Mercator engine with the default configuration, over `f64` scalars and
// a stand-in transformer handle.
fn default_engine() -> Mercator<f64, u32> {
    Mercator::new(0.0, -80.0, 84.0, 0.0, 0.0, 0.0)
}

#[test]
fn unbuilt_engine_rejects_bounding_box() {
    let m = default_engine();
    let r = m.resolve_extent(None, None, -180.0, 180.0);
    assert!(matches!(r, Err(CoordError::Uninital)));
}

#[test]
fn unbuilt_engine_has_no_transformer() {
    let m = default_engine();
    assert!(matches!(m.transformer(), Err(CoordError::Uninital)));
}

#[test]
fn built_engine_hands_out_its_transformer() {
    let m = default_engine().build(7u32);
    assert_eq!(*m.transformer().unwrap(), 7u32);
}

#[test]
fn default_extent_resolves_to_world_and_latitude_bounds() {
    let m = default_engine().build(0u32);
    let (x, y) = m.resolve_extent(None, None, -180.0, 180.0).unwrap();
    assert_eq!(x, (-180.0, 180.0));
    assert_eq!(y, (-80.0, 84.0));
}

#[test]
fn missing_ranges_equal_explicit_default_ranges() {
    let m = default_engine().build(0u32);
    let implicit = m.resolve_extent(None, None, -180.0, 180.0).unwrap();
    let explicit = m
        .resolve_extent(Some((-180.0, 180.0)), Some((-80.0, 84.0)), -180.0, 180.0)
        .unwrap();
    assert_eq!(implicit, explicit);
}

#[test]
fn supplied_ranges_are_kept() {
    let m = default_engine().build(0u32);
    let (x, y) = m
        .resolve_extent(Some((-10.0, 10.0)), Some((35.5, 60.25)), -180.0, 180.0)
        .unwrap();
    assert_eq!(x, (-10.0, 10.0));
    assert_eq!(y, (35.5, 60.25));
}

#[test]
fn bounding_box_takes_x_and_y_of_each_corner() {
    let bottom_left = (-20037508.34, -15496570.74);
    let top_right = (20037508.34, 17372657.53);
    let (x, y) = corners_to_ranges(bottom_left, top_right);
    assert_eq!(x, (-20037508.34, 20037508.34));
    assert_eq!(y, (-15496570.74, 17372657.53));
}

#[test]
fn bounding_box_corners_round_trip() {
    let bottom_left = (-1.5, -2.5);
    let top_right = (3.5, 4.5);
    let (x, y) = corners_to_ranges(bottom_left, top_right);
    assert_eq!((x.0, y.0), bottom_left);
    assert_eq!((x.1, y.1), top_right);
}

#[test]
fn coordinate_system_records_its_parts() {
    let bounding = ((-100.0, 100.0), (-50.0, 50.0));
    let c: LatLonCoord<f64, u32, &str> =
        LatLonCoord::new(Some((-30.0, 30.0)), None, bounding, "pixel-mapping", 3u32);
    assert_eq!(c.lon, Some((-30.0, 30.0)));
    assert_eq!(c.lat, None);
    assert_eq!(c.x, (-100.0, 100.0));
    assert_eq!(c.y, (-50.0, 50.0));
    assert_eq!(c.cartesian, "pixel-mapping");
    assert_eq!(c.proj, 3u32);
}

#[test]
fn projection_families_are_closed_and_cloneable() {
    let p = Projection::Mercator;
    let q = p.clone();
    assert!(matches!(q, Projection::Mercator));
    assert!(matches!(Projection::PlateCarree, Projection::PlateCarree));
    assert!(matches!(Projection::LambertConformal, Projection::LambertConformal));
    assert!(matches!(Projection::LambertCylindrical, Projection::LambertCylindrical));
}

#[test]
fn projection_error_carries_the_engine_message() {
    let e = CoordError::ProjError { source: "invalid coordinate domain".to_string() };
    match e {
        CoordError::ProjError { source } => assert_eq!(source, "invalid coordinate domain"),
        CoordError::Uninital => panic!("wrong error kind"),
    }
}
