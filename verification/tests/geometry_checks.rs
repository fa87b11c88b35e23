use svg2raster::geometry::Dimensions;
use svg2raster::geometry::GeometryError;
use svg2raster::geometry::SCALE_ONE_MILLI;
use svg2raster::geometry::resolve_dimensions;

#[test]
fn scale_two_doubles_both_axes() {
    assert_eq!(
        resolve_dimensions(100, 50, None, None, 2000),
        Ok(Dimensions { width: 200, height: 100 })
    );
}

#[test]
fn identity_scale_keeps_intrinsic_size() {
    assert_eq!(
        resolve_dimensions(64, 64, None, None, SCALE_ONE_MILLI),
        Ok(Dimensions { width: 64, height: 64 })
    );
}

#[test]
fn scaling_rounds_half_away_from_zero() {
    // 3 * 1.5 = 4.5 rounds to 5; 1 * 0.5 = 0.5 rounds to 1.
    assert_eq!(
        resolve_dimensions(3, 1, None, None, 1500),
        Ok(Dimensions { width: 5, height: 2 })
    );
    assert_eq!(
        resolve_dimensions(1, 2, None, None, 500),
        Ok(Dimensions { width: 1, height: 1 })
    );
}

#[test]
fn width_only_derives_height_by_aspect_ratio() {
    assert_eq!(
        resolve_dimensions(100, 50, Some(50), None, SCALE_ONE_MILLI),
        Ok(Dimensions { width: 50, height: 25 })
    );
}

#[test]
fn height_only_derives_width_by_aspect_ratio() {
    assert_eq!(
        resolve_dimensions(100, 50, None, Some(25), SCALE_ONE_MILLI),
        Ok(Dimensions { width: 50, height: 25 })
    );
}

#[test]
fn derived_axis_truncates() {
    // 33 * 50 / 100 = 16.5 truncates to 16.
    assert_eq!(
        resolve_dimensions(100, 50, Some(33), None, SCALE_ONE_MILLI),
        Ok(Dimensions { width: 33, height: 16 })
    );
}

#[test]
fn explicit_axes_are_verbatim() {
    assert_eq!(
        resolve_dimensions(100, 50, Some(7), Some(9), 5000),
        Ok(Dimensions { width: 7, height: 9 })
    );
    assert_eq!(
        resolve_dimensions(1, 1, Some(7), Some(9), 5000),
        Ok(Dimensions { width: 7, height: 9 })
    );
}

#[test]
fn scale_overridden_by_either_axis() {
    assert_eq!(
        resolve_dimensions(100, 50, Some(100), None, 9000),
        Ok(Dimensions { width: 100, height: 50 })
    );
}

#[test]
fn zero_intrinsic_axis_is_degenerate_scene() {
    assert_eq!(
        resolve_dimensions(0, 50, None, None, 1000),
        Err(GeometryError::DegenerateSceneSize)
    );
    assert_eq!(
        resolve_dimensions(100, 0, Some(10), Some(10), 1000),
        Err(GeometryError::DegenerateSceneSize)
    );
}

#[test]
fn zero_output_axis_is_degenerate_output() {
    assert_eq!(
        resolve_dimensions(100, 50, None, None, 0),
        Err(GeometryError::DegenerateOutputSize)
    );
    assert_eq!(
        resolve_dimensions(100, 50, Some(0), Some(10), 1000),
        Err(GeometryError::DegenerateOutputSize)
    );
    // 1 * 0.4 = 0.4 rounds to 0.
    assert_eq!(
        resolve_dimensions(1, 1, None, None, 400),
        Err(GeometryError::DegenerateOutputSize)
    );
}

#[test]
fn oversized_axes_saturate() {
    assert_eq!(
        resolve_dimensions(3_000_000_000, 1, None, None, 2000),
        Ok(Dimensions { width: u32::MAX, height: 2 })
    );
}
