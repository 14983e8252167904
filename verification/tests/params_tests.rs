use lens_undistort::params::BackgroundMode;
use lens_undistort::params::clamp_source_row;
use lens_undistort::params::middle_param_row;
use lens_undistort::params::scanline_param_row;
use lens_undistort::params::uses_rolling_shutter;

#[test]
fn rolling_shutter_needs_more_than_one_homography_row() {
    assert!(!uses_rolling_shutter(0));
    assert!(!uses_rolling_shutter(3));
    assert!(uses_rolling_shutter(4));
    assert!(uses_rolling_shutter(100));
}

#[test]
fn middle_row_sits_halfway_through_the_homographies() {
    assert_eq!(middle_param_row(4), 3);
    assert_eq!(middle_param_row(6), 4);
    assert_eq!(middle_param_row(102), 52);
}

#[test]
fn scanlines_use_their_own_row_where_one_exists() {
    assert_eq!(scanline_param_row(0, 102), 2);
    assert_eq!(scanline_param_row(57, 102), 59);
    assert_eq!(scanline_param_row(99, 102), 101);
}

#[test]
fn scanlines_share_the_last_row_otherwise() {
    assert_eq!(scanline_param_row(0, 3), 2);
    assert_eq!(scanline_param_row(57, 3), 2);
    assert_eq!(scanline_param_row(150, 102), 101);
}

#[test]
fn resolved_source_rows_clamp_into_the_frame() {
    assert_eq!(clamp_source_row(-7, 100), 0);
    assert_eq!(clamp_source_row(0, 100), 0);
    assert_eq!(clamp_source_row(42, 100), 42);
    assert_eq!(clamp_source_row(100, 100), 100);
    assert_eq!(clamp_source_row(101, 100), 100);
}

#[test]
fn background_mode_codes() {
    assert_eq!(BackgroundMode::from_code(0), BackgroundMode::Transparent);
    assert_eq!(BackgroundMode::from_code(1), BackgroundMode::EdgeRepeat);
    assert_eq!(BackgroundMode::from_code(2), BackgroundMode::EdgeMirror);
    assert_eq!(BackgroundMode::from_code(7), BackgroundMode::Transparent);
}
