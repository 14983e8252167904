//! Selection of rows inside the flattened correction-parameter buffer.
//!
//! The buffer is a sequence of 9-scalar rows: row 0 carries intrinsics,
//! distortion coefficients and the radius limit, row 1 the blend amount,
//! background mode and field-of-view scale, and every further row one
//! per-scanline homography.

use vstd::prelude::*;

verus! {

/// Rows in front of the per-scanline homographies.
pub const HEADER_ROWS: usize = 2;

/// Scalars in one parameter row.
pub const ROW_SCALARS: usize = 9;

/// Rolling-shutter correction applies only when the buffer carries more
/// than one homography row beyond the two headers.
pub fn uses_rolling_shutter(param_rows: usize) -> (b: bool)
    ensures
        b == (param_rows > 3),
{
    param_rows > 3
}

/// The homography row used to resolve the effective source scanline:
/// the middle one of the per-scanline rows.
pub fn middle_param_row(param_rows: usize) -> (i: usize)
    requires
        param_rows > 3,
    ensures
        i == HEADER_ROWS + (param_rows - HEADER_ROWS) / 2,
        HEADER_ROWS <= i < param_rows,
{
    HEADER_ROWS + (param_rows - HEADER_ROWS) / 2
}

/// The homography row for output scanline `sy`: its own row where the
/// buffer has one, else the last row (shared by all scanlines when no
/// rolling-shutter data is present).
pub fn scanline_param_row(sy: usize, param_rows: usize) -> (i: usize)
    requires
        param_rows >= 1,
        sy + HEADER_ROWS <= usize::MAX,
    ensures
        i == if sy + HEADER_ROWS < param_rows {
            sy + HEADER_ROWS as int
        } else {
            param_rows - 1
        },
        i < param_rows,
{
    let shifted = sy + HEADER_ROWS;
    if shifted < param_rows {
        shifted
    } else {
        param_rows - 1
    }
}

/// A source row resolved through the middle homography, clamped into the
/// valid row range of a frame `height` rows tall; out-of-range rows snap
/// to the nearest end.
pub fn clamp_source_row(row: i32, height: usize) -> (r: usize)
    requires
        height <= i32::MAX,
    ensures
        r == if row < 0 {
            0int
        } else if row > height {
            height as int
        } else {
            row as int
        },
        r <= height,
{
    let h = height as i32;
    let m = if row < h {
        row
    } else {
        h
    };
    let c = if m > 0 {
        m
    } else {
        0
    };
    c as usize
}

/// How samples that fall outside the source frame are filled in.
#[derive(Clone, Copy, PartialEq, Eq, Structural, Debug)]
pub enum BackgroundMode {
    /// Out-of-frame taps take the configured background color.
    Transparent,
    /// Sample coordinates are clamped to the nearest edge pixel.
    EdgeRepeat,
    /// Sample coordinates near a boundary reflect back across it.
    EdgeMirror,
}

impl BackgroundMode {
    /// Decodes the mode scalar of the parameter buffer's second header
    /// row (already rounded to an integer code by the caller).
    pub fn from_code(code: u32) -> (m: BackgroundMode)
        ensures
            m == if code == 1 {
                BackgroundMode::EdgeRepeat
            } else if code == 2 {
                BackgroundMode::EdgeMirror
            } else {
                BackgroundMode::Transparent
            },
    {
        if code == 1 {
            BackgroundMode::EdgeRepeat
        } else if code == 2 {
            BackgroundMode::EdgeMirror
        } else {
            BackgroundMode::Transparent
        }
    }
}

} // verus!
