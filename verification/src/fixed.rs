//! 5-bit fixed-point sample coordinates.
//!
//! Both engines quantize a source sample coordinate to 32 sub-pixel
//! positions per pixel: the coordinate times 32, rounded. The low five
//! bits select the polyphase coefficient row, the rest is the integer
//! sample position. The edge policies act on the same quantized values,
//! before the kernel's sample offset shifts the tap origin.

use vstd::prelude::*;

use crate::params::BackgroundMode;

verus! {

/// Sub-pixel positions per pixel: 32, for 5-bit phases.
pub const PHASE_SCALE: i32 = 32;

/// Edge-repeat policy on a fixed-point coordinate: clamped into
/// `[0, max_coord]`, where `max_coord` is 32 times the last valid pixel
/// position; in-range coordinates pass through unchanged.
pub open spec fn spec_repeat_clamp(s: int, max_coord: int) -> int {
    if s < 0 {
        0
    } else if s > max_coord {
        max_coord
    } else {
        s
    }
}

/// Edge-mirror policy: `s` is the fixed-point coordinate and `r` the
/// same coordinate rounded to whole pixels. A rounded position within
/// 3 pixels of a boundary of a frame `size` pixels long reflects back
/// across the 3-pixel margin, landing on a whole pixel; other
/// coordinates keep their sub-pixel part.
pub open spec fn spec_mirror(s: int, r: int, size: int) -> int {
    if r < 3 {
        PHASE_SCALE * (3 + (3 - r))
    } else if r > size - 3 {
        PHASE_SCALE * ((size - 3) - (r - (size - 3)))
    } else {
        s
    }
}

/// The edge policy applied to one axis: transparent mode leaves the
/// coordinate alone (out-of-frame taps take the background color at
/// sampling time instead).
pub open spec fn spec_edge_policy(mode: BackgroundMode, s: int, r: int, size: int) -> int {
    match mode {
        BackgroundMode::Transparent => s,
        BackgroundMode::EdgeRepeat => spec_repeat_clamp(s, PHASE_SCALE * (size - 1)),
        BackgroundMode::EdgeMirror => spec_mirror(s, r, size),
    }
}

/// Splits a fixed-point coordinate into the integer sample position and
/// the 5-bit sub-pixel phase; the split is exact, with the phase always
/// non-negative (also for negative coordinates).
pub fn split_fixed(s: i32) -> (r: (i32, u32))
    ensures
        PHASE_SCALE * r.0 + r.1 == s,
        0 <= r.1 < PHASE_SCALE,
{
    let pos = s >> 5u32;
    let phase = (s & 31) as u32;
    proof {
        assert(32 * (s >> 5u32) + (s & 31) == s && 0 <= (s & 31) < 32) by (bit_vector);
    }
    (pos, phase)
}

/// Edge-repeat policy, executable: see [`spec_repeat_clamp`].
pub fn repeat_clamp_fixed(s: i32, max_coord: i32) -> (r: i32)
    requires
        max_coord >= 0,
    ensures
        r == spec_repeat_clamp(s as int, max_coord as int),
        0 <= r <= max_coord,
{
    let lo = if s > 0 {
        s
    } else {
        0
    };
    if lo < max_coord {
        lo
    } else {
        max_coord
    }
}

/// Edge-mirror policy, executable: see [`spec_mirror`].
pub fn mirror_fixed(s: i32, rx: i32, size: u32) -> (r: i32)
    requires
        0 < size <= 8192,
        -0x100_0000 <= rx <= 0x100_0000,
    ensures
        r == spec_mirror(s as int, rx as int, size as int),
{
    let edge = size as i32 - 3;
    let mut out = s;
    if rx > edge {
        out = 32 * (edge - (rx - edge));
    }
    if rx < 3 {
        out = 32 * (6 - rx);
    }
    out
}

/// Resolves one axis of a sample: applies the edge policy to the
/// quantized coordinate `s` (with `r` its whole-pixel rounding), backs
/// the tap origin up by the kernel's sample offset, and splits into the
/// integer position of the first tap and the 5-bit phase that selects
/// the coefficient row. The split is exact over the policy's result.
pub fn resolve_axis(mode: BackgroundMode, s: i32, r: i32, size: u32, sample_offset: u32) -> (res: (
    i32,
    u32,
))
    requires
        0 < size <= 8192,
        -0x1000_0000 <= s <= 0x1000_0000,
        -0x100_0000 <= r <= 0x100_0000,
        sample_offset <= 3,
    ensures
        PHASE_SCALE * res.0 + res.1 == spec_edge_policy(mode, s as int, r as int, size as int)
            - PHASE_SCALE * sample_offset,
        0 <= res.1 < PHASE_SCALE,
{
    let adjusted = match mode {
        BackgroundMode::Transparent => s,
        BackgroundMode::EdgeRepeat => repeat_clamp_fixed(s, 32 * (size as i32 - 1)),
        BackgroundMode::EdgeMirror => mirror_fixed(s, r, size),
    };
    split_fixed(adjusted - 32 * sample_offset as i32)
}

} // verus!
