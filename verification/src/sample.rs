//! The tap neighborhood gathered around an integer sample position.
//!
//! For an `I`-tap kernel the engine convolves the `I x I` pixel records
//! around the sample position. This walk yields each tap's record, or
//! nothing for a tap outside the source frame: in transparent mode the
//! engine substitutes the background color for exactly those taps, and
//! the other edge policies keep every tap inside the frame beforehand.

use vstd::prelude::*;

use crate::pixel::PixelFormatDesc;
use crate::pixel::le_bytes_value;
use crate::pixel::pixel_byte_offset;

verus! {

/// The channel scalars of the pixel record at column `gx` of row `gy`.
pub open spec fn spec_record_at(
    pixels: Seq<u8>,
    fmt: PixelFormatDesc,
    stride: int,
    gx: int,
    gy: int,
) -> Seq<u32> {
    Seq::new(
        fmt.channels as nat,
        |j: int|
            le_bytes_value(
                pixels,
                gy * stride + gx * fmt.spec_record_size() + j * fmt.scalar_bytes,
                fmt.scalar_bytes as nat,
            ) as u32,
    )
}

/// Collects the `taps x taps` neighborhood whose top-left tap sits at
/// `(sx, sy)`: row by row, each tap's pixel record where the tap lies
/// inside the frame, and `None` exactly where it does not.
pub fn gather_taps(
    pixels: &[u8],
    fmt: &PixelFormatDesc,
    width: usize,
    height: usize,
    stride: usize,
    sx: i64,
    sy: i64,
    taps: usize,
) -> (r: Vec<Vec<Option<Vec<u32>>>>)
    requires
        fmt.valid(),
        width * fmt.spec_record_size() <= stride,
        height * stride <= pixels.len(),
        width <= 0x10000,
        height <= 0x10000,
        taps <= 8,
        -0x1000_0000 <= sx <= 0x1000_0000,
        -0x1000_0000 <= sy <= 0x1000_0000,
    ensures
        r.len() == taps,
        forall|yp: int| 0 <= yp < taps ==> #[trigger] r@[yp].len() == taps,
        forall|yp: int, xp: int|
            #![trigger r@[yp]@[xp]]
            0 <= yp < taps && 0 <= xp < taps ==> {
                &&& ((0 <= sx + xp < width && 0 <= sy + yp < height) <==> r@[yp]@[xp] is Some)
                &&& (r@[yp]@[xp] matches Some(v) ==> v@ == spec_record_at(
                    pixels@,
                    *fmt,
                    stride as int,
                    sx + xp,
                    sy + yp,
                ))
            },
{
    let rs = fmt.record_size();
    let mut r: Vec<Vec<Option<Vec<u32>>>> = Vec::new();
    let mut yp: usize = 0;
    while yp < taps
        invariant
            yp <= taps,
            fmt.valid(),
            rs == fmt.spec_record_size(),
            width * fmt.spec_record_size() <= stride,
            height * stride <= pixels.len(),
            width <= 0x10000,
            height <= 0x10000,
            taps <= 8,
            -0x1000_0000 <= sx <= 0x1000_0000,
            -0x1000_0000 <= sy <= 0x1000_0000,
            r.len() == yp,
            forall|k: int| 0 <= k < yp ==> #[trigger] r@[k].len() == taps,
            forall|k: int, xp: int|
                #![trigger r@[k]@[xp]]
                0 <= k < yp && 0 <= xp < taps ==> {
                    &&& ((0 <= sx + xp < width && 0 <= sy + k < height) <==> r@[k]@[xp] is Some)
                    &&& (r@[k]@[xp] matches Some(v) ==> v@ == spec_record_at(
                        pixels@,
                        *fmt,
                        stride as int,
                        sx + xp,
                        sy + k,
                    ))
                },
        decreases taps - yp,
    {
        let gy = sy + yp as i64;
        let mut row: Vec<Option<Vec<u32>>> = Vec::new();
        let mut xp: usize = 0;
        while xp < taps
            invariant
                xp <= taps,
                yp < taps,
                fmt.valid(),
                rs == fmt.spec_record_size(),
                width * fmt.spec_record_size() <= stride,
                height * stride <= pixels.len(),
                width <= 0x10000,
                height <= 0x10000,
                taps <= 8,
                -0x1000_0000 <= sx <= 0x1000_0000,
                -0x1000_0000 <= sy <= 0x1000_0000,
                gy == sy + yp,
                row.len() == xp,
                forall|q: int|
                    #![trigger row@[q]]
                    0 <= q < xp ==> {
                        &&& ((0 <= sx + q < width && 0 <= gy < height) <==> row@[q] is Some)
                        &&& (row@[q] matches Some(v) ==> v@ == spec_record_at(
                            pixels@,
                            *fmt,
                            stride as int,
                            sx + q,
                            gy as int,
                        ))
                    },
            decreases taps - xp,
        {
            let gx = sx + xp as i64;
            let tap: Option<Vec<u32>> = if 0 <= gx && gx < width as i64 && 0 <= gy && gy
                < height as i64 {
                let off = pixel_byte_offset(gx as usize, gy as usize, width, height, stride, rs);
                let v = fmt.decode_record(pixels, off);
                proof {
                    assert(v@ =~= spec_record_at(pixels@, *fmt, stride as int, gx as int, gy as int));
                }
                Some(v)
            } else {
                None
            };
            row.push(tap);
            xp += 1;
        }
        r.push(row);
        yp += 1;
    }
    r
}

} // verus!
