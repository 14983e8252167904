//! Frame geometry: dimension gating at engine construction, buffer sizes,
//! and the row alignment the staging buffer is padded to.

use vstd::prelude::*;

verus! {

/// Widest frame either raster engine accepts, in pixels.
pub const MAX_DIM: usize = 8192;

/// Shortest frame either raster engine accepts, in pixels.
pub const MIN_HEIGHT: usize = 4;

/// The dimensions an engine may be constructed with: frames at least
/// [`MIN_HEIGHT`] rows tall, at most [`MAX_DIM`] pixels wide, with a
/// positive input row stride.
pub open spec fn dims_acceptable(
    width: int,
    height: int,
    stride: int,
    output_width: int,
    output_height: int,
) -> bool {
    &&& height >= MIN_HEIGHT
    &&& output_height >= MIN_HEIGHT
    &&& stride >= 1
    &&& width <= MAX_DIM
    &&& output_width <= MAX_DIM
}

/// Frame geometry shared by the raster engines: input and output extents
/// in pixels and the byte stride of a row in each buffer.
pub struct FrameLayout {
    pub width: usize,
    pub height: usize,
    pub stride: usize,
    pub output_width: usize,
    pub output_height: usize,
    pub output_stride: usize,
}

impl FrameLayout {
    /// Expected byte length of the source pixel buffer.
    pub open spec fn spec_input_size(self) -> int {
        self.stride * self.height
    }

    /// Expected byte length of the destination pixel buffer.
    pub open spec fn spec_output_size(self) -> int {
        self.output_stride * self.output_height
    }

    /// Byte capacity reserved for the correction-parameter buffer: one
    /// 9-entry row of 4-byte scalars per input scanline, plus the two
    /// header rows.
    pub open spec fn spec_params_capacity(self) -> int {
        9 * (self.height + 2) * 4
    }

    /// All three byte sizes fit the machine word.
    pub open spec fn sizes_fit(self) -> bool {
        &&& self.spec_input_size() <= usize::MAX
        &&& self.spec_output_size() <= usize::MAX
        &&& self.spec_params_capacity() <= usize::MAX
    }

    /// Gate at engine construction: yields a layout exactly when the
    /// dimensions are acceptable, never for a frame that is too short,
    /// too wide, or has a degenerate input stride.
    pub fn new(
        width: usize,
        height: usize,
        stride: usize,
        output_width: usize,
        output_height: usize,
        output_stride: usize,
    ) -> (r: Option<FrameLayout>)
        ensures
            r is Some <==> dims_acceptable(
                width as int,
                height as int,
                stride as int,
                output_width as int,
                output_height as int,
            ),
            r matches Some(l) ==> l == (FrameLayout {
                width,
                height,
                stride,
                output_width,
                output_height,
                output_stride,
            }),
    {
        if height < MIN_HEIGHT || output_height < MIN_HEIGHT || stride < 1 || width > MAX_DIM
            || output_width > MAX_DIM {
            None
        } else {
            Some(FrameLayout { width, height, stride, output_width, output_height, output_stride })
        }
    }

    /// Expected byte length of the source pixel buffer.
    pub fn input_size(&self) -> (s: usize)
        requires
            self.spec_input_size() <= usize::MAX,
        ensures
            s == self.spec_input_size(),
    {
        self.stride * self.height
    }

    /// Expected byte length of the destination pixel buffer.
    pub fn output_size(&self) -> (s: usize)
        requires
            self.spec_output_size() <= usize::MAX,
        ensures
            s == self.spec_output_size(),
    {
        self.output_stride * self.output_height
    }

    /// Byte capacity reserved for the correction-parameter buffer.
    pub fn params_capacity(&self) -> (s: usize)
        requires
            self.spec_params_capacity() <= usize::MAX,
        ensures
            s == self.spec_params_capacity(),
    {
        9 * (self.height + 2) * 4
    }

    /// Per-call gate: a frame is rendered only when the source and
    /// destination buffers have exactly the expected lengths and the
    /// supplied parameter bytes fit the reserved capacity; on any
    /// mismatch the frame is skipped.
    pub fn buffers_match(&self, in_len: usize, out_len: usize, params_len: usize) -> (ok: bool)
        requires
            self.sizes_fit(),
        ensures
            ok == {
                &&& in_len == self.spec_input_size()
                &&& out_len == self.spec_output_size()
                &&& params_len <= self.spec_params_capacity()
            },
    {
        in_len == self.input_size() && out_len == self.output_size() && params_len
            <= self.params_capacity()
    }
}

/// Row alignment (in bytes) required for copies out of a device texture.
pub const ROW_ALIGN: usize = 256;

/// Smallest multiple of [`ROW_ALIGN`] that holds a row of `stride` bytes.
pub open spec fn spec_padded_row_stride(stride: int) -> int {
    stride + ((ROW_ALIGN - stride % (ROW_ALIGN as int)) % (ROW_ALIGN as int))
}

/// Rounds a row stride up to the alignment a device row copy requires.
pub fn padded_row_stride(stride: usize) -> (padded: usize)
    requires
        stride + ROW_ALIGN <= usize::MAX,
    ensures
        padded == spec_padded_row_stride(stride as int),
        padded % ROW_ALIGN == 0,
        stride <= padded < stride + ROW_ALIGN,
{
    let rem: usize = stride % ROW_ALIGN;
    let padding: usize = (ROW_ALIGN - rem) % ROW_ALIGN;
    let padded = stride + padding;
    proof {
        let a = ROW_ALIGN as int;
        let q = stride as int / a;
        vstd::arithmetic::div_mod::lemma_fundamental_div_mod(stride as int, a);
        if rem == 0 {
            assert(padded % ROW_ALIGN == 0) by {
                assert(padded == a * q);
                vstd::arithmetic::div_mod::lemma_mod_multiples_basic(q, a);
            }
        } else {
            assert(padded % ROW_ALIGN == 0) by {
                assert(padded == a * (q + 1)) by {
                    assert(stride == a * q + rem);
                }
                vstd::arithmetic::div_mod::lemma_mod_multiples_basic(q + 1, a);
            }
        }
    }
    padded
}

} // verus!
