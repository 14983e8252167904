//! Byte layout of pixel records.
//!
//! A pixel record is `channels` scalars stored back to back, each
//! `scalar_bytes` wide, little-endian. The raster engines address and
//! copy records through these functions instead of reinterpreting raw
//! buffer memory; the scalar bits themselves (integer samples, or the
//! bit pattern of a wider sample type) are converted to color values by
//! the engine that owns the format.

use vstd::prelude::*;

verus! {

/// Value of `n` little-endian bytes of `s` starting at `off`.
pub open spec fn le_bytes_value(s: Seq<u8>, off: int, n: nat) -> int
    decreases n,
{
    if n == 0 {
        0
    } else {
        s[off] + 256 * le_bytes_value(s, off + 1, (n - 1) as nat)
    }
}

/// Exclusive upper bound of a scalar `sb` bytes wide.
pub open spec fn scalar_limit(sb: int) -> int {
    if sb == 1 {
        0x100
    } else if sb == 2 {
        0x1_0000
    } else {
        0x1_0000_0000
    }
}

/// [`le_bytes_value`] reads the same value from equal byte runs,
/// wherever they sit.
pub proof fn lemma_le_bytes_value_congruence(s1: Seq<u8>, off1: int, s2: Seq<u8>, off2: int, n: nat)
    requires
        0 <= off1,
        off1 + n <= s1.len(),
        0 <= off2,
        off2 + n <= s2.len(),
        s1.subrange(off1, off1 + n) == s2.subrange(off2, off2 + n),
    ensures
        le_bytes_value(s1, off1, n) == le_bytes_value(s2, off2, n),
    decreases n,
{
    if n > 0 {
        assert(s1[off1] == s1.subrange(off1, off1 + n)[0]);
        assert(s2[off2] == s2.subrange(off2, off2 + n)[0]);
        assert(s1.subrange(off1 + 1, off1 + 1 + (n - 1)) =~= s2.subrange(
            off2 + 1,
            off2 + 1 + (n - 1),
        )) by {
            assert forall|i: int| 0 <= i < n - 1 implies #[trigger] s1.subrange(
                off1 + 1,
                off1 + 1 + (n - 1),
            )[i] == s2.subrange(off2 + 1, off2 + 1 + (n - 1))[i] by {
                assert(s1[off1 + 1 + i] == s1.subrange(off1, off1 + n)[i + 1]);
                assert(s2[off2 + 1 + i] == s2.subrange(off2, off2 + n)[i + 1]);
            }
        }
        lemma_le_bytes_value_congruence(s1, off1 + 1, s2, off2 + 1, (n - 1) as nat);
    }
}

/// Reads one little-endian scalar of `n` bytes.
pub fn decode_scalar(bytes: &[u8], off: usize, n: usize) -> (v: u32)
    requires
        n == 1 || n == 2 || n == 4,
        off + n <= bytes.len(),
    ensures
        v == le_bytes_value(bytes@, off as int, n as nat),
        v < scalar_limit(n as int),
{
    proof {
        reveal_with_fuel(le_bytes_value, 6);
    }
    if n == 1 {
        bytes[off] as u32
    } else if n == 2 {
        let b0 = bytes[off] as u32;
        let b1 = bytes[off + 1] as u32;
        b0 + 256 * b1
    } else {
        let b0 = bytes[off] as u32;
        let b1 = bytes[off + 1] as u32;
        let b2 = bytes[off + 2] as u32;
        let b3 = bytes[off + 3] as u32;
        b0 + 256 * (b1 + 256 * (b2 + 256 * b3))
    }
}

/// Appends one scalar of `n` little-endian bytes.
pub fn encode_scalar(v: u32, n: usize, out: &mut Vec<u8>)
    requires
        n == 1 || n == 2 || n == 4,
        v < scalar_limit(n as int),
        old(out).len() + n <= usize::MAX,
    ensures
        final(out).len() == old(out).len() + n,
        final(out)@.subrange(0, old(out).len() as int) == old(out)@,
        le_bytes_value(final(out)@, old(out).len() as int, n as nat) == v,
{
    proof {
        reveal_with_fuel(le_bytes_value, 6);
    }
    if n == 1 {
        out.push(v as u8);
    } else if n == 2 {
        out.push((v % 256) as u8);
        out.push((v / 256) as u8);
    } else {
        out.push((v % 256) as u8);
        out.push(((v / 256) % 256) as u8);
        out.push(((v / 0x1_0000) % 256) as u8);
        out.push((v / 0x100_0000) as u8);
    }
    proof {
        assert(final(out)@.subrange(0, old(out).len() as int) =~= old(out)@);
    }
}

/// Channel count, per-channel scalar width in bytes, and therefore the
/// byte size of one pixel record.
pub struct PixelFormatDesc {
    pub channels: usize,
    pub scalar_bytes: usize,
}

impl PixelFormatDesc {
    /// The formats the engines handle: up to four channels of 1-, 2- or
    /// 4-byte scalars.
    pub open spec fn valid(self) -> bool {
        &&& 1 <= self.channels <= 4
        &&& (self.scalar_bytes == 1 || self.scalar_bytes == 2 || self.scalar_bytes == 4)
    }

    /// Byte size of one pixel record.
    pub open spec fn spec_record_size(self) -> int {
        self.channels * self.scalar_bytes
    }

    /// Byte size of one pixel record (at most 16).
    pub fn record_size(&self) -> (s: usize)
        requires
            self.valid(),
        ensures
            s == self.spec_record_size(),
            1 <= s <= 16,
    {
        proof {
            assert(1 <= self.channels * self.scalar_bytes <= 16) by (nonlinear_arith)
                requires
                    1 <= self.channels <= 4,
                    1 <= self.scalar_bytes <= 4,
            ;
        }
        self.channels * self.scalar_bytes
    }

    /// The channel scalars of one pixel record, in channel order, read
    /// little-endian from `bytes` at `off`.
    pub fn decode_record(&self, bytes: &[u8], off: usize) -> (r: Vec<u32>)
        requires
            self.valid(),
            off + self.spec_record_size() <= bytes.len(),
        ensures
            r.len() == self.channels,
            forall|j: int|
                0 <= j < self.channels ==> #[trigger] r@[j] == le_bytes_value(
                    bytes@,
                    off + j * self.scalar_bytes,
                    self.scalar_bytes as nat,
                ),
    {
        let mut r: Vec<u32> = Vec::new();
        let mut j: usize = 0;
        while j < self.channels
            invariant
                j <= self.channels,
                self.valid(),
                off + self.spec_record_size() <= bytes.len(),
                r.len() == j,
                forall|k: int|
                    0 <= k < j ==> #[trigger] r@[k] == le_bytes_value(
                        bytes@,
                        off + k * self.scalar_bytes,
                        self.scalar_bytes as nat,
                    ),
            decreases self.channels - j,
        {
            proof {
                assert(j * self.scalar_bytes + self.scalar_bytes <= self.channels
                    * self.scalar_bytes) by (nonlinear_arith)
                    requires
                        j < self.channels,
                        self.scalar_bytes >= 0,
                ;
                assert(j * self.scalar_bytes >= 0) by (nonlinear_arith)
                    requires
                        j >= 0,
                        self.scalar_bytes >= 0,
                ;
            }
            let v = decode_scalar(bytes, off + j * self.scalar_bytes, self.scalar_bytes);
            r.push(v);
            j += 1;
        }
        r
    }

    /// Appends one pixel record holding the given channel scalars,
    /// little-endian, in channel order.
    pub fn encode_record(&self, vals: &Vec<u32>, out: &mut Vec<u8>)
        requires
            self.valid(),
            vals.len() == self.channels,
            forall|j: int| 0 <= j < vals.len() ==> vals@[j] < scalar_limit(self.scalar_bytes as int),
            old(out).len() + self.spec_record_size() <= usize::MAX,
        ensures
            final(out).len() == old(out).len() + self.spec_record_size(),
            final(out)@.subrange(0, old(out).len() as int) == old(out)@,
            forall|j: int|
                0 <= j < self.channels ==> le_bytes_value(
                    final(out)@,
                    old(out).len() + j * self.scalar_bytes,
                    self.scalar_bytes as nat,
                ) == #[trigger] vals@[j],
    {
        let base = out.len();
        let mut j: usize = 0;
        while j < self.channels
            invariant
                j <= self.channels,
                self.valid(),
                vals.len() == self.channels,
                forall|k: int|
                    0 <= k < vals.len() ==> vals@[k] < scalar_limit(self.scalar_bytes as int),
                base + self.spec_record_size() <= usize::MAX,
                out.len() == base + j * self.scalar_bytes,
                out@.subrange(0, base as int) == old(out)@,
                forall|k: int|
                    0 <= k < j ==> le_bytes_value(
                        out@,
                        base + k * self.scalar_bytes,
                        self.scalar_bytes as nat,
                    ) == #[trigger] vals@[k],
            decreases self.channels - j,
        {
            proof {
                assert(j * self.scalar_bytes + self.scalar_bytes == (j + 1) * self.scalar_bytes
                    && (j + 1) * self.scalar_bytes <= self.channels * self.scalar_bytes && j
                    * self.scalar_bytes >= 0) by (nonlinear_arith)
                    requires
                        0 <= j < self.channels,
                        self.scalar_bytes >= 0,
                ;
            }
            let ghost before = out@;
            encode_scalar(vals[j], self.scalar_bytes, out);
            proof {
                let sb = self.scalar_bytes as int;
                assert(out@.subrange(0, base as int) =~= old(out)@) by {
                    assert(out@.subrange(0, before.len() as int).subrange(0, base as int)
                        =~= out@.subrange(0, base as int));
                }
                assert forall|k: int| 0 <= k < j + 1 implies le_bytes_value(
                    out@,
                    base + k * sb,
                    self.scalar_bytes as nat,
                ) == #[trigger] vals@[k] by {
                    assert(k * sb >= 0 && k * sb + sb <= j * sb + sb) by (nonlinear_arith)
                        requires
                            0 <= k <= j,
                            sb >= 0,
                    ;
                    if k < j {
                        assert(out@.subrange(base + k * sb, base + k * sb + sb) =~= before
                            .subrange(base + k * sb, base + k * sb + sb)) by {
                            assert(out@.subrange(0, before.len() as int) =~= before);
                        }
                        lemma_le_bytes_value_congruence(
                            out@,
                            base + k * sb,
                            before,
                            base + k * sb,
                            self.scalar_bytes as nat,
                        );
                    }
                }
            }
            j += 1;
        }
    }
}

/// Byte offset of the pixel record at column `x` of row `y`, in a
/// buffer whose rows are `stride` bytes; the whole record lies inside
/// the buffer's `height` rows.
pub fn pixel_byte_offset(
    x: usize,
    y: usize,
    width: usize,
    height: usize,
    stride: usize,
    record_size: usize,
) -> (off: usize)
    requires
        x < width,
        y < height,
        width * record_size <= stride,
        height * stride <= usize::MAX,
    ensures
        off == y * stride + x * record_size,
        off + record_size <= height * stride,
{
    proof {
        assert(y * stride + x * record_size + record_size <= height * stride) by (nonlinear_arith)
            requires
                x < width,
                y < height,
                width * record_size <= stride,
                record_size >= 0,
                stride >= 0,
        ;
        assert(y * stride >= 0 && x * record_size >= 0) by (nonlinear_arith)
            requires
                x >= 0,
                y >= 0,
                record_size >= 0,
                stride >= 0,
        ;
    }
    y * stride + x * record_size
}

} // verus!
