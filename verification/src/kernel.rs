//! The interpolation kernels and their polyphase coefficient bank.
//!
//! The shared bank holds, back to back, a 2-tap, a 4-tap and an 8-tap
//! kernel, each with 32 phase rows (one per 5-bit sub-pixel phase). The
//! bilinear rows are exact in units of 1/32; the wider kernels' scalar
//! values live with the engines, but their row geometry is fixed here.

use vstd::prelude::*;

verus! {

/// Phase rows per kernel: one per 5-bit sub-pixel phase.
pub const PHASE_COUNT: usize = 32;

/// Total entries of the shared coefficient bank
/// (32 rows of 2, of 4 and of 8 taps).
pub const COEFF_BANK_LEN: usize = 448;

/// The sub-pixel interpolation kernel an engine samples with.
#[derive(Clone, Copy, PartialEq, Eq, Structural, Debug)]
pub enum InterpolationKernel {
    /// 2 taps per axis.
    Bilinear,
    /// 4 taps per axis.
    Bicubic,
    /// 8 taps per axis.
    Lanczos4,
}

impl InterpolationKernel {
    /// Taps per axis.
    pub open spec fn spec_taps(self) -> int {
        match self {
            InterpolationKernel::Bilinear => 2,
            InterpolationKernel::Bicubic => 4,
            InterpolationKernel::Lanczos4 => 8,
        }
    }

    /// First bank entry of this kernel's rows.
    pub open spec fn spec_bank_offset(self) -> int {
        match self {
            InterpolationKernel::Bilinear => 0,
            InterpolationKernel::Bicubic => 64,
            InterpolationKernel::Lanczos4 => 192,
        }
    }

    /// Taps per axis; the neighborhood convolved per pixel is this wide
    /// and this tall.
    pub fn taps(&self) -> (t: usize)
        ensures
            t == self.spec_taps(),
    {
        match self {
            InterpolationKernel::Bilinear => 2,
            InterpolationKernel::Bicubic => 4,
            InterpolationKernel::Lanczos4 => 8,
        }
    }

    /// How far (in whole pixels) the first tap lies before the sample
    /// coordinate.
    pub fn sample_offset(&self) -> (o: usize)
        ensures
            o == match *self {
                InterpolationKernel::Bilinear => 0int,
                InterpolationKernel::Bicubic => 1int,
                InterpolationKernel::Lanczos4 => 3int,
            },
    {
        match self {
            InterpolationKernel::Bilinear => 0,
            InterpolationKernel::Bicubic => 1,
            InterpolationKernel::Lanczos4 => 3,
        }
    }

    /// First entry of the phase row inside the shared bank: rows are
    /// stored back to back, one full row of taps per phase.
    pub fn coeff_row_start(&self, phase: usize) -> (i: usize)
        requires
            phase < PHASE_COUNT,
        ensures
            i == self.spec_bank_offset() + phase * self.spec_taps(),
            i + self.spec_taps() <= COEFF_BANK_LEN,
            i + self.spec_taps() <= self.spec_bank_offset() + PHASE_COUNT * self.spec_taps(),
    {
        let t = self.taps();
        proof {
            assert(phase * t + t <= PHASE_COUNT * t) by (nonlinear_arith)
                requires
                    phase < PHASE_COUNT,
                    t >= 0,
            ;
            assert(PHASE_COUNT * t <= 256) by (nonlinear_arith)
                requires
                    0 <= t <= 8,
            ;
        }
        let start = match self {
            InterpolationKernel::Bilinear => 0usize,
            InterpolationKernel::Bicubic => 64,
            InterpolationKernel::Lanczos4 => 192,
        } + phase * t;
        start
    }

    /// The two coefficients of the bilinear kernel at a phase, as exact
    /// numerators over a denominator of 32: the bank row is
    /// `[(32 - phase) / 32, phase / 32]`. At every phase the pair sums
    /// to exactly one (32/32): phase 0 keeps the left pixel alone, the
    /// midpoint phase weighs both pixels equally.
    pub fn bilinear_coeffs(phase: u32) -> (c: (u32, u32))
        requires
            phase < PHASE_COUNT,
        ensures
            c.0 == 32 - phase,
            c.1 == phase,
            c.0 + c.1 == 32,
    {
        (32 - phase, phase)
    }
}

} // verus!
