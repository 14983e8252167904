use lens_undistort::kernel::InterpolationKernel;

#[test]
fn tap_counts_per_kernel() {
    assert_eq!(InterpolationKernel::Bilinear.taps(), 2);
    assert_eq!(InterpolationKernel::Bicubic.taps(), 4);
    assert_eq!(InterpolationKernel::Lanczos4.taps(), 8);
}

#[test]
fn sample_offsets_per_kernel() {
    assert_eq!(InterpolationKernel::Bilinear.sample_offset(), 0);
    assert_eq!(InterpolationKernel::Bicubic.sample_offset(), 1);
    assert_eq!(InterpolationKernel::Lanczos4.sample_offset(), 3);
}

#[test]
fn coefficient_rows_sit_back_to_back_in_the_bank() {
    assert_eq!(InterpolationKernel::Bilinear.coeff_row_start(0), 0);
    assert_eq!(InterpolationKernel::Bilinear.coeff_row_start(1), 2);
    assert_eq!(InterpolationKernel::Bilinear.coeff_row_start(31), 62);
    assert_eq!(InterpolationKernel::Bicubic.coeff_row_start(0), 64);
    assert_eq!(InterpolationKernel::Bicubic.coeff_row_start(16), 64 + 64);
    assert_eq!(InterpolationKernel::Lanczos4.coeff_row_start(0), 192);
    assert_eq!(InterpolationKernel::Lanczos4.coeff_row_start(31), 192 + 248);
}

#[test]
fn bilinear_phase_zero_keeps_the_left_pixel() {
    let (c0, c1) = InterpolationKernel::bilinear_coeffs(0);
    assert_eq!((c0, c1), (32, 0));
    assert_eq!(c0 as f32 / 32.0, 1.0);
    assert_eq!(c1 as f32 / 32.0, 0.0);
}

#[test]
fn bilinear_midpoint_phase_weighs_both_pixels_equally() {
    let (c0, c1) = InterpolationKernel::bilinear_coeffs(16);
    assert_eq!((c0, c1), (16, 16));
    assert_eq!(c0 as f32 / 32.0, 0.5);
    assert_eq!(c1 as f32 / 32.0, 0.5);
}

#[test]
fn bilinear_coefficients_match_the_scalar_bank() {
    // A few rows of the shared coefficient bank, as the engines store
    // them in 32-bit floating point.
    assert_eq!(InterpolationKernel::bilinear_coeffs(1).0 as f32 / 32.0, 0.968750);
    assert_eq!(InterpolationKernel::bilinear_coeffs(1).1 as f32 / 32.0, 0.031250);
    assert_eq!(InterpolationKernel::bilinear_coeffs(9).0 as f32 / 32.0, 0.718750);
    assert_eq!(InterpolationKernel::bilinear_coeffs(9).1 as f32 / 32.0, 0.281250);
    assert_eq!(InterpolationKernel::bilinear_coeffs(31).0 as f32 / 32.0, 0.031250);
    assert_eq!(InterpolationKernel::bilinear_coeffs(31).1 as f32 / 32.0, 0.968750);
}

#[test]
fn bilinear_coefficients_sum_to_one_at_every_phase() {
    for phase in 0..32u32 {
        let (c0, c1) = InterpolationKernel::bilinear_coeffs(phase);
        assert_eq!(c0 + c1, 32);
        assert_eq!(c0 as f32 / 32.0 + c1 as f32 / 32.0, 1.0);
    }
}
