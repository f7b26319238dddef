use niri_sweaters::border::{GradientColorSpace, HueInterpolation};

#[test]
fn color_space_codes() {
    assert_eq!(GradientColorSpace::Srgb.shader_index(), 0);
    assert_eq!(GradientColorSpace::SrgbLinear.shader_index(), 1);
    assert_eq!(GradientColorSpace::Oklab.shader_index(), 2);
    assert_eq!(GradientColorSpace::Oklch.shader_index(), 3);
    assert!(!GradientColorSpace::Srgb.needs_linear_light());
    assert!(GradientColorSpace::SrgbLinear.needs_linear_light());
    assert!(GradientColorSpace::Oklch.needs_linear_light());
}

#[test]
fn hue_interpolation_codes() {
    assert_eq!(HueInterpolation::Shorter.shader_index(), 0);
    assert_eq!(HueInterpolation::Longer.shader_index(), 1);
    assert_eq!(HueInterpolation::Increasing.shader_index(), 2);
    assert_eq!(HueInterpolation::Decreasing.shader_index(), 3);
}
