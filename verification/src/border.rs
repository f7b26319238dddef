//! The discrete border shader parameters: which color space a gradient is
//! interpolated in, and how hues are interpolated.

use vstd::prelude::*;

verus! {

/// The color space a border gradient is interpolated in.
#[derive(Clone, Copy, Debug, PartialEq, Eq, Structural)]
pub enum GradientColorSpace {
    Srgb,
    SrgbLinear,
    Oklab,
    Oklch,
}

/// How hues are interpolated in a polar color space.
#[derive(Clone, Copy, Debug, PartialEq, Eq, Structural)]
pub enum HueInterpolation {
    Shorter,
    Longer,
    Increasing,
    Decreasing,
}

impl GradientColorSpace {
    /// The color space's number in the border shader.
    pub fn shader_index(self) -> (n: u32)
        ensures
            n == match self {
                GradientColorSpace::Srgb => 0u32,
                GradientColorSpace::SrgbLinear => 1,
                GradientColorSpace::Oklab => 2,
                GradientColorSpace::Oklch => 3,
            },
    {
        match self {
            GradientColorSpace::Srgb => 0,
            GradientColorSpace::SrgbLinear => 1,
            GradientColorSpace::Oklab => 2,
            GradientColorSpace::Oklch => 3,
        }
    }

    /// Whether gradient endpoints are converted from sRGB to linear light
    /// before interpolation; the Oklab spaces start from linear light too.
    pub fn needs_linear_light(self) -> (b: bool)
        ensures
            b == (self != GradientColorSpace::Srgb),
    {
        !matches!(self, GradientColorSpace::Srgb)
    }
}

impl HueInterpolation {
    /// The hue interpolation's number in the border shader.
    pub fn shader_index(self) -> (n: u32)
        ensures
            n == match self {
                HueInterpolation::Shorter => 0u32,
                HueInterpolation::Longer => 1,
                HueInterpolation::Increasing => 2,
                HueInterpolation::Decreasing => 3,
            },
    {
        match self {
            HueInterpolation::Shorter => 0,
            HueInterpolation::Longer => 1,
            HueInterpolation::Increasing => 2,
            HueInterpolation::Decreasing => 3,
        }
    }
}

} // verus!
