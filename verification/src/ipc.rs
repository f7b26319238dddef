//! The region types exchanged over IPC: regions selected on an output and
//! the recording frame shown around one.

use vstd::prelude::*;

verus! {

/// A rectangle in logical coordinates: top-left corner and size.
#[derive(Clone, Copy, Debug, PartialEq, Eq, Structural)]
pub struct RegionGeometry {
    pub x: i32,
    pub y: i32,
    pub width: u32,
    pub height: u32,
}

/// A region on a named output, in output-local logical coordinates.
#[derive(Clone, Debug, PartialEq, Eq)]
pub struct OutputRegion {
    pub output: String,
    pub geometry: RegionGeometry,
}

/// A region frame: the region it surrounds and its CSS color.
#[derive(Clone, Debug, PartialEq, Eq)]
pub struct RegionFrameSpec {
    pub region: OutputRegion,
    pub color: String,
}

/// A request about the region frame.
#[derive(Clone, Debug, PartialEq, Eq)]
pub enum RegionFrameCommand {
    /// Show a frame, replacing any existing one.
    SetFrame(RegionFrameSpec),
    /// Change the color of the existing frame.
    SetColor(String),
    /// Report the current frame.
    Get,
    /// Remove the frame.
    Clear,
}

/// The result of an interactive region selection.
#[derive(Clone, Debug, PartialEq, Eq)]
pub struct SelectedRegion {
    /// The region in output-local coordinates.
    pub region: OutputRegion,
    /// The same region in global coordinates.
    pub global_geometry: RegionGeometry,
}

} // verus!
