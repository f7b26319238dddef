//! Command line payloads of the region commands and of shell completions.

use vstd::prelude::*;

use crate::ipc::{OutputRegion, RegionFrameCommand, RegionFrameSpec, RegionGeometry};

verus! {

/// Output format of a region selection.
#[derive(Clone, Copy, Debug, PartialEq, Eq, Structural)]
pub enum RegionFormat {
    /// "x y width height" in global coordinates.
    Plain,
    /// "x,y wxh" in global coordinates, like slurp.
    Slurp,
    /// The output-local region as JSON.
    Json,
}

/// The region frame subcommands.
#[derive(Clone, Debug, PartialEq, Eq)]
pub enum RegionFrameCli {
    /// Set the region frame, replacing any existing frame.
    SetFrame { output: String, x: i32, y: i32, width: u32, height: u32, color: String },
    /// Change the color of the existing region frame.
    SetColor { color: String },
    /// Get the current region frame.
    Get,
    /// Remove the region frame.
    Clear,
}

/// The IPC request of a region frame subcommand.
pub open spec fn region_frame_request(command: RegionFrameCli) -> RegionFrameCommand {
    match command {
        RegionFrameCli::SetFrame { output, x, y, width, height, color } => RegionFrameCommand::SetFrame(
            RegionFrameSpec {
                region: OutputRegion { output, geometry: RegionGeometry { x, y, width, height } },
                color,
            },
        ),
        RegionFrameCli::SetColor { color } => RegionFrameCommand::SetColor(color),
        RegionFrameCli::Get => RegionFrameCommand::Get,
        RegionFrameCli::Clear => RegionFrameCommand::Clear,
    }
}

impl vstd::std_specs::convert::FromSpecImpl<RegionFrameCli> for RegionFrameCommand {
    open spec fn obeys_from_spec() -> bool {
        true
    }

    open spec fn from_spec(v: RegionFrameCli) -> RegionFrameCommand {
        region_frame_request(v)
    }
}

impl From<RegionFrameCli> for RegionFrameCommand {
    fn from(command: RegionFrameCli) -> (r: RegionFrameCommand) {
        match command {
            RegionFrameCli::SetFrame { output, x, y, width, height, color } => RegionFrameCommand::SetFrame(
                RegionFrameSpec {
                    region: OutputRegion { output, geometry: RegionGeometry { x, y, width, height } },
                    color,
                },
            ),
            RegionFrameCli::SetColor { color } => RegionFrameCommand::SetColor(color),
            RegionFrameCli::Get => RegionFrameCommand::Get,
            RegionFrameCli::Clear => RegionFrameCommand::Clear,
        }
    }
}

/// Shells that completions can be generated for.
#[derive(Clone, Copy, Debug, PartialEq, Eq, Structural)]
pub enum CompletionShell {
    Bash,
    Elvish,
    Fish,
    PowerShell,
    Zsh,
    Nushell,
}

} // verus!
