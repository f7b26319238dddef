//! Interactive region selection and the region frame.
//!
//! A selection waits for a button press on an output, then follows a drag
//! and replies with the dragged rectangle when the button is released. The
//! frame is a fixed rectangle drawn on one output. Pointer positions are
//! continuous and stay with the caller; this module holds the integer
//! geometry and every decision of the selection and frame lifecycles.

use vstd::prelude::*;

use crate::ipc::{OutputRegion, RegionFrameCommand, RegionFrameSpec, RegionGeometry, SelectedRegion};

verus! {

/// Whether `v` fits a `u32` when it is a difference of two `i32` values.
pub open spec fn extent_fits(v: int) -> bool {
    0 <= v <= i32::MAX
}

/// The rectangle spanned by integer edges, where `left`/`top` are the
/// floored smaller coordinates and `right`/`bottom` the ceiled larger ones.
///
/// Returns `None` when a span is negative or does not fit an `i32`.
pub fn region_geometry_from_edges(left: i32, top: i32, right: i32, bottom: i32) -> (r: Option<
    RegionGeometry,
>)
    ensures
        r is Some <==> extent_fits(right - left) && extent_fits(bottom - top),
        r matches Some(g) ==> g.x == left && g.y == top && g.width == right - left && g.height
            == bottom - top,
{
    let w: i32 = right.checked_sub(left)?;
    let h: i32 = bottom.checked_sub(top)?;
    let width: u32 = u32::try_from(w).ok()?;
    let height: u32 = u32::try_from(h).ok()?;
    Some(RegionGeometry { x: left, y: top, width, height })
}

/// The selection result for `geometry` on the output named `output` whose
/// top-left corner is at `(origin_x, origin_y)` in global coordinates.
///
/// Returns `None` when the global position overflows an `i32`.
pub fn selected_region(output: String, geometry: RegionGeometry, origin_x: i32, origin_y: i32) -> (r:
    Option<SelectedRegion>)
    ensures
        r is Some <==> i32::MIN <= geometry.x + origin_x <= i32::MAX && i32::MIN <= geometry.y
            + origin_y <= i32::MAX,
        r matches Some(s) ==> s.region.output == output && s.region.geometry == geometry
            && s.global_geometry == (RegionGeometry {
            x: (geometry.x + origin_x) as i32,
            y: (geometry.y + origin_y) as i32,
            ..geometry
        }),
{
    let x: i32 = geometry.x.checked_add(origin_x)?;
    let y: i32 = geometry.y.checked_add(origin_y)?;
    Some(
        SelectedRegion {
            region: OutputRegion { output, geometry },
            global_geometry: RegionGeometry { x, y, width: geometry.width, height: geometry.height },
        },
    )
}

/// The phase of an active selection.
#[derive(Clone, Copy, Debug, PartialEq, Eq, Structural)]
pub enum SelectionPhase {
    /// Waiting for the button press that starts the drag.
    AwaitingPress,
    /// A drag is in progress on one output.
    Dragging,
}

/// What the compositor is busy with when a selection is requested.
#[derive(Clone, Copy, Debug, PartialEq, Eq, Structural)]
pub struct InteractiveState {
    /// The session is locked.
    pub session_locked: bool,
    /// A region selection is already active.
    pub selection_active: bool,
    /// The pointer is grabbed.
    pub pointer_grabbed: bool,
    /// The screenshot UI is open.
    pub screenshot_open: bool,
    /// The window switcher is active.
    pub window_mru_active: bool,
    /// The exit confirmation dialog is open.
    pub exit_dialog_open: bool,
    /// A popup grab is active.
    pub popup_grab: bool,
    /// At least one output exists.
    pub has_outputs: bool,
}

impl InteractiveState {
    /// Another interactive operation owns the pointer or the screen.
    pub open spec fn busy(self) -> bool {
        self.selection_active || self.pointer_grabbed || self.screenshot_open
            || self.window_mru_active || self.exit_dialog_open || self.popup_grab
    }
}

/// Starts a selection: on success the new selection waits for its press.
///
/// Refused while the session is locked, while another interactive operation
/// is active, and when there is no output, in this order of precedence.
pub fn start_region_selection(state: InteractiveState) -> (r: Result<SelectionPhase, String>)
    ensures
        r is Ok <==> !state.session_locked && !state.busy() && state.has_outputs,
        r matches Ok(p) ==> p == SelectionPhase::AwaitingPress,
        r matches Err(e) ==> e@ == (if state.session_locked {
            "cannot select a region while locked"@
        } else if state.busy() {
            "another interactive operation is active"@
        } else {
            "no outputs available"@
        }),
{
    if state.session_locked {
        return Err(String::from_str("cannot select a region while locked"));
    }
    if state.selection_active || state.pointer_grabbed || state.screenshot_open
        || state.window_mru_active || state.exit_dialog_open || state.popup_grab {
        return Err(String::from_str("another interactive operation is active"));
    }
    if !state.has_outputs {
        return Err(String::from_str("no outputs available"));
    }
    Ok(SelectionPhase::AwaitingPress)
}

/// The phase after a button press; `on_output` tells whether the press
/// landed on an output. Only a selection waiting for its press starts a drag.
pub fn pointer_down(phase: Option<SelectionPhase>, on_output: bool) -> (r: Option<SelectionPhase>)
    ensures
        r == (if phase == Some(SelectionPhase::AwaitingPress) && on_output {
            Some(SelectionPhase::Dragging)
        } else {
            phase
        }),
{
    match phase {
        Some(SelectionPhase::AwaitingPress) if on_output => Some(SelectionPhase::Dragging),
        _ => phase,
    }
}

/// The evdev code of the left mouse button.
pub const BTN_LEFT: u32 = 0x110;

/// What a pointer button event does to a selection.
#[derive(Clone, Copy, Debug, PartialEq, Eq, Structural)]
pub enum ButtonAction {
    /// Any button but the left one is ignored.
    Ignore,
    /// The left button was pressed: a drag may start.
    Press,
    /// The left button was released: the drag follows the pointer one last
    /// time and the selection finishes.
    Release,
}

/// Classifies a pointer button event of a selection grab.
pub fn button_action(button: u32, pressed: bool) -> (a: ButtonAction)
    ensures
        a == if button != BTN_LEFT {
            ButtonAction::Ignore
        } else if pressed {
            ButtonAction::Press
        } else {
            ButtonAction::Release
        },
{
    if button != BTN_LEFT {
        ButtonAction::Ignore
    } else if pressed {
        ButtonAction::Press
    } else {
        ButtonAction::Release
    }
}

/// What releasing the button does to a selection.
#[derive(Clone, Debug, PartialEq, Eq)]
pub enum FinishOutcome {
    /// No selection is active.
    NoSelection,
    /// No drag has started yet: keep waiting for the press.
    StillAwaiting,
    /// The drag spans no area: wait for a new press.
    Rearm,
    /// The dragged output is gone: cancel the selection.
    Cancel,
    /// Reply with the selection, `None` when its global position overflows,
    /// and end the selection.
    Reply(Option<SelectedRegion>),
}

impl FinishOutcome {
    /// Whether the outcome ends the pointer grab.
    pub open spec fn ends(self) -> bool {
        !(self is StillAwaiting || self is Rearm)
    }

    /// Whether the outcome ends the pointer grab.
    pub fn ends_grab(&self) -> (b: bool)
        ensures
            b == self.ends(),
    {
        !matches!(self, FinishOutcome::StillAwaiting | FinishOutcome::Rearm)
    }
}

/// Finishes a selection on button release.
///
/// `output` names the dragged output, `geometry` is the dragged rectangle
/// (`None` when it spans no area) and `origin` the output's global position
/// (`None` when the output is gone).
pub fn finish_region_selection(
    phase: Option<SelectionPhase>,
    output: &String,
    geometry: Option<RegionGeometry>,
    origin: Option<(i32, i32)>,
) -> (r: FinishOutcome)
    ensures
        phase is None ==> r == FinishOutcome::NoSelection,
        phase == Some(SelectionPhase::AwaitingPress) ==> r == FinishOutcome::StillAwaiting,
        phase == Some(SelectionPhase::Dragging) && geometry is None ==> r == FinishOutcome::Rearm,
        phase == Some(SelectionPhase::Dragging) && geometry is Some && origin is None ==> r
            == FinishOutcome::Cancel,
        phase == Some(SelectionPhase::Dragging) && geometry is Some && origin is Some ==> (r is Reply
            && match r {
            FinishOutcome::Reply(sel) => {
                let g = geometry->0;
                let (ox, oy) = origin->0;
                &&& (sel is Some <==> i32::MIN <= g.x + ox <= i32::MAX && i32::MIN <= g.y + oy
                    <= i32::MAX)
                &&& (sel matches Some(s) ==> s.region.output@ == output@ && s.region.geometry == g
                    && s.global_geometry == (RegionGeometry {
                    x: (g.x + ox) as i32,
                    y: (g.y + oy) as i32,
                    ..g
                }))
            },
            _ => false,
        }),
{
    match phase {
        None => FinishOutcome::NoSelection,
        Some(SelectionPhase::AwaitingPress) => FinishOutcome::StillAwaiting,
        Some(SelectionPhase::Dragging) => match geometry {
            None => FinishOutcome::Rearm,
            Some(g) => match origin {
                None => FinishOutcome::Cancel,
                Some((ox, oy)) => FinishOutcome::Reply(selected_region(output.clone(), g, ox, oy)),
            },
        },
    }
}

/// Whether a resize of an output cancels the selection: a drag on that
/// output is cancelled when the output's integer size changed.
pub fn cancels_on_resize(
    dragging_on_output: bool,
    drag_size: (i32, i32),
    output_size: (i32, i32),
) -> (b: bool)
    ensures
        b == (dragging_on_output && drag_size != output_size),
{
    dragging_on_output && (drag_size.0 != output_size.0 || drag_size.1 != output_size.1)
}

/// What removing an output drops.
#[derive(Clone, Copy, Debug, PartialEq, Eq, Structural)]
pub struct RemovalOutcome {
    /// The region frame was on the removed output.
    pub drop_frame: bool,
    /// The selection waited for its press or dragged on the removed output.
    pub cancel_selection: bool,
}

/// Decides what the removal of an output drops. `frame_on_output` tells
/// whether the frame is shown on it, `dragging_on_output` whether a drag
/// runs on it.
pub fn output_removed(
    frame_on_output: bool,
    phase: Option<SelectionPhase>,
    dragging_on_output: bool,
) -> (r: RemovalOutcome)
    ensures
        r.drop_frame == frame_on_output,
        r.cancel_selection == (phase == Some(SelectionPhase::AwaitingPress) || (phase == Some(
            SelectionPhase::Dragging,
        ) && dragging_on_output)),
{
    let cancel_selection = match phase {
        None => false,
        Some(SelectionPhase::AwaitingPress) => true,
        Some(SelectionPhase::Dragging) => dragging_on_output,
    };
    RemovalOutcome { drop_frame: frame_on_output, cancel_selection }
}

/// What a region frame request asks the compositor to do.
#[derive(Clone, Debug, PartialEq, Eq)]
pub enum FramePlan {
    /// Report the current frame.
    Report,
    /// Show a frame on the output at `output_index`.
    Install { output_index: usize, spec: RegionFrameSpec },
    /// Change the color of the active frame.
    Recolor(String),
    /// Remove the frame.
    Remove,
}

/// The index of the first output named `name`, if any.
pub open spec fn first_named(outputs: Seq<String>, name: Seq<char>, i: int) -> bool {
    &&& 0 <= i < outputs.len()
    &&& outputs[i]@ == name
    &&& forall|j: int| 0 <= j < i ==> outputs[j]@ != name
}

/// Plans a region frame request against the outputs' names and whether a
/// frame is active.
///
/// Setting a frame needs an output of the requested name (the first one is
/// taken); changing the color needs an active frame.
pub fn plan_region_frame_command(
    command: RegionFrameCommand,
    outputs: &Vec<String>,
    frame_active: bool,
) -> (r: Result<FramePlan, String>)
    ensures
        command is Get ==> r == Ok::<FramePlan, String>(FramePlan::Report),
        command is Clear ==> r == Ok::<FramePlan, String>(FramePlan::Remove),
        command matches RegionFrameCommand::SetColor(c) ==> if frame_active {
            r == Ok::<FramePlan, String>(FramePlan::Recolor(c))
        } else {
            r matches Err(e) && e@ == "no region frame is active"@
        },
        command matches RegionFrameCommand::SetFrame(spec) ==> if exists|i: int|
            0 <= i < outputs@.len() && #[trigger] outputs@[i]@ == spec.region.output@ {
            r matches Ok(FramePlan::Install { output_index, spec: s }) && s == spec && first_named(
                outputs@,
                spec.region.output@,
                output_index as int,
            )
        } else {
            r matches Err(e) && e@ == "output not found"@
        },
{
    match command {
        RegionFrameCommand::Get => Ok(FramePlan::Report),
        RegionFrameCommand::Clear => Ok(FramePlan::Remove),
        RegionFrameCommand::SetColor(color) => {
            if frame_active {
                Ok(FramePlan::Recolor(color))
            } else {
                Err(String::from_str("no region frame is active"))
            }
        },
        RegionFrameCommand::SetFrame(spec) => {
            let mut i: usize = 0;
            while i < outputs.len()
                invariant
                    0 <= i <= outputs@.len(),
                    command == RegionFrameCommand::SetFrame(spec),
                    forall|j: int| 0 <= j < i ==> outputs@[j]@ != spec.region.output@,
                decreases outputs@.len() - i,
            {
                if outputs[i] == spec.region.output {
                    return Ok(FramePlan::Install { output_index: i, spec });
                }
                i = i + 1;
            }
            Err(String::from_str("output not found"))
        },
    }
}

} // verus!
