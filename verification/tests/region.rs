use niri_sweaters::ipc::{OutputRegion, RegionFrameCommand, RegionFrameSpec, RegionGeometry};
use niri_sweaters::region::{
    button_action, ButtonAction, BTN_LEFT,
    cancels_on_resize, finish_region_selection, output_removed, plan_region_frame_command,
    pointer_down, region_geometry_from_edges, selected_region, start_region_selection,
    FinishOutcome, FramePlan, InteractiveState, SelectionPhase,
};

fn idle_state() -> InteractiveState {
    InteractiveState {
        session_locked: false,
        selection_active: false,
        pointer_grabbed: false,
        screenshot_open: false,
        window_mru_active: false,
        exit_dialog_open: false,
        popup_grab: false,
        has_outputs: true,
    }
}

fn geometry(x: i32, y: i32, width: u32, height: u32) -> RegionGeometry {
    RegionGeometry { x, y, width, height }
}

#[test]
fn geometry_from_edges() {
    assert_eq!(region_geometry_from_edges(10, 20, 110, 70), Some(geometry(10, 20, 100, 50)));
    assert_eq!(region_geometry_from_edges(-5, -5, 5, 0), Some(geometry(-5, -5, 10, 5)));
    assert_eq!(region_geometry_from_edges(3, 3, 3, 3), Some(geometry(3, 3, 0, 0)));
}

#[test]
fn geometry_from_edges_rejects_overflow_and_negative() {
    assert_eq!(region_geometry_from_edges(i32::MIN, 0, i32::MAX, 10), None);
    assert_eq!(region_geometry_from_edges(10, 0, 5, 10), None);
    assert_eq!(region_geometry_from_edges(0, 10, 5, 5), None);
    assert_eq!(
        region_geometry_from_edges(0, 0, i32::MAX, i32::MAX),
        Some(geometry(0, 0, i32::MAX as u32, i32::MAX as u32))
    );
}

#[test]
fn selected_region_global_offset() {
    let sel = selected_region("DP-1".to_string(), geometry(100, 80, 800, 600), 1920, -40).unwrap();
    assert_eq!(sel.region.output, "DP-1");
    assert_eq!(sel.region.geometry, geometry(100, 80, 800, 600));
    assert_eq!(sel.global_geometry, geometry(2020, 40, 800, 600));
}

#[test]
fn selected_region_overflow_is_none() {
    assert!(selected_region("DP-1".to_string(), geometry(i32::MAX, 0, 1, 1), 1, 0).is_none());
    assert!(selected_region("DP-1".to_string(), geometry(0, i32::MIN, 1, 1), 0, -1).is_none());
}

#[test]
fn start_selection_errors() {
    assert_eq!(start_region_selection(idle_state()), Ok(SelectionPhase::AwaitingPress));
    let mut s = idle_state();
    s.session_locked = true;
    s.selection_active = true;
    assert_eq!(start_region_selection(s).unwrap_err(), "cannot select a region while locked");
    let mut s = idle_state();
    s.popup_grab = true;
    s.has_outputs = false;
    assert_eq!(start_region_selection(s).unwrap_err(), "another interactive operation is active");
    let mut s = idle_state();
    s.has_outputs = false;
    assert_eq!(start_region_selection(s).unwrap_err(), "no outputs available");
}

#[test]
fn pointer_down_starts_drag_only_when_awaiting() {
    assert_eq!(pointer_down(Some(SelectionPhase::AwaitingPress), true), Some(SelectionPhase::Dragging));
    assert_eq!(pointer_down(Some(SelectionPhase::AwaitingPress), false), Some(SelectionPhase::AwaitingPress));
    assert_eq!(pointer_down(Some(SelectionPhase::Dragging), true), Some(SelectionPhase::Dragging));
    assert_eq!(pointer_down(None, true), None);
}

#[test]
fn finish_outcomes() {
    let name = "HDMI-A-1".to_string();
    let g = Some(geometry(1, 2, 3, 4));
    let r = finish_region_selection(None, &name, g, Some((0, 0)));
    assert_eq!(r, FinishOutcome::NoSelection);
    assert!(r.ends_grab());
    let r = finish_region_selection(Some(SelectionPhase::AwaitingPress), &name, g, Some((0, 0)));
    assert_eq!(r, FinishOutcome::StillAwaiting);
    assert!(!r.ends_grab());
    let r = finish_region_selection(Some(SelectionPhase::Dragging), &name, None, Some((0, 0)));
    assert_eq!(r, FinishOutcome::Rearm);
    assert!(!r.ends_grab());
    let r = finish_region_selection(Some(SelectionPhase::Dragging), &name, g, None);
    assert_eq!(r, FinishOutcome::Cancel);
    assert!(r.ends_grab());
    let r = finish_region_selection(Some(SelectionPhase::Dragging), &name, g, Some((10, 20)));
    match &r {
        FinishOutcome::Reply(Some(sel)) => {
            assert_eq!(sel.region.output, "HDMI-A-1");
            assert_eq!(sel.global_geometry, geometry(11, 22, 3, 4));
        }
        other => panic!("unexpected {other:?}"),
    }
    assert!(r.ends_grab());
    let r = finish_region_selection(Some(SelectionPhase::Dragging), &name, g, Some((i32::MAX, 0)));
    assert_eq!(r, FinishOutcome::Reply(None));
}

#[test]
fn resize_and_removal() {
    assert!(cancels_on_resize(true, (1920, 1080), (1280, 720)));
    assert!(!cancels_on_resize(true, (1920, 1080), (1920, 1080)));
    assert!(!cancels_on_resize(false, (1920, 1080), (1280, 720)));
    let r = output_removed(true, None, false);
    assert!(r.drop_frame && !r.cancel_selection);
    let r = output_removed(false, Some(SelectionPhase::AwaitingPress), false);
    assert!(!r.drop_frame && r.cancel_selection);
    let r = output_removed(false, Some(SelectionPhase::Dragging), false);
    assert!(!r.cancel_selection);
    let r = output_removed(false, Some(SelectionPhase::Dragging), true);
    assert!(r.cancel_selection);
}

fn spec_on(output: &str) -> RegionFrameSpec {
    RegionFrameSpec {
        region: OutputRegion {
            output: output.to_string(),
            geometry: geometry(100, 80, 800, 600),
        },
        color: "red".to_string(),
    }
}

#[test]
fn frame_command_plans() {
    let outputs = vec!["eDP-1".to_string(), "DP-1".to_string(), "DP-1".to_string()];
    assert_eq!(plan_region_frame_command(RegionFrameCommand::Get, &outputs, false), Ok(FramePlan::Report));
    assert_eq!(plan_region_frame_command(RegionFrameCommand::Clear, &outputs, false), Ok(FramePlan::Remove));
    assert_eq!(
        plan_region_frame_command(RegionFrameCommand::SetFrame(spec_on("DP-1")), &outputs, false),
        Ok(FramePlan::Install { output_index: 1, spec: spec_on("DP-1") })
    );
    assert_eq!(
        plan_region_frame_command(RegionFrameCommand::SetColor("blue".to_string()), &outputs, true),
        Ok(FramePlan::Recolor("blue".to_string()))
    );
}

#[test]
fn frame_command_errors() {
    let outputs = vec!["eDP-1".to_string()];
    assert_eq!(
        plan_region_frame_command(RegionFrameCommand::SetFrame(spec_on("DP-2")), &outputs, true).unwrap_err(),
        "output not found"
    );
    assert_eq!(
        plan_region_frame_command(RegionFrameCommand::SetColor("blue".to_string()), &outputs, false).unwrap_err(),
        "no region frame is active"
    );
}

#[test]
fn only_left_button_acts() {
    assert_eq!(button_action(BTN_LEFT, true), ButtonAction::Press);
    assert_eq!(button_action(0x110, false), ButtonAction::Release);
    assert_eq!(button_action(0x111, true), ButtonAction::Ignore);
    assert_eq!(button_action(0x112, false), ButtonAction::Ignore);
}
