use niri_sweaters::sampling::{current_upscale_filter, draw_outcome, DrawOutcome, FilterTracker, SamplingRenderElement, UpscaleFilter};

#[test]
fn nearest_element_filter_and_storage() {
    let nearest = SamplingRenderElement::new(7u32, true);
    assert_eq!(nearest.draw_filter(), UpscaleFilter::Nearest);
    assert!(!nearest.forwards_underlying_storage());
    assert_eq!(*nearest.element(), 7);
    let linear = SamplingRenderElement::new("inner", false);
    assert_eq!(linear.draw_filter(), UpscaleFilter::Linear);
    assert!(linear.forwards_underlying_storage());
    assert_eq!(*linear.element(), "inner");
}

#[test]
fn tracker_scoped_switch_restores() {
    let mut t = FilterTracker::new();
    assert_eq!(t.current, UpscaleFilter::Linear);
    assert!(!t.needs_switch(UpscaleFilter::Linear));
    assert!(t.needs_switch(UpscaleFilter::Nearest));
    let prev = t.switch_to(UpscaleFilter::Nearest, true).unwrap();
    assert_eq!(prev, UpscaleFilter::Linear);
    assert_eq!(t.current, UpscaleFilter::Nearest);
    assert_eq!(t.switch_to(prev, true), Some(UpscaleFilter::Nearest));
    assert_eq!(t.current, UpscaleFilter::Linear);
}

#[test]
fn tracker_noop_switch_ignores_renderer() {
    let mut t = FilterTracker::new();
    assert_eq!(t.switch_to(UpscaleFilter::Linear, false), Some(UpscaleFilter::Linear));
    assert_eq!(t.current, UpscaleFilter::Linear);
}

#[test]
fn tracker_failed_switch_changes_nothing() {
    let mut t = FilterTracker::new();
    assert_eq!(t.switch_to(UpscaleFilter::Nearest, false), None);
    assert_eq!(t.current, UpscaleFilter::Linear);
}

#[test]
fn draw_error_wins_over_restore_error() {
    assert_eq!(draw_outcome(true, true), DrawOutcome::Drawn);
    assert_eq!(draw_outcome(false, false), DrawOutcome::DrawFailed);
    assert_eq!(draw_outcome(false, true), DrawOutcome::DrawFailed);
    assert_eq!(draw_outcome(true, false), DrawOutcome::RestoreFailed);
}

#[test]
fn current_filter_defaults_to_linear() {
    assert_eq!(current_upscale_filter(None), UpscaleFilter::Linear);
    let t = FilterTracker { current: UpscaleFilter::Nearest };
    assert_eq!(current_upscale_filter(Some(&t)), UpscaleFilter::Nearest);
}
