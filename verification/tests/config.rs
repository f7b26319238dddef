use niri_sweaters::config::{
    Clipboard, ClipboardPart, ConfigNotification, ConfigNotificationPart, Cursor, CursorPart,
    Environment, Flag, HotkeyOverlay, HotkeyOverlayPart, MergeWith, PinchFingers, ScreenshotPath,
    XwaylandSatellite, XwaylandSatellitePart, ZoomDebug, ZoomDebugPart,
};

#[test]
fn cursor_defaults() {
    let c = Cursor::default();
    assert_eq!(c.xcursor_theme, "default");
    assert_eq!(c.xcursor_size, 24);
    assert!(!c.hide_when_typing);
    assert_eq!(c.hide_after_inactive_ms, None);
}

#[test]
fn cursor_merge_overrides_set_fields() {
    let mut c = Cursor::default();
    c.merge_with(&CursorPart {
        xcursor_theme: Some("Adwaita".to_string()),
        xcursor_size: None,
        hide_when_typing: Some(Flag(true)),
        hide_after_inactive_ms: Some(1000),
    });
    assert_eq!(c.xcursor_theme, "Adwaita");
    assert_eq!(c.xcursor_size, 24);
    assert!(c.hide_when_typing);
    assert_eq!(c.hide_after_inactive_ms, Some(1000));
    c.merge_with(&CursorPart {
        xcursor_theme: None,
        xcursor_size: Some(32),
        hide_when_typing: Some(Flag(false)),
        hide_after_inactive_ms: None,
    });
    assert_eq!(c.xcursor_theme, "Adwaita");
    assert_eq!(c.xcursor_size, 32);
    assert!(!c.hide_when_typing);
    assert_eq!(c.hide_after_inactive_ms, Some(1000));
}

#[test]
fn empty_parts_keep_values() {
    let mut c = Cursor::default();
    c.merge_with(&CursorPart {
        xcursor_theme: None,
        xcursor_size: None,
        hide_when_typing: None,
        hide_after_inactive_ms: None,
    });
    assert_eq!(c, Cursor::default());
    let mut h = HotkeyOverlay { skip_at_startup: true, hide_not_bound: false };
    h.merge_with(&HotkeyOverlayPart::default());
    assert_eq!(h, HotkeyOverlay { skip_at_startup: true, hide_not_bound: false });
    let mut d = ZoomDebug { deadzone: true, focal_point: true };
    d.merge_with(&ZoomDebugPart::default());
    assert_eq!(d, ZoomDebug { deadzone: true, focal_point: true });
}

#[test]
fn flag_sections_merge() {
    let mut h = HotkeyOverlay::default();
    h.merge_with(&HotkeyOverlayPart { skip_at_startup: Some(Flag(true)), hide_not_bound: None });
    assert_eq!(h, HotkeyOverlay { skip_at_startup: true, hide_not_bound: false });
    let mut n = ConfigNotification::default();
    n.merge_with(&ConfigNotificationPart { disable_failed: Some(Flag(true)) });
    assert!(n.disable_failed);
    n.merge_with(&ConfigNotificationPart::default());
    assert!(n.disable_failed);
    let mut c = Clipboard::default();
    c.merge_with(&ClipboardPart { disable_primary: Some(Flag(true)) });
    assert!(c.disable_primary);
    c.merge_with(&ClipboardPart { disable_primary: Some(Flag(false)) });
    assert!(!c.disable_primary);
    let mut d = ZoomDebug::default();
    d.merge_with(&ZoomDebugPart { deadzone: Some(Flag(true)), focal_point: None });
    assert_eq!(d, ZoomDebug { deadzone: true, focal_point: false });
}

#[test]
fn merging_twice_equals_once() {
    let part = HotkeyOverlayPart { skip_at_startup: Some(Flag(true)), hide_not_bound: Some(Flag(false)) };
    let mut once = HotkeyOverlay { skip_at_startup: false, hide_not_bound: true };
    once.merge_with(&part);
    let mut twice = once;
    twice.merge_with(&part);
    assert_eq!(once, twice);
}

#[test]
fn screenshot_path_default() {
    assert_eq!(
        ScreenshotPath::default(),
        ScreenshotPath(Some("~/Pictures/Screenshots/Screenshot from %Y-%m-%d %H-%M-%S.png".to_string()))
    );
}

#[test]
fn environment_default_is_empty() {
    assert!(Environment::default().0.is_empty());
}

#[test]
fn xwayland_satellite_merge() {
    let mut x = XwaylandSatellite::default();
    assert!(!x.off);
    assert_eq!(x.path, "xwayland-satellite");
    x.merge_with(&XwaylandSatellitePart { off: true, on: false, path: Some("/usr/bin/xws".to_string()) });
    assert!(x.off);
    assert_eq!(x.path, "/usr/bin/xws");
    x.merge_with(&XwaylandSatellitePart { off: false, on: false, path: None });
    assert!(x.off);
    assert_eq!(x.path, "/usr/bin/xws");
    x.merge_with(&XwaylandSatellitePart { off: true, on: true, path: None });
    assert!(!x.off);
}

#[test]
fn pinch_fingers_validation() {
    assert_eq!(PinchFingers::from_count(2), Ok(PinchFingers(2)));
    assert_eq!(PinchFingers::from_count(5), Ok(PinchFingers(5)));
    assert_eq!(PinchFingers::from_count(1), Err("value must be at least 2"));
    assert_eq!(PinchFingers::from_count(0), Err("value must be at least 2"));
    assert_eq!(PinchFingers::default(), PinchFingers(0));
}

#[test]
fn pinch_fingers_merge_opts_in() {
    let mut fingers: Option<u32> = None;
    fingers.merge_with(&PinchFingers(3));
    assert_eq!(fingers, Some(3));
    fingers.merge_with(&PinchFingers(4));
    assert_eq!(fingers, Some(4));
}

#[test]
fn flag_merges_over_bool() {
    let mut b = false;
    b.merge_with(&Flag(true));
    assert!(b);
    b.merge_with(&Flag(false));
    assert!(!b);
}
