//! Miscellaneous configuration sections and how a parsed section part is
//! merged over the current values.
//!
//! Every section comes as a resolved value and a `*Part` as written in one
//! configuration node: a field that the part sets replaces the current
//! value, a field it leaves out keeps it.

use vstd::prelude::*;

verus! {

/// A flag node: present with an optional boolean argument that defaults to
/// `true`.
#[derive(Clone, Copy, Debug, Default, PartialEq, Eq, Structural)]
pub struct Flag(pub bool);

/// Merging a parsed part over a resolved value.
pub trait MergeWith<T> {
    /// Overrides the fields that `part` sets.
    fn merge_with(&mut self, part: &T);
}

/// The value a field takes after a merge: the part's value if it sets one.
pub open spec fn merge_value<T>(current: T, part: Option<T>) -> T {
    match part {
        Some(v) => v,
        None => current,
    }
}

/// The boolean a flag part sets, if any.
pub open spec fn flag_value(part: Option<Flag>) -> Option<bool> {
    match part {
        Some(f) => Some(f.0),
        None => None,
    }
}

impl MergeWith<Flag> for bool {
    fn merge_with(&mut self, part: &Flag)
        ensures
            *final(self) == part.0,
    {
        *self = part.0;
    }
}

/// Merges an optional flag part over a boolean.
fn merge_flag(value: &mut bool, part: &Option<Flag>)
    ensures
        *final(value) == merge_value(*old(value), flag_value(*part)),
{
    if let Some(flag) = part {
        value.merge_with(flag);
    }
}

/// Merges an optional string part over a string, cloning it.
fn merge_string(value: &mut String, part: &Option<String>)
    ensures
        final(value)@ == merge_value(old(value)@, part.deep_view()),
{
    if let Some(s) = part {
        *value = s.clone();
    }
}

/// A command spawned at startup, given as program and arguments.
#[derive(Clone, Debug, PartialEq, Eq)]
pub struct SpawnAtStartup {
    pub command: Vec<String>,
}

/// A command spawned at startup through the shell.
#[derive(Clone, Debug, PartialEq, Eq)]
pub struct SpawnShAtStartup {
    pub command: String,
}

/// Cursor settings.
#[derive(Debug, PartialEq)]
pub struct Cursor {
    pub xcursor_theme: String,
    pub xcursor_size: u8,
    pub hide_when_typing: bool,
    pub hide_after_inactive_ms: Option<u32>,
}

/// The cursor section as written in one node.
#[derive(Debug, PartialEq)]
pub struct CursorPart {
    pub xcursor_theme: Option<String>,
    pub xcursor_size: Option<u8>,
    pub hide_when_typing: Option<Flag>,
    pub hide_after_inactive_ms: Option<u32>,
}

impl View for Cursor {
    type V = (Seq<char>, u8, bool, Option<u32>);

    open spec fn view(&self) -> (Seq<char>, u8, bool, Option<u32>) {
        (self.xcursor_theme@, self.xcursor_size, self.hide_when_typing, self.hide_after_inactive_ms)
    }
}

impl View for CursorPart {
    type V = (Option<Seq<char>>, Option<u8>, Option<bool>, Option<u32>);

    open spec fn view(&self) -> (Option<Seq<char>>, Option<u8>, Option<bool>, Option<u32>) {
        (
            self.xcursor_theme.deep_view(),
            self.xcursor_size,
            flag_value(self.hide_when_typing),
            self.hide_after_inactive_ms,
        )
    }
}

/// Cursor settings after merging a part.
pub open spec fn cursor_merged(
    c: (Seq<char>, u8, bool, Option<u32>),
    p: (Option<Seq<char>>, Option<u8>, Option<bool>, Option<u32>),
) -> (Seq<char>, u8, bool, Option<u32>) {
    (
        merge_value(c.0, p.0),
        merge_value(c.1, p.1),
        merge_value(c.2, p.2),
        if p.3 is Some {
            p.3
        } else {
            c.3
        },
    )
}

impl Default for Cursor {
    fn default() -> (r: Self)
        ensures
            r@ == ("default"@, 24u8, false, None::<u32>),
    {
        Cursor {
            xcursor_theme: String::from_str("default"),
            xcursor_size: 24,
            hide_when_typing: false,
            hide_after_inactive_ms: None,
        }
    }
}

impl MergeWith<CursorPart> for Cursor {
    fn merge_with(&mut self, part: &CursorPart)
        ensures
            final(self)@ == cursor_merged(old(self)@, part@),
    {
        merge_string(&mut self.xcursor_theme, &part.xcursor_theme);
        if let Some(size) = part.xcursor_size {
            self.xcursor_size = size;
        }
        merge_flag(&mut self.hide_when_typing, &part.hide_when_typing);
        if part.hide_after_inactive_ms.is_some() {
            self.hide_after_inactive_ms = part.hide_after_inactive_ms;
        }
    }
}

/// The path template of saved screenshots; `None` disables saving.
#[derive(Clone, Debug, PartialEq)]
pub struct ScreenshotPath(pub Option<String>);

impl Default for ScreenshotPath {
    fn default() -> (r: Self)
        ensures
            r.0.deep_view() == Some(
                "~/Pictures/Screenshots/Screenshot from %Y-%m-%d %H-%M-%S.png"@,
            ),
    {
        ScreenshotPath(
            Some(String::from_str("~/Pictures/Screenshots/Screenshot from %Y-%m-%d %H-%M-%S.png")),
        )
    }
}

/// Hotkey overlay settings.
#[derive(Clone, Copy, Debug, PartialEq, Eq, Structural)]
pub struct HotkeyOverlay {
    pub skip_at_startup: bool,
    pub hide_not_bound: bool,
}

/// The hotkey overlay section as written in one node.
#[derive(Clone, Copy, Debug, PartialEq, Eq, Structural)]
pub struct HotkeyOverlayPart {
    pub skip_at_startup: Option<Flag>,
    pub hide_not_bound: Option<Flag>,
}

impl HotkeyOverlay {
    /// The settings after merging `part`.
    pub open spec fn merged(self, part: HotkeyOverlayPart) -> Self {
        HotkeyOverlay {
            skip_at_startup: merge_value(self.skip_at_startup, flag_value(part.skip_at_startup)),
            hide_not_bound: merge_value(self.hide_not_bound, flag_value(part.hide_not_bound)),
        }
    }
}

impl Default for HotkeyOverlay {
    fn default() -> (r: Self)
        ensures
            r == (HotkeyOverlay { skip_at_startup: false, hide_not_bound: false }),
    {
        HotkeyOverlay { skip_at_startup: false, hide_not_bound: false }
    }
}

impl Default for HotkeyOverlayPart {
    fn default() -> (r: Self)
        ensures
            r == (HotkeyOverlayPart { skip_at_startup: None, hide_not_bound: None }),
    {
        HotkeyOverlayPart { skip_at_startup: None, hide_not_bound: None }
    }
}

impl MergeWith<HotkeyOverlayPart> for HotkeyOverlay {
    fn merge_with(&mut self, part: &HotkeyOverlayPart)
        ensures
            *final(self) == old(self).merged(*part),
    {
        merge_flag(&mut self.skip_at_startup, &part.skip_at_startup);
        merge_flag(&mut self.hide_not_bound, &part.hide_not_bound);
    }
}

/// Config notification settings.
#[derive(Clone, Copy, Debug, PartialEq, Eq, Structural)]
pub struct ConfigNotification {
    pub disable_failed: bool,
}

/// The config notification section as written in one node.
#[derive(Clone, Copy, Debug, PartialEq, Eq, Structural)]
pub struct ConfigNotificationPart {
    pub disable_failed: Option<Flag>,
}

impl ConfigNotification {
    /// The settings after merging `part`.
    pub open spec fn merged(self, part: ConfigNotificationPart) -> Self {
        ConfigNotification {
            disable_failed: merge_value(self.disable_failed, flag_value(part.disable_failed)),
        }
    }
}

impl Default for ConfigNotification {
    fn default() -> (r: Self)
        ensures
            r == (ConfigNotification { disable_failed: false }),
    {
        ConfigNotification { disable_failed: false }
    }
}

impl Default for ConfigNotificationPart {
    fn default() -> (r: Self)
        ensures
            r == (ConfigNotificationPart { disable_failed: None }),
    {
        ConfigNotificationPart { disable_failed: None }
    }
}

impl MergeWith<ConfigNotificationPart> for ConfigNotification {
    fn merge_with(&mut self, part: &ConfigNotificationPart)
        ensures
            *final(self) == old(self).merged(*part),
    {
        merge_flag(&mut self.disable_failed, &part.disable_failed);
    }
}

/// Clipboard settings.
#[derive(Clone, Copy, Debug, PartialEq, Eq, Structural)]
pub struct Clipboard {
    pub disable_primary: bool,
}

/// The clipboard section as written in one node.
#[derive(Clone, Copy, Debug, PartialEq, Eq, Structural)]
pub struct ClipboardPart {
    pub disable_primary: Option<Flag>,
}

impl Clipboard {
    /// The settings after merging `part`.
    pub open spec fn merged(self, part: ClipboardPart) -> Self {
        Clipboard { disable_primary: merge_value(self.disable_primary, flag_value(part.disable_primary)) }
    }
}

impl Default for Clipboard {
    fn default() -> (r: Self)
        ensures
            r == (Clipboard { disable_primary: false }),
    {
        Clipboard { disable_primary: false }
    }
}

impl Default for ClipboardPart {
    fn default() -> (r: Self)
        ensures
            r == (ClipboardPart { disable_primary: None }),
    {
        ClipboardPart { disable_primary: None }
    }
}

impl MergeWith<ClipboardPart> for Clipboard {
    fn merge_with(&mut self, part: &ClipboardPart)
        ensures
            *final(self) == old(self).merged(*part),
    {
        merge_flag(&mut self.disable_primary, &part.disable_primary);
    }
}

/// Environment variables set for spawned processes.
#[derive(Clone, Debug, PartialEq, Eq)]
pub struct Environment(pub Vec<EnvironmentVariable>);

/// One environment variable; `None` unsets it.
#[derive(Clone, Debug, PartialEq, Eq)]
pub struct EnvironmentVariable {
    pub name: String,
    pub value: Option<String>,
}

impl Default for Environment {
    fn default() -> (r: Self)
        ensures
            r.0@.len() == 0,
    {
        Environment(Vec::new())
    }
}

/// Xwayland-satellite integration settings.
#[derive(Clone, Debug, PartialEq, Eq)]
pub struct XwaylandSatellite {
    pub off: bool,
    pub path: String,
}

/// The xwayland-satellite section as written in one node.
#[derive(Clone, Debug, PartialEq, Eq)]
pub struct XwaylandSatellitePart {
    pub off: bool,
    pub on: bool,
    pub path: Option<String>,
}

impl View for XwaylandSatellite {
    type V = (bool, Seq<char>);

    open spec fn view(&self) -> (bool, Seq<char>) {
        (self.off, self.path@)
    }
}

impl View for XwaylandSatellitePart {
    type V = (bool, bool, Option<Seq<char>>);

    open spec fn view(&self) -> (bool, bool, Option<Seq<char>>) {
        (self.off, self.on, self.path.deep_view())
    }
}

/// Xwayland-satellite settings after merging a part: `off` switches the
/// integration off, `on` switches it back on and wins over `off`.
pub open spec fn xwayland_satellite_merged(c: (bool, Seq<char>), p: (bool, bool, Option<Seq<char>>)) -> (
    bool,
    Seq<char>,
) {
    ((c.0 || p.0) && !p.1, merge_value(c.1, p.2))
}

impl Default for XwaylandSatellite {
    fn default() -> (r: Self)
        ensures
            r@ == (false, "xwayland-satellite"@),
    {
        XwaylandSatellite { off: false, path: String::from_str("xwayland-satellite") }
    }
}

impl MergeWith<XwaylandSatellitePart> for XwaylandSatellite {
    fn merge_with(&mut self, part: &XwaylandSatellitePart)
        ensures
            final(self)@ == xwayland_satellite_merged(old(self)@, part@),
    {
        self.off = self.off || part.off;
        if part.on {
            self.off = false;
        }
        merge_string(&mut self.path, &part.path);
    }
}

/// Debug visualization of the desktop zoom state.
#[derive(Clone, Copy, Debug, PartialEq, Eq, Structural)]
pub struct ZoomDebug {
    /// Outline the deadzone rectangle.
    pub deadzone: bool,
    /// Mark the focal point of the viewport transform.
    pub focal_point: bool,
}

/// The zoom debug section as written in one node.
#[derive(Clone, Copy, Debug, PartialEq, Eq, Structural)]
pub struct ZoomDebugPart {
    pub deadzone: Option<Flag>,
    pub focal_point: Option<Flag>,
}

impl ZoomDebug {
    /// The settings after merging `part`.
    pub open spec fn merged(self, part: ZoomDebugPart) -> Self {
        ZoomDebug {
            deadzone: merge_value(self.deadzone, flag_value(part.deadzone)),
            focal_point: merge_value(self.focal_point, flag_value(part.focal_point)),
        }
    }
}

impl Default for ZoomDebug {
    fn default() -> (r: Self)
        ensures
            r == (ZoomDebug { deadzone: false, focal_point: false }),
    {
        ZoomDebug { deadzone: false, focal_point: false }
    }
}

impl Default for ZoomDebugPart {
    fn default() -> (r: Self)
        ensures
            r == (ZoomDebugPart { deadzone: None, focal_point: None }),
    {
        ZoomDebugPart { deadzone: None, focal_point: None }
    }
}

impl MergeWith<ZoomDebugPart> for ZoomDebug {
    fn merge_with(&mut self, part: &ZoomDebugPart)
        ensures
            *final(self) == old(self).merged(*part),
    {
        merge_flag(&mut self.deadzone, &part.deadzone);
        merge_flag(&mut self.focal_point, &part.focal_point);
    }
}

/// Finger count of a touchpad pinch gesture that controls the desktop zoom.
///
/// A pinch needs at least two fingers; there is no upper bound.
#[derive(Clone, Copy, Debug, Default, PartialEq, Eq, Structural)]
pub struct PinchFingers(pub u32);

impl PinchFingers {
    /// Validates a decoded finger count.
    pub fn from_count(value: u32) -> (r: Result<PinchFingers, &'static str>)
        ensures
            r is Ok <==> value >= 2,
            r matches Ok(p) ==> p.0 == value,
            r matches Err(e) ==> e@ == "value must be at least 2"@,
    {
        if value >= 2 {
            Ok(PinchFingers(value))
        } else {
            Err("value must be at least 2")
        }
    }
}

impl MergeWith<PinchFingers> for Option<u32> {
    fn merge_with(&mut self, part: &PinchFingers)
        ensures
            *final(self) == Some(part.0),
    {
        *self = Some(part.0);
    }
}

/// Merging a part that sets nothing leaves every section unchanged.
pub proof fn lemma_merge_empty_part_keeps(
    cursor: (Seq<char>, u8, bool, Option<u32>),
    hotkey: HotkeyOverlay,
    notification: ConfigNotification,
    clipboard: Clipboard,
    xwayland: (bool, Seq<char>),
    debug: ZoomDebug,
)
    ensures
        cursor_merged(cursor, (None, None, None, None)) == cursor,
        hotkey.merged(HotkeyOverlayPart { skip_at_startup: None, hide_not_bound: None }) == hotkey,
        notification.merged(ConfigNotificationPart { disable_failed: None }) == notification,
        clipboard.merged(ClipboardPart { disable_primary: None }) == clipboard,
        xwayland_satellite_merged(xwayland, (false, false, None)) == xwayland,
        debug.merged(ZoomDebugPart { deadzone: None, focal_point: None }) == debug,
{
}

/// Merging the same part twice gives the same settings as merging it once.
pub proof fn lemma_merge_idempotent(
    cursor: (Seq<char>, u8, bool, Option<u32>),
    cursor_part: (Option<Seq<char>>, Option<u8>, Option<bool>, Option<u32>),
    hotkey: HotkeyOverlay,
    hotkey_part: HotkeyOverlayPart,
    notification: ConfigNotification,
    notification_part: ConfigNotificationPart,
    clipboard: Clipboard,
    clipboard_part: ClipboardPart,
    xwayland: (bool, Seq<char>),
    xwayland_part: (bool, bool, Option<Seq<char>>),
    debug: ZoomDebug,
    debug_part: ZoomDebugPart,
)
    ensures
        cursor_merged(cursor_merged(cursor, cursor_part), cursor_part) == cursor_merged(
            cursor,
            cursor_part,
        ),
        hotkey.merged(hotkey_part).merged(hotkey_part) == hotkey.merged(hotkey_part),
        notification.merged(notification_part).merged(notification_part) == notification.merged(
            notification_part,
        ),
        clipboard.merged(clipboard_part).merged(clipboard_part) == clipboard.merged(
            clipboard_part,
        ),
        xwayland_satellite_merged(xwayland_satellite_merged(xwayland, xwayland_part), xwayland_part)
            == xwayland_satellite_merged(xwayland, xwayland_part),
        debug.merged(debug_part).merged(debug_part) == debug.merged(debug_part),
{
}

/// A later part overrides every field that an earlier part set and that the
/// later part sets too; the fields only the earlier part set survive.
pub proof fn lemma_merge_later_part_wins(
    cursor: (Seq<char>, u8, bool, Option<u32>),
    first: (Option<Seq<char>>, Option<u8>, Option<bool>, Option<u32>),
    second: (Option<Seq<char>>, Option<u8>, Option<bool>, Option<u32>),
)
    ensures
        ({
            let combined = (
                if second.0 is Some { second.0 } else { first.0 },
                if second.1 is Some { second.1 } else { first.1 },
                if second.2 is Some { second.2 } else { first.2 },
                if second.3 is Some { second.3 } else { first.3 },
            );
            cursor_merged(cursor_merged(cursor, first), second) == cursor_merged(cursor, combined)
        }),
{
}

/// In a merged xwayland-satellite section, `on` always leaves the
/// integration on; `off` without `on` switches it off; a part with neither
/// keeps the current switch. A path in the part replaces the current one.
pub proof fn lemma_xwayland_on_wins(c: (bool, Seq<char>), p: (bool, bool, Option<Seq<char>>))
    ensures
        p.1 ==> !xwayland_satellite_merged(c, p).0,
        p.0 && !p.1 ==> xwayland_satellite_merged(c, p).0,
        !p.0 && !p.1 ==> xwayland_satellite_merged(c, p).0 == c.0,
        p.2 matches Some(path) ==> xwayland_satellite_merged(c, p).1 == path,
        p.2 is None ==> xwayland_satellite_merged(c, p).1 == c.1,
{
}

/// A flag that a part writes gives the merged field exactly the flag's
/// value; a flag the part leaves out keeps the current field. The same
/// holds of every optional cursor field, and an inactivity timeout that the
/// part leaves out keeps the current one.
pub proof fn lemma_part_sets_fields(
    cursor: (Seq<char>, u8, bool, Option<u32>),
    cursor_part: (Option<Seq<char>>, Option<u8>, Option<bool>, Option<u32>),
    hotkey: HotkeyOverlay,
    hotkey_part: HotkeyOverlayPart,
    notification: ConfigNotification,
    notification_part: ConfigNotificationPart,
    clipboard: Clipboard,
    clipboard_part: ClipboardPart,
    debug: ZoomDebug,
    debug_part: ZoomDebugPart,
)
    ensures
        cursor_part.0 matches Some(v) ==> cursor_merged(cursor, cursor_part).0 == v,
        cursor_part.0 is None ==> cursor_merged(cursor, cursor_part).0 == cursor.0,
        cursor_part.1 matches Some(v) ==> cursor_merged(cursor, cursor_part).1 == v,
        cursor_part.1 is None ==> cursor_merged(cursor, cursor_part).1 == cursor.1,
        cursor_part.2 matches Some(v) ==> cursor_merged(cursor, cursor_part).2 == v,
        cursor_part.2 is None ==> cursor_merged(cursor, cursor_part).2 == cursor.2,
        cursor_part.3 is Some ==> cursor_merged(cursor, cursor_part).3 == cursor_part.3,
        cursor_part.3 is None ==> cursor_merged(cursor, cursor_part).3 == cursor.3,
        hotkey_part.skip_at_startup matches Some(f) ==> hotkey.merged(hotkey_part).skip_at_startup
            == f.0,
        hotkey_part.skip_at_startup is None ==> hotkey.merged(hotkey_part).skip_at_startup
            == hotkey.skip_at_startup,
        hotkey_part.hide_not_bound matches Some(f) ==> hotkey.merged(hotkey_part).hide_not_bound
            == f.0,
        hotkey_part.hide_not_bound is None ==> hotkey.merged(hotkey_part).hide_not_bound
            == hotkey.hide_not_bound,
        notification_part.disable_failed matches Some(f) ==> notification.merged(
            notification_part,
        ).disable_failed == f.0,
        notification_part.disable_failed is None ==> notification.merged(notification_part)
            == notification,
        clipboard_part.disable_primary matches Some(f) ==> clipboard.merged(
            clipboard_part,
        ).disable_primary == f.0,
        clipboard_part.disable_primary is None ==> clipboard.merged(clipboard_part) == clipboard,
        debug_part.deadzone matches Some(f) ==> debug.merged(debug_part).deadzone == f.0,
        debug_part.deadzone is None ==> debug.merged(debug_part).deadzone == debug.deadzone,
        debug_part.focal_point matches Some(f) ==> debug.merged(debug_part).focal_point == f.0,
        debug_part.focal_point is None ==> debug.merged(debug_part).focal_point
            == debug.focal_point,
{
}

} // verus!
