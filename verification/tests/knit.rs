use niri_sweaters::knit::{format_hex_bytes, is_hex_entry, Axis, ColorField, KnitPattern};

#[test]
fn pattern_indices_and_labels() {
    let all = [
        (KnitPattern::Stockinette, "Stockinette"),
        (KnitPattern::Rib, "Rib"),
        (KnitPattern::Checker, "Checker"),
        (KnitPattern::Zigzag, "Zigzag"),
        (KnitPattern::Diamond, "Diamond"),
        (KnitPattern::Dots, "Dots"),
    ];
    for (i, (pattern, label)) in all.iter().enumerate() {
        assert_eq!(pattern.shader_index(), i as u32);
        assert_eq!(pattern.position(), i as u32);
        assert_eq!(pattern.label(), *label);
        assert_eq!(KnitPattern::from_position(i as u32), Some(*pattern));
    }
    assert_eq!(KnitPattern::from_position(6), None);
}

#[test]
fn axis_and_color_field_names() {
    assert_eq!(Axis::Width.name(), "Width");
    assert_eq!(Axis::Height.name(), "Height");
    assert_eq!(Axis::Radius.name(), "Corner radius");
    assert_eq!(ColorField::Background.name(), "Background");
    assert_eq!(ColorField::Accent.name(), "Accent");
    assert!(ColorField::Background.opaque());
    assert!(!ColorField::Inner.opaque());
    assert_eq!(ColorField::Background.hex_hint(), "#RRGGBB");
    assert_eq!(ColorField::Base.hex_hint(), "#RRGGBBAA");
}

#[test]
fn hex_formatting() {
    assert_eq!(format_hex_bytes(0x52, 0x6c, 0x89, 0xff, true), "#526C89");
    assert_eq!(format_hex_bytes(0x8f, 0xa6, 0xbf, 0xff, false), "#8FA6BFFF");
    assert_eq!(format_hex_bytes(0, 10, 255, 0, false), "#000AFF00");
}

#[test]
fn hex_entry_validation() {
    assert!(is_hex_entry("#526c89", true));
    assert!(is_hex_entry("#526C89FF", false));
    assert!(!is_hex_entry("#526C89FF", true));
    assert!(!is_hex_entry("526C89", true));
    assert!(!is_hex_entry("#526C8", false));
    assert!(!is_hex_entry("#526C8G", false));
    assert!(!is_hex_entry("#526C89F", false));
    assert!(!is_hex_entry("", false));
    assert!(!is_hex_entry("#ééé", false));
}

#[test]
fn hex_entry_is_trimmed() {
    assert!(is_hex_entry("  #a1b2c3\t", true));
    assert!(is_hex_entry("\n#A1B2C3D4 ", false));
}

#[test]
fn hex_entry_trims_unicode_white_space_only() {
    assert!(is_hex_entry("\u{3000}#a1b2c3\u{00A0}", true));
    assert!(is_hex_entry("\u{2028}\u{0085}#a1b2c3d4\u{200A}", false));
    assert!(!is_hex_entry("\u{200B}#a1b2c3", true));
    assert!(!is_hex_entry("#a1b2c3\u{FEFF}", true));
}
