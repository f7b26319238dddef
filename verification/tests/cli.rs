use niri_sweaters::cli::{CompletionShell, RegionFormat, RegionFrameCli};
use niri_sweaters::ipc::{OutputRegion, RegionFrameCommand, RegionFrameSpec, RegionGeometry};

#[test]
fn region_frame_cli_set_becomes_set_request() {
    let cmd = RegionFrameCommand::from(RegionFrameCli::SetFrame {
        output: "DP-1".to_string(),
        x: -100,
        y: 80,
        width: 800,
        height: 600,
        color: "red".to_string(),
    });
    assert_eq!(
        cmd,
        RegionFrameCommand::SetFrame(RegionFrameSpec {
            region: OutputRegion {
                output: "DP-1".to_string(),
                geometry: RegionGeometry { x: -100, y: 80, width: 800, height: 600 },
            },
            color: "red".to_string(),
        })
    );
}

#[test]
fn region_frame_cli_other_requests() {
    assert_eq!(
        RegionFrameCommand::from(RegionFrameCli::SetColor { color: "#ff000080".to_string() }),
        RegionFrameCommand::SetColor("#ff000080".to_string())
    );
    assert_eq!(RegionFrameCommand::from(RegionFrameCli::Get), RegionFrameCommand::Get);
    assert_eq!(RegionFrameCommand::from(RegionFrameCli::Clear), RegionFrameCommand::Clear);
}

#[test]
fn cli_enums_compare() {
    assert_ne!(RegionFormat::Plain, RegionFormat::Json);
    assert_eq!(RegionFormat::Slurp, RegionFormat::Slurp);
    assert_ne!(CompletionShell::Nushell, CompletionShell::Bash);
}
