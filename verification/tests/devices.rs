//! Device listings.

use iroh_live_cli::devices::{
    app_line, camera_line, cameras, display_line, input_line, output_line, rpicam, section,
    window_line, CameraInfo, Listing, Mode,
};

#[test]
fn camera_lines_are_the_numbered_ones() {
    assert_eq!(
        camera_line("0 : imx219 [3280x2464 10-bit RGGB] (/base/soc/i2c0mux)"),
        Some("rpicam  imx219 [3280x2464 10-bit RGGB] (/base/soc/i2c0mux)".to_string())
    );
    assert_eq!(camera_line("Available cameras"), None);
    assert_eq!(camera_line("    Modes: 'SRGGB10_CSI2P' : 640x480"), None);
}

#[test]
fn a_section_says_when_it_is_empty_or_unavailable() {
    assert_eq!(
        section("Cameras", &Ok(vec!["a".to_string(), "b".to_string()])),
        ["Cameras:", "  a", "  b", ""]
    );
    assert_eq!(section("Cameras", &Ok(vec![])), ["Cameras:", "  (none found)", ""]);
    assert_eq!(
        section("Cameras", &Err("no driver".to_string())),
        ["Cameras:", "  (unavailable: no driver)", ""]
    );
}

#[test]
fn the_listing_of_rpicam() {
    assert_eq!(rpicam(Listing::Missing), Err("rpicam-vid is not on PATH".to_string()));
    assert_eq!(
        rpicam(Listing::TimedOut),
        Err("rpicam-vid --list-cameras did not finish within 5s".to_string())
    );
    assert!(rpicam(Listing::Failed("x".to_string())).is_err());
    let printed = "Available cameras\n-----\n0 : imx219 [x] (y)\n    Modes: 'a' : 640x480\n";
    assert_eq!(
        rpicam(Listing::Printed(printed.to_string())),
        Ok(vec!["rpicam  imx219 [x] (y)".to_string()])
    );
}

#[test]
fn device_lines() {
    for line in [
        display_line("1", "DP-1", 1920, 1080),
        window_line("7", "term", "shell", 800, 600),
        app_line("org.x", "X"),
        input_line("hw:0", "Mic", true),
        output_line("hw:1", "Speaker", false),
    ] {
        assert!(!line.is_empty());
    }
    assert!(display_line("1", "DP-1", 1920, 1080).contains("1920x1080"));
    assert_ne!(input_line("hw:0", "Mic", true), input_line("hw:0", "Mic", false));
}

#[test]
fn a_camera_lists_its_modes() {
    let camera = CameraInfo {
        id: "/dev/video0".to_string(),
        name: "Webcam".to_string(),
        modes: Some(vec![Mode {
            width: 1280,
            height: 720,
            framerates: vec!["30".to_string(), "15".to_string()],
        }]),
    };
    let lines = cameras(&Ok(vec![camera]));
    assert!(lines.iter().any(|line| line.contains("/dev/video0") && line.contains("Webcam")));
    assert!(lines.iter().any(|line| line.contains("1280x720")));
}
