use lifelog_agents::screen::{
    process_capture, scale, scaled_dimension, select_primary, CaptureError, ImageFrame, PrimaryProbe,
    ScaleFactor,
};

fn frame(width: u32, height: u32) -> ImageFrame {
    let pixels: Vec<u8> = (0..(4 * width * height)).map(|i| (i % 251) as u8).collect();
    ImageFrame { width, height, pixels }
}

fn factor(numerator: u64, denominator: u64) -> ScaleFactor {
    ScaleFactor { numerator, denominator }
}

#[test]
fn unit_scale_returns_frame_unchanged() {
    let f = frame(7, 3);
    let pixels = f.pixels.clone();
    let out = scale(f, factor(1, 1)).unwrap();
    assert_eq!((out.width, out.height), (7, 3));
    assert_eq!(out.pixels, pixels);
    let out = scale(frame(0, 0), factor(4, 4)).unwrap();
    assert_eq!((out.width, out.height), (0, 0));
}

#[test]
fn half_scale_halves_both_sides() {
    let out = scale(frame(1000, 500), factor(1, 2)).unwrap();
    assert_eq!((out.width, out.height), (500, 250));
    assert_eq!(out.pixels.len(), 4 * 500 * 250);
    assert!(out.is_well_formed());
}

#[test]
fn upscale_repeats_nearest_pixel() {
    let one = ImageFrame { width: 1, height: 1, pixels: vec![10, 20, 30, 255] };
    let out = scale(one, factor(2, 1)).unwrap();
    assert_eq!((out.width, out.height), (2, 2));
    assert_eq!(out.pixels, [10, 20, 30, 255].repeat(4));
}

#[test]
fn scaled_dimension_floors_and_saturates() {
    assert_eq!(scaled_dimension(1000, factor(1, 2)), 500);
    assert_eq!(scaled_dimension(3, factor(1, 3)), 1);
    assert_eq!(scaled_dimension(5, factor(1, 3)), 1);
    assert_eq!(scaled_dimension(1, factor(1, 10)), 0);
    assert_eq!(scaled_dimension(u32::MAX, factor(3, 1)), u32::MAX);
}

#[test]
fn degenerate_scale_gives_zero_sized_frame() {
    let out = scale(frame(4, 4), factor(1, 10)).unwrap();
    assert_eq!((out.width, out.height), (0, 0));
    assert!(out.pixels.is_empty());
}

#[test]
fn empty_frame_cannot_be_resized() {
    assert!(matches!(scale(frame(0, 5), factor(1, 2)), Err(CaptureError::ResizeFailed)));
}

#[test]
fn oversized_target_cannot_be_resized() {
    let r = scale(frame(2, 2), factor(u64::MAX, 1));
    assert!(matches!(r, Err(CaptureError::ResizeFailed)));
}

#[test]
fn no_primary_display_fails() {
    let none: Vec<PrimaryProbe> = Vec::new();
    assert!(matches!(select_primary(&none), Err(CaptureError::NoPrimaryMonitorFound)));
    let probes = vec![PrimaryProbe::NotPrimary, PrimaryProbe::NotPrimary];
    assert!(matches!(select_primary(&probes), Err(CaptureError::NoPrimaryMonitorFound)));
}

#[test]
fn first_primary_display_is_chosen() {
    let probes = vec![PrimaryProbe::NotPrimary, PrimaryProbe::Primary, PrimaryProbe::Primary];
    assert_eq!(select_primary(&probes).unwrap(), 1);
    let late_failure = vec![PrimaryProbe::Primary, PrimaryProbe::Failed("gone".to_string())];
    assert_eq!(select_primary(&late_failure).unwrap(), 0);
}

#[test]
fn failed_probe_before_primary_fails() {
    let probes = vec![PrimaryProbe::Failed("denied".to_string()), PrimaryProbe::Primary];
    match select_primary(&probes) {
        Err(CaptureError::PrimaryCheckFailed(m)) => assert_eq!(m, "denied"),
        other => panic!("unexpected {:?}", other),
    }
}

#[test]
fn capture_metadata_records_both_sizes() {
    let (m, f) = process_capture(frame(10, 6), factor(1, 2), "eDP-1".to_string()).unwrap();
    assert_eq!(m.monitor_name, "eDP-1");
    assert_eq!((m.original_width, m.original_height), (10, 6));
    assert_eq!((m.scaled_width, m.scaled_height), (5, 3));
    assert_eq!((f.width, f.height), (5, 3));
    assert_eq!(m.scale, factor(1, 2));
    assert!(m.t > 0);
    assert!(process_capture(frame(0, 6), factor(1, 2), "x".to_string()).is_err());
}
