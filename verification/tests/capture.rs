use rust_virtual_camera::capture::{
    capture_length, scale_capture, screen_region_frame, virtual_screen_region, CaptureError,
    ScreenFrameError,
};
use rust_virtual_camera::config::{CameraConfig, CaptureRegion};
use rust_virtual_camera::preview::{jpeg_data_url, preview_jpeg, PreviewError};
use rust_virtual_camera::stream::{
    frame_source, launch_plan, select_output, start_action, FrameSource, LaunchError, LaunchStep,
    StartAction, StartReport,
};
use rust_virtual_camera::config::ConfigError;
use rust_virtual_camera::driver::{DriverBackend, DriverStatus};

fn region(width: u32, height: u32) -> CaptureRegion {
    CaptureRegion { x: -1920, y: 0, width, height }
}

#[test]
fn virtual_desktop_must_not_be_empty() {
    assert_eq!(virtual_screen_region(-1920, 0, 3840, 1080), Ok(region(3840, 1080)));
    assert_eq!(virtual_screen_region(0, 0, 0, 1080), Err(CaptureError::DesktopSizeUnknown));
    assert_eq!(virtual_screen_region(0, 0, 10, -5), Err(CaptureError::DesktopSizeUnknown));
}

#[test]
fn capture_length_of_region() {
    assert_eq!(capture_length(region(64, 36), 32, 18), Ok(64 * 36 * 4));
    assert_eq!(capture_length(region(0, 36), 32, 18), Err(CaptureError::InvalidCaptureSize));
    assert_eq!(capture_length(region(64, 36), 32, 0), Err(CaptureError::InvalidCaptureSize));
}

#[test]
fn capture_is_scaled_only_when_sizes_differ() {
    let pixels: Vec<u8> = (0..16).collect();
    assert_eq!(scale_capture(region(2, 2), 2, 2, pixels.clone()), Ok(pixels.clone()));
    let scaled = scale_capture(region(2, 2), 1, 1, pixels.clone()).unwrap();
    assert_eq!(scaled.len(), 4);
    let grey = vec![100u8; 4 * 4 * 4];
    assert_eq!(scale_capture(region(4, 4), 2, 2, grey).unwrap(), vec![100u8; 2 * 2 * 4]);
    assert_eq!(scale_capture(region(4, 4), 2, 2, pixels), Err(CaptureError::FrameSizeMismatch));
}

#[test]
fn screen_region_frame_needs_a_region() {
    let config = CameraConfig::default();
    let mut captured = false;
    let result = screen_region_frame(&config, |_| {
        captured = true;
        Ok::<Vec<u8>, String>(vec![])
    });
    assert!(matches!(result, Err(ScreenFrameError::RegionNotSelected)));
    assert!(!captured);
}

#[test]
fn screen_region_frame_captures_the_configured_region() {
    let mut config = CameraConfig::default();
    config.width = 2;
    config.height = 1;
    config.capture_region = Some(region(16, 16));
    let captured = vec![1, 2, 3, 4, 5, 6, 7, 8];
    let frame = screen_region_frame(&config, |r| {
        assert_eq!(r, region(16, 16));
        Ok::<Vec<u8>, String>(captured.clone())
    });
    assert_eq!(frame.unwrap(), captured);
    config.mirror = true;
    let frame = screen_region_frame(&config, |_| Ok::<Vec<u8>, String>(captured.clone()));
    assert_eq!(frame.unwrap(), vec![5, 6, 7, 8, 1, 2, 3, 4]);
    let failed = screen_region_frame(&config, |_| Err::<Vec<u8>, String>("no screen".into()));
    assert!(matches!(failed, Err(ScreenFrameError::Capture(m)) if m == "no screen"));
}

#[test]
fn zero_sizes_are_refused_before_any_size_arithmetic() {
    assert_eq!(
        capture_length(region(u32::MAX, u32::MAX), 0, 18),
        Err(CaptureError::InvalidCaptureSize)
    );
}

#[test]
fn start_reports_decide_the_worker() {
    assert!(matches!(start_action(StartReport::Ready), StartAction::Keep));
    assert!(matches!(
        start_action(StartReport::Failed("boom".into())),
        StartAction::JoinAndFail(m) if m == "boom"
    ));
    assert!(matches!(
        start_action(StartReport::TimedOut),
        StartAction::StopJoinAndFail(m) if m == "가상 카메라 시작 시간이 초과되었습니다."
    ));
}

#[test]
fn data_url_carries_base64() {
    assert_eq!(jpeg_data_url(b"abc"), "data:image/jpeg;base64,YWJj");
    assert_eq!(jpeg_data_url(b"ab"), "data:image/jpeg;base64,YWI=");
    assert_eq!(jpeg_data_url(b""), "data:image/jpeg;base64,");
    assert_eq!(jpeg_data_url(b"a"), "data:image/jpeg;base64,YQ==");
    assert_eq!(jpeg_data_url(&[0xfb, 0xff, 0xbf]), "data:image/jpeg;base64,+/+/");
}

#[test]
fn preview_is_encoded_as_jpeg() {
    let jpeg = preview_jpeg(vec![200u8; 8 * 8 * 4], 8, 8).unwrap();
    assert_eq!(&jpeg[..2], &[0xFF, 0xD8]);
    assert!(matches!(preview_jpeg(vec![0u8; 10], 8, 8), Err(PreviewError::ImageUnavailable)));
    assert!(matches!(preview_jpeg(vec![], 0, 8), Err(PreviewError::Encode(_))));
}

#[test]
fn output_is_chosen_by_backend_and_installation() {
    let mut config = CameraConfig::default();
    let installed = DriverStatus { media_foundation_installed: true, direct_show_installed: true };
    let nothing = DriverStatus { media_foundation_installed: false, direct_show_installed: false };
    assert_eq!(select_output(&config, &installed), Ok(DriverBackend::MediaFoundation));
    assert_eq!(select_output(&config, &nothing), Err(LaunchError::MediaFoundationNotInstalled));
    config.backend = "directshow".into();
    assert_eq!(select_output(&config, &installed), Ok(DriverBackend::DirectShow));
    assert_eq!(select_output(&config, &nothing), Err(LaunchError::DirectShowNotInstalled));
    assert_eq!(
        LaunchError::DirectShowNotInstalled.message(),
        "먼저 DirectShow 카메라 구성요소를 설치해 주세요."
    );
}

#[test]
fn frame_sources() {
    let mut config = CameraConfig::default();
    assert_eq!(frame_source(&config), FrameSource::TestPattern);
    for (name, source) in [
        ("screen-region", FrameSource::ScreenRegion),
        ("image", FrameSource::Image),
        ("solid", FrameSource::Solid),
        ("anything", FrameSource::TestPattern),
    ] {
        config.source = name.into();
        assert_eq!(frame_source(&config), source);
    }
}

#[test]
fn launch_refuses_before_touching_the_running_stream() {
    assert_eq!(launch_plan(Err(ConfigError::FrameRateOutOfRange)), Err(ConfigError::FrameRateOutOfRange));
    assert_eq!(
        launch_plan(Ok(())),
        Ok(vec![LaunchStep::StopRunningStream, LaunchStep::SelectOutput, LaunchStep::SpawnWorker])
    );
}

#[test]
fn plain_capture_needs_no_full_frame() {
    let mut config = CameraConfig::default();
    config.capture_region = Some(region(16, 16));
    let frame = screen_region_frame(&config, |_| Ok::<Vec<u8>, String>(vec![1, 2, 3]));
    assert_eq!(frame.unwrap(), vec![1, 2, 3]);
}
