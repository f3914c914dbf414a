use rust_virtual_camera::color::hex_color_is_cuttable;
use rust_virtual_camera::color::{parse_hex_color, ColorError};
use rust_virtual_camera::config::{
    default_backend, CameraConfig, CaptureRegion, ConfigError, ImageSelectionError, Settings,
};

#[test]
fn default_backend_is_media_foundation() {
    assert_eq!(default_backend(), "media-foundation");
}

#[test]
fn default_configuration_is_valid() {
    let config = CameraConfig::default();
    assert_eq!(config.backend, "media-foundation");
    assert_eq!((config.width, config.height, config.fps), (1280, 720, 30));
    assert_eq!(config.source, "test-pattern");
    assert_eq!(config.color, "#7357ff");
    assert!(!config.mirror);
    assert!(config.image_path.is_none() && config.capture_region.is_none());
    assert_eq!(config.validate(), Ok(()));
    let settings = Settings::default();
    assert!(!settings.start_stream_on_launch);
    assert_eq!(settings.camera.validate(), Ok(()));
}

#[test]
fn hex_colours_parse_with_or_without_hash() {
    assert_eq!(parse_hex_color("#7357ff"), Ok([0x73, 0x57, 0xff]));
    assert_eq!(parse_hex_color("7357FF"), Ok([0x73, 0x57, 0xff]));
    assert_eq!(parse_hex_color("#+f+f+f"), Ok([15, 15, 15]));
    assert_eq!(parse_hex_color("#12345"), Err(ColorError::Format));
    assert_eq!(parse_hex_color("##123456"), Err(ColorError::Format));
    assert_eq!(parse_hex_color("#-10000"), Err(ColorError::InvalidDigit));
    assert_eq!(parse_hex_color("#12g456"), Err(ColorError::InvalidDigit));
    assert_eq!(parse_hex_color("éa123"), Err(ColorError::InvalidDigit));
    assert_eq!(ColorError::Format.message(), "색상은 #RRGGBB 형식이어야 합니다.");
    assert_eq!(ColorError::InvalidDigit.message(), "잘못된 색상입니다.");
}

fn checked(change: impl FnOnce(&mut CameraConfig)) -> Result<(), ConfigError> {
    let mut config = CameraConfig::default();
    change(&mut config);
    config.validate()
}

#[test]
fn each_rule_has_its_error() {
    assert_eq!(checked(|c| c.backend = "v4l2".into()), Err(ConfigError::UnsupportedBackend));
    assert_eq!(checked(|c| c.backend = "directshow".into()), Ok(()));
    assert_eq!(checked(|c| c.width = 316), Err(ConfigError::ResolutionOutOfRange));
    assert_eq!(checked(|c| c.height = 2164), Err(ConfigError::ResolutionOutOfRange));
    assert_eq!(checked(|c| c.width = 642), Err(ConfigError::ResolutionNotMultipleOfFour));
    assert_eq!(checked(|c| c.fps = 0), Err(ConfigError::FrameRateOutOfRange));
    assert_eq!(checked(|c| c.fps = 61), Err(ConfigError::FrameRateOutOfRange));
    assert_eq!(checked(|c| c.fps = 60), Ok(()));
    assert_eq!(checked(|c| c.source = "video".into()), Err(ConfigError::UnsupportedSource));
    assert_eq!(checked(|c| c.source = "image".into()), Err(ConfigError::ImageNotSelected));
    assert_eq!(
        checked(|c| {
            c.source = "image".into();
            c.image_path = Some(String::new());
        }),
        Err(ConfigError::ImageNotSelected)
    );
    assert_eq!(
        checked(|c| {
            c.source = "image".into();
            c.image_path = Some("cat.png".into());
        }),
        Ok(())
    );
    assert_eq!(checked(|c| c.source = "screen-region".into()), Err(ConfigError::RegionNotSelected));
    assert_eq!(
        checked(|c| {
            c.source = "screen-region".into();
            c.capture_region = Some(CaptureRegion { x: -10, y: 0, width: 15, height: 100 });
        }),
        Err(ConfigError::RegionTooSmall)
    );
    assert_eq!(
        checked(|c| {
            c.source = "screen-region".into();
            c.capture_region = Some(CaptureRegion { x: -10, y: 0, width: 16, height: 16 });
        }),
        Ok(())
    );
    assert_eq!(checked(|c| c.color = "red".into()), Err(ConfigError::Color(ColorError::Format)));
    assert_eq!(
        checked(|c| c.color = "#zzzzzz".into()),
        Err(ConfigError::Color(ColorError::InvalidDigit))
    );
}

#[test]
fn rules_are_checked_in_order() {
    assert_eq!(
        checked(|c| {
            c.backend = "other".into();
            c.width = 1;
            c.color = "x".into();
        }),
        Err(ConfigError::UnsupportedBackend)
    );
    assert_eq!(
        checked(|c| {
            c.fps = 0;
            c.source = "x".into();
        }),
        Err(ConfigError::FrameRateOutOfRange)
    );
}

#[test]
fn error_messages() {
    assert_eq!(ConfigError::UnsupportedBackend.message(), "지원하지 않는 카메라 출력 방식입니다.");
    assert_eq!(ConfigError::RegionNotSelected.message(), "먼저 송출할 화면 영역을 선택해 주세요.");
    assert_eq!(ConfigError::Color(ColorError::Format).message(), "색상은 #RRGGBB 형식이어야 합니다.");
    assert_eq!(ImageSelectionError::NotSelected.message(), "이미지 파일이 선택되지 않았습니다.");
}

#[test]
fn selected_image_path_needs_a_path() {
    let mut config = CameraConfig::default();
    assert_eq!(config.selected_image_path(), Err(ImageSelectionError::NotSelected));
    config.image_path = Some("a.png".into());
    assert_eq!(config.selected_image_path().unwrap(), "a.png");
}

#[test]
fn colour_cuttability() {
    assert!(hex_color_is_cuttable("#7357ff"));
    assert!(hex_color_is_cuttable("short"));
    assert!(hex_color_is_cuttable("éa123"));
    assert!(!hex_color_is_cuttable("aé123"));
    assert!(!hex_color_is_cuttable("aébcd"));
    assert!(!hex_color_is_cuttable("#abcé1"));
}

#[test]
fn earlier_rules_win_over_a_colour_that_cannot_be_cut() {
    let mut config = CameraConfig::default();
    config.backend = "x".into();
    config.color = "#a€bc".into();
    assert_eq!(config.check_rules_before_color(), Err(ConfigError::UnsupportedBackend));
    assert_eq!(config.validate(), Err(ConfigError::UnsupportedBackend));
}
