//! Camera configuration and the rules it must satisfy before streaming.
use vstd::prelude::*;
use vstd::utf8::encode_utf8;
use crate::color::{ColorError, parse_hex_color, parsed_hex_color, hex_color_cuttable};
use crate::text::str_equals;

verus! {

/// A rectangle of the virtual desktop, in desktop pixels.
#[derive(Debug, Clone, Copy, PartialEq, Eq, Structural)]
pub struct CaptureRegion {
    pub x: i32,
    pub y: i32,
    pub width: u32,
    pub height: u32,
}

/// What the camera sends and how.
#[derive(Debug, Clone)]
pub struct CameraConfig {
    /// `media-foundation` or `directshow`.
    pub backend: String,
    pub width: u32,
    pub height: u32,
    pub fps: u32,
    /// `test-pattern`, `solid`, `image` or `screen-region`.
    pub source: String,
    pub image_path: Option<String>,
    /// `#RRGGBB`.
    pub color: String,
    pub mirror: bool,
    pub capture_region: Option<CaptureRegion>,
}

/// The output used when a stored configuration names none.
pub fn default_backend() -> (backend: String)
    ensures
        backend@ == "media-foundation"@,
{
    "media-foundation".to_owned()
}

impl Default for CameraConfig {
    fn default() -> (config: Self)
        ensures
            config.backend@ == "media-foundation"@,
            config.width == 1280,
            config.height == 720,
            config.fps == 30,
            config.source@ == "test-pattern"@,
            config.image_path.is_none(),
            config.color@ == "#7357ff"@,
            !config.mirror,
            config.capture_region.is_none(),
    {
        CameraConfig {
            backend: default_backend(),
            width: 1280,
            height: 720,
            fps: 30,
            source: "test-pattern".to_owned(),
            image_path: None,
            color: "#7357ff".to_owned(),
            mirror: false,
            capture_region: None,
        }
    }
}

/// Why a configuration was refused.
#[derive(Debug, Clone, Copy, PartialEq, Eq, Structural)]
pub enum ConfigError {
    UnsupportedBackend,
    ResolutionOutOfRange,
    ResolutionNotMultipleOfFour,
    FrameRateOutOfRange,
    UnsupportedSource,
    ImageNotSelected,
    RegionNotSelected,
    RegionTooSmall,
    Color(ColorError),
}

impl ConfigError {
    /// The message shown to the user.
    pub fn message(&self) -> (text: String)
        ensures
            text@ == self.spec_message(),
    {
        match self {
            ConfigError::UnsupportedBackend => "지원하지 않는 카메라 출력 방식입니다.".to_owned(),
            ConfigError::ResolutionOutOfRange => "해상도는 320×240에서 3840×2160 사이여야 합니다.".to_owned(),
            ConfigError::ResolutionNotMultipleOfFour => "가로와 세로 크기는 4의 배수여야 합니다.".to_owned(),
            ConfigError::FrameRateOutOfRange => "프레임률은 1에서 60 FPS 사이여야 합니다.".to_owned(),
            ConfigError::UnsupportedSource => "지원하지 않는 영상 소스입니다.".to_owned(),
            ConfigError::ImageNotSelected => "먼저 이미지 파일을 선택해 주세요.".to_owned(),
            ConfigError::RegionNotSelected => "먼저 송출할 화면 영역을 선택해 주세요.".to_owned(),
            ConfigError::RegionTooSmall => "화면 영역은 가로와 세로가 각각 16픽셀 이상이어야 합니다.".to_owned(),
            ConfigError::Color(e) => e.message(),
        }
    }

    /// The message shown to the user.
    pub open spec fn spec_message(&self) -> Seq<char> {
        match self {
            ConfigError::UnsupportedBackend => "지원하지 않는 카메라 출력 방식입니다."@,
            ConfigError::ResolutionOutOfRange => "해상도는 320×240에서 3840×2160 사이여야 합니다."@,
            ConfigError::ResolutionNotMultipleOfFour => "가로와 세로 크기는 4의 배수여야 합니다."@,
            ConfigError::FrameRateOutOfRange => "프레임률은 1에서 60 FPS 사이여야 합니다."@,
            ConfigError::UnsupportedSource => "지원하지 않는 영상 소스입니다."@,
            ConfigError::ImageNotSelected => "먼저 이미지 파일을 선택해 주세요."@,
            ConfigError::RegionNotSelected => "먼저 송출할 화면 영역을 선택해 주세요."@,
            ConfigError::RegionTooSmall => "화면 영역은 가로와 세로가 각각 16픽셀 이상이어야 합니다."@,
            ConfigError::Color(e) => e.spec_message(),
        }
    }
}

/// The outputs the camera can use.
pub open spec fn is_backend_name(name: Seq<char>) -> bool {
    name == "media-foundation"@ || name == "directshow"@
}

/// The sources a frame can come from.
pub open spec fn is_source_name(name: Seq<char>) -> bool {
    name == "test-pattern"@ || name == "solid"@ || name == "image"@ || name == "screen-region"@
}

/// The colour of `config` can be parsed without cutting a character.
pub open spec fn color_cuttable(config: CameraConfig) -> bool {
    hex_color_cuttable(encode_utf8(config.color@))
}

/// The first rule before the colour rule that `config` breaks, in the order
/// they are checked.
pub open spec fn config_error_before_color(config: CameraConfig) -> Option<ConfigError> {
    if !is_backend_name(config.backend@) {
        Some(ConfigError::UnsupportedBackend)
    } else if config.width < 320 || config.height < 240 || config.width > 3840 || config.height > 2160 {
        Some(ConfigError::ResolutionOutOfRange)
    } else if config.width % 4 != 0 || config.height % 4 != 0 {
        Some(ConfigError::ResolutionNotMultipleOfFour)
    } else if !(1 <= config.fps <= 60) {
        Some(ConfigError::FrameRateOutOfRange)
    } else if !is_source_name(config.source@) {
        Some(ConfigError::UnsupportedSource)
    } else if config.source@ == "image"@ && (match config.image_path {
        None => true,
        Some(path) => path@.len() == 0,
    }) {
        Some(ConfigError::ImageNotSelected)
    } else if config.source@ == "screen-region"@ && config.capture_region.is_none() {
        Some(ConfigError::RegionNotSelected)
    } else if config.source@ == "screen-region"@ && (config.capture_region.unwrap().width < 16
        || config.capture_region.unwrap().height < 16) {
        Some(ConfigError::RegionTooSmall)
    } else {
        None
    }
}

/// The first rule that `config` breaks, in the order they are checked: the
/// colour is checked last.
pub open spec fn config_error(config: CameraConfig) -> Option<ConfigError> {
    match config_error_before_color(config) {
        Some(e) => Some(e),
        None => match parsed_hex_color(encode_utf8(config.color@)) {
            Err(e) => Some(ConfigError::Color(e)),
            Ok(_) => None,
        },
    }
}

/// The colour is parsed only once every earlier rule holds, and parsing
/// it cuts it into byte pairs; this is what that cut needs.
pub open spec fn color_check_cuttable(config: CameraConfig) -> bool {
    config_error_before_color(config).is_none() ==> color_cuttable(config)
}

/// A configuration that every rule accepts.
pub open spec fn config_valid(config: CameraConfig) -> bool {
    config_error(config).is_none()
}

impl CameraConfig {
    /// Checks every rule, reporting the first one broken.
    pub fn validate(&self) -> (result: Result<(), ConfigError>)
        requires
            color_check_cuttable(*self),
        ensures
            match config_error(*self) {
                None => result is Ok,
                Some(e) => result == Err::<(), ConfigError>(e),
            },
    {
        self.check_rules_before_color()?;
        match parse_hex_color(self.color.as_str()) {
            Err(e) => Err(ConfigError::Color(e)),
            Ok(_) => Ok(()),
        }
    }

    /// Checks every rule but the colour rule, reporting the first one broken.
    pub fn check_rules_before_color(&self) -> (result: Result<(), ConfigError>)
        ensures
            match config_error_before_color(*self) {
                None => result is Ok,
                Some(e) => result == Err::<(), ConfigError>(e),
            },
    {
        let backend = self.backend.as_str();
        if !(str_equals(backend, "media-foundation") || str_equals(backend, "directshow")) {
            return Err(ConfigError::UnsupportedBackend);
        }
        if self.width < 320 || self.height < 240 || self.width > 3840 || self.height > 2160 {
            return Err(ConfigError::ResolutionOutOfRange);
        }
        if self.width % 4 != 0 || self.height % 4 != 0 {
            return Err(ConfigError::ResolutionNotMultipleOfFour);
        }
        if !(1 <= self.fps && self.fps <= 60) {
            return Err(ConfigError::FrameRateOutOfRange);
        }
        let source = self.source.as_str();
        let is_image = str_equals(source, "image");
        let is_region = str_equals(source, "screen-region");
        if !(str_equals(source, "test-pattern") || str_equals(source, "solid") || is_image
            || is_region) {
            return Err(ConfigError::UnsupportedSource);
        }
        if is_image {
            let missing = match &self.image_path {
                None => true,
                Some(path) => path.as_str().is_empty(),
            };
            if missing {
                return Err(ConfigError::ImageNotSelected);
            }
        }
        if is_region {
            match self.capture_region {
                None => {
                    return Err(ConfigError::RegionNotSelected);
                },
                Some(region) => {
                    if region.width < 16 || region.height < 16 {
                        return Err(ConfigError::RegionTooSmall);
                    }
                },
            }
        }
        Ok(())
    }
}

/// What is remembered between runs.
#[derive(Debug, Clone)]
pub struct Settings {
    pub camera: CameraConfig,
    pub start_stream_on_launch: bool,
}

impl Default for Settings {
    fn default() -> (settings: Self)
        ensures
            settings.camera.backend@ == "media-foundation"@,
            settings.camera.width == 1280,
            settings.camera.height == 720,
            settings.camera.fps == 30,
            settings.camera.source@ == "test-pattern"@,
            settings.camera.image_path.is_none(),
            settings.camera.color@ == "#7357ff"@,
            !settings.camera.mirror,
            settings.camera.capture_region.is_none(),
            !settings.start_stream_on_launch,
    {
        Settings { camera: CameraConfig::default(), start_stream_on_launch: false }
    }
}

/// The configuration names no image file to show.
#[derive(Debug, Clone, Copy, PartialEq, Eq, Structural)]
pub enum ImageSelectionError {
    NotSelected,
}

impl ImageSelectionError {
    /// The message shown to the user.
    pub fn message(&self) -> (text: String)
        ensures
            text@ == "이미지 파일이 선택되지 않았습니다."@,
    {
        "이미지 파일이 선택되지 않았습니다.".to_owned()
    }
}

impl CameraConfig {
    /// The image file the configuration names.
    pub fn selected_image_path(&self) -> (path: Result<&String, ImageSelectionError>)
        ensures
            match self.image_path {
                Some(p) => path matches Ok(q) && *q == p,
                None => path == Err::<&String, ImageSelectionError>(ImageSelectionError::NotSelected),
            },
    {
        match &self.image_path {
            Some(p) => Ok(p),
            None => Err(ImageSelectionError::NotSelected),
        }
    }
}

/// A configuration that passes validation has a colour that parses, and
/// that can be cut into its pairs without cutting a character.
pub proof fn lemma_valid_color_parses(config: CameraConfig)
    requires
        config_valid(config),
    ensures
        parsed_hex_color(encode_utf8(config.color@)) is Ok,
        color_cuttable(config),
{
}

/// The frames of a configuration that passes validation are small: at
/// most 3840 by 2160 pixels, at least one pixel wide, their byte count
/// fits in a `u32`, and their rows in bytes too.
pub proof fn lemma_valid_frame_bounds(config: CameraConfig)
    requires
        config_valid(config),
    ensures
        0 < config.width <= 3840,
        0 < config.height <= 2160,
        config.width * config.height * 4 <= 3840 * 2160 * 4,
        config.width * config.height * 4 <= u32::MAX,
        config.width * 4 <= u32::MAX,
{
    assert(config.width * config.height <= 3840 * 2160) by (nonlinear_arith)
        requires
            0 < config.width <= 3840,
            0 < config.height <= 2160,
    ;
}

/// Every frame rate from 1 to 60 is treated alike: changing the frame rate
/// within that range never changes the outcome of validation.
pub proof fn lemma_frame_rates_alike(config: CameraConfig, fps: u32)
    requires
        1 <= config.fps <= 60,
        1 <= fps <= 60,
    ensures
        config_error(CameraConfig { fps, ..config }) == config_error(config),
{
}

/// A frame rate outside 1 to 60 is refused with the frame-rate error once
/// the output is one of the two known ones and the resolution lies between
/// 320×240 and 3840×2160 with both sides multiples of four; and that error
/// only ever reports a frame rate outside 1 to 60.
pub proof fn lemma_frame_rate_range(config: CameraConfig)
    ensures
        (config.backend@ == "media-foundation"@ || config.backend@ == "directshow"@)
            && 320 <= config.width <= 3840 && 240 <= config.height <= 2160 && config.width % 4 == 0
            && config.height % 4 == 0 && !(1 <= config.fps <= 60) ==> config_error(config) == Some(
            ConfigError::FrameRateOutOfRange,
        ),
        config_error(config) == Some(ConfigError::FrameRateOutOfRange) ==> !(1 <= config.fps <= 60),
{
}

/// The default output, resolution and source at any frame rate from 1 to
/// 60 pass every rule before the colour rule.
pub proof fn lemma_default_frame_rates(config: CameraConfig)
    requires
        config.backend@ == "media-foundation"@,
        config.width == 1280,
        config.height == 720,
        1 <= config.fps <= 60,
        config.source@ == "test-pattern"@,
        config.capture_region.is_none(),
    ensures
        config_error_before_color(config).is_none(),
{
    reveal_strlit("test-pattern");
    reveal_strlit("image");
    reveal_strlit("screen-region");
    assert("test-pattern"@.len() != "image"@.len());
    assert("test-pattern"@.len() != "screen-region"@.len());
}

} // verus!
