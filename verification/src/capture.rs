//! The parts of a desktop capture that compute: the virtual desktop's
//! bounds, the capture buffer, scaling to the output size, and the final
//! frame.
use vstd::prelude::*;
use crate::config::{CameraConfig, CaptureRegion};
use crate::mirror::{mirror_bgra, mirrored};
use crate::pixels::frame_len;

verus! {

/// Why a capture could not be made.
#[derive(Debug, Clone, Copy, PartialEq, Eq, Structural)]
pub enum CaptureError {
    /// The system reported an empty virtual desktop.
    DesktopSizeUnknown,
    /// The region or the output size is empty.
    InvalidCaptureSize,
    /// The captured pixels do not fill the region.
    FrameSizeMismatch,
}

impl CaptureError {
    /// The message shown to the user.
    pub fn message(&self) -> (text: String)
        ensures
            text@ == match self {
                CaptureError::DesktopSizeUnknown => "Windows 데스크톱 크기를 확인할 수 없습니다."@,
                CaptureError::InvalidCaptureSize => "캡처 영역 또는 출력 크기가 올바르지 않습니다."@,
                CaptureError::FrameSizeMismatch => "캡처 프레임 크기가 올바르지 않습니다."@,
            },
    {
        match self {
            CaptureError::DesktopSizeUnknown => "Windows 데스크톱 크기를 확인할 수 없습니다.".to_owned(),
            CaptureError::InvalidCaptureSize => "캡처 영역 또는 출력 크기가 올바르지 않습니다.".to_owned(),
            CaptureError::FrameSizeMismatch => "캡처 프레임 크기가 올바르지 않습니다.".to_owned(),
        }
    }
}

/// The virtual desktop from the system's reported origin and size.
pub fn virtual_screen_region(x: i32, y: i32, width: i32, height: i32) -> (region: Result<CaptureRegion, CaptureError>)
    ensures
        width <= 0 || height <= 0 ==> region == Err::<CaptureRegion, CaptureError>(
            CaptureError::DesktopSizeUnknown,
        ),
        width > 0 && height > 0 ==> region == Ok::<CaptureRegion, CaptureError>(
            CaptureRegion { x, y, width: width as u32, height: height as u32 },
        ),
{
    if width <= 0 || height <= 0 {
        return Err(CaptureError::DesktopSizeUnknown);
    }
    Ok(CaptureRegion { x, y, width: width as u32, height: height as u32 })
}

/// The number of bytes a capture of `region` takes, provided the region
/// and the output are both non-empty.
pub fn capture_length(region: CaptureRegion, output_width: u32, output_height: u32) -> (length: Result<usize, CaptureError>)
    requires
        !(region.width == 0 || region.height == 0 || output_width == 0 || output_height == 0)
            ==> frame_len(region.width as int, region.height as int) <= usize::MAX,
    ensures
        region.width == 0 || region.height == 0 || output_width == 0 || output_height == 0
            ==> length == Err::<usize, CaptureError>(CaptureError::InvalidCaptureSize),
        !(region.width == 0 || region.height == 0 || output_width == 0 || output_height == 0)
            ==> length == Ok::<usize, CaptureError>(
            frame_len(region.width as int, region.height as int) as usize,
        ),
{
    if region.width == 0 || region.height == 0 || output_width == 0 || output_height == 0 {
        return Err(CaptureError::InvalidCaptureSize);
    }
    Ok(region.width as usize * region.height as usize * 4)
}

/// The four-byte pixels of an image of `width` by `height` pixels, stored
/// row by row, scaled to `out_width` by `out_height` with a triangle
/// (bilinear) filter, as the `image` crate computes it.
pub uninterp spec fn triangle_resized(pixels: Seq<u8>, width: u32, height: u32, out_width: u32, out_height: u32) -> Seq<u8>;

/// Scales a four-byte-per-pixel image with `image::imageops::resize` and
/// the triangle filter. `image::RgbaImage::from_raw` refuses a buffer
/// shorter than the image (or an image whose size overflows), which gives
/// `None`; the intermediate image, `width` by `out_height` pixels of four
/// `f32` channels, and the output must have sizes that fit in `usize`, or
/// the crate panics; otherwise the result has the output's size and is named by
/// `triangle_resized`. The filter treats the four channels alike, so
/// BGRA input gives BGRA output.
#[verifier::external_body]
fn resize_triangle(pixels: Vec<u8>, width: u32, height: u32, out_width: u32, out_height: u32) -> (resized: Option<Vec<u8>>)
    requires
        out_width * 4 <= usize::MAX,
        frame_len(out_width as int, out_height as int) <= usize::MAX,
        width * 4 <= usize::MAX,
        frame_len(width as int, out_height as int) <= usize::MAX,
    ensures
        resized is None <==> (frame_len(width as int, height as int) > usize::MAX
            || pixels@.len() < frame_len(width as int, height as int)),
        resized matches Some(scaled) ==> scaled@ == triangle_resized(
            pixels@,
            width,
            height,
            out_width,
            out_height,
        ) && scaled@.len() == frame_len(out_width as int, out_height as int),
{
    match image::RgbaImage::from_raw(width, height, pixels) {
        Some(source) => Some(
            image::imageops::resize(&source, out_width, out_height, image::imageops::FilterType::Triangle).into_raw(),
        ),
        None => None,
    }
}

/// Brings a capture of `region` to the output size: kept as it is when
/// the sizes agree, scaled otherwise.
pub fn scale_capture(region: CaptureRegion, output_width: u32, output_height: u32, pixels: Vec<u8>) -> (frame: Result<Vec<u8>, CaptureError>)
    requires
        output_width * 4 <= usize::MAX,
        frame_len(output_width as int, output_height as int) <= usize::MAX,
        region.width * 4 <= usize::MAX,
        frame_len(region.width as int, output_height as int) <= usize::MAX,
    ensures
        region.width == output_width && region.height == output_height ==> frame == Ok::<
            Vec<u8>,
            CaptureError,
        >(pixels),
        !(region.width == output_width && region.height == output_height) ==> match frame {
            Ok(scaled) => pixels@.len() >= frame_len(region.width as int, region.height as int)
                && scaled@ == triangle_resized(
                pixels@,
                region.width,
                region.height,
                output_width,
                output_height,
            ) && scaled@.len() == frame_len(output_width as int, output_height as int),
            Err(e) => e == CaptureError::FrameSizeMismatch && (frame_len(
                region.width as int,
                region.height as int,
            ) > usize::MAX || pixels@.len() < frame_len(region.width as int, region.height as int)),
        },
{
    if region.width == output_width && region.height == output_height {
        return Ok(pixels);
    }
    match resize_triangle(pixels, region.width, region.height, output_width, output_height) {
        Some(scaled) => Ok(scaled),
        None => Err(CaptureError::FrameSizeMismatch),
    }
}

/// Why a frame of the configured screen region could not be made.
#[derive(Debug)]
pub enum ScreenFrameError<E> {
    /// The configuration names no region.
    RegionNotSelected,
    /// Capturing the region failed.
    Capture(E),
}

/// A capture brought to the output size as it is sent: flipped left to
/// right when the configuration asks for it.
pub open spec fn oriented(config: CameraConfig, captured: Seq<u8>) -> Seq<u8> {
    if config.mirror {
        mirrored(captured, config.width as int, config.height as int)
    } else {
        captured
    }
}

fn orient_capture(config: &CameraConfig, captured: Vec<u8>) -> (frame: Vec<u8>)
    requires
        config.mirror ==> frame_len(config.width as int, config.height as int) <= captured@.len(),
        config.mirror ==> config.width * 4 <= usize::MAX,
    ensures
        frame@ == oriented(*config, captured@),
{
    let mut frame = captured;
    if config.mirror {
        mirror_bgra(frame.as_mut_slice(), config.width, config.height);
    }
    frame
}

/// The frame of the configured screen region: the region is captured at
/// the output size by `capture`, then flipped when the configuration asks
/// for it. Without a region nothing is captured.
pub fn screen_region_frame<E, F>(config: &CameraConfig, capture: F) -> (frame: Result<Vec<u8>, ScreenFrameError<E>>) where
    F: FnOnce(CaptureRegion) -> Result<Vec<u8>, E>,

    requires
        config.mirror ==> config.width * 4 <= usize::MAX,
        config.capture_region matches Some(r) ==> capture.requires((r,)),
        config.mirror ==> forall|r: CaptureRegion, out: Result<Vec<u8>, E>|
            #[trigger] capture.ensures((r,), out) ==> match out {
                Ok(pixels) => frame_len(config.width as int, config.height as int) <= pixels@.len(),
                Err(_) => true,
            },
    ensures
        config.capture_region is None ==> frame matches Err(ScreenFrameError::RegionNotSelected),
        config.capture_region matches Some(r) ==> exists|out: Result<Vec<u8>, E>|
            #[trigger] capture.ensures((r,), out) && match out {
                Ok(pixels) => frame matches Ok(f) && f@ == oriented(*config, pixels@),
                Err(e) => frame == Err::<Vec<u8>, ScreenFrameError<E>>(ScreenFrameError::Capture(e)),
            },
{
    let region = match config.capture_region {
        Some(r) => r,
        None => {
            return Err(ScreenFrameError::RegionNotSelected);
        },
    };
    let out = capture(region);
    let ghost captured = out;
    match out {
        Ok(pixels) => {
            let frame = orient_capture(config, pixels);
            proof {
                assert(capture.ensures((region,), captured));
            }
            Ok(frame)
        },
        Err(e) => Err(ScreenFrameError::Capture(e)),
    }
}

} // verus!
