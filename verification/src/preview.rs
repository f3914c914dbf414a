//! Preview images handed to the user interface: JPEG encoding and data URLs.
use vstd::prelude::*;
use vstd::string::StringExecFns;
use base64::Engine;
use crate::pixels::frame_len;

verus! {

/// Digit `value` (below 64) of the standard base64 alphabet of RFC 4648:
/// `A-Z`, `a-z`, `0-9`, `+`, `/`.
pub open spec fn base64_digit(value: int) -> char {
    if value < 26 {
        (65 + value) as char
    } else if value < 52 {
        (97 + value - 26) as char
    } else if value < 62 {
        (48 + value - 52) as char
    } else if value == 62 {
        '+'
    } else {
        '/'
    }
}

/// The standard base64 encoding of `bytes` (RFC 4648, section 4): each
/// group of three bytes becomes four digits of six bits, most significant
/// first; a last group of one or two bytes is filled with zero bits and
/// padded with `=` to four characters.
pub open spec fn base64_standard(bytes: Seq<u8>) -> Seq<char>
    decreases bytes.len(),
{
    if bytes.len() == 0 {
        seq![]
    } else if bytes.len() == 1 {
        let n = bytes[0] as int;
        seq![base64_digit(n / 4), base64_digit((n % 4) * 16), '=', '=']
    } else if bytes.len() == 2 {
        let n = bytes[0] * 256 + bytes[1];
        seq![base64_digit(n / 1024), base64_digit(n / 16 % 64), base64_digit((n % 16) * 4), '=']
    } else {
        let n = bytes[0] * 65536 + bytes[1] * 256 + bytes[2];
        seq![
            base64_digit(n / 262144),
            base64_digit(n / 4096 % 64),
            base64_digit(n / 64 % 64),
            base64_digit(n % 64),
        ] + base64_standard(bytes.skip(3))
    }
}

/// Length of the padded base64 encoding of `n` bytes.
pub open spec fn base64_len(n: nat) -> nat {
    4 * ((n + 2) / 3)
}

/// The padded encoding of `n` bytes has four characters per started group
/// of three bytes.
pub proof fn lemma_base64_len(bytes: Seq<u8>)
    ensures
        base64_standard(bytes).len() == base64_len(bytes.len()),
    decreases bytes.len(),
{
    if bytes.len() >= 3 {
        lemma_base64_len(bytes.skip(3));
    }
}

/// `base64::engine::general_purpose::STANDARD.encode`: the padded standard
/// encoding `base64_standard`. The crate panics when its length
/// (`base64_len`) overflows `usize`.
#[verifier::external_body]
fn encode_base64(bytes: &[u8]) -> (encoded: String)
    requires
        base64_len(bytes@.len()) <= usize::MAX,
    ensures
        encoded@ == base64_standard(bytes@),
{
    base64::engine::general_purpose::STANDARD.encode(bytes)
}

/// The data URL of a JPEG image.
pub open spec fn jpeg_data_url_of(jpeg: Seq<u8>) -> Seq<char> {
    "data:image/jpeg;base64,"@ + base64_standard(jpeg)
}

/// The `data:` URL that carries the JPEG bytes `jpeg`.
pub fn jpeg_data_url(jpeg: &[u8]) -> (url: String)
    requires
        base64_len(jpeg@.len()) <= usize::MAX,
    ensures
        url@ == jpeg_data_url_of(jpeg@),
{
    let mut url = String::from_str("data:image/jpeg;base64,");
    let encoded = encode_base64(jpeg);
    url.append(encoded.as_str());
    url
}

/// The JPEG file that the `image` crate writes for an RGBA image of
/// `width` by `height` pixels stored row by row.
pub uninterp spec fn jpeg_of_rgba(pixels: Seq<u8>, width: u32, height: u32) -> Seq<u8>;

#[verifier::external_type_specification]
#[verifier::external_body]
pub struct ExImageError(image::ImageError);

/// Encodes RGBA pixels as JPEG through `image::RgbaImage::from_raw` and
/// `DynamicImage::write_to` with `ImageFormat::Jpeg`, which drops the alpha
/// channel. `from_raw` refuses a buffer shorter than the image, giving
/// `None`. Writing into memory, the encoder fails only when the width or
/// the height is outside `1..=65535`; with which error is not stated. What
/// it writes is named by `jpeg_of_rgba`.
#[verifier::external_body]
fn encode_rgba_jpeg(pixels: Vec<u8>, width: u32, height: u32) -> (encoded: Option<Result<Vec<u8>, image::ImageError>>)
    requires
        width * 4 <= usize::MAX,
        frame_len(width as int, height as int) <= usize::MAX,
    ensures
        encoded is None <==> pixels@.len() < frame_len(width as int, height as int),
        pixels@.len() >= frame_len(width as int, height as int) ==> (encoded is Some && (
        encoded->0 is Ok <==> (1 <= width <= 65535 && 1 <= height <= 65535))),
        encoded matches Some(Ok(bytes)) ==> bytes@ == jpeg_of_rgba(pixels@, width, height),
{
    match image::RgbaImage::from_raw(width, height, pixels) {
        Some(rgba) => {
            let mut bytes: Vec<u8> = Vec::new();
            let written = image::DynamicImage::ImageRgba8(rgba).write_to(
                &mut std::io::Cursor::new(&mut bytes),
                image::ImageFormat::Jpeg,
            );
            match written {
                Ok(()) => Some(Ok(bytes)),
                Err(error) => Some(Err(error)),
            }
        },
        None => None,
    }
}

/// Why a preview image could not be made.
#[derive(Debug)]
pub enum PreviewError {
    /// The pixels do not fill the preview.
    ImageUnavailable,
    /// The JPEG encoder failed.
    Encode(image::ImageError),
}

/// The JPEG encoding of an RGBA preview of `width` by `height` pixels.
pub fn preview_jpeg(rgba: Vec<u8>, width: u32, height: u32) -> (jpeg: Result<Vec<u8>, PreviewError>)
    requires
        width * 4 <= usize::MAX,
        frame_len(width as int, height as int) <= usize::MAX,
    ensures
        rgba@.len() < frame_len(width as int, height as int) <==> jpeg matches Err(
            PreviewError::ImageUnavailable,
        ),
        rgba@.len() >= frame_len(width as int, height as int) ==> (jpeg is Ok <==> (1 <= width
            <= 65535 && 1 <= height <= 65535)),
        jpeg matches Ok(bytes) ==> bytes@ == jpeg_of_rgba(rgba@, width, height),
{
    match encode_rgba_jpeg(rgba, width, height) {
        None => Err(PreviewError::ImageUnavailable),
        Some(Ok(bytes)) => Ok(bytes),
        Some(Err(error)) => Err(PreviewError::Encode(error)),
    }
}

} // verus!
