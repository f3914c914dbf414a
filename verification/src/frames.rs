//! Generated BGRA frames: a single colour, the test pattern, and frames
//! converted from RGB images.
use vstd::prelude::*;
use vstd::utf8::encode_utf8;
use crate::color::{ColorError, parse_hex_color, parsed_hex_color};
use crate::config::{CameraConfig, color_cuttable};
use crate::mirror::mirrored;
use crate::pixels::{pixel_offset, column_of, row_of, channel_of, frame_len, bgra_channel, frame_of, lemma_offset_parts, lemma_index_parts};

verus! {

/// Writes the BGRA encoding of `rgb` at `offset`.
fn put_pixel(frame: &mut [u8], offset: usize, rgb: (u8, u8, u8))
    requires
        offset + 4 <= old(frame)@.len(),
    ensures
        final(frame)@.len() == old(frame)@.len(),
        final(frame)@[offset as int] == bgra_channel(rgb, 0),
        final(frame)@[offset + 1] == bgra_channel(rgb, 1),
        final(frame)@[offset + 2] == bgra_channel(rgb, 2),
        final(frame)@[offset + 3] == bgra_channel(rgb, 3),
        forall|i: int|
            0 <= i < old(frame)@.len() && !(offset <= i < offset + 4) ==> final(frame)@[i] == old(
                frame,
            )@[i],
{
    frame[offset] = rgb.2;
    frame[offset + 1] = rgb.1;
    frame[offset + 2] = rgb.0;
    frame[offset + 3] = 255;
}

/// The colour of bar `index` of the test pattern, left to right.
pub open spec fn color_bar(index: int) -> (u8, u8, u8) {
    if index == 0 {
        (235, 235, 235)
    } else if index == 1 {
        (235, 235, 16)
    } else if index == 2 {
        (16, 235, 235)
    } else if index == 3 {
        (16, 235, 16)
    } else if index == 4 {
        (235, 16, 235)
    } else if index == 5 {
        (235, 16, 16)
    } else if index == 6 {
        (16, 16, 235)
    } else {
        (20, 20, 24)
    }
}

fn bar_color(index: u64) -> (rgb: (u8, u8, u8))
    ensures
        rgb == color_bar(index as int),
{
    if index == 0 {
        (235, 235, 235)
    } else if index == 1 {
        (235, 235, 16)
    } else if index == 2 {
        (16, 235, 235)
    } else if index == 3 {
        (16, 235, 16)
    } else if index == 4 {
        (235, 16, 235)
    } else if index == 5 {
        (235, 16, 16)
    } else if index == 6 {
        (16, 16, 235)
    } else {
        (20, 20, 24)
    }
}

/// Column of the moving scan line in frame number `frame_index`.
pub open spec fn scan_column(width: int, frame_index: int) -> int {
    (frame_index * 8) % width
}

/// Colour of pixel `(x, y)` of the test pattern when the scan line is at
/// `scan_x`: eight vertical colour bars, a checkerboard of 48-pixel squares
/// in the bottom quarter, and a white scan line ten pixels wide.
pub open spec fn pattern_pixel(width: int, height: int, mirror: bool, scan_x: int, x: int, y: int) -> (u8, u8, u8) {
    let logical_x = if mirror { width - 1 - x } else { x };
    let bar = if logical_x * 8 / width < 7 { logical_x * 8 / width } else { 7 };
    let base = if y > height * 3 / 4 {
        if (logical_x / 48 + y / 48) % 2 == 0 {
            (34u8, 36u8, 44u8)
        } else {
            (15u8, 16u8, 20u8)
        }
    } else {
        color_bar(bar)
    };
    let distance = if logical_x >= scan_x { logical_x - scan_x } else { scan_x - logical_x };
    if distance < 5 {
        (255u8, 255u8, 255u8)
    } else {
        base
    }
}

/// The test pattern frame number `frame_index`.
pub open spec fn test_pattern(width: int, height: int, mirror: bool, frame_index: int) -> Seq<u8> {
    frame_of(
        width,
        height,
        |x: int, y: int| pattern_pixel(width, height, mirror, scan_column(width, frame_index), x, y),
    )
}

fn compute_pattern_pixel(width: u32, height: u32, mirror: bool, scan_x: u32, x: u32, y: u32) -> (rgb: (u8, u8, u8))
    requires
        x < width,
        y < height,
        height * 3 <= u32::MAX,
    ensures
        rgb == pattern_pixel(width as int, height as int, mirror, scan_x as int, x as int, y as int),
{
    let logical_x = if mirror { width - 1 - x } else { x };
    let raw_bar = (logical_x as u64 * 8) / width as u64;
    let bar = if raw_bar < 7 { raw_bar } else { 7 };
    let mut rgb = bar_color(bar);
    if y > height * 3 / 4 {
        rgb = if ((logical_x / 48) + (y / 48)) % 2 == 0 {
            (34, 36, 44)
        } else {
            (15, 16, 20)
        };
    }
    let distance = if logical_x >= scan_x { logical_x - scan_x } else { scan_x - logical_x };
    if distance < 5 {
        rgb = (255, 255, 255);
    }
    rgb
}

/// Draws test pattern frame number `frame_index` into the first
/// `width * height` pixels of `frame`.
pub fn test_pattern_frame(config: &CameraConfig, frame_index: u64, frame: &mut [u8])
    requires
        config.width > 0,
        config.width * config.height * 4 <= 0x1_0000_0000,
        frame_index * 8 <= u64::MAX,
        frame_len(config.width as int, config.height as int) <= old(frame)@.len(),
    ensures
        final(frame)@ == test_pattern(
            config.width as int,
            config.height as int,
            config.mirror,
            frame_index as int,
        ) + old(frame)@.skip(frame_len(config.width as int, config.height as int)),
{
    let ghost o = frame@;
    let width = config.width;
    let height = config.height;
    let ghost wi = width as int;
    let ghost hi = height as int;
    let ghost target = test_pattern(wi, hi, config.mirror, frame_index as int);
    let scan_x = ((frame_index * 8) % width as u64) as u32;
    let len = frame.len();
    proof {
        assert(height * 3 <= u32::MAX) by (nonlinear_arith)
            requires
                width > 0,
                width * height * 4 <= 0x1_0000_0000,
        ;
    }
    let mut y: u32 = 0;
    while y < height
        invariant
            width == config.width,
            height == config.height,
            wi == width,
            hi == height,
            width > 0,
            width * height * 4 <= 0x1_0000_0000,
            height * 3 <= u32::MAX,
            scan_x == scan_column(wi, frame_index as int),
            target == test_pattern(wi, hi, config.mirror, frame_index as int),
            len == o.len(),
            frame@.len() == len,
            frame_len(wi, hi) <= len,
            0 <= y <= height,
            forall|i: int| 0 <= i < y * width * 4 ==> frame@[i] == target[i],
            forall|i: int| y * width * 4 <= i < len ==> frame@[i] == o[i],
        decreases height - y,
    {
        let mut x: u32 = 0;
        while x < width
            invariant
                width == config.width,
                height == config.height,
                wi == width,
                hi == height,
                width > 0,
                width * height * 4 <= 0x1_0000_0000,
                height * 3 <= u32::MAX,
                scan_x == scan_column(wi, frame_index as int),
                target == test_pattern(wi, hi, config.mirror, frame_index as int),
                len == o.len(),
                frame@.len() == len,
                frame_len(wi, hi) <= len,
                0 <= y < height,
                0 <= x <= width,
                forall|i: int| 0 <= i < y * width * 4 + x * 4 ==> frame@[i] == target[i],
                forall|i: int| y * width * 4 + x * 4 <= i < len ==> frame@[i] == o[i],
            decreases width - x,
        {
            proof {
                lemma_offset_parts(wi, hi, x as int, y as int, 0);
                lemma_offset_parts(wi, hi, x as int, y as int, 1);
                lemma_offset_parts(wi, hi, x as int, y as int, 2);
                lemma_offset_parts(wi, hi, x as int, y as int, 3);
                assert(y * width + x < width * height) by (nonlinear_arith)
                    requires
                        x < width,
                        y < height,
                ;
            }
            let offset = ((y * width + x) * 4) as usize;
            let rgb = compute_pattern_pixel(width, height, config.mirror, scan_x, x, y);
            let ghost before = frame@;
            put_pixel(frame, offset, rgb);
            proof {
                assert forall|i: int| 0 <= i < y * width * 4 + (x + 1) * 4 implies frame@[i]
                    == target[i] by {
                    if i >= offset {
                        assert(i == pixel_offset(wi, x as int, y as int, i - offset));
                    }
                }
            }
            x = x + 1;
        }
        proof {
            assert((y + 1) * width * 4 == y * width * 4 + width * 4) by (nonlinear_arith);
        }
        y = y + 1;
    }
    proof {
        assert(height * width * 4 == frame_len(wi, hi)) by (nonlinear_arith)
            requires wi == width, hi == height;
        assert(frame@ =~= target + o.skip(frame_len(wi, hi)));
    }
}

/// The byte count `width * height * 4` of a frame, or `None` when it does
/// not fit in a `u32`.
pub fn frame_byte_count(width: u32, height: u32) -> (count: Option<u32>)
    ensures
        count is Some <==> width * height * 4 <= u32::MAX,
        count matches Some(n) ==> n == width * height * 4,
{
    assert(width * height <= u32::MAX * u32::MAX) by (nonlinear_arith)
        requires width <= u32::MAX, height <= u32::MAX;
    let total = width as u64 * height as u64;
    if total > 0x3fff_ffff {
        None
    } else {
        Some((total * 4) as u32)
    }
}

/// The frame of `width` by `height` pixels all of colour `rgb`.
pub open spec fn solid(width: int, height: int, rgb: (u8, u8, u8)) -> Seq<u8> {
    frame_of(width, height, |x: int, y: int| rgb)
}

/// Whether `result` is the frame that `solid_frame` owes for `config`.
pub open spec fn solid_frame_result(config: CameraConfig, result: Result<Vec<u8>, ColorError>) -> bool {
    match parsed_hex_color(encode_utf8(config.color@)) {
        Err(e) => result == Err::<Vec<u8>, ColorError>(e),
        Ok(c) => match result {
            Ok(frame) => frame@ == solid(config.width as int, config.height as int, (c[0], c[1], c[2])),
            Err(_) => false,
        },
    }
}

/// A frame filled with the configured colour.
pub fn solid_frame(config: &CameraConfig) -> (result: Result<Vec<u8>, ColorError>)
    requires
        color_cuttable(*config),
        config.width * config.height * 4 <= u32::MAX,
    ensures
        solid_frame_result(*config, result),
{
    let rgb = match parse_hex_color(config.color.as_str()) {
        Ok(c) => c,
        Err(e) => {
            return Err(e);
        },
    };
    let red = rgb[0];
    let green = rgb[1];
    let blue = rgb[2];
    let ghost color = (red, green, blue);
    let pixels = (config.width * config.height) as usize;
    let mut frame: Vec<u8> = Vec::with_capacity(pixels * 4);
    let mut p: usize = 0;
    while p < pixels
        invariant
            pixels * 4 <= u32::MAX,
            color == (red, green, blue),
            0 <= p <= pixels,
            frame@.len() == p * 4,
            forall|i: int| 0 <= i < p * 4 ==> frame@[i] == bgra_channel(color, i % 4),
        decreases pixels - p,
    {
        let ghost before = frame@;
        frame.push(blue);
        frame.push(green);
        frame.push(red);
        frame.push(255);
        proof {
            assert(frame@ == before + seq![blue, green, red, 255u8]);
            assert((p + 1) * 4 == p * 4 + 4);
            assert forall|i: int| 0 <= i < (p + 1) * 4 implies frame@[i] == bgra_channel(color, i % 4) by {
                if i >= p * 4 {
                    vstd::arithmetic::div_mod::lemma_fundamental_div_mod_converse(i, 4, p as int, i - p * 4);
                    assert(frame@[i] == seq![blue, green, red, 255u8][i - p * 4]);
                } else {
                    assert(frame@[i] == before[i]);
                }
            }
        }
        p = p + 1;
    }
    let ghost target = solid(config.width as int, config.height as int, color);
    proof {
        assert(pixels * 4 == frame_len(config.width as int, config.height as int)) by (nonlinear_arith)
            requires pixels == config.width * config.height;
        assert(frame@ =~= target);
    }
    Ok(frame)
}

/// The pixel `(x, y)` of an RGB image `width` pixels wide stored row by
/// row, three bytes per pixel.
pub open spec fn rgb_pixel(rgb: Seq<u8>, width: int, x: int, y: int) -> (u8, u8, u8) {
    let at = (y * width + x) * 3;
    (rgb[at], rgb[at + 1], rgb[at + 2])
}

/// The BGRA frame showing an RGB image of the same size, flipped left to
/// right when `mirror` holds.
pub open spec fn frame_from_rgb(rgb: Seq<u8>, width: int, height: int, mirror: bool) -> Seq<u8> {
    frame_of(
        width,
        height,
        |x: int, y: int| rgb_pixel(rgb, width, if mirror { width - 1 - x } else { x }, y),
    )
}

/// Converts an RGB image of `width` by `height` pixels into an opaque BGRA
/// frame, flipped left to right when `mirror` holds.
pub fn bgra_from_rgb(rgb: &[u8], width: u32, height: u32, mirror: bool) -> (frame: Vec<u8>)
    requires
        width * height * 3 <= rgb@.len(),
        width * height * 4 <= u32::MAX,
    ensures
        frame@ == frame_from_rgb(rgb@, width as int, height as int, mirror),
{
    let ghost wi = width as int;
    let ghost hi = height as int;
    let ghost target = frame_from_rgb(rgb@, wi, hi, mirror);
    let mut frame: Vec<u8> = Vec::with_capacity((width * height * 4) as usize);
    let mut y: u32 = 0;
    while y < height
        invariant
            wi == width,
            hi == height,
            width * height * 3 <= rgb@.len(),
            width * height * 4 <= u32::MAX,
            target == frame_from_rgb(rgb@, wi, hi, mirror),
            0 <= y <= height,
            frame@.len() == y * width * 4,
            forall|i: int| 0 <= i < frame@.len() ==> frame@[i] == target[i],
        decreases height - y,
    {
        let mut x: u32 = 0;
        while x < width
            invariant
                wi == width,
                hi == height,
                width * height * 3 <= rgb@.len(),
                width * height * 4 <= u32::MAX,
                target == frame_from_rgb(rgb@, wi, hi, mirror),
                0 <= y < height,
                0 <= x <= width,
                frame@.len() == y * width * 4 + x * 4,
                forall|i: int| 0 <= i < frame@.len() ==> frame@[i] == target[i],
            decreases width - x,
        {
            let source_x = if mirror { width - 1 - x } else { x };
            proof {
                assert(y * width + source_x < width * height) by (nonlinear_arith)
                    requires
                        source_x < width,
                        y < height,
                ;
                assert((y * width + source_x) * 3 + 3 <= width * height * 3) by (nonlinear_arith)
                    requires
                        y * width + source_x < width * height,
                ;
                lemma_offset_parts(wi, hi, x as int, y as int, 0);
                lemma_offset_parts(wi, hi, x as int, y as int, 1);
                lemma_offset_parts(wi, hi, x as int, y as int, 2);
                lemma_offset_parts(wi, hi, x as int, y as int, 3);
            }
            let at = ((y * width + source_x) * 3) as usize;
            let red = rgb[at];
            let green = rgb[at + 1];
            let blue = rgb[at + 2];
            let ghost start = frame@.len();
            frame.push(blue);
            frame.push(green);
            frame.push(red);
            frame.push(255);
            proof {
                assert forall|i: int| 0 <= i < frame@.len() implies frame@[i] == target[i] by {
                    if i >= start {
                        assert(i == pixel_offset(wi, x as int, y as int, i - start));
                    }
                }
            }
            x = x + 1;
        }
        proof {
            assert((y + 1) * width * 4 == y * width * 4 + width * 4) by (nonlinear_arith);
        }
        y = y + 1;
    }
    proof {
        assert(height * width * 4 == frame_len(wi, hi)) by (nonlinear_arith)
            requires wi == width, hi == height;
        assert(frame@ =~= target);
    }
    frame
}

/// The BGR bytes of a BGRA buffer: the alpha byte of each whole pixel is
/// dropped, and a trailing partial pixel is ignored.
pub open spec fn bgr_of(bgra: Seq<u8>) -> Seq<u8> {
    Seq::new((bgra.len() / 4 * 3) as nat, |i: int| bgra[(i / 3) * 4 + i % 3])
}

/// Replaces the contents of `bgr` with the BGR bytes of `frame`.
pub fn bgra_to_bgr(frame: &[u8], bgr: &mut Vec<u8>)
    ensures
        final(bgr)@ == bgr_of(frame@),
{
    bgr.clear();
    let len = frame.len();
    let pixels = len / 4;
    let mut p: usize = 0;
    while p < pixels
        invariant
            pixels == frame@.len() / 4,
            len == frame@.len(),
            pixels * 4 <= len,
            0 <= p <= pixels,
            bgr@.len() == p * 3,
            forall|i: int| 0 <= i < bgr@.len() ==> bgr@[i] == frame@[(i / 3) * 4 + i % 3],
        decreases pixels - p,
    {
        let at = p * 4;
        bgr.push(frame[at]);
        bgr.push(frame[at + 1]);
        bgr.push(frame[at + 2]);
        proof {
            assert forall|i: int| 0 <= i < bgr@.len() implies bgr@[i] == frame@[(i / 3) * 4 + i % 3] by {
                if i >= p * 3 {
                    assert(i / 3 == p && i % 3 == i - p * 3);
                }
            }
        }
        p = p + 1;
    }
    assert(bgr@ =~= bgr_of(frame@));
}

/// `frame` with the first and third byte of every whole four-byte pixel
/// exchanged, turning BGRA into RGBA and back.
pub open spec fn red_blue_swapped(frame: Seq<u8>) -> Seq<u8> {
    Seq::new(
        frame.len(),
        |i: int|
            if i < frame.len() / 4 * 4 && i % 4 == 0 {
                frame[i + 2]
            } else if i < frame.len() / 4 * 4 && i % 4 == 2 {
                frame[i - 2]
            } else {
                frame[i]
            },
    )
}

/// Exchanges the first and third byte of every whole four-byte pixel.
pub fn swap_red_blue(frame: &mut [u8])
    ensures
        final(frame)@ == red_blue_swapped(old(frame)@),
{
    let ghost o = frame@;
    let len = frame.len();
    let pixels = len / 4;
    let mut p: usize = 0;
    while p < pixels
        invariant
            pixels == o.len() / 4,
            len == o.len(),
            pixels * 4 <= len,
            frame@.len() == o.len(),
            0 <= p <= pixels,
            forall|i: int| 0 <= i < p * 4 ==> frame@[i] == red_blue_swapped(o)[i],
            forall|i: int| p * 4 <= i < o.len() ==> frame@[i] == o[i],
        decreases pixels - p,
    {
        let at = p * 4;
        let first = frame[at];
        frame[at] = frame[at + 2];
        frame[at + 2] = first;
        proof {
            assert forall|i: int| 0 <= i < (p + 1) * 4 implies frame@[i] == red_blue_swapped(o)[i] by {
                if i >= p * 4 {
                    assert(i % 4 == i - p * 4);
                }
            }
        }
        p = p + 1;
    }
    assert(frame@ =~= red_blue_swapped(o));
}

/// The mirrored test pattern is the plain test pattern flipped left to
/// right.
pub proof fn lemma_mirrored_pattern(width: int, height: int, frame_index: int)
    requires
        0 < width,
        0 <= height,
    ensures
        test_pattern(width, height, true, frame_index) == mirrored(
            test_pattern(width, height, false, frame_index),
            width,
            height,
        ),
{
    let flipped = test_pattern(width, height, true, frame_index);
    let plain = test_pattern(width, height, false, frame_index);
    let other = mirrored(plain, width, height);
    assert forall|i: int| 0 <= i < flipped.len() implies flipped[i] == other[i] by {
        lemma_index_parts(width, height, i);
        lemma_offset_parts(width, height, width - 1 - column_of(width, i), row_of(width, i), channel_of(i));
    }
    assert(flipped =~= other);
}

/// A mirrored image frame is the plain image frame flipped left to right.
pub proof fn lemma_mirrored_image(rgb: Seq<u8>, width: int, height: int)
    requires
        0 <= width,
        0 <= height,
    ensures
        frame_from_rgb(rgb, width, height, true) == mirrored(frame_from_rgb(rgb, width, height, false), width, height),
{
    let flipped = frame_from_rgb(rgb, width, height, true);
    let other = mirrored(frame_from_rgb(rgb, width, height, false), width, height);
    assert forall|i: int| 0 <= i < flipped.len() implies flipped[i] == other[i] by {
        lemma_index_parts(width, height, i);
        lemma_offset_parts(width, height, width - 1 - column_of(width, i), row_of(width, i), channel_of(i));
    }
    assert(flipped =~= other);
}

/// Flipping a single-colour frame changes nothing.
pub proof fn lemma_solid_mirror_invariant(width: int, height: int, rgb: (u8, u8, u8))
    requires
        0 <= width,
        0 <= height,
    ensures
        mirrored(solid(width, height, rgb), width, height) == solid(width, height, rgb),
{
    let frame = solid(width, height, rgb);
    let other = mirrored(frame, width, height);
    assert forall|i: int| 0 <= i < frame.len() implies frame[i] == other[i] by {
        lemma_index_parts(width, height, i);
        lemma_offset_parts(width, height, width - 1 - column_of(width, i), row_of(width, i), channel_of(i));
    }
    assert(frame =~= other);
}

/// Exchanging red and blue twice gives the frame back.
pub proof fn lemma_red_blue_twice(frame: Seq<u8>)
    ensures
        red_blue_swapped(red_blue_swapped(frame)) == frame,
{
    let once = red_blue_swapped(frame);
    let twice = red_blue_swapped(once);
    assert forall|i: int| 0 <= i < frame.len() implies twice[i] == frame[i] by {
        if i < frame.len() / 4 * 4 && i % 4 == 0 {
            assert((i + 2) % 4 == 2 && i + 2 < frame.len() / 4 * 4);
        } else if i < frame.len() / 4 * 4 && i % 4 == 2 {
            assert((i - 2) % 4 == 0);
        }
    }
    assert(twice =~= frame);
}

/// The BGR data of a frame holds three bytes per whole pixel.
pub proof fn lemma_bgr_length(frame: Seq<u8>)
    ensures
        bgr_of(frame).len() == frame.len() / 4 * 3,
{
}

/// The eight colour bars of the plain test pattern, left to right, are
/// white (235, 235, 235), yellow (235, 235, 16), cyan (16, 235, 235),
/// green (16, 235, 16), magenta (235, 16, 235), red (235, 16, 16), blue
/// (16, 16, 235) and near-black (20, 20, 24): a pixel in the top three
/// quarters, at least five columns from the scan line, in column `x` of a
/// frame `width` pixels wide lies in bar `x * 8 / width` and holds that
/// colour as opaque BGRA.
pub proof fn lemma_test_pattern_bars(width: int, height: int, frame_index: int, x: int, y: int)
    requires
        0 <= x < width,
        0 <= y < height,
        y <= height * 3 / 4,
        ({
            let scan = (frame_index * 8) % width;
            x - scan >= 5 || scan - x >= 5
        }),
    ensures
        ({
            let f = test_pattern(width, height, false, frame_index);
            let o = (y * width + x) * 4;
            &&& x * 8 / width == 0 ==> f[o] == 235 && f[o + 1] == 235 && f[o + 2] == 235 && f[o + 3] == 255
            &&& x * 8 / width == 1 ==> f[o] == 16 && f[o + 1] == 235 && f[o + 2] == 235 && f[o + 3] == 255
            &&& x * 8 / width == 2 ==> f[o] == 235 && f[o + 1] == 235 && f[o + 2] == 16 && f[o + 3] == 255
            &&& x * 8 / width == 3 ==> f[o] == 16 && f[o + 1] == 235 && f[o + 2] == 16 && f[o + 3] == 255
            &&& x * 8 / width == 4 ==> f[o] == 235 && f[o + 1] == 16 && f[o + 2] == 235 && f[o + 3] == 255
            &&& x * 8 / width == 5 ==> f[o] == 16 && f[o + 1] == 16 && f[o + 2] == 235 && f[o + 3] == 255
            &&& x * 8 / width == 6 ==> f[o] == 235 && f[o + 1] == 16 && f[o + 2] == 16 && f[o + 3] == 255
            &&& x * 8 / width == 7 ==> f[o] == 24 && f[o + 1] == 20 && f[o + 2] == 20 && f[o + 3] == 255
        }),
{
    lemma_offset_parts(width, height, x, y, 0);
    lemma_offset_parts(width, height, x, y, 1);
    lemma_offset_parts(width, height, x, y, 2);
    lemma_offset_parts(width, height, x, y, 3);
    assert(x * 8 / width < 8) by (nonlinear_arith)
        requires
            0 <= x < width,
    ;
    assert(0 <= x * 8 / width) by (nonlinear_arith)
        requires
            0 <= x < width,
    ;
}

/// No two bars of the test pattern have the same colour.
pub proof fn lemma_test_pattern_bars_distinct(i: int, j: int)
    requires
        0 <= i < 8,
        0 <= j < 8,
        i != j,
    ensures
        color_bar(i) != color_bar(j),
{
}

} // verus!
