//! Layout of BGRA frames: four bytes per pixel, rows top to bottom, each
//! row left to right.
use vstd::prelude::*;
use vstd::arithmetic::div_mod::{lemma_fundamental_div_mod, lemma_fundamental_div_mod_converse};

verus! {

/// Offset of `channel` (0 blue, 1 green, 2 red, 3 alpha) of pixel `(x, y)`
/// in a frame `width` pixels wide.
pub open spec fn pixel_offset(width: int, x: int, y: int, channel: int) -> int {
    (y * width + x) * 4 + channel
}

/// Column of the pixel that byte `i` belongs to.
pub open spec fn column_of(width: int, i: int) -> int {
    (i / 4) % width
}

/// Row of the pixel that byte `i` belongs to.
pub open spec fn row_of(width: int, i: int) -> int {
    (i / 4) / width
}

/// Channel that byte `i` holds.
pub open spec fn channel_of(i: int) -> int {
    i % 4
}

/// Number of bytes of a frame of `width` by `height` pixels.
pub open spec fn frame_len(width: int, height: int) -> int {
    width * height * 4
}

/// Byte `channel` of the BGRA encoding of the colour `(red, green, blue)`,
/// fully opaque.
pub open spec fn bgra_channel(rgb: (u8, u8, u8), channel: int) -> u8 {
    if channel == 0 {
        rgb.2
    } else if channel == 1 {
        rgb.1
    } else if channel == 2 {
        rgb.0
    } else {
        255
    }
}

/// The BGRA frame of `width` by `height` pixels whose pixel `(x, y)` has
/// the colour `pixel(x, y)`.
pub open spec fn frame_of(width: int, height: int, pixel: spec_fn(int, int) -> (u8, u8, u8)) -> Seq<u8> {
    Seq::new(
        frame_len(width, height) as nat,
        |i: int| bgra_channel(pixel(column_of(width, i), row_of(width, i)), channel_of(i)),
    )
}

/// A byte's offset determines its pixel and channel.
pub proof fn lemma_offset_parts(width: int, height: int, x: int, y: int, channel: int)
    requires
        0 <= x < width,
        0 <= y < height,
        0 <= channel < 4,
    ensures
        column_of(width, pixel_offset(width, x, y, channel)) == x,
        row_of(width, pixel_offset(width, x, y, channel)) == y,
        channel_of(pixel_offset(width, x, y, channel)) == channel,
        0 <= pixel_offset(width, x, y, channel) < frame_len(width, height),
        pixel_offset(width, x, y, channel) == y * width * 4 + x * 4 + channel,
{
    let p = y * width + x;
    let i = p * 4 + channel;
    lemma_fundamental_div_mod_converse(i, 4, p, channel);
    lemma_fundamental_div_mod_converse(p, width, y, x);
    assert(0 <= p < width * height) by (nonlinear_arith)
        requires
            0 <= x < width,
            0 <= y < height,
            p == y * width + x,
    ;
    assert(p * 4 + channel < width * height * 4) by (nonlinear_arith)
        requires
            p < width * height,
            channel < 4,
    ;
    assert(p * 4 + channel == y * width * 4 + x * 4 + channel) by (nonlinear_arith)
        requires
            p == y * width + x,
    ;
}

/// Every byte of a frame belongs to a pixel of the frame.
pub proof fn lemma_index_parts(width: int, height: int, i: int)
    requires
        0 <= width,
        0 <= height,
        0 <= i < frame_len(width, height),
    ensures
        0 <= column_of(width, i) < width,
        0 <= row_of(width, i) < height,
        0 <= channel_of(i) < 4,
        i == pixel_offset(width, column_of(width, i), row_of(width, i), channel_of(i)),
{
    assert(width > 0 && height > 0) by (nonlinear_arith)
        requires
            0 <= width,
            0 <= height,
            0 <= i < width * height * 4,
    ;
    let p = i / 4;
    lemma_fundamental_div_mod(i, 4);
    lemma_fundamental_div_mod(p, width);
    assert(0 <= p < width * height) by (nonlinear_arith)
        requires
            0 <= i < width * height * 4,
            p == i / 4,
            i == 4 * p + i % 4,
            0 <= i % 4 < 4,
    ;
    assert(0 <= p / width < height) by (nonlinear_arith)
        requires
            0 <= p < width * height,
            width > 0,
            p == width * (p / width) + p % width,
            0 <= p % width < width,
    ;
}

} // verus!
