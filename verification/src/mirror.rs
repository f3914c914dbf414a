//! Flipping BGRA frames left to right.
use vstd::prelude::*;
use crate::pixels::{pixel_offset, column_of, row_of, channel_of, frame_len, lemma_offset_parts, lemma_index_parts};

verus! {

/// Offset of the byte that lands on byte `i` when a frame `width` pixels
/// wide is flipped left to right.
pub open spec fn mirror_source(width: int, i: int) -> int {
    pixel_offset(width, width - 1 - column_of(width, i), row_of(width, i), channel_of(i))
}

/// `frame` with its first `width * height` pixels flipped left to right;
/// bytes past them stay as they are.
pub open spec fn mirrored(frame: Seq<u8>, width: int, height: int) -> Seq<u8> {
    Seq::new(
        frame.len(),
        |i: int|
            if 0 <= i < frame_len(width, height) {
                frame[mirror_source(width, i)]
            } else {
                frame[i]
            },
    )
}

spec fn mirror_done(width: int, rows: int, cols: int, i: int) -> bool {
    ||| row_of(width, i) < rows
    ||| row_of(width, i) == rows && (column_of(width, i) < cols || column_of(width, i) >= width
        - cols)
}

/// The frame once the rows above `rows` and the `cols` outermost pixel
/// pairs of row `rows` have been swapped.
spec fn mirror_progress(o: Seq<u8>, width: int, height: int, rows: int, cols: int) -> Seq<u8> {
    Seq::new(
        o.len(),
        |i: int|
            if 0 <= i < frame_len(width, height) && mirror_done(width, rows, cols, i) {
                o[mirror_source(width, i)]
            } else {
                o[i]
            },
    )
}

proof fn lemma_mirror_source_in_frame(width: int, height: int, i: int)
    requires
        0 <= width,
        0 <= height,
        0 <= i < frame_len(width, height),
    ensures
        0 <= mirror_source(width, i) < frame_len(width, height),
        column_of(width, mirror_source(width, i)) == width - 1 - column_of(width, i),
        row_of(width, mirror_source(width, i)) == row_of(width, i),
        channel_of(mirror_source(width, i)) == channel_of(i),
{
    lemma_index_parts(width, height, i);
    lemma_offset_parts(width, height, width - 1 - column_of(width, i), row_of(width, i), channel_of(i));
}

proof fn lemma_mirror_step(
    o: Seq<u8>,
    before: Seq<u8>,
    after: Seq<u8>,
    width: int,
    height: int,
    y: int,
    x: int,
)
    requires
        0 <= y < height,
        0 <= x < width / 2,
        frame_len(width, height) <= o.len(),
        before == mirror_progress(o, width, height, y, x),
        after.len() == before.len(),
        forall|c: int|
            0 <= c < 4 ==> {
                &&& after[pixel_offset(width, x, y, c)] == before[pixel_offset(width, width - 1 - x, y, c)]
                &&& after[pixel_offset(width, width - 1 - x, y, c)] == before[pixel_offset(width, x, y, c)]
            },
        forall|i: int|
            0 <= i < after.len() && !(pixel_offset(width, x, y, 0) <= i < pixel_offset(width, x, y, 0) + 4)
                && !(pixel_offset(width, width - 1 - x, y, 0) <= i < pixel_offset(width, width - 1 - x, y, 0) + 4)
                ==> after[i] == before[i],
    ensures
        after == mirror_progress(o, width, height, y, x + 1),
{
    let target = mirror_progress(o, width, height, y, x + 1);
    let a = pixel_offset(width, x, y, 0);
    let b = pixel_offset(width, width - 1 - x, y, 0);
    lemma_offset_parts(width, height, x, y, 0);
    lemma_offset_parts(width, height, width - 1 - x, y, 0);
    assert forall|i: int| 0 <= i < after.len() implies after[i] == target[i] by {
        if i < frame_len(width, height) {
            lemma_index_parts(width, height, i);
            lemma_mirror_source_in_frame(width, height, i);
            let col = column_of(width, i);
            let row = row_of(width, i);
            let ch = channel_of(i);
            if row == y && col == x {
                lemma_offset_parts(width, height, x, y, ch);
                lemma_offset_parts(width, height, width - 1 - x, y, ch);
                assert(i == pixel_offset(width, x, y, ch));
                assert(after[i] == before[pixel_offset(width, width - 1 - x, y, ch)]);
            } else if row == y && col == width - 1 - x {
                lemma_offset_parts(width, height, x, y, ch);
                lemma_offset_parts(width, height, width - 1 - x, y, ch);
                assert(i == pixel_offset(width, width - 1 - x, y, ch));
                assert(after[i] == before[pixel_offset(width, x, y, ch)]);
            } else {
                if a <= i < a + 4 {
                    assert(i / 4 == a / 4);
                }
                if b <= i < b + 4 {
                    assert(i / 4 == b / 4);
                }
                assert(after[i] == before[i]);
            }
        } else {
            assert(after[i] == before[i]);
        }
    }
    assert(after =~= target);
}

proof fn lemma_mirror_row_done(o: Seq<u8>, width: int, height: int, y: int)
    requires
        0 <= width,
        0 <= y < height,
        frame_len(width, height) <= o.len(),
    ensures
        mirror_progress(o, width, height, y, width / 2) == mirror_progress(o, width, height, y + 1, 0),
{
    let left = mirror_progress(o, width, height, y, width / 2);
    let right = mirror_progress(o, width, height, y + 1, 0);
    assert forall|i: int| 0 <= i < o.len() implies left[i] == right[i] by {
        if 0 <= i < frame_len(width, height) {
            lemma_index_parts(width, height, i);
            let col = column_of(width, i);
            if row_of(width, i) == y && !(col < width / 2 || col >= width - width / 2) {
                assert(width - 1 - col == col);
                assert(mirror_source(width, i) == i);
            }
        }
    }
    assert(left =~= right);
}

/// Flipping a frame twice gives the frame back.
pub proof fn lemma_mirror_twice(frame: Seq<u8>, width: int, height: int)
    requires
        0 <= width,
        0 <= height,
        frame_len(width, height) <= frame.len(),
    ensures
        mirrored(mirrored(frame, width, height), width, height) == frame,
{
    let once = mirrored(frame, width, height);
    let twice = mirrored(once, width, height);
    assert forall|i: int| 0 <= i < frame.len() implies twice[i] == frame[i] by {
        if i < frame_len(width, height) {
            lemma_index_parts(width, height, i);
            lemma_mirror_source_in_frame(width, height, i);
            let j = mirror_source(width, i);
            lemma_offset_parts(width, height, width - 1 - column_of(width, i), row_of(width, i), channel_of(i));
            assert(mirror_source(width, j) == i);
        }
    }
    assert(twice =~= frame);
}

/// Swaps the four bytes at `a` with the four bytes at `b`.
fn swap_pixels(frame: &mut [u8], a: usize, b: usize)
    requires
        a + 4 <= b,
        b + 4 <= old(frame)@.len(),
    ensures
        final(frame)@.len() == old(frame)@.len(),
        final(frame)@[a as int] == old(frame)@[b as int],
        final(frame)@[a + 1] == old(frame)@[b + 1],
        final(frame)@[a + 2] == old(frame)@[b + 2],
        final(frame)@[a + 3] == old(frame)@[b + 3],
        final(frame)@[b as int] == old(frame)@[a as int],
        final(frame)@[b + 1] == old(frame)@[a + 1],
        final(frame)@[b + 2] == old(frame)@[a + 2],
        final(frame)@[b + 3] == old(frame)@[a + 3],
        forall|i: int|
            0 <= i < old(frame)@.len() && !(a <= i < a + 4) && !(b <= i < b + 4)
                ==> final(frame)@[i] == old(frame)@[i],
{
    let t0 = frame[a];
    frame[a] = frame[b];
    frame[b] = t0;
    let t1 = frame[a + 1];
    frame[a + 1] = frame[b + 1];
    frame[b + 1] = t1;
    let t2 = frame[a + 2];
    frame[a + 2] = frame[b + 2];
    frame[b + 2] = t2;
    let t3 = frame[a + 3];
    frame[a + 3] = frame[b + 3];
    frame[b + 3] = t3;
}

/// Flips the first `width * height` pixels of `frame` left to right.
pub fn mirror_bgra(frame: &mut [u8], width: u32, height: u32)
    requires
        frame_len(width as int, height as int) <= old(frame)@.len(),
        width * 4 <= usize::MAX,
    ensures
        final(frame)@ == mirrored(old(frame)@, width as int, height as int),
{
    let ghost o = frame@;
    let ghost wi = width as int;
    let ghost hi = height as int;
    let len = frame.len();
    let w = width as usize;
    let h = height as usize;
    let row_length = w * 4;
    let half = w / 2;
    proof {
        assert(mirror_progress(o, wi, hi, 0, 0) =~= o);
    }
    let mut y: usize = 0;
    while y < h
        invariant
            w == wi,
            h == hi,
            row_length == w * 4,
            half == w / 2,
            len == o.len(),
            frame_len(wi, hi) <= o.len(),
            0 <= y <= h,
            frame@ == mirror_progress(o, wi, hi, y as int, 0),
        decreases h - y,
    {
        assert(y * row_length + row_length <= len) by (nonlinear_arith)
            requires
                y < h,
                row_length == w * 4,
                w * h * 4 <= len,
        ;
        let row_start = y * row_length;
        let mut x: usize = 0;
        while x < half
            invariant
                w == wi,
                h == hi,
                row_length == w * 4,
                half == w / 2,
                len == o.len(),
                frame@.len() == len,
                frame_len(wi, hi) <= o.len(),
                0 <= y < h,
                row_start == y * row_length,
                row_start + row_length <= len,
                0 <= x <= half,
                frame@ == mirror_progress(o, wi, hi, y as int, x as int),
            decreases half - x,
        {
            let opposite = w - 1 - x;
            let a = row_start + x * 4;
            let b = row_start + opposite * 4;
            proof {
                lemma_offset_parts(wi, hi, x as int, y as int, 0);
                lemma_offset_parts(wi, hi, opposite as int, y as int, 0);
                assert(y * row_length == y * w * 4) by (nonlinear_arith)
                    requires row_length == w * 4;
            }
            let ghost before = frame@;
            swap_pixels(frame, a, b);
            proof {
                assert forall|c: int| 0 <= c < 4 implies {
                    &&& frame@[pixel_offset(wi, x as int, y as int, c)] == before[pixel_offset(wi, wi - 1 - x, y as int, c)]
                    &&& frame@[pixel_offset(wi, wi - 1 - x, y as int, c)] == before[pixel_offset(wi, x as int, y as int, c)]
                } by {
                    lemma_offset_parts(wi, hi, x as int, y as int, c);
                    lemma_offset_parts(wi, hi, opposite as int, y as int, c);
                }
                lemma_mirror_step(o, before, frame@, wi, hi, y as int, x as int);
            }
            x = x + 1;
        }
        proof {
            lemma_mirror_row_done(o, wi, hi, y as int);
        }
        y = y + 1;
    }
    proof {
        assert(frame@ =~= mirrored(o, wi, hi)) by {
            assert forall|i: int| 0 <= i < o.len() implies frame@[i] == mirrored(o, wi, hi)[i] by {
                if 0 <= i < frame_len(wi, hi) {
                    lemma_index_parts(wi, hi, i);
                }
            }
        }
    }
}

} // verus!
