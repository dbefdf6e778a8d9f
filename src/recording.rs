//! The computing side of screen recording: which rendered frames are kept,
//! and how an RGBA frame is scaled up into the RGB image that is encoded.
//! Writing the image file is the host's business.

use vstd::prelude::*;

use crate::constants::{DISPLAY_HEIGHT, DISPLAY_WIDTH};
use crate::display::FRAME_BYTES;

verus! {

/// Whether the `frame_count`-th frame since recording began is kept when
/// `frame_skip` frames are left out between two kept ones.
pub open spec fn recorded_frame(frame_count: u32, frame_skip: u32) -> bool {
    frame_count as int % (frame_skip + 1) == 0
}

/// Byte `k` of a frame scaled up by `scale`: channel `k % 3` of output pixel
/// `k / 3`, which lies in row `(k / 3) / (64 * scale)` and column
/// `(k / 3) % (64 * scale)` of the scaled image and shows source pixel
/// `(column / scale, row / scale)` of the RGBA frame.
pub open spec fn scaled_byte(rgba: Seq<u8>, scale: int, k: int) -> u8 {
    let width = DISPLAY_WIDTH * scale;
    let pixel = k / 3;
    let row = pixel / width;
    let col = pixel % width;
    rgba[((row / scale) * DISPLAY_WIDTH + col / scale) * 4 + k % 3]
}

/// Whether the `frame_count`-th frame is kept; see `recorded_frame`.
pub fn is_recorded_frame(frame_count: u32, frame_skip: u32) -> (r: bool)
    ensures
        r == recorded_frame(frame_count, frame_skip),
{
    (frame_count as u64) % (frame_skip as u64 + 1) == 0
}

/// Scales a 64x32 RGBA frame up by `scale_factor` into an RGB image of
/// `64 * scale_factor` by `32 * scale_factor` pixels, row by row, each
/// source pixel becoming a square of identical pixels; alpha is dropped.
pub fn scale_and_convert_buffer(rgba_buffer: &[u8], scale_factor: u16) -> (r: Vec<u8>)
    requires
        rgba_buffer@.len() >= FRAME_BYTES,
        3 * DISPLAY_WIDTH * DISPLAY_HEIGHT * scale_factor * scale_factor <= usize::MAX,
    ensures
        r@.len() == 3 * DISPLAY_WIDTH * DISPLAY_HEIGHT * scale_factor * scale_factor,
        forall|k: int| 0 <= k < r@.len() ==> #[trigger] r@[k] == scaled_byte(rgba_buffer@, scale_factor as int, k),
{
    let scale = scale_factor as usize;
    let width = DISPLAY_WIDTH * scale;
    let height = DISPLAY_HEIGHT * scale;
    proof {
        assert(3 * (width * height) == 3 * DISPLAY_WIDTH * DISPLAY_HEIGHT * scale * scale && 3 * (
        width * height) <= usize::MAX) by (nonlinear_arith)
            requires
                width == DISPLAY_WIDTH * scale,
                height == DISPLAY_HEIGHT * scale,
                3 * DISPLAY_WIDTH * DISPLAY_HEIGHT * scale * scale <= usize::MAX,
        ;
    }
    let pixels = width * height;
    let mut scaled_rgb: Vec<u8> = Vec::new();
    let mut pixel: usize = 0;
    while pixel < pixels
        invariant
            rgba_buffer@.len() >= FRAME_BYTES,
            scale == scale_factor,
            width == DISPLAY_WIDTH * scale,
            height == DISPLAY_HEIGHT * scale,
            pixels == width * height,
            3 * pixels <= usize::MAX,
            pixel <= pixels,
            scaled_rgb@.len() == 3 * pixel,
            forall|k: int|
                0 <= k < scaled_rgb@.len() ==> #[trigger] scaled_rgb@[k] == scaled_byte(
                    rgba_buffer@,
                    scale as int,
                    k,
                ),
        decreases pixels - pixel,
    {
        let row = pixel / width;
        let col = pixel % width;
        proof {
            assert(row < height) by (nonlinear_arith)
                requires
                    row == pixel / width,
                    pixel < width * height,
                    width > 0,
            ;
            assert(row / scale < DISPLAY_HEIGHT && col / scale < DISPLAY_WIDTH) by (nonlinear_arith)
                requires
                    row < DISPLAY_HEIGHT * scale,
                    col < DISPLAY_WIDTH * scale,
                    scale > 0,
            ;
        }
        let src = ((row / scale) * DISPLAY_WIDTH + col / scale) * 4;
        let ghost before = scaled_rgb@;
        scaled_rgb.push(rgba_buffer[src]);
        scaled_rgb.push(rgba_buffer[src + 1]);
        scaled_rgb.push(rgba_buffer[src + 2]);
        proof {
            assert forall|k: int| 0 <= k < scaled_rgb@.len() implies #[trigger] scaled_rgb@[k]
                == scaled_byte(rgba_buffer@, scale as int, k) by {
                if k < before.len() {
                    assert(scaled_rgb@[k] == before[k]);
                } else {
                    assert(k / 3 == pixel);
                }
            }
        }
        pixel += 1;
    }
    scaled_rgb
}

} // verus!
