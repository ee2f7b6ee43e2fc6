//! Pixel-buffer layout for a decoded icon image.
//!
//! A decoded icon is turned into a 32-bit BGRA bitmap: four bytes per
//! pixel, rows packed, so the stride is four times the width; the colour
//! plane holds one row per line of the image; the monochrome mask plane
//! packs one bit per pixel. These sizes drive the buffers the shell hands
//! to the imaging and drawing calls, so each is computed exactly and only
//! when it is representable.

use vstd::prelude::*;

verus! {

/// The buffer sizes of a decoded icon: bytes per row, bytes of the colour
/// plane, and bytes of the monochrome mask plane.
#[derive(Clone, Copy, PartialEq, Eq, Structural, Debug)]
pub struct DibLayout {
    /// Bytes between two vertically adjacent pixels: four per pixel.
    pub stride: u32,
    /// Bytes of the 32-bit colour plane: stride times height.
    pub color_bytes: u32,
    /// Bytes of the one-bit mask plane: one bit per pixel.
    pub mask_bytes: u32,
}

/// The sizes are representable: four bytes per pixel, for the row and for
/// the whole colour plane.
pub open spec fn dib_fits(width: u32, height: u32) -> bool {
    4 * width <= u32::MAX && 4 * width * height <= u32::MAX
}

/// Computes the buffer layout of a `width` by `height` 32-bit BGRA image:
/// stride of four bytes per pixel, colour plane of stride times height
/// bytes, mask plane of one bit per pixel. `None` exactly when these sizes
/// do not fit.
pub fn dib_layout(width: u32, height: u32) -> (r: Option<DibLayout>)
    ensures
        r matches Some(l) ==> {
            &&& dib_fits(width, height)
            &&& l.stride == 4 * width
            &&& l.color_bytes == 4 * width * height
            &&& l.mask_bytes == width * height / 8
        },
        r is None ==> !dib_fits(width, height),
{
    let stride = match width.checked_mul(4) {
        Some(s) => s,
        None => {
            return None;
        },
    };
    let color_bytes = match stride.checked_mul(height) {
        Some(c) => c,
        None => {
            return None;
        },
    };
    proof {
        assert(width * height <= 4 * width * height && stride * height == 4 * width * height)
            by (nonlinear_arith)
            requires
                stride == 4 * width,
        ;
    }
    let mask_bytes = width * height / 8;
    Some(DibLayout { stride, color_bytes, mask_bytes })
}

} // verus!
