//! The arithmetic of placing a line of text on a button image.

use vstd::prelude::*;

verus! {

/// Half of `n`, rounded toward zero.
pub open spec fn half_toward_zero(n: int) -> int {
    if n >= 0 {
        n / 2
    } else {
        -((-n) / 2)
    }
}

/// Where the top left corner of a line of text goes on an image of
/// `width` by `height` pixels: centered horizontally, and with its lower edge
/// six pixels above the image's lower edge.
pub open spec fn spec_text_origin(width: int, height: int, text_width: int, text_height: int) -> (
    int,
    int,
) {
    (half_toward_zero(width - text_width), height - text_height - 6)
}

/// Where to start drawing a line of text that is `text_width` by
/// `text_height` pixels on an image of `width` by `height` pixels. A text
/// wider or taller than the image starts outside of it, at a negative
/// coordinate. All sizes have to fit a signed 32-bit coordinate.
pub fn text_origin(width: u32, height: u32, text_width: u32, text_height: u32) -> (origin: (
    i32,
    i32,
))
    requires
        width <= i32::MAX,
        height <= i32::MAX,
        text_width <= i32::MAX,
        text_height <= i32::MAX,
        height - text_height - 6 >= i32::MIN,
    ensures
        (origin.0 as int, origin.1 as int) == spec_text_origin(
            width as int,
            height as int,
            text_width as int,
            text_height as int,
        ),
{
    let x: i32 = if width >= text_width {
        ((width - text_width) / 2) as i32
    } else {
        -(((text_width - width) / 2) as i32)
    };
    let y: i32 = height as i32 - text_height as i32 - 6;
    (x, y)
}

} // verus!
