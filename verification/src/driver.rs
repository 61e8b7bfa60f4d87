//! The order in which the pixels of an image are rendered and written.
use vstd::prelude::*;

verus! {

/// A pixel: its column, counted from the left, and its row, counted from the
/// bottom of the image.
#[derive(Clone, Copy, Debug, PartialEq, Eq, Structural)]
pub struct Pixel {
    pub x: u32,
    pub y: u32,
}

impl Pixel {
    /// The pixel lies in an image of this size.
    pub open spec fn inside(self, width: u32, height: u32) -> bool {
        self.x < width && self.y < height
    }

    /// The number of pixels written before this one: rows run from the top
    /// of the image down, columns from left to right.
    pub open spec fn position(self, width: u32, height: u32) -> int {
        (height - 1 - self.y) * width + self.x
    }
}

/// The pixel written first: the left end of the top row, if the image has
/// any pixel.
pub fn first_pixel(width: u32, height: u32) -> (first: Option<Pixel>)
    ensures
        first is Some <==> width > 0 && height > 0,
        first matches Some(p) ==> p.inside(width, height) && p.position(width, height) == 0
            && p.x == 0 && p.y == height - 1,
{
    if width > 0 && height > 0 {
        Some(Pixel { x: 0, y: height - 1 })
    } else {
        None
    }
}

/// The pixel written after `pixel`: the next one to the right, or the left
/// end of the row below; none after the right end of the bottom row.
pub fn next_pixel(pixel: Pixel, width: u32, height: u32) -> (next: Option<Pixel>)
    requires
        pixel.inside(width, height),
    ensures
        next is None <==> pixel.x == width - 1 && pixel.y == 0,
        next is None <==> pixel.position(width, height) == width * height - 1,
        next matches Some(p) ==> p.inside(width, height) && p.position(width, height)
            == pixel.position(width, height) + 1 && p == (if pixel.x + 1 < width {
            Pixel { x: (pixel.x + 1) as u32, y: pixel.y }
        } else {
            Pixel { x: 0, y: (pixel.y - 1) as u32 }
        }),
{
    proof {
        position_is_in_range(pixel, width, height);
        let w = width as int;
        let h = height as int;
        let y = pixel.y as int;
        assert((h - 1 - (y - 1)) * w == (h - 1 - y) * w + w) by (nonlinear_arith);
        assert(y > 0 ==> (h - 1 - y) * w + w <= (h - 1) * w) by (nonlinear_arith)
            requires
                w > 0,
                y < h,
        ;
        assert((h - 1) * w + w == w * h) by (nonlinear_arith);
        assert((h - 1 - 0) * w == (h - 1) * w);
    }
    if pixel.x + 1 < width {
        Some(Pixel { x: pixel.x + 1, y: pixel.y })
    } else if pixel.y > 0 {
        Some(Pixel { x: 0, y: pixel.y - 1 })
    } else {
        None
    }
}

/// Every pixel of the image has a position of its own below the number of
/// pixels.
pub proof fn position_is_in_range(pixel: Pixel, width: u32, height: u32)
    requires
        pixel.inside(width, height),
    ensures
        0 <= pixel.position(width, height) < width * height,
{
    let w = width as int;
    let h = height as int;
    let y = pixel.y as int;
    assert(0 <= (h - 1 - y) * w <= (h - 1) * w) by (nonlinear_arith)
        requires
            w > 0,
            0 <= y < h,
    ;
    assert((h - 1) * w + w == w * h) by (nonlinear_arith);
}

/// Two pixels of the image at the same position are the same pixel.
pub proof fn position_is_injective(a: Pixel, b: Pixel, width: u32, height: u32)
    requires
        a.inside(width, height),
        b.inside(width, height),
        a.position(width, height) == b.position(width, height),
    ensures
        a == b,
{
    let w = width as int;
    let ra = height - 1 - a.y;
    let rb = height - 1 - b.y;
    assert(ra == rb) by (nonlinear_arith)
        requires
            ra * w + a.x == rb * w + b.x,
            0 <= a.x < w,
            0 <= b.x < w,
    ;
}

} // verus!
