//! Placement of the rendered buffer on a canvas of another aspect ratio.
use vstd::prelude::*;

verus! {

/// Width that the buffer takes on when scaled to the canvas height.
pub open spec fn height_fitted_width(canv_h: u32, buff_w: usize, buff_h: usize) -> int {
    (canv_h * buff_w) / (buff_h as int)
}

/// True when the canvas is narrower than the buffer's aspect ratio, so that
/// the buffer scaled to the canvas height overflows the canvas width.
pub fn cmp_aspect(canvas_dimensions: (u32, u32), buff_w: usize, buff_h: usize) -> (r: bool)
    requires
        0 < buff_h <= u32::MAX,
        buff_w <= u32::MAX,
        canvas_dimensions.1 * buff_w <= u32::MAX,
    ensures
        r == (height_fitted_width(canvas_dimensions.1, buff_w, buff_h) > canvas_dimensions.0),
{
    let (canv_w, canv_h) = canvas_dimensions;
    canv_h * (buff_w as u32) / (buff_h as u32) > canv_w
}

/// A rectangle given by its center and size, in canvas pixels.
#[derive(Clone, Copy, Debug, PartialEq, Eq, Structural)]
pub struct TextureRect {
    pub center_x: i32,
    pub center_y: i32,
    pub width: u32,
    pub height: u32,
}

impl TextureRect {
    /// The top-left corner: half the size back from the center. The
    /// background blit and the sprite projector both place the buffer there.
    pub fn origin(&self) -> (r: (i32, i32))
        requires
            self.center_x >= 0,
            self.center_y >= 0,
        ensures
            r.0 == self.center_x - self.width / 2,
            r.1 == self.center_y - self.height / 2,
    {
        (
            ((self.center_x as i64) - (self.width / 2) as i64) as i32,
            ((self.center_y as i64) - (self.height / 2) as i64) as i32,
        )
    }
}

/// Letterbox transform: the largest rectangle of the buffer's aspect ratio
/// that the canvas holds along one axis, centered on the canvas. Where the
/// buffer scaled to the canvas height is wider than the canvas, that height
/// is kept and the rectangle overflows the sides; otherwise the canvas width
/// is kept.
pub fn calculate_texture_rect(canvas_dimensions: (u32, u32), buff_w: usize, buff_h: usize) -> (r:
    TextureRect)
    requires
        0 < buff_w <= u32::MAX,
        0 < buff_h <= u32::MAX,
        canvas_dimensions.1 * buff_w <= u32::MAX,
        canvas_dimensions.0 * buff_h <= u32::MAX,
    ensures
        r.center_x == canvas_dimensions.0 / 2,
        r.center_x >= 0 && r.center_y >= 0,
        r.center_y == canvas_dimensions.1 / 2,
        height_fitted_width(canvas_dimensions.1, buff_w, buff_h) > canvas_dimensions.0 ==> {
            &&& r.width == height_fitted_width(canvas_dimensions.1, buff_w, buff_h)
            &&& r.height == canvas_dimensions.1
        },
        height_fitted_width(canvas_dimensions.1, buff_w, buff_h) <= canvas_dimensions.0 ==> {
            &&& r.width == canvas_dimensions.0
            &&& r.height == (canvas_dimensions.0 * buff_h) / (buff_w as int)
        },
{
    let (canv_w, canv_h) = canvas_dimensions;
    let center_x = (canv_w / 2) as i32;
    let center_y = (canv_h / 2) as i32;
    if cmp_aspect(canvas_dimensions, buff_w, buff_h) {
        TextureRect { center_x, center_y, width: canv_h * (buff_w as u32) / (buff_h as u32), height: canv_h }
    } else {
        TextureRect { center_x, center_y, width: canv_w, height: canv_w * (buff_h as u32) / (buff_w as u32) }
    }
}

} // verus!
