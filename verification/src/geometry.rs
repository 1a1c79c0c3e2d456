//! Rectangles, and where the three copies of a frame go on the display.

use vstd::prelude::*;

verus! {

/// A rectangle on a pixel grid: the corner nearest the origin, and a size.
#[derive(Clone, Copy, Debug, PartialEq, Eq, Structural)]
pub struct Rect {
    /// Horizontal position of the left edge.
    pub x: i32,
    /// Vertical position of the top edge.
    pub y: i32,
    /// Width in pixels.
    pub w: u32,
    /// Height in pixels.
    pub h: u32,
}

impl Rect {
    /// Whether the rectangle holds no pixel.
    pub open spec fn holds_nothing(self) -> bool {
        self.w == 0 || self.h == 0
    }

    /// Tells whether the rectangle holds no pixel: one without width or
    /// without height.
    pub fn is_empty(&self) -> (b: bool)
        ensures
            b == self.holds_nothing(),
    {
        self.w == 0 || self.h == 0
    }
}

/// The width that keeps the canvas's aspect ratio at the viewport's height.
pub open spec fn scaled_width(viewport_h: int, canvas_w: int, canvas_h: int) -> int {
    (viewport_h * canvas_w) / canvas_h
}

/// The left edge that centres a span of `target_w` in one of `viewport_w`,
/// rounded towards the left.
pub open spec fn centered_x(viewport_w: int, target_w: int) -> int {
    (viewport_w - target_w) / 2
}

/// The rectangle of the middle copy, if there is one: as high as the
/// viewport, as wide as the canvas's aspect ratio makes it, centred
/// horizontally, at the top. There is none for a canvas without height, nor
/// where the width would not fit a rectangle.
pub open spec fn center_of(viewport: Rect, canvas: Rect) -> Option<Rect> {
    let width = scaled_width(viewport.h as int, canvas.w as int, canvas.h as int);
    if canvas.h == 0 || width > u32::MAX {
        None
    } else {
        Some(
            Rect {
                x: centered_x(viewport.w as int, width) as i32,
                y: 0,
                w: width as u32,
                h: viewport.h,
            },
        )
    }
}

/// Computes the rectangle of the middle copy of the canvas in the viewport.
pub fn center_rect(viewport: Rect, canvas: Rect) -> (r: Option<Rect>)
    ensures
        r == center_of(viewport, canvas),
        r matches Some(c) ==> c.x == centered_x(viewport.w as int, c.w as int),
{
    if canvas.h == 0 {
        return None;
    }
    assert(0 <= viewport.h * canvas.w <= u64::MAX) by (nonlinear_arith)
        requires
            0 <= viewport.h <= u32::MAX,
            0 <= canvas.w <= u32::MAX,
    ;
    let product: u64 = (viewport.h as u64) * (canvas.w as u64);
    let width: u64 = product / (canvas.h as u64);
    if width > u32::MAX as u64 {
        return None;
    }
    let slack: i64 = viewport.w as i64 - width as i64;
    let x: i64 = if slack >= 0 {
        slack / 2
    } else {
        -((1 - slack) / 2)
    };
    Some(Rect { x: x as i32, y: 0, w: width as u32, h: viewport.h })
}

/// The three rectangles a frame is drawn into.
#[derive(Clone, Copy, Debug, PartialEq, Eq, Structural)]
pub struct Placements {
    /// Where the frame itself goes.
    pub center: Rect,
    /// Where the mirrored copy to its left goes.
    pub left: Rect,
    /// Where the mirrored copy to its right goes.
    pub right: Rect,
}

/// `rect` moved horizontally by `dx`.
pub open spec fn shifted(rect: Rect, dx: int) -> Rect {
    Rect { x: (rect.x + dx) as i32, y: rect.y, w: rect.w, h: rect.h }
}

/// Whether both neighbours of `center` have a left edge that a rectangle
/// can hold.
pub open spec fn has_neighbours(center: Rect) -> bool {
    i32::MIN <= center.x - center.w && center.x + center.w <= i32::MAX
}

/// Places the two mirrored copies beside the middle one: the same rectangle,
/// moved left and right by exactly its own width.
///
/// There is no placement when a neighbour's left edge would leave the range
/// of the coordinates.
pub fn placements(center: Rect) -> (r: Option<Placements>)
    ensures
        has_neighbours(center) ==> r == Some(
            Placements {
                center,
                left: shifted(center, -(center.w as int)),
                right: shifted(center, center.w as int),
            },
        ),
        !has_neighbours(center) ==> r is None,
        r matches Some(p) ==> {
            &&& p.center == center
            &&& p.left.x == center.x - center.w
            &&& p.right.x == center.x + center.w
            &&& p.left.y == center.y && p.right.y == center.y
            &&& p.left.w == center.w && p.right.w == center.w
            &&& p.left.h == center.h && p.right.h == center.h
        },
{
    let left_x: i64 = center.x as i64 - center.w as i64;
    let right_x: i64 = center.x as i64 + center.w as i64;
    if left_x < i32::MIN as i64 || right_x > i32::MAX as i64 {
        return None;
    }
    Some(
        Placements {
            center,
            left: Rect { x: left_x as i32, y: center.y, w: center.w, h: center.h },
            right: Rect { x: right_x as i32, y: center.y, w: center.w, h: center.h },
        },
    )
}

} // verus!
