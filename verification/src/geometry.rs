//! Plain value types for window geometry and the conversion from the
//! edge rectangles that the platform reports.

use vstd::prelude::*;

verus! {

/// A pair of signed coordinates. Depending on context it is an absolute
/// screen position or a width/height pair; no invariant ties the two uses.
#[derive(Debug, PartialEq, Eq, Structural, Clone, Copy)]
pub struct Point {
    pub x: i32,
    pub y: i32,
}

impl Point {
    /// The primary display's dimensions, assembled from the two queried
    /// metrics: `x` carries the width and `y` the height.
    pub fn scren_size(width: i32, height: i32) -> (p: Point)
        ensures
            p.x == width,
            p.y == height,
    {
        Point { x: width, y: height }
    }
}

/// A rectangle as the platform reports it: four signed edges.
#[derive(Debug, PartialEq, Eq, Structural, Clone, Copy)]
pub struct WinRect {
    pub left: i32,
    pub top: i32,
    pub right: i32,
    pub bottom: i32,
}

/// A rectangle as a top-left position and a size.
#[derive(Debug, PartialEq, Eq, Structural, Clone, Copy)]
pub struct Rect {
    pub pos: Point,
    pub size: Point,
}

impl Rect {
    /// Converts an edge rectangle into position/size form: `pos` is
    /// `(left, top)` and `size` is `(right - left, bottom - top)`. The
    /// values pass through unchanged: a degenerate rectangle with a zero
    /// or negative size is neither clamped nor rejected.
    pub fn from_win_rect(rect: WinRect) -> (r: Rect)
        requires
            i32::MIN <= rect.right - rect.left <= i32::MAX,
            i32::MIN <= rect.bottom - rect.top <= i32::MAX,
        ensures
            r.pos.x == rect.left,
            r.pos.y == rect.top,
            r.size.x == rect.right - rect.left,
            r.size.y == rect.bottom - rect.top,
    {
        Rect {
            pos: Point { x: rect.left, y: rect.top },
            size: Point { x: rect.right - rect.left, y: rect.bottom - rect.top },
        }
    }

    /// Outcome of a rectangle query: absence when the platform call
    /// failed, otherwise the converted rectangle — never partial data and
    /// never a placeholder presented as valid.
    pub fn from_query(ok: bool, rect: WinRect) -> (r: Option<Rect>)
        requires
            ok ==> i32::MIN <= rect.right - rect.left <= i32::MAX,
            ok ==> i32::MIN <= rect.bottom - rect.top <= i32::MAX,
        ensures
            !ok ==> r is None,
            ok ==> (r matches Some(q) && q.pos.x == rect.left && q.pos.y == rect.top
                && q.size.x == rect.right - rect.left && q.size.y == rect.bottom - rect.top),
    {
        if ok {
            Some(Rect::from_win_rect(rect))
        } else {
            None
        }
    }
}

} // verus!
