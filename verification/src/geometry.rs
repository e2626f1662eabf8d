use vstd::prelude::*;

verus! {

/// An integer screen coordinate.
#[derive(Clone, Copy, PartialEq, Eq, Structural, Debug)]
pub struct Point {
    pub x: i32,
    pub y: i32,
}

/// A capture rectangle given by two corner points `x` and `y`; the corners
/// may be in any order, and the rectangle's extent on each axis is the
/// absolute difference of the coordinates.
#[derive(Clone, Copy, PartialEq, Eq, Structural, Debug)]
pub struct Rect {
    pub x: Point,
    pub y: Point,
}

/// Distance between two coordinates on one axis.
pub open spec fn span(a: int, b: int) -> int {
    if b >= a {
        b - a
    } else {
        a - b
    }
}

/// Width of the rectangle: absolute difference of the two x coordinates.
pub fn rect_width(r: &Rect) -> (w: i32)
    requires
        span(r.x.x as int, r.y.x as int) <= i32::MAX,
    ensures
        w == span(r.x.x as int, r.y.x as int),
{
    if r.y.x >= r.x.x {
        r.y.x - r.x.x
    } else {
        r.x.x - r.y.x
    }
}

/// Height of the rectangle: absolute difference of the two y coordinates.
pub fn rect_height(r: &Rect) -> (h: i32)
    requires
        span(r.x.y as int, r.y.y as int) <= i32::MAX,
    ensures
        h == span(r.x.y as int, r.y.y as int),
{
    if r.y.y >= r.x.y {
        r.y.y - r.x.y
    } else {
        r.x.y - r.y.y
    }
}

/// The full-screen rectangle from the origin to the display's reported
/// resolution.
pub open spec fn full_screen(width: i32, height: i32) -> Rect {
    Rect { x: Point { x: 0, y: 0 }, y: Point { x: width, y: height } }
}

/// Pick the rectangle to capture: the explicit one when given, otherwise
/// the whole screen from (0, 0) to the reported resolution.
pub fn resolve_region(region: Option<Rect>, screen_width: i32, screen_height: i32) -> (r: Rect)
    ensures
        region matches Some(g) ==> r == g,
        region is None ==> r == full_screen(screen_width, screen_height),
{
    match region {
        Some(g) => g,
        None => Rect { x: Point { x: 0, y: 0 }, y: Point { x: screen_width, y: screen_height } },
    }
}

} // verus!
