//! Rectangles, points and sizes in window coordinates.

use vstd::prelude::*;

verus! {

#[derive(Clone, Copy, Debug, PartialEq, Eq, Structural)]
pub struct Rect {
    pub left: i32,
    pub top: i32,
    pub right: i32,
    pub bottom: i32,
}

#[derive(Clone, Copy, Debug, PartialEq, Eq, Structural)]
pub struct Point {
    pub x: i32,
    pub y: i32,
}

#[derive(Clone, Copy, Debug, PartialEq, Eq, Structural)]
pub struct Size {
    pub cx: i32,
    pub cy: i32,
}

/// The farthest a coordinate handed to a layout may lie from the origin, in pixels. Layouts add a
/// few scaled sizes to a coordinate, and those sums must stay in `i32`.
pub const MAX_COORDINATE: i32 = 0x1000_0000;

impl Rect {
    /// Every edge is within `MAX_COORDINATE` of the origin.
    pub open spec fn in_range(self) -> bool {
        &&& -MAX_COORDINATE <= self.left <= MAX_COORDINATE
        &&& -MAX_COORDINATE <= self.top <= MAX_COORDINATE
        &&& -MAX_COORDINATE <= self.right <= MAX_COORDINATE
        &&& -MAX_COORDINATE <= self.bottom <= MAX_COORDINATE
    }

    /// The left and right edges leave room in `i32` for the sizes that a row's parts add to them.
    pub open spec fn spans(self) -> bool {
        &&& -0x3000_0000 <= self.left <= 0x3000_0000
        &&& -0x3000_0000 <= self.right <= 0x3000_0000
    }

    /// Every edge leaves room in `i32` for the sizes that a row's parts add to it.
    pub open spec fn drawable(self) -> bool {
        &&& -0x3000_0000 <= self.left <= 0x3000_0000
        &&& -0x3000_0000 <= self.top <= 0x3000_0000
        &&& -0x3000_0000 <= self.right <= 0x3000_0000
        &&& -0x3000_0000 <= self.bottom <= 0x3000_0000
    }

    /// The pixel at (`x`, `y`) is in the rectangle; its right and bottom edges are not.
    pub open spec fn has(self, x: int, y: int) -> bool {
        self.left <= x < self.right && self.top <= y < self.bottom
    }

    /// The height in pixels, 0 when the rectangle is inside out.
    pub open spec fn tall(self) -> int {
        vstd::math::max(self.bottom - self.top, 0)
    }

    /// Every pixel of the rectangle is one of `outer`.
    pub open spec fn within(self, outer: Rect) -> bool {
        forall|x: int, y: int| self.has(x, y) ==> #[trigger] outer.has(x, y)
    }
}

/// The largest client rectangle a layout takes: half of what a rectangle may hold, so that what
/// it places is in range too.
pub open spec fn roomy(client: Rect) -> bool {
    &&& -0x800_0000 <= client.left <= 0x800_0000
    &&& -0x800_0000 <= client.top <= 0x800_0000
    &&& -0x800_0000 <= client.right <= 0x800_0000
    &&& -0x800_0000 <= client.bottom <= 0x800_0000
}

/// Whether the pixel at (`x`, `y`) is in `rect`.
pub fn contains(rect: Rect, x: i32, y: i32) -> (inside: bool)
    ensures
        inside == rect.has(x as int, y as int),
{
    x >= rect.left && x < rect.right && y >= rect.top && y < rect.bottom
}

/// The rectangle's height, 0 when it is inside out.
pub fn height(rect: Rect) -> (tall: i32)
    requires
        i32::MIN <= rect.bottom - rect.top <= i32::MAX,
    ensures
        tall == rect.tall(),
{
    let height: i32 = rect.bottom - rect.top;
    if height > 0 {
        height
    } else {
        0
    }
}

/// `value` moved to the nearest `i32`.
pub open spec fn saturated(value: int) -> int {
    if value > i32::MAX {
        i32::MAX as int
    } else if value < i32::MIN {
        i32::MIN as int
    } else {
        value
    }
}

/// `value` moved to the nearest `i32`.
pub fn saturate(value: i64) -> (nearest: i32)
    ensures
        nearest == saturated(value as int),
{
    if value > i32::MAX as i64 {
        i32::MAX
    } else if value < i32::MIN as i64 {
        i32::MIN
    } else {
        value as i32
    }
}

} // verus!
