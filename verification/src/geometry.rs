//! Rectangles in physical pixels, as the shell's reservation protocol uses them.

use vstd::prelude::*;

verus! {

/// The value in `i32` range that is closest to `v`.
pub open spec fn clamp_i32(v: int) -> int {
    if v < i32::MIN {
        i32::MIN as int
    } else if v > i32::MAX {
        i32::MAX as int
    } else {
        v
    }
}

/// The value in `u32` range that is closest to `v`.
pub open spec fn clamp_u32(v: int) -> int {
    if v < 0 {
        0
    } else if v > u32::MAX {
        u32::MAX as int
    } else {
        v
    }
}

/// `a + b`, held to the range of `i32`.
pub fn add_clamped(a: i32, b: i32) -> (r: i32)
    ensures
        r == clamp_i32(a + b),
{
    let wide: i64 = a as i64 + b as i64;
    if wide < i32::MIN as i64 {
        i32::MIN
    } else if wide > i32::MAX as i64 {
        i32::MAX
    } else {
        wide as i32
    }
}

/// `a - b`, held to the range of `i32`.
pub fn sub_clamped(a: i32, b: i32) -> (r: i32)
    ensures
        r == clamp_i32(a - b),
{
    let wide: i64 = a as i64 - b as i64;
    if wide < i32::MIN as i64 {
        i32::MIN
    } else if wide > i32::MAX as i64 {
        i32::MAX
    } else {
        wide as i32
    }
}

/// A pixel count as a signed coordinate; counts above `i32::MAX` become `i32::MAX`.
pub fn extent_to_i32(v: u32) -> (r: i32)
    ensures
        r == clamp_i32(v as int),
{
    if v > i32::MAX as u32 {
        i32::MAX
    } else {
        v as i32
    }
}

/// A signed span as a pixel count; negative spans become 0.
pub fn span_to_u32(v: i32) -> (r: u32)
    ensures
        r == clamp_u32(v as int),
{
    if v < 0 {
        0
    } else {
        v as u32
    }
}

/// A rectangle given by its four edges, `right` and `bottom` exclusive.
#[derive(Clone, Copy, Debug, PartialEq, Eq, Structural)]
pub struct Rect {
    pub left: i32,
    pub top: i32,
    pub right: i32,
    pub bottom: i32,
}

impl Rect {
    /// The rectangle with origin `(x, y)` and the given size. An edge that
    /// would fall outside `i32` lies on the nearest representable coordinate.
    pub open spec fn at(x: int, y: int, width: int, height: int) -> Rect {
        Rect {
            left: x as i32,
            top: y as i32,
            right: clamp_i32(x + width) as i32,
            bottom: clamp_i32(y + height) as i32,
        }
    }

    /// This rectangle with its bottom edge `height` below its top edge.
    pub open spec fn spec_with_height(self, height: int) -> Rect {
        Rect { bottom: clamp_i32(self.top + height) as i32, ..self }
    }

    /// Horizontal span, held to the range of `i32`.
    pub open spec fn spec_width(self) -> int {
        clamp_i32(self.right - self.left)
    }

    /// Vertical span, held to the range of `i32`.
    pub open spec fn spec_height(self) -> int {
        clamp_i32(self.bottom - self.top)
    }

    /// The rectangle with origin `(x, y)` and the given size.
    pub fn from_origin(x: i32, y: i32, width: i32, height: i32) -> (r: Rect)
        ensures
            r == Rect::at(x as int, y as int, width as int, height as int),
    {
        Rect { left: x, top: y, right: add_clamped(x, width), bottom: add_clamped(y, height) }
    }

    /// This rectangle with its bottom edge `height` below its top edge.
    pub fn with_height(self, height: i32) -> (r: Rect)
        ensures
            r == self.spec_with_height(height as int),
    {
        Rect {
            left: self.left,
            top: self.top,
            right: self.right,
            bottom: add_clamped(self.top, height),
        }
    }

    /// Horizontal span, held to the range of `i32`.
    pub fn width(&self) -> (w: i32)
        ensures
            w == self.spec_width(),
    {
        sub_clamped(self.right, self.left)
    }

    /// Vertical span, held to the range of `i32`.
    pub fn height(&self) -> (h: i32)
        ensures
            h == self.spec_height(),
    {
        sub_clamped(self.bottom, self.top)
    }
}

/// The work area of the primary monitor as origin and size, from its
/// rectangle. A span that does not fit is held to the range of `i32`.
pub fn get_primary_work_area(area: Rect) -> (r: (i32, i32, i32, i32))
    ensures
        r == (area.left, area.top, area.spec_width() as i32, area.spec_height() as i32),
{
    (area.left, area.top, area.width(), area.height())
}

} // verus!
