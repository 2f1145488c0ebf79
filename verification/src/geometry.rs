//! Geometry primitives shared by layout and drawing.
//!
//! All coordinates are logical screen pixels in the current orientation — the
//! same space the host draws in.
use vstd::prelude::*;

verus! {

/// Whether `v` fits an `i32`.
pub open spec fn fits_i32(v: int) -> bool {
    i32::MIN <= v <= i32::MAX
}

/// The larger of `v` and zero.
pub open spec fn clamp_zero(v: int) -> int {
    if v < 0 { 0 } else { v }
}

/// A position on screen.
#[derive(Copy, Clone, Debug, Default, PartialEq, Eq, Structural)]
pub struct Point {
    /// Pixels from the left edge.
    pub x: i32,
    /// Pixels from the top edge.
    pub y: i32,
}

impl Point {
    /// The top-left corner of the screen.
    pub fn origin() -> (r: Point)
        ensures
            r.x == 0,
            r.y == 0,
    {
        Point { x: 0, y: 0 }
    }

    /// A point at `x`, `y`.
    pub fn new(x: i32, y: i32) -> (r: Self)
        ensures
            r.x == x,
            r.y == y,
    {
        Point { x, y }
    }

    /// Whether moving this point by `dx`/`dy` stays representable.
    pub open spec fn can_offset(self, dx: int, dy: int) -> bool {
        fits_i32(self.x + dx) && fits_i32(self.y + dy)
    }

    /// This point moved by `dx`/`dy`, each coordinate held inside `i32`:
    /// the same point [`offset`](Point::offset) gives wherever that fits.
    pub fn translate(self, dx: i32, dy: i32) -> (r: Self)
        ensures
            r.x == sat_i32(self.x + dx),
            r.y == sat_i32(self.y + dy),
            self.can_offset(dx as int, dy as int) ==> r.x == self.x + dx && r.y == self.y + dy,
    {
        Point::new(add_sat(self.x, dx), add_sat(self.y, dy))
    }

    /// This point moved by `dx`/`dy`.
    pub fn offset(self, dx: i32, dy: i32) -> (r: Self)
        requires
            self.can_offset(dx as int, dy as int),
        ensures
            r.x == self.x + dx,
            r.y == self.y + dy,
    {
        Point::new(self.x + dx, self.y + dy)
    }
}

/// `v` held inside `i32`.
pub open spec fn sat_i32(v: int) -> int {
    if v > i32::MAX {
        i32::MAX as int
    } else if v < i32::MIN {
        i32::MIN as int
    } else {
        v
    }
}

/// `v` held inside `i32`, computed from a wider integer.
pub fn clamp_to_i32(v: i64) -> (r: i32)
    ensures
        r == sat_i32(v as int),
{
    if v > i32::MAX as i64 {
        i32::MAX
    } else if v < i32::MIN as i64 {
        i32::MIN
    } else {
        v as i32
    }
}

/// `a + b` held inside `i32`.
pub fn add_sat(a: i32, b: i32) -> (r: i32)
    ensures
        r == sat_i32(a + b),
{
    clamp_to_i32(a as i64 + b as i64)
}

/// `a - b` held inside `i32`.
pub fn sub_sat(a: i32, b: i32) -> (r: i32)
    ensures
        r == sat_i32(a - b),
{
    clamp_to_i32(a as i64 - b as i64)
}

/// A width and height, clamped at zero by every constructor.
#[derive(Copy, Clone, Debug, Default, PartialEq, Eq, Structural)]
pub struct Size {
    /// Pixels across.
    pub width: i32,
    /// Pixels down.
    pub height: i32,
}

impl Size {
    /// Nothing at all.
    pub fn zero() -> (r: Size)
        ensures
            r.width == 0,
            r.height == 0,
    {
        Size { width: 0, height: 0 }
    }

    /// Whether neither dimension is negative, as every constructor leaves it.
    pub open spec fn wf(self) -> bool {
        self.width >= 0 && self.height >= 0
    }

    /// A size of `width` by `height`, each clamped at zero.
    pub fn new(width: i32, height: i32) -> (r: Self)
        ensures
            r.width == clamp_zero(width as int),
            r.height == clamp_zero(height as int),
            r.wf(),
    {
        Size {
            width: if width < 0 { 0 } else { width },
            height: if height < 0 { 0 } else { height },
        }
    }

    /// This size shrunk by `dw`/`dh`, clamped at zero.
    pub fn shrink(self, dw: i32, dh: i32) -> (r: Self)
        requires
            fits_i32(self.width - dw),
            fits_i32(self.height - dh),
        ensures
            r.width == clamp_zero(self.width - dw),
            r.height == clamp_zero(self.height - dh),
            r.wf(),
    {
        Size::new(self.width - dw, self.height - dh)
    }

    /// Whether either dimension is zero, so nothing could be drawn in it.
    pub fn is_empty(self) -> (r: bool)
        ensures
            r == (self.width == 0 || self.height == 0),
    {
        self.width == 0 || self.height == 0
    }
}

/// Space inset equally or individually on each edge.
#[derive(Copy, Clone, Debug, Default, PartialEq, Eq, Structural)]
pub struct Insets {
    /// Pixels taken from the top edge.
    pub top: i32,
    /// Pixels taken from the right edge.
    pub right: i32,
    /// Pixels taken from the bottom edge.
    pub bottom: i32,
    /// Pixels taken from the left edge.
    pub left: i32,
}

impl Insets {
    /// No inset on any edge.
    pub fn zero() -> (r: Insets)
        ensures
            r.top == 0 && r.right == 0 && r.bottom == 0 && r.left == 0,
    {
        Insets { top: 0, right: 0, bottom: 0, left: 0 }
    }

    /// The same inset on all four edges.
    pub fn all(value: i32) -> (r: Self)
        ensures
            r.top == value,
            r.right == value,
            r.bottom == value,
            r.left == value,
    {
        Insets { top: value, right: value, bottom: value, left: value }
    }

    /// Independent horizontal and vertical insets.
    pub fn symmetric(horizontal: i32, vertical: i32) -> (r: Self)
        ensures
            r.top == vertical,
            r.bottom == vertical,
            r.left == horizontal,
            r.right == horizontal,
    {
        Insets { top: vertical, right: horizontal, bottom: vertical, left: horizontal }
    }

    /// Left and right together, as a mathematical integer.
    pub open spec fn spec_horizontal(self) -> int {
        self.left + self.right
    }

    /// Top and bottom together, as a mathematical integer.
    pub open spec fn spec_vertical(self) -> int {
        self.top + self.bottom
    }

    /// Left and right together: the width an inset rect loses.
    pub fn horizontal(&self) -> (r: i32)
        requires
            fits_i32(self.spec_horizontal()),
        ensures
            r == self.spec_horizontal(),
    {
        self.left + self.right
    }

    /// Top and bottom together: the height an inset rect loses.
    pub fn vertical(&self) -> (r: i32)
        requires
            fits_i32(self.spec_vertical()),
        ensures
            r == self.spec_vertical(),
    {
        self.top + self.bottom
    }
}

/// A positioned, sized region.
#[derive(Copy, Clone, Debug, Default, PartialEq, Eq, Structural)]
pub struct Rect {
    /// The top-left corner.
    pub origin: Point,
    /// The width and height.
    pub size: Size,
}

impl Rect {
    /// The first column outside the rect, as a mathematical integer.
    pub open spec fn spec_right(self) -> int {
        self.origin.x + self.size.width
    }

    /// The first row outside the rect, as a mathematical integer.
    pub open spec fn spec_bottom(self) -> int {
        self.origin.y + self.size.height
    }

    /// Whether the far edges are representable, as they are for any rect on a panel.
    pub open spec fn edges_fit(self) -> bool {
        fits_i32(self.spec_right()) && fits_i32(self.spec_bottom())
    }

    /// Whether `p` lies inside; the right and bottom edges are outside.
    pub open spec fn spec_contains(self, p: Point) -> bool {
        p.x >= self.origin.x && p.y >= self.origin.y && p.x < self.spec_right() && p.y
            < self.spec_bottom()
    }

    /// Whether the two overlap at all; touching edges do not count.
    pub open spec fn spec_intersects(self, other: Rect) -> bool {
        self.origin.x < other.spec_right() && other.origin.x < self.spec_right() && self.origin.y
            < other.spec_bottom() && other.origin.y < self.spec_bottom()
    }

    /// The rect `Rect::new` builds from these numbers.
    pub open spec fn spec_new(x: int, y: int, width: int, height: int) -> Rect {
        Rect {
            origin: Point { x: x as i32, y: y as i32 },
            size: Size { width: clamp_zero(width) as i32, height: clamp_zero(height) as i32 },
        }
    }

    /// A rect with its top-left corner at `x`, `y`.
    pub fn new(x: i32, y: i32, width: i32, height: i32) -> (r: Self)
        ensures
            r == Rect::spec_new(x as int, y as int, width as int, height as int),
            r.origin.x == x,
            r.origin.y == y,
            r.size.width == clamp_zero(width as int),
            r.size.height == clamp_zero(height as int),
            r.size.wf(),
    {
        Rect { origin: Point::new(x, y), size: Size::new(width, height) }
    }

    /// The left edge.
    pub fn x(&self) -> (r: i32)
        ensures
            r == self.origin.x,
    {
        self.origin.x
    }

    /// The top edge.
    pub fn y(&self) -> (r: i32)
        ensures
            r == self.origin.y,
    {
        self.origin.y
    }

    /// Pixels across.
    pub fn width(&self) -> (r: i32)
        ensures
            r == self.size.width,
    {
        self.size.width
    }

    /// Pixels down.
    pub fn height(&self) -> (r: i32)
        ensures
            r == self.size.height,
    {
        self.size.height
    }

    /// The first column outside the rect.
    pub fn right(&self) -> (r: i32)
        requires
            fits_i32(self.spec_right()),
        ensures
            r == self.spec_right(),
    {
        self.origin.x + self.size.width
    }

    /// The first row outside the rect.
    pub fn bottom(&self) -> (r: i32)
        requires
            fits_i32(self.spec_bottom()),
        ensures
            r == self.spec_bottom(),
    {
        self.origin.y + self.size.height
    }

    /// Whether pulling this rect in by `insets` stays representable.
    pub open spec fn can_inset(self, insets: Insets) -> bool {
        &&& fits_i32(insets.spec_horizontal())
        &&& fits_i32(insets.spec_vertical())
        &&& self.origin.can_offset(insets.left as int, insets.top as int)
        &&& fits_i32(self.size.width - insets.spec_horizontal())
        &&& fits_i32(self.size.height - insets.spec_vertical())
    }

    /// This rect pulled inward on every edge by `insets`.
    pub fn inset(&self, insets: Insets) -> (r: Self)
        requires
            self.can_inset(insets),
        ensures
            r.origin.x == self.origin.x + insets.left,
            r.origin.y == self.origin.y + insets.top,
            r.size.width == clamp_zero(self.size.width - insets.spec_horizontal()),
            r.size.height == clamp_zero(self.size.height - insets.spec_vertical()),
    {
        Rect {
            origin: self.origin.offset(insets.left, insets.top),
            size: self.size.shrink(insets.horizontal(), insets.vertical()),
        }
    }

    /// Whether `point` is inside; the right and bottom edges are outside.
    ///
    /// Worked in 64 bits, so it answers for any rect, however far off the
    /// panel its far edges lie.
    pub fn contains(&self, point: Point) -> (r: bool)
        ensures
            r == self.spec_contains(point),
    {
        let right = self.origin.x as i64 + self.size.width as i64;
        let bottom = self.origin.y as i64 + self.size.height as i64;
        point.x >= self.origin.x && point.y >= self.origin.y && (point.x as i64) < right
            && (point.y as i64) < bottom
    }

    /// Whether the two overlap at all.
    ///
    /// Touching edges do not count, matching [`contains`](Rect::contains),
    /// which treats the right and bottom edges as outside.
    pub fn intersects(&self, other: Rect) -> (r: bool)
        ensures
            r == self.spec_intersects(other),
    {
        let self_right = self.origin.x as i64 + self.size.width as i64;
        let self_bottom = self.origin.y as i64 + self.size.height as i64;
        let other_right = other.origin.x as i64 + other.size.width as i64;
        let other_bottom = other.origin.y as i64 + other.size.height as i64;
        (self.origin.x as i64) < other_right && (other.origin.x as i64) < self_right
            && (self.origin.y as i64) < other_bottom && (other.origin.y as i64) < self_bottom
    }
}

/// A rect that contains a point intersects any rect that contains the same
/// point: `contains` and `intersects` agree on what "inside" means.
pub proof fn lemma_common_point_intersects(a: Rect, b: Rect, p: Point)
    requires
        a.spec_contains(p),
        b.spec_contains(p),
    ensures
        a.spec_intersects(b),
{
}

/// Intersection is symmetric.
pub proof fn lemma_intersects_symmetric(a: Rect, b: Rect)
    ensures
        a.spec_intersects(b) == b.spec_intersects(a),
{
}

/// A rect with an empty size contains no point at all.
pub proof fn lemma_empty_contains_nothing(r: Rect, p: Point)
    requires
        r.size.width == 0 || r.size.height == 0,
    ensures
        !r.spec_contains(p),
{
}

} // verus!
