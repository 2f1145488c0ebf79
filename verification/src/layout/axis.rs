//! Which way a stack lays out, and where children sit across it.
use vstd::prelude::*;

use crate::geometry::{Point, Size, clamp_zero};

verus! {

/// Where children sit across the stacking axis.
#[derive(Copy, Clone, Debug, PartialEq, Eq, Structural)]
pub enum Alignment {
    /// The leading edge.
    Start,
    /// Centred in the space across the axis.
    Center,
    /// The trailing edge.
    End,
}

impl Default for Alignment {
    fn default() -> (r: Self)
        ensures
            r == Alignment::Start,
    {
        Alignment::Start
    }
}

impl Alignment {
    /// How far across the axis a child of extent `child` sits inside `space`.
    pub fn offset(self, space: i32, child: i32) -> (r: i32)
        requires
            0 <= child,
            0 <= space,
        ensures
            child >= space ==> r == 0,
            child < space ==> r == (match self {
                Alignment::Start => 0,
                Alignment::Center => (space - child) / 2,
                Alignment::End => space - child,
            }),
            0 <= r <= clamp_zero(space - child),
    {
        if child >= space {
            return 0;
        }
        match self {
            Alignment::Start => 0,
            Alignment::Center => (space - child) / 2,
            Alignment::End => space - child,
        }
    }
}

/// The direction a stack lays children out in.
#[derive(Copy, Clone, Debug, PartialEq, Eq, Structural)]
pub enum Axis {
    /// Top to bottom.
    Vertical,
    /// Left to right.
    Horizontal,
}

impl Axis {
    /// The extent along the stacking direction, in specifications.
    pub open spec fn spec_main(self, size: Size) -> i32 {
        match self {
            Axis::Vertical => size.height,
            Axis::Horizontal => size.width,
        }
    }

    /// The extent across the stacking direction, in specifications.
    pub open spec fn spec_cross(self, size: Size) -> i32 {
        match self {
            Axis::Vertical => size.width,
            Axis::Horizontal => size.height,
        }
    }

    /// The extent along the stacking direction.
    pub fn main(self, size: Size) -> (r: i32)
        ensures
            r == self.spec_main(size),
    {
        match self {
            Axis::Vertical => size.height,
            Axis::Horizontal => size.width,
        }
    }

    /// The extent across the stacking direction.
    pub fn cross(self, size: Size) -> (r: i32)
        ensures
            r == self.spec_cross(size),
    {
        match self {
            Axis::Vertical => size.width,
            Axis::Horizontal => size.height,
        }
    }

    /// A size with `main` along the axis and `cross` across it, clamped at zero.
    pub fn size(self, main: i32, cross: i32) -> (r: Size)
        ensures
            self.spec_main(r) == clamp_zero(main as int),
            self.spec_cross(r) == clamp_zero(cross as int),
            r.wf(),
    {
        match self {
            Axis::Vertical => Size::new(cross, main),
            Axis::Horizontal => Size::new(main, cross),
        }
    }

    /// Moves `origin` along the stacking axis by `amount`.
    pub fn advance(self, origin: Point, amount: i32) -> (r: Point)
        requires
            match self {
                Axis::Vertical => origin.can_offset(0, amount as int),
                Axis::Horizontal => origin.can_offset(amount as int, 0),
            },
        ensures
            r == (match self {
                Axis::Vertical => Point { x: origin.x, y: (origin.y + amount) as i32 },
                Axis::Horizontal => Point { x: (origin.x + amount) as i32, y: origin.y },
            }),
    {
        match self {
            Axis::Vertical => origin.offset(0, amount),
            Axis::Horizontal => origin.offset(amount, 0),
        }
    }

    /// Moves across the stacking axis, for alignment.
    pub fn advance_cross(self, origin: Point, amount: i32) -> (r: Point)
        requires
            match self {
                Axis::Vertical => origin.can_offset(amount as int, 0),
                Axis::Horizontal => origin.can_offset(0, amount as int),
            },
        ensures
            r == (match self {
                Axis::Vertical => Point { x: (origin.x + amount) as i32, y: origin.y },
                Axis::Horizontal => Point { x: origin.x, y: (origin.y + amount) as i32 },
            }),
    {
        match self {
            Axis::Vertical => origin.offset(amount, 0),
            Axis::Horizontal => origin.offset(0, amount),
        }
    }
}

} // verus!
