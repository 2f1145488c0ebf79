//! A horizontal rule.
use vstd::prelude::*;

use crate::geometry::{Point, Size, clamp_zero, sat_i32, sub_sat};
use crate::host::canvas::Renderer;
use crate::host::drawing::Drawn;
use crate::host::Host;
use crate::view::Interactions;

verus! {

/// A one-pixel line spanning the width it is given, for separating sections.
pub struct Divider {
    measured: Size,
}

impl Divider {
    /// The size the last `measure` settled on.
    pub closed spec fn spec_measured(&self) -> Size {
        self.measured
    }

    /// A rule across the width it is given.
    pub fn new() -> (r: Self)
        ensures
            r.spec_measured() == (Size { width: 0, height: 0 }),
    {
        Divider { measured: Size::zero() }
    }

    /// The size a rule takes in `available`: its whole width, one pixel down.
    pub fn measured_in(available: Size) -> (r: Size)
        ensures
            r.width == clamp_zero(available.width as int),
            r.height == 1,
    {
        Size::new(available.width, 1)
    }
}

impl Default for Divider {
    fn default() -> (r: Self)
        ensures
            r.spec_measured() == (Size { width: 0, height: 0 }),
    {
        Divider::new()
    }
}

impl<M, H: Host> crate::view::View<M, H> for Divider {
    fn measure(&mut self, host: &H, available: Size)
        ensures
            final(self).spec_measured().width == clamp_zero(available.width as int),
            final(self).spec_measured().height == 1,
    {
        self.measured = Divider::measured_in(available);
    }

    fn size(&self) -> Size {
        self.measured
    }

    /// A one-pixel rule from `origin` across the measured width.
    fn render(&self, host: &mut H, origin: Point)
        ensures
            final(host).spec_drawn() == old(host).spec_drawn().push(
                Drawn::Line {
                    from: origin,
                    to: Point {
                        x: sat_i32(origin.x + sat_i32(self.spec_measured().width - 1)) as i32,
                        y: origin.y,
                    },
                },
            ),
    {
        let to = origin.translate(sub_sat(self.measured.width, 1), 0);
        Renderer::draw_line(host, origin, to);
    }

    /// A rule is never interactive.
    fn interactions(&mut self, host: &H, origin: Point, out: &mut Interactions<M>)
        ensures
            *final(out) == *old(out),
    {
    }
}

} // verus!
