//! The interaction model: what a widget declares, and what a declaration
//! turns into.

pub mod make;

pub use make::{Composed, Make, Maker, Minter};
pub mod trigger;

pub use trigger::{Trigger, value_at};
pub mod interaction;

pub use interaction::{InputMask, Interaction, Interactions};

use vstd::prelude::*;

use crate::geometry::{Point, Rect, Size};
use crate::host::Host;
use crate::host::drawing::extends;

verus! {

/// How the panel behind a dialog is painted.
#[derive(Copy, Clone, Debug, PartialEq, Eq, Structural)]
pub enum Scrim {
    /// Left as it was.
    Clear,
    /// Darkened, so the dialog stands out while what is behind stays legible.
    Dim,
}

/// A piece of a screen: something that can be measured, painted, and can
/// declare the regions it answers input in.
///
/// A view is rebuilt every frame, so what it learns while measuring and while
/// declaring is never stale by more than the frame it was built in.
pub trait View<M, H: Host> {
    /// Lays the view out in `available`.
    fn measure(&mut self, host: &H, available: Size);

    /// The size the last `measure` settled on.
    fn size(&self) -> Size;

    /// Paints the view with its top-left corner at `origin`. Painting only
    /// adds to what the host was asked to draw.
    fn render(&self, host: &mut H, origin: Point)
        ensures
            extends(old(host).spec_drawn(), final(host).spec_drawn()),
    ;

    /// Declares the regions the view answers input in, with its top-left
    /// corner at `origin`. A view with none declares nothing. What the walk
    /// carries for the whole tree (the focus it looks for, the scroll, an
    /// open edit, the frame's mode and title, whether the control around it
    /// holds focus) is left as it was.
    fn interactions(&mut self, host: &H, origin: Point, out: &mut Interactions<M>)
        requires
            old(out).wf(),
        ensures
            final(out).wf(),
            final(out).spec_focus() == old(out).spec_focus(),
            final(out).spec_scroll() == old(out).spec_scroll(),
            final(out).spec_editing() == old(out).spec_editing(),
            final(out).spec_mode() == old(out).spec_mode(),
            final(out).spec_title() == old(out).spec_title(),
            final(out).spec_parent_focused() == old(out).spec_parent_focused(),
    ;
}

/// The rect a view of `size` occupies at `origin`.
pub fn bounds(size: Size, origin: Point) -> (r: Rect)
    ensures
        r.origin == origin,
        r.size == size,
{
    Rect { origin, size }
}

} // verus!
