//! Drawing primitives.
use vstd::prelude::*;

use crate::geometry::{Point, Rect, Size, clamp_zero, fits_i32};
use crate::host::drawing::{Drawing, Drawn};
use crate::host::metrics::{FontId, FontStyle};

verus! {

/// An icon the host owns.
///
/// Deliberately opaque numbers: which glyph these select is the host's
/// business.
#[derive(Copy, Clone, Debug, PartialEq, Eq, Structural)]
pub struct IconRef {
    /// Which icon, in whatever numbering the host uses.
    pub kind: u16,
    /// A variant of the same icon, where the host offers one.
    pub variant: u8,
    /// Preferred edge length; the host picks the nearest size it ships.
    pub size: i32,
}

impl IconRef {
    /// Icon `kind` in its first variant, asking for a 32-pixel edge.
    pub fn new(kind: u16) -> (r: Self)
        ensures
            r.kind == kind,
            r.variant == 0,
            r.size == 32,
    {
        IconRef { kind, variant: 0, size: 32 }
    }
}

/// The framebuffer, as the framework sees it.
///
/// Drawing changes the panel and answers nothing, so only the two queries are
/// stated, against the `spec_` functions of the same name.
pub trait Canvas: Drawing {
    /// What `screen_size` answers.
    spec fn spec_screen_size(&self) -> Size;

    /// What `icon_size` answers for `icon`.
    spec fn spec_icon_size(&self, icon: IconRef) -> i32;

    /// The panel's size in logical pixels, in the current orientation.
    fn screen_size(&self) -> (r: Size)
        ensures
            r == self.spec_screen_size(),
    ;

    /// Clears to background. An overlay must not call this.
    fn clear(&mut self)
        ensures
            final(self).spec_drawn() == old(self).spec_drawn().push(Drawn::Clear),
    ;

    /// Draws `text` with its **top-left** corner at `origin`, not a baseline.
    fn draw_text(&mut self, origin: Point, text: &str, font: FontId, style: FontStyle)
        ensures
            final(self).spec_drawn() == old(self).spec_drawn().push(Drawn::Text { origin, text: text@, font, style }),
    ;

    /// Fills `rect`; `black` false means background.
    fn fill_rect(&mut self, rect: Rect, black: bool)
        ensures
            final(self).spec_drawn() == old(self).spec_drawn().push(Drawn::Fill { rect, black }),
    ;

    /// Outlines `rect` in ink, one pixel wide, inside its bounds.
    fn stroke_rect(&mut self, rect: Rect)
        ensures
            final(self).spec_drawn() == old(self).spec_drawn().push(Drawn::Stroke { rect }),
    ;

    /// A one-pixel line in ink from `from` to `to`, both ends included.
    fn draw_line(&mut self, from: Point, to: Point)
        ensures
            final(self).spec_drawn() == old(self).spec_drawn().push(Drawn::Line { from, to }),
    ;

    /// Fills `rect` with a 50% dither; `light` picks the parity that takes ink.
    fn fill_rect_dither(&mut self, rect: Rect, light: bool)
        ensures
            final(self).spec_drawn() == old(self).spec_drawn().push(Drawn::Dither { rect, light }),
    ;

    /// Darkens `rect` while leaving what is already drawn there legible.
    fn scrim(&mut self, rect: Rect)
        ensures
            final(self).spec_drawn() == old(self).spec_drawn().push(Drawn::Scrim { rect }),
    ;

    /// Confines drawing to `rect`, or lifts the clip when it is `None`.
    /// One clip, not a stack: nesting is [`Renderer`]'s job.
    fn set_clip(&mut self, rect: Option<Rect>)
        ensures
            final(self).spec_drawn() == old(self).spec_drawn().push(Drawn::Clip { rect }),
    ;

    /// Draws a 1-bpp bitmap of `size` with its top-left corner at `origin`.
    fn draw_image(&mut self, origin: Point, data: &[u8], size: Size)
        ensures
            final(self).spec_drawn() == old(self).spec_drawn().push(Drawn::Image { origin, data: data@, size }),
    ;

    /// Draws `icon` with its top-left corner at `origin`.
    fn draw_icon(&mut self, origin: Point, icon: IconRef)
        ensures
            final(self).spec_drawn() == old(self).spec_drawn().push(Drawn::Icon { origin, icon }),
    ;

    /// Edge length the host would actually draw, or 0 if it ships nothing.
    fn icon_size(&self, icon: IconRef) -> (r: i32)
        ensures
            r == self.spec_icon_size(icon),
    ;
}

/// How many nested clips [`Renderer`] remembers.
pub const CLIP_DEPTH: usize = 8;

/// The larger of two integers.
pub open spec fn max_int(a: int, b: int) -> int {
    if a >= b { a } else { b }
}

/// The smaller of two integers.
pub open spec fn min_int(a: int, b: int) -> int {
    if a <= b { a } else { b }
}

/// Whether the overlap of `a` and `b` can be computed without leaving `i32`.
pub open spec fn can_intersect(a: Rect, b: Rect) -> bool {
    &&& a.edges_fit()
    &&& b.edges_fit()
    &&& a.size.wf()
    &&& b.size.wf()
}

/// What two rects share; zero-sized where they do not meet.
pub open spec fn spec_intersection(a: Rect, b: Rect) -> Rect {
    let left = max_int(a.origin.x as int, b.origin.x as int);
    let top = max_int(a.origin.y as int, b.origin.y as int);
    let right = min_int(a.spec_right(), b.spec_right());
    let bottom = min_int(a.spec_bottom(), b.spec_bottom());
    Rect::spec_new(left, top, right - left, bottom - top)
}

/// What two rects share; zero-sized where they do not meet.
pub fn intersection(a: Rect, b: Rect) -> (r: Rect)
    requires
        can_intersect(a, b),
    ensures
        r == spec_intersection(a, b),
        can_intersect(r, r),
        r.edges_fit(),
{
    let left = if a.x() >= b.x() { a.x() } else { b.x() };
    let top = if a.y() >= b.y() { a.y() } else { b.y() };
    let ar = a.right();
    let br = b.right();
    let ab = a.bottom();
    let bb = b.bottom();
    let right = if ar <= br { ar } else { br };
    let bottom = if ab <= bb { ab } else { bb };
    let w: i32 = if right >= left { right - left } else { 0 };
    let h: i32 = if bottom >= top { bottom - top } else { 0 };
    Rect::new(left, top, w, h)
}

/// The clips in force, innermost last: how deep the nesting is, and the rects
/// remembered for the first [`CLIP_DEPTH`] levels of it.
pub struct Clips {
    depth: usize,
    stack: Vec<Rect>,
    current: Option<Rect>,
}

impl Clips {
    /// How many clips are open.
    pub closed spec fn spec_depth(&self) -> nat {
        self.depth as nat
    }

    /// The clips remembered, outermost first: the first `CLIP_DEPTH` levels.
    pub closed spec fn remembered(&self) -> Seq<Rect> {
        self.stack@
    }

    /// What the host was last told to clip to, `None` for no clip.
    pub closed spec fn spec_current(&self) -> Option<Rect> {
        self.current
    }

    /// The remembered stack holds one rect per open level, up to the cap, and
    /// every remembered rect is one the arithmetic can work with.
    pub closed spec fn wf(&self) -> bool {
        &&& self.stack@.len() == min_int(self.depth as int, CLIP_DEPTH as int)
        &&& forall|i: int| 0 <= i < self.stack@.len() ==> can_intersect(#[trigger] self.stack@[i], self.stack@[i])
    }

    /// The rect a new clip of `rect` is narrowed to: itself at the top level,
    /// otherwise its overlap with the deepest remembered clip.
    pub open spec fn spec_effective(&self, rect: Rect) -> Rect {
        if self.spec_depth() == 0 {
            rect
        } else {
            spec_intersection(rect, self.remembered()[min_int(self.spec_depth() as int, CLIP_DEPTH as int) - 1])
        }
    }

    /// The clip to restore once the innermost is lifted.
    pub open spec fn spec_outer(&self) -> Option<Rect> {
        let depth = if self.spec_depth() == 0 { 0 } else { self.spec_depth() - 1 };
        if depth == 0 {
            None
        } else {
            Some(self.remembered()[min_int(depth, CLIP_DEPTH as int) - 1])
        }
    }

    /// No clip at all.
    pub fn new() -> (r: Clips)
        ensures
            r.wf(),
            r.spec_depth() == 0,
            r.remembered() == Seq::<Rect>::empty(),
            r.spec_current() == None::<Rect>,
    {
        Clips { depth: 0, stack: Vec::new(), current: None }
    }

    /// How many clips are open.
    pub fn depth(&self) -> (r: usize)
        ensures
            r == self.spec_depth(),
    {
        self.depth
    }

    /// What the host was last told to clip to.
    pub fn current(&self) -> (r: Option<Rect>)
        ensures
            r == self.spec_current(),
    {
        self.current
    }

    /// Opens a clip of `rect` inside whatever is in force, returning the rect
    /// the host is to be given.
    pub fn push(&mut self, rect: Rect) -> (r: Rect)
        requires
            old(self).wf(),
            can_intersect(rect, rect),
            old(self).spec_depth() < usize::MAX,
        ensures
            final(self).wf(),
            r == old(self).spec_effective(rect),
            final(self).spec_depth() == old(self).spec_depth() + 1,
            final(self).remembered() == (if old(self).spec_depth() < CLIP_DEPTH {
                old(self).remembered().push(r)
            } else {
                old(self).remembered()
            }),
            final(self).spec_current() == Some(r),
    {
        let depth = self.depth;
        let level = if depth < CLIP_DEPTH { depth } else { CLIP_DEPTH };
        let effective = if level == 0 {
            rect
        } else {
            let outer = self.stack[level - 1];
            intersection(rect, outer)
        };
        if depth < CLIP_DEPTH {
            self.stack.push(effective);
        }
        self.depth = depth + 1;
        self.current = Some(effective);
        proof {
            assert forall|i: int| 0 <= i < self.stack@.len() implies can_intersect(
                #[trigger] self.stack@[i],
                self.stack@[i],
            ) by {
                if i < old(self).stack@.len() {
                    assert(self.stack@[i] == old(self).stack@[i]);
                }
            }
        }
        effective
    }

    /// Lifts the innermost clip, returning the clip to restore: the one it was
    /// set inside, or `None` with nothing outside it.
    pub fn pop(&mut self) -> (r: Option<Rect>)
        requires
            old(self).wf(),
        ensures
            final(self).wf(),
            r == old(self).spec_outer(),
            final(self).spec_depth() == (if old(self).spec_depth() == 0 {
                0
            } else {
                old(self).spec_depth() - 1
            }),
            final(self).remembered() == old(self).remembered().subrange(
                0,
                min_int(final(self).spec_depth() as int, CLIP_DEPTH as int),
            ),
            final(self).spec_current() == r,
    {
        let depth: usize = if self.depth == 0 { 0 } else { self.depth - 1 };
        if depth < CLIP_DEPTH && self.stack.len() > depth {
            self.stack.truncate(depth);
        }
        self.depth = depth;
        let level = if depth < CLIP_DEPTH { depth } else { CLIP_DEPTH };
        let outer = if level == 0 { None } else { Some(self.stack[level - 1]) };
        self.current = outer;
        proof {
            assert(self.stack@ =~= old(self).stack@.subrange(0, min_int(depth as int, CLIP_DEPTH as int)));
        }
        outer
    }
}

/// The framebuffer, as widgets reach for it: a thin façade over a [`Canvas`]
/// that also keeps clips nested.
pub struct Renderer;

impl Renderer {
    /// See [`Canvas::screen_size`].
    pub fn screen_size<H: Canvas>(host: &H) -> (r: Size)
        ensures
            r == host.spec_screen_size(),
    {
        host.screen_size()
    }

    /// The whole panel, as a rect at the origin.
    pub fn screen_bounds<H: Canvas>(host: &H) -> (r: Rect)
        ensures
            r.origin == (Point { x: 0, y: 0 }),
            r.size == host.spec_screen_size(),
    {
        Rect { origin: Point::origin(), size: Self::screen_size(host) }
    }

    /// See [`Canvas::clear`].
    pub fn clear<H: Canvas>(host: &mut H)
        ensures
            final(host).spec_drawn() == old(host).spec_drawn().push(Drawn::Clear),
    {
        host.clear()
    }

    /// See [`Canvas::draw_text`].
    pub fn draw_text<H: Canvas>(host: &mut H, origin: Point, text: &str, font: FontId, style: FontStyle)
        ensures
            final(host).spec_drawn() == old(host).spec_drawn().push(Drawn::Text { origin, text: text@, font, style }),
    {
        host.draw_text(origin, text, font, style)
    }

    /// Confines drawing to `rect`, inside whatever clip is already set.
    ///
    /// Pair every call with [`Renderer::clear_clip`]. Clips nest: the host is
    /// given `rect` intersected with the clip in force. Eight deep are
    /// remembered; a clip past the eighth still applies, intersected with the
    /// eighth, and clearing it restores the eighth.
    pub fn clip<H: Canvas>(host: &mut H, clips: &mut Clips, rect: Rect) -> (r: Rect)
        requires
            old(clips).wf(),
            can_intersect(rect, rect),
            old(clips).spec_depth() < usize::MAX,
        ensures
            final(clips).wf(),
            r == old(clips).spec_effective(rect),
            final(clips).spec_depth() == old(clips).spec_depth() + 1,
            final(clips).spec_current() == Some(r),
            final(host).spec_drawn() == old(host).spec_drawn().push(Drawn::Clip { rect: Some(r) }),
            final(clips).remembered() == (if old(clips).spec_depth() < CLIP_DEPTH {
                old(clips).remembered().push(r)
            } else {
                old(clips).remembered()
            }),
    {
        let effective = clips.push(rect);
        host.set_clip(Some(effective));
        effective
    }

    /// Lifts the innermost clip, restoring the one it was set inside.
    ///
    /// With no clip outside it, the host's clip is lifted entirely. A call
    /// with no clip set lifts the host's clip and is otherwise ignored.
    pub fn clear_clip<H: Canvas>(host: &mut H, clips: &mut Clips) -> (r: Option<Rect>)
        requires
            old(clips).wf(),
        ensures
            final(clips).wf(),
            r == old(clips).spec_outer(),
            final(clips).spec_current() == r,
            final(host).spec_drawn() == old(host).spec_drawn().push(Drawn::Clip { rect: r }),
            final(clips).spec_depth() == (if old(clips).spec_depth() == 0 {
                0
            } else {
                old(clips).spec_depth() - 1
            }),
            final(clips).remembered() == old(clips).remembered().subrange(
                0,
                min_int(final(clips).spec_depth() as int, CLIP_DEPTH as int),
            ),
    {
        let outer = clips.pop();
        host.set_clip(outer);
        outer
    }

    /// See [`Canvas::fill_rect`].
    pub fn fill_rect<H: Canvas>(host: &mut H, rect: Rect, black: bool)
        ensures
            final(host).spec_drawn() == old(host).spec_drawn().push(Drawn::Fill { rect, black }),
    {
        host.fill_rect(rect, black)
    }

    /// See [`Canvas::stroke_rect`].
    pub fn stroke_rect<H: Canvas>(host: &mut H, rect: Rect)
        ensures
            final(host).spec_drawn() == old(host).spec_drawn().push(Drawn::Stroke { rect }),
    {
        host.stroke_rect(rect)
    }

    /// See [`Canvas::draw_line`].
    pub fn draw_line<H: Canvas>(host: &mut H, from: Point, to: Point)
        ensures
            final(host).spec_drawn() == old(host).spec_drawn().push(Drawn::Line { from, to }),
    {
        host.draw_line(from, to)
    }

    /// See [`Canvas::fill_rect_dither`].
    pub fn fill_rect_dither<H: Canvas>(host: &mut H, rect: Rect, light: bool)
        ensures
            final(host).spec_drawn() == old(host).spec_drawn().push(Drawn::Dither { rect, light }),
    {
        host.fill_rect_dither(rect, light)
    }

    /// See [`Canvas::scrim`].
    pub fn scrim<H: Canvas>(host: &mut H, rect: Rect)
        ensures
            final(host).spec_drawn() == old(host).spec_drawn().push(Drawn::Scrim { rect }),
    {
        host.scrim(rect)
    }

    /// See [`Canvas::draw_image`].
    pub fn draw_image<H: Canvas>(host: &mut H, origin: Point, data: &[u8], size: Size)
        ensures
            final(host).spec_drawn() == old(host).spec_drawn().push(Drawn::Image { origin, data: data@, size }),
    {
        host.draw_image(origin, data, size)
    }

    /// See [`Canvas::draw_icon`].
    pub fn draw_icon<H: Canvas>(host: &mut H, origin: Point, icon: IconRef)
        ensures
            final(host).spec_drawn() == old(host).spec_drawn().push(Drawn::Icon { origin, icon }),
    {
        host.draw_icon(origin, icon)
    }

    /// See [`Canvas::icon_size`].
    pub fn icon_size<H: Canvas>(host: &H, icon: IconRef) -> (r: i32)
        ensures
            r == host.spec_icon_size(icon),
    {
        host.icon_size(icon)
    }
}

/// An inner clip never reaches outside the clip it was set inside: the rect
/// the host is given lies within both.
pub proof fn lemma_nested_clip_stays_inside(rect: Rect, outer: Rect)
    requires
        can_intersect(rect, outer),
    ensures
        spec_intersection(rect, outer).origin.x >= outer.origin.x,
        spec_intersection(rect, outer).origin.y >= outer.origin.y,
        spec_intersection(rect, outer).size.width > 0 ==> spec_intersection(rect, outer).spec_right() <= outer.spec_right(),
        spec_intersection(rect, outer).size.height > 0 ==> spec_intersection(rect, outer).spec_bottom() <= outer.spec_bottom(),
        spec_intersection(rect, outer).size.width > 0 ==> spec_intersection(rect, outer).spec_right() <= rect.spec_right(),
        spec_intersection(rect, outer).size.height > 0 ==> spec_intersection(rect, outer).spec_bottom() <= rect.spec_bottom(),
        spec_intersection(rect, outer).origin.x >= rect.origin.x,
        spec_intersection(rect, outer).origin.y >= rect.origin.y,
{
}

/// Opening a clip and lifting it again gives back exactly the clip that was in
/// force before — the nesting law the clip stack exists for.
pub proof fn lemma_clip_then_clear_restores(before: Clips, mid: Clips, after: Clips, rect: Rect, lifted: Option<Rect>)
    requires
        before.wf(),
        mid.wf(),
        after.wf(),
        mid.spec_depth() == before.spec_depth() + 1,
        mid.remembered() == (if before.spec_depth() < CLIP_DEPTH {
            before.remembered().push(before.spec_effective(rect))
        } else {
            before.remembered()
        }),
        lifted == mid.spec_outer(),
        after.spec_depth() == mid.spec_depth() - 1,
    ensures
        after.spec_depth() == before.spec_depth(),
        lifted == (if before.spec_depth() == 0 {
            None
        } else {
            Some(before.remembered()[min_int(before.spec_depth() as int, CLIP_DEPTH as int) - 1])
        }),
{
}

} // verus!
