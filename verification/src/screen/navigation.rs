//! A screen inside the navigation stack.
use vstd::prelude::*;

use crate::geometry::{Point, Size};
use crate::host::chrome::{Hint, ScreenChrome, Theme};
use crate::host::value_mode::ValueMode;
use crate::host::Host;
use crate::host::drawing::{Drawn, extends};
use crate::view::interaction::Interactions;

verus! {

/// The two hints a frame's mode puts over Back and Confirm: the screen's own
/// while nothing is open, Edit over Confirm while the focused control could
/// open, and Cancel and Done while it is open.
pub open spec fn spec_mode_hints(mode: ValueMode, back: Hint, confirm: Hint) -> (Hint, Hint) {
    match mode {
        ValueMode::Idle => (back, confirm),
        ValueMode::Openable => (back, Hint::Edit),
        ValueMode::Open => (Hint::Cancel, Hint::Done),
    }
}

/// The root view for a screen pushed onto the navigation stack.
///
/// The backend draws the title band and the button hints; the content is laid
/// out in the region between them. By default the header shows the screen's
/// own title and all four hints are `Hint::Standard`.
#[verifier::reject_recursive_types(M)]
#[verifier::reject_recursive_types(H)]
pub struct NavigationScreen<M, H: Host> {
    content: Box<dyn crate::view::View<M, H>>,
    title: Option<String>,
    overlay: Option<Box<dyn crate::view::View<M, H>>>,
    back: Hint,
    confirm: Hint,
    previous: Hint,
    next: Hint,
    measured: Size,
    mode: ValueMode,
    screen_title: &'static str,
}

impl<M: 'static, H: Host + 'static> NavigationScreen<M, H> {
    /// The title override, when one was given.
    pub closed spec fn spec_title(&self) -> Option<Seq<char>> {
        match self.title {
            Some(t) => Some(t@),
            None => None,
        }
    }

    /// Whether something is drawn over the content.
    pub closed spec fn spec_has_overlay(&self) -> bool {
        self.overlay is Some
    }

    /// The four hints, in meaning order: back, confirm, previous, next.
    pub closed spec fn spec_hints(&self) -> (Hint, Hint, Hint, Hint) {
        (self.back, self.confirm, self.previous, self.next)
    }

    /// What the frame's mode was at the last walk.
    pub closed spec fn spec_mode(&self) -> ValueMode {
        self.mode
    }

    /// The running screen's own title, as the last walk learned it.
    pub closed spec fn spec_screen_title(&self) -> &'static str {
        self.screen_title
    }

    /// The size the last `measure` settled on.
    pub closed spec fn spec_measured(&self) -> Size {
        self.measured
    }

    /// A screen showing `content`, with the screen's own title and the four
    /// standard hints.
    pub fn new<V: crate::view::View<M, H> + 'static>(content: V) -> (r: Self)
        ensures
            r.spec_title() is None,
            !r.spec_has_overlay(),
            r.spec_hints() == (Hint::Standard, Hint::Standard, Hint::Standard, Hint::Standard),
            r.spec_mode() == ValueMode::Idle,
    {
        let boxed: Box<V> = Box::new(content);
        let content: Box<dyn crate::view::View<M, H>> = boxed;
        proof {
            reveal_strlit("");
        }
        NavigationScreen {
            content,
            title: None,
            overlay: None,
            back: Hint::Standard,
            confirm: Hint::Standard,
            previous: Hint::Standard,
            next: Hint::Standard,
            measured: Size::zero(),
            mode: ValueMode::Idle,
            screen_title: "",
        }
    }

    /// Overrides the header title, for titles computed at run time.
    pub fn title(self, title: &str) -> (r: Self)
        ensures
            r.spec_title() == Some(title@),
            r.spec_has_overlay() == self.spec_has_overlay(),
            r.spec_hints() == self.spec_hints(),
    {
        NavigationScreen { title: Some(title.to_owned()), ..self }
    }

    /// A view drawn over the content: a dialog, typically. Declared last, so
    /// a dialog that captures input discards everything the content declared.
    pub fn overlay<V: crate::view::View<M, H> + 'static>(self, overlay: V) -> (r: Self)
        ensures
            r.spec_has_overlay(),
            r.spec_title() == self.spec_title(),
            r.spec_hints() == self.spec_hints(),
    {
        let boxed: Box<V> = Box::new(overlay);
        let overlay: Box<dyn crate::view::View<M, H>> = boxed;
        NavigationScreen { overlay: Some(overlay), ..self }
    }

    /// The overlay, only when `when` holds.
    pub fn overlay_if<V: crate::view::View<M, H> + 'static>(self, when: bool, overlay: V) -> (r: Self)
        ensures
            r.spec_has_overlay() == (when || self.spec_has_overlay()),
            r.spec_title() == self.spec_title(),
            r.spec_hints() == self.spec_hints(),
    {
        if when {
            self.overlay(overlay)
        } else {
            self
        }
    }

    /// Sets the four hints, given by meaning rather than by screen position.
    pub fn hints(self, back: Hint, confirm: Hint, previous: Hint, next: Hint) -> (r: Self)
        ensures
            r.spec_hints() == (back, confirm, previous, next),
            r.spec_title() == self.spec_title(),
            r.spec_has_overlay() == self.spec_has_overlay(),
    {
        NavigationScreen { back, confirm, previous, next, ..self }
    }

}

impl<M: 'static, H: Host + 'static> crate::view::View<M, H> for NavigationScreen<M, H> {
    /// The whole panel it is given; the content is laid out in the region
    /// between the header and the hints, an overlay in the whole.
    fn measure(&mut self, host: &H, available: Size)
        ensures
            final(self).spec_measured() == available,
            final(self).spec_hints() == old(self).spec_hints(),
            final(self).spec_title() == old(self).spec_title(),
            final(self).spec_mode() == old(self).spec_mode(),
    {
        let area = Theme::content_area(host);
        self.content.measure(host, area.size);
        match &mut self.overlay {
            Some(overlay) => overlay.measure(host, available),
            None => {},
        }
        self.measured = available;
    }

    fn size(&self) -> Size {
        self.measured
    }

    /// The header band with the title, the content, the four hints as the
    /// frame's mode puts them, and, last, the overlay.
    fn render(&self, host: &mut H, origin: Point)
        ensures
            ({
                let before = old(host).spec_drawn();
                let after = final(host).spec_drawn();
                let title = match self.spec_title() {
                    Some(t) => t,
                    None => self.spec_screen_title()@,
                };
                let (back, confirm, previous, next) = self.spec_hints();
                let (shown_back, shown_confirm) = spec_mode_hints(self.spec_mode(), back, confirm);
                &&& after.len() >= before.len() + 2
                &&& after[before.len() as int] == Drawn::Header { title: Some(title), subtitle: None }
                &&& !self.spec_has_overlay() ==> after.last() == Drawn::Hints {
                    back: shown_back,
                    confirm: shown_confirm,
                    previous,
                    next,
                }
                &&& exists|k: int|
                    before.len() < k < after.len() && #[trigger] after[k] == (Drawn::Hints {
                        back: shown_back,
                        confirm: shown_confirm,
                        previous,
                        next,
                    }) && (!self.spec_has_overlay() ==> k == after.len() - 1)
                &&& extends(before, after)
            }),
    {
        match &self.title {
            Some(title) => ScreenChrome::draw_header(host, title.as_str()),
            None => ScreenChrome::draw_screen_header(host, self.screen_title),
        }
        let area = Theme::content_area(&*host);
        self.content.render(host, origin.translate(area.x(), area.y()));
        match self.mode {
            ValueMode::Idle => {
                ScreenChrome::draw_button_hints(host, &self.back, &self.confirm, &self.previous, &self.next);
            },
            ValueMode::Openable => {
                let edit = Hint::Edit;
                ScreenChrome::draw_button_hints(host, &self.back, &edit, &self.previous, &self.next);
            },
            ValueMode::Open => {
                let cancel = Hint::Cancel;
                let done = Hint::Done;
                ScreenChrome::draw_button_hints(host, &cancel, &done, &self.previous, &self.next);
            },
        }
        let ghost hinted = host.spec_drawn();
        match &self.overlay {
            Some(overlay) => overlay.render(host, origin),
            None => {},
        }
        proof {
            let k = hinted.len() - 1;
            assert(host.spec_drawn()[k] == hinted[k]);
        }
    }

    /// Learns the frame's mode and the screen's own title for the chrome it
    /// paints, then walks the content and, last, the overlay: a dialog that
    /// captures input discards everything the content declared.
    fn interactions(&mut self, host: &H, origin: Point, out: &mut Interactions<M>)
        ensures
            final(self).spec_mode() == old(out).spec_mode(),
            final(self).spec_screen_title() == old(out).spec_title(),
            final(self).spec_hints() == old(self).spec_hints(),
            final(self).spec_title() == old(self).spec_title(),
            final(self).spec_has_overlay() == old(self).spec_has_overlay(),
    {
        self.mode = out.mode();
        self.screen_title = out.title();
        let area = Theme::content_area(host);
        let at = origin.translate(area.x(), area.y());
        self.content.interactions(host, at, out);
        match &mut self.overlay {
            Some(overlay) => overlay.interactions(host, origin, out),
            None => {},
        }
    }
}

} // verus!
