//! A dialog offering a list of choices.
use vstd::prelude::*;

use crate::geometry::{Point, Rect, Size};
use crate::host::canvas::Renderer;
use crate::host::chrome::{Chrome, Theme};
use crate::host::Host;
use crate::host::drawing::Drawn;
use crate::view::interaction::{InputMask, Interactions};
use crate::view::make::{Make, Minter};
use crate::view::trigger::Trigger;
use crate::view::Scrim;

verus! {

/// A centred dialog offering a list of options, drawn by the host's theme.
///
/// It **captures input**: while one is in the tree, nothing behind it can be
/// reached, focus starts on the option already chosen, and the side buttons
/// walk its options. Back never finishes the screen under an open dialog: it
/// sends [`on_dismiss`](Modal::on_dismiss), or nothing.
#[verifier::reject_recursive_types(M)]
pub struct Modal<M> {
    title: String,
    options: Vec<String>,
    selected: usize,
    scrim: Scrim,
    make: Option<Minter<usize, M>>,
    dismiss: Option<M>,
    focused_option: Option<usize>,
    measured: Size,
}

/// The option a dialog highlights: whichever holds focus, falling back to the
/// one the screen said was current, or `-1` past what a row number can say.
pub open spec fn spec_highlighted(focused: Option<usize>, selected: usize) -> i32 {
    let index = match focused {
        Some(i) => i,
        None => selected,
    };
    if index <= i32::MAX { index as i32 } else { -1i32 }
}

/// The rows the host lays out for the first `upto` options of a dialog, each
/// with the option it is for, in index order, skipping any option the host
/// gives no row.
pub open spec fn option_rows<H: Chrome>(host: &H, title: Seq<char>, options: Seq<String>, upto: nat) -> Seq<(Rect, usize)>
    decreases upto,
{
    if upto == 0 {
        Seq::empty()
    } else {
        let before = option_rows(host, title, options, (upto - 1) as nat);
        match host.spec_option_popup_row_rect(title, options, (upto - 1) as usize) {
            Some(rect) => before.push((rect, (upto - 1) as usize)),
            None => before,
        }
    }
}

impl<M: Clone> Modal<M> {
    /// The dialog's title.
    pub closed spec fn spec_title(&self) -> Seq<char> {
        self.title@
    }

    /// The options, in order.
    pub closed spec fn spec_options(&self) -> Seq<String> {
        self.options@
    }

    /// The option the screen said was current.
    pub closed spec fn spec_selected(&self) -> usize {
        self.selected
    }

    /// How the panel behind is painted.
    pub closed spec fn spec_scrim(&self) -> Scrim {
        self.scrim
    }

    /// Whether choosing an option sends anything.
    pub closed spec fn spec_reports(&self) -> bool {
        self.make is Some
    }

    /// The message choosing option `index` sends, when the dialog reports.
    pub closed spec fn spec_made(&self, index: usize) -> M {
        match self.make {
            Some(make) => make.spec_make(index),
            None => vstd::pervasive::arbitrary(),
        }
    }

    /// What Back and a tap outside the options send.
    pub closed spec fn spec_dismiss(&self) -> Option<M> {
        self.dismiss
    }

    /// Which option held focus at the last walk.
    pub closed spec fn spec_focused_option(&self) -> Option<usize> {
        self.focused_option
    }

    /// A dialog titled `title` offering `options`, the first selected.
    pub fn new(title: &str, options: &[&str]) -> (r: Self)
        ensures
            r.spec_title() == title@,
            r.spec_options().len() == options@.len(),
            forall|i: int| 0 <= i < options@.len() ==> #[trigger] r.spec_options()[i]@ == options@[i]@,
            r.spec_selected() == 0,
            r.spec_scrim() == Scrim::Clear,
            !r.spec_reports(),
            r.spec_dismiss() is None,
            r.spec_focused_option() is None,
    {
        let mut list: Vec<String> = Vec::new();
        let mut i: usize = 0;
        while i < options.len()
            invariant
                i <= options@.len(),
                list@.len() == i,
                forall|k: int| 0 <= k < i ==> #[trigger] list@[k]@ == options@[k]@,
            decreases options@.len() - i,
        {
            list.push(options[i].to_owned());
            i = i + 1;
        }
        Modal {
            title: title.to_owned(),
            options: list,
            selected: 0,
            scrim: Scrim::Clear,
            make: None,
            dismiss: None,
            focused_option: None,
            measured: Size::zero(),
        }
    }

    /// A dialog for choosing one value from several: the same dialog as
    /// [`new`](Modal::new), under a name that reads better at a settings row.
    pub fn picker(title: &str, options: &[&str]) -> (r: Self)
        ensures
            r.spec_title() == title@,
            r.spec_options().len() == options@.len(),
            forall|i: int| 0 <= i < options@.len() ==> #[trigger] r.spec_options()[i]@ == options@[i]@,
            r.spec_selected() == 0,
            !r.spec_reports(),
            r.spec_dismiss() is None,
    {
        Self::new(title, options)
    }

    /// A yes/no question, opening with focus on the first of `choices`, so the
    /// confirming one goes first.
    pub fn confirm(title: &str, choices: &[&str]) -> (r: Self)
        ensures
            r.spec_title() == title@,
            r.spec_options().len() == choices@.len(),
            forall|i: int| 0 <= i < choices@.len() ==> #[trigger] r.spec_options()[i]@ == choices@[i]@,
            r.spec_selected() == 0,
            !r.spec_reports(),
            r.spec_dismiss() is None,
    {
        Self::new(title, choices)
    }

    /// The option to highlight, and where focus opens.
    pub fn selected(self, index: usize) -> (r: Self)
        ensures
            forall|index: usize| #[trigger] r.spec_made(index) == self.spec_made(index),
            r.spec_selected() == index,
            r.spec_title() == self.spec_title(),
            r.spec_options() == self.spec_options(),
            r.spec_reports() == self.spec_reports(),
            r.spec_dismiss() == self.spec_dismiss(),
            r.spec_scrim() == self.spec_scrim(),
    {
        Modal { selected: index, ..self }
    }

    /// Sends `make(index)` when an option is chosen, by touch or by Confirm.
    pub fn on_select<F: Make<usize, M> + Copy + 'static>(self, make: F) -> (r: Self)
        ensures
            r.spec_reports(),
            forall|index: usize| #[trigger] r.spec_made(index) == make.made(index),
            r.spec_selected() == self.spec_selected(),
            r.spec_title() == self.spec_title(),
            r.spec_options() == self.spec_options(),
            r.spec_dismiss() == self.spec_dismiss(),
            r.spec_scrim() == self.spec_scrim(),
    {
        Modal { make: Some(Minter::new(make)), ..self }
    }

    /// Sends `message` when the dialog is dismissed without a choice: by a
    /// Back the screen does not claim, or by a tap on none of its options.
    pub fn on_dismiss(self, message: M) -> (r: Self)
        ensures
            forall|index: usize| #[trigger] r.spec_made(index) == self.spec_made(index),
            r.spec_dismiss() == Some(message),
            r.spec_reports() == self.spec_reports(),
            r.spec_selected() == self.spec_selected(),
            r.spec_title() == self.spec_title(),
            r.spec_options() == self.spec_options(),
            r.spec_scrim() == self.spec_scrim(),
    {
        Modal { dismiss: Some(message), ..self }
    }

    /// Sets how the whole panel behind the dialog is painted.
    pub fn scrim(self, scrim: Scrim) -> (r: Self)
        ensures
            forall|index: usize| #[trigger] r.spec_made(index) == self.spec_made(index),
            r.spec_scrim() == scrim,
            r.spec_dismiss() == self.spec_dismiss(),
            r.spec_reports() == self.spec_reports(),
            r.spec_selected() == self.spec_selected(),
            r.spec_title() == self.spec_title(),
            r.spec_options() == self.spec_options(),
    {
        Modal { scrim, ..self }
    }

    /// How many options it offers.
    pub fn len(&self) -> (r: usize)
        ensures
            r == self.spec_options().len(),
    {
        self.options.len()
    }

    /// Whether it offers no options.
    pub fn is_empty(&self) -> (r: bool)
        ensures
            r == (self.spec_options().len() == 0),
    {
        self.options.len() == 0
    }

    /// The option the theme should highlight: whichever holds focus, falling
    /// back to the value the screen said was current.
    pub fn highlighted(&self) -> (r: i32)
        ensures
            r == spec_highlighted(self.spec_focused_option(), self.spec_selected()),
    {
        let index = match self.focused_option {
            Some(i) => i,
            None => self.selected,
        };
        if index <= i32::MAX as usize {
            index as i32
        } else {
            -1
        }
    }

    /// Screen rect of one option row, as the host lays the dialog out.
    pub fn row_rect<H: Host>(&self, host: &H, index: usize) -> (r: Option<Rect>)
        ensures
            r == host.spec_option_popup_row_rect(self.spec_title(), self.spec_options(), index),
    {
        Theme::option_popup_row_rect(host, self.title.as_str(), self.options.as_slice(), index)
    }
}

impl<M: Clone, H: Host> crate::view::View<M, H> for Modal<M> {
    fn measure(&mut self, host: &H, available: Size) {
        self.measured = available;
    }

    fn size(&self) -> Size {
        self.measured
    }

    /// Nothing without options; otherwise the scrim over the whole panel
    /// when one was asked for, then the themed dialog with its options and
    /// the one to highlight.
    fn render(&self, host: &mut H, origin: Point)
        ensures
            self.spec_options().len() == 0 ==> final(host).spec_drawn() == old(host).spec_drawn(),
            self.spec_options().len() > 0 ==> ({
                let popup = Drawn::OptionPopup {
                    title: self.spec_title(),
                    options: self.spec_options(),
                    selected: spec_highlighted(self.spec_focused_option(), self.spec_selected()),
                };
                let whole = Rect { origin: Point { x: 0, y: 0 }, size: old(host).spec_screen_size() };
                final(host).spec_drawn() == if self.spec_scrim() == Scrim::Dim {
                    old(host).spec_drawn().push(Drawn::Scrim { rect: whole }).push(popup)
                } else {
                    old(host).spec_drawn().push(popup)
                }
            }),
    {
        if self.options.len() == 0 {
            return;
        }
        if self.scrim == Scrim::Dim {
            let whole = Renderer::screen_bounds(&*host);
            Renderer::scrim(host, whole);
        }
        let highlighted = self.highlighted();
        Theme::draw_option_popup(host, self.title.as_str(), self.options.as_slice(), highlighted);
    }

    /// Everything behind the dialog becomes unreachable and focus opens on
    /// the option already chosen — even with no `on_select`, so a dialog with
    /// no outcome still does not let input through. Each option the host lays
    /// out is then declared, and the one holding focus is remembered for the
    /// highlight.
    fn interactions(&mut self, host: &H, origin: Point, out: &mut Interactions<M>)
        ensures
            old(self).spec_options().len() > 0 ==> final(out).spec_captured() == Some(
                old(self).spec_selected(),
            ),
            old(self).spec_options().len() > 0 && old(self).spec_dismiss() is Some ==> (final(out).spec_dismissal() matches Some(d) && cloned(old(self).spec_dismiss().unwrap(), d)),
            old(self).spec_options().len() > 0 && old(self).spec_dismiss() is None ==> final(out).spec_dismissal() is None,
            old(self).spec_options().len() == 0 ==> *final(out) == *old(out),
            old(self).spec_options().len() > 0 && !old(self).spec_reports() ==> final(out).spec_items().len() == 0,
            old(self).spec_options().len() > 0 && old(self).spec_reports() ==> {
                let rows = option_rows(host, old(self).spec_title(), old(self).spec_options(), old(self).spec_options().len());
                &&& final(out).spec_items().len() == rows.len()
                &&& forall|i: int|
                    0 <= i < rows.len() ==> {
                        let item = #[trigger] final(out).spec_items()[i];
                        &&& item.rect == rows[i].0
                        &&& item.mask == InputMask::default_spec()
                        &&& item.trigger == Trigger::Message(old(self).spec_made(rows[i].1))
                    }
                &&& final(out).spec_focusable() == rows.len()
            },
    {
        self.focused_option = None;
        if self.options.len() == 0 {
            return;
        }
        out.capture(self.selected);
        match &self.dismiss {
            Some(message) => {
                let m = message.clone();
                out.dismiss_with(m);
            },
            None => {},
        }
        let make = match &self.make {
            Some(make) => make,
            None => {
                return;
            },
        };
        let n = self.options.len();
        let mut index: usize = 0;
        while index < n
            invariant
                out.wf(),
                n == self.options@.len(),
                index <= n,
                out.spec_captured() == Some(self.selected),
                self.dismiss is Some ==> (out.spec_dismissal() matches Some(d) && cloned(self.dismiss.unwrap(), d)),
                self.dismiss is None ==> out.spec_dismissal() is None,
                self.options == old(self).options,
                self.make == old(self).make,
                self.make == Some(*make),
                self.selected == old(self).selected,
                self.dismiss == old(self).dismiss,
                self.title == old(self).title,
                !out.spec_ignoring(),
                out.spec_focus() == old(out).spec_focus(),
                out.spec_scroll() == old(out).spec_scroll(),
                out.spec_editing() == old(out).spec_editing(),
                out.spec_mode() == old(out).spec_mode(),
                out.spec_title() == old(out).spec_title(),
                out.spec_parent_focused() == old(out).spec_parent_focused(),
                ({
                    let rows = option_rows(host, self.spec_title(), self.spec_options(), index as nat);
                    &&& out.spec_items().len() == rows.len()
                    &&& forall|i: int|
                        0 <= i < rows.len() ==> {
                            let item = #[trigger] out.spec_items()[i];
                            &&& item.rect == rows[i].0
                            &&& item.mask == InputMask::default_spec()
                            &&& item.trigger == Trigger::Message(self.spec_made(rows[i].1))
                        }
                    &&& out.spec_focusable() == rows.len()
                }),
            decreases n - index,
        {
            let ghost before = out.spec_items();
            proof {
                crate::view::interaction::lemma_default_is_focus_stop();
            }
            match self.row_rect(host, index) {
                Some(rect) => {
                    let message = make.mint().make(index);
                    assert(message == self.spec_made(index));
                    if out.declare(rect, InputMask::default_mask(), Trigger::Message(message)) {
                        self.focused_option = Some(index);
                    }
                    proof {
                        assert(out.spec_items()[before.len() as int].rect == rect);
                    }
                },
                None => {},
            }
            index = index + 1;
        }
    }
}

} // verus!
