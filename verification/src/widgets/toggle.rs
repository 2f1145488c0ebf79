//! A boolean setting.
use vstd::prelude::*;

use crate::geometry::{Point, Rect, Size, clamp_zero};
use crate::host::chrome::{ListRowText, Theme, ThemeMetric};
use crate::host::Host;
use crate::host::drawing::Drawn;
use crate::view::interaction::{InputMask, Interactions};
use crate::view::make::Make;
use crate::view::trigger::Trigger;
use crate::view::bounds;

verus! {

/// A boolean setting, drawn as a themed list row whose value reads as one of
/// two words. The theme draws no switch graphic.
///
/// The framework flips the value, so the screen never writes
/// `!self.something`: [`on_change`](Toggle::on_change) sends the state being
/// moved to.
#[verifier::reject_recursive_types(M)]
pub struct Toggle<M> {
    label: String,
    on: bool,
    on_label: String,
    off_label: String,
    message: Option<M>,
    focused: bool,
    measured: Size,
}

impl<M: Clone> Toggle<M> {
    /// Whether the setting is on.
    pub closed spec fn spec_on(&self) -> bool {
        self.on
    }

    /// What a tap or Confirm sends, when anything.
    pub closed spec fn spec_message(&self) -> Option<M> {
        self.message
    }

    /// The row's label.
    pub closed spec fn spec_label(&self) -> Seq<char> {
        self.label@
    }

    /// The word the row's value reads as.
    pub closed spec fn spec_value_label(&self) -> Seq<char> {
        if self.on { self.on_label@ } else { self.off_label@ }
    }

    /// The size the last `measure` settled on.
    pub closed spec fn spec_measured(&self) -> Size {
        self.measured
    }

    /// Whether the last walk found the row holding focus.
    pub closed spec fn spec_holds_focus(&self) -> bool {
        self.focused
    }

    /// A row labelled `label`, reading `on_label` or `off_label` for `on`.
    pub fn new(label: &str, on: bool, on_label: &str, off_label: &str) -> (r: Self)
        ensures
            r.spec_on() == on,
            r.spec_label() == label@,
            r.spec_value_label() == (if on { on_label@ } else { off_label@ }),
            r.spec_message() is None,
    {
        Toggle {
            label: label.to_owned(),
            on,
            on_label: on_label.to_owned(),
            off_label: off_label.to_owned(),
            message: None,
            focused: false,
            measured: Size::zero(),
        }
    }

    /// Sends `make(next_state)` when tapped or confirmed: the state being
    /// moved to, the opposite of the one shown.
    pub fn on_change<F: Make<bool, M>>(self, make: F) -> (r: Self)
        ensures
            r.spec_message() == Some(make.made(!self.spec_on())),
            r.spec_on() == self.spec_on(),
            r.spec_label() == self.spec_label(),
            r.spec_value_label() == self.spec_value_label(),
    {
        let next = !self.on;
        let message = make.make(next);
        Toggle { message: Some(message), ..self }
    }

    /// The row as the theme draws it: the label as its title, the word for
    /// the state as its value.
    pub fn row_text(&self) -> (r: ListRowText)
        ensures
            r.title matches Some(t) && t@ == self.spec_label(),
            r.subtitle is None,
            r.value matches Some(v) && v@ == self.spec_value_label(),
    {
        let value = if self.on { self.on_label.clone() } else { self.off_label.clone() };
        ListRowText { title: Some(self.label.clone()), subtitle: None, value: Some(value) }
    }

    /// Consumes the builder into the row, for putting several in one list;
    /// `None` once [`on_change`](Toggle::on_change) has given it a message.
    pub fn into_row(self) -> (r: Option<ListRowText>)
        ensures
            self.spec_message() is Some ==> r is None,
            self.spec_message() is None ==> (r matches Some(row) && row.title matches Some(t) && t@
                == self.spec_label()),
    {
        if self.message.is_some() {
            return None;
        }
        Some(self.row_text())
    }
}

impl<M: Clone, H: Host> crate::view::View<M, H> for Toggle<M> {
    /// One themed list row across the width it is given.
    fn measure(&mut self, host: &H, available: Size)
        ensures
            final(self).spec_measured().width == clamp_zero(available.width as int),
            final(self).spec_measured().height == clamp_zero(
                host.spec_metric(ThemeMetric::ListRowHeight) as int,
            ),
            final(self).spec_message() == old(self).spec_message(),
            final(self).spec_on() == old(self).spec_on(),
    {
        let height = Theme::metric(host, ThemeMetric::ListRowHeight);
        self.measured = Size::new(available.width, height);
    }

    fn size(&self) -> Size {
        self.measured
    }

    /// One themed list row: the label and the word for the state,
    /// highlighted when the last walk found it holding focus.
    fn render(&self, host: &mut H, origin: Point)
        ensures
            final(host).spec_drawn().drop_last() == old(host).spec_drawn(),
            final(host).spec_drawn().len() == old(host).spec_drawn().len() + 1,
            final(host).spec_drawn().last() matches Drawn::List { rect, rows, selected } && rect == (Rect {
                origin,
                size: self.spec_measured(),
            }) && selected == (if self.spec_holds_focus() { 0i32 } else { -1i32 }) && rows.len() == 1
                && (rows[0].title matches Some(t) && t@ == self.spec_label()) && rows[0].subtitle is None && (
            rows[0].value matches Some(v) && v@ == self.spec_value_label()),
    {
        let rows = vec![self.row_text()];
        let selected: i32 = if self.focused { 0 } else { -1 };
        Theme::draw_list(host, bounds(self.measured, origin), rows.as_slice(), selected);
    }

    /// One tappable focus stop over the whole row, sending the message it was
    /// given; nothing without one.
    fn interactions(&mut self, host: &H, origin: Point, out: &mut Interactions<M>)
        ensures
            old(self).spec_message() is None ==> final(out).spec_items() == old(out).spec_items(),
            old(self).spec_message() is Some && !old(out).spec_ignoring() ==> {
                let item = final(out).spec_items().last();
                &&& final(out).spec_items().drop_last() == old(out).spec_items()
                &&& item.rect == (Rect { origin, size: old(self).spec_measured() })
                &&& item.mask == InputMask::default_spec()
                &&& (item.trigger matches Trigger::Message(m) && cloned(
                    old(self).spec_message().unwrap(),
                    m,
                ))
            },
            final(self).spec_message() == old(self).spec_message(),
            final(self).spec_measured() == old(self).spec_measured(),
    {
        self.focused = match &self.message {
            Some(message) => out.declare(
                bounds(self.measured, origin),
                InputMask::default_mask(),
                Trigger::Message(message.clone()),
            ),
            None => false,
        };
    }
}

} // verus!
