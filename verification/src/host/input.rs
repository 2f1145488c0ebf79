//! Buttons, touch and gestures.
use vstd::prelude::*;

use crate::geometry::Point;

verus! {

/// A button by meaning, never by physical position.
///
/// The host applies the user's front-button remapping and the screen
/// orientation, so a screen asking for `Confirm` gets whatever the user has
/// decided that is.
#[derive(Copy, Clone, Debug, PartialEq, Eq, Structural)]
pub enum Button {
    /// Leaves the screen, cancels an open edit, or dismisses a dialog.
    Back,
    /// Acts on whatever has focus.
    Confirm,
    /// Nudges the focused value down; where nothing under the focus adjusts,
    /// moves focus back.
    Left,
    /// Nudges the focused value up; where nothing under the focus adjusts,
    /// moves focus forward.
    Right,
    /// Moves focus to the previous control, or raises an open value.
    Up,
    /// Moves focus to the next control, or lowers an open value.
    Down,
    /// The power key.
    Power,
    /// Page navigation backwards, honouring the user's side-button swap.
    PageBack,
    /// Page navigation forwards, honouring the user's side-button swap.
    PageForward,
    /// The next item, as a reader's side key means it.
    NavNext,
    /// The previous item, as a reader's side key means it.
    NavPrevious,
    /// Left as seen on the rendered screen, whatever the orientation.
    ScreenLeft,
    /// Right as seen on the rendered screen, whatever the orientation.
    ScreenRight,
    /// Up as seen on the rendered screen, whatever the orientation.
    ScreenUp,
    /// Down as seen on the rendered screen, whatever the orientation.
    ScreenDown,
}

/// The direction a completed swipe travelled.
#[derive(Copy, Clone, Debug, PartialEq, Eq, Structural)]
pub enum SwipeDir {
    /// No swipe this frame.
    NoSwipe,
    /// Towards the left edge.
    Left,
    /// Towards the right edge.
    Right,
    /// Towards the top edge.
    Up,
    /// Towards the bottom edge.
    Down,
}

impl Default for SwipeDir {
    fn default() -> (r: Self)
        ensures
            r == SwipeDir::NoSwipe,
    {
        SwipeDir::NoSwipe
    }
}

/// One frame of input, and what the device it came from can do.
///
/// Edge queries are true for exactly one frame. Nothing is consumed by
/// reading, so every query is a pure function of the frame: each is stated
/// against a `spec_` function of the same name, and asking twice answers the
/// same.
pub trait InputSource {
    /// What `was_pressed` answers this frame.
    spec fn spec_was_pressed(&self, button: Button) -> bool;

    /// What `is_pressed` answers this frame.
    spec fn spec_is_pressed(&self, button: Button) -> bool;

    /// What `was_released` answers this frame.
    spec fn spec_was_released(&self, button: Button) -> bool;

    /// What `has_touch` answers this frame.
    spec fn spec_has_touch(&self) -> bool;

    /// What `has_left_right_keys` answers: a fact about the device.
    spec fn spec_has_left_right_keys(&self) -> bool;

    /// What `tap` answers this frame.
    spec fn spec_tap(&self) -> Option<Point>;

    /// What `touch_held` answers this frame.
    spec fn spec_touch_held(&self) -> Option<Point>;

    /// What `touch_released` answers this frame.
    spec fn spec_touch_released(&self) -> bool;

    /// What `swipe` answers this frame.
    spec fn spec_swipe(&self) -> SwipeDir;

    /// What `was_back_gesture` answers this frame.
    spec fn spec_was_back_gesture(&self) -> bool;

    /// What `was_home_gesture` answers this frame.
    spec fn spec_was_home_gesture(&self) -> bool;

    /// What `swipe_moves_selection` answers.
    spec fn spec_swipe_moves_selection(&self) -> bool;

    /// Whether `button` went down this frame.
    fn was_pressed(&self, button: Button) -> (r: bool)
        ensures
            r == self.spec_was_pressed(button),
    ;

    /// Whether `button` is down, this frame included.
    fn is_pressed(&self, button: Button) -> (r: bool)
        ensures
            r == self.spec_is_pressed(button),
    ;

    /// Whether `button` came up this frame.
    fn was_released(&self, button: Button) -> (r: bool)
        ensures
            r == self.spec_was_released(button),
    ;

    /// Whether this frame carries any touch at all, down or just lifted.
    fn has_touch(&self) -> (r: bool)
        ensures
            r == self.spec_has_touch(),
    ;

    /// Whether the device has a Left/Right pair to nudge a value with.
    fn has_left_right_keys(&self) -> (r: bool)
        ensures
            r == self.spec_has_left_right_keys(),
    ;

    /// A completed tap, at the position the finger went down.
    fn tap(&self) -> (r: Option<Point>)
        ensures
            r == self.spec_tap(),
    ;

    /// Where a finger is while one is down, the signal a slider drag needs.
    fn touch_held(&self) -> (r: Option<Point>)
        ensures
            r == self.spec_touch_held(),
    ;

    /// Whether a finger lifted this frame.
    fn touch_released(&self) -> (r: bool)
        ensures
            r == self.spec_touch_released(),
    ;

    /// A completed swipe, or [`SwipeDir::NoSwipe`].
    fn swipe(&self) -> (r: SwipeDir)
        ensures
            r == self.spec_swipe(),
    ;

    /// The system back gesture, an edge swipe on a touch device.
    fn was_back_gesture(&self) -> (r: bool)
        ensures
            r == self.spec_was_back_gesture(),
    ;

    /// The system home gesture, offered to the screen before the host acts.
    fn was_home_gesture(&self) -> (r: bool)
        ensures
            r == self.spec_was_home_gesture(),
    ;

    /// Which way a vertical swipe moves focus: `false` moves the content,
    /// `true` moves the focus with the swipe.
    fn swipe_moves_selection(&self) -> (r: bool)
        ensures
            r == self.spec_swipe_moves_selection(),
    ;
}

/// One frame of input, as screens reach for it: each call reads the host it
/// is given.
pub struct Input;

impl Input {
    /// See [`InputSource::was_pressed`].
    pub fn was_pressed<H: InputSource>(host: &H, button: Button) -> (r: bool)
        ensures
            r == host.spec_was_pressed(button),
    {
        host.was_pressed(button)
    }

    /// See [`InputSource::is_pressed`].
    pub fn is_pressed<H: InputSource>(host: &H, button: Button) -> (r: bool)
        ensures
            r == host.spec_is_pressed(button),
    {
        host.is_pressed(button)
    }

    /// See [`InputSource::was_released`].
    pub fn was_released<H: InputSource>(host: &H, button: Button) -> (r: bool)
        ensures
            r == host.spec_was_released(button),
    {
        host.was_released(button)
    }

    /// See [`InputSource::has_touch`].
    pub fn has_touch<H: InputSource>(host: &H) -> (r: bool)
        ensures
            r == host.spec_has_touch(),
    {
        host.has_touch()
    }

    /// See [`InputSource::has_left_right_keys`].
    pub fn has_left_right_keys<H: InputSource>(host: &H) -> (r: bool)
        ensures
            r == host.spec_has_left_right_keys(),
    {
        host.has_left_right_keys()
    }

    /// See [`InputSource::tap`].
    pub fn tap<H: InputSource>(host: &H) -> (r: Option<Point>)
        ensures
            r == host.spec_tap(),
    {
        host.tap()
    }

    /// See [`InputSource::touch_held`].
    pub fn touch_held<H: InputSource>(host: &H) -> (r: Option<Point>)
        ensures
            r == host.spec_touch_held(),
    {
        host.touch_held()
    }

    /// See [`InputSource::touch_released`].
    pub fn touch_released<H: InputSource>(host: &H) -> (r: bool)
        ensures
            r == host.spec_touch_released(),
    {
        host.touch_released()
    }

    /// See [`InputSource::swipe`].
    pub fn swipe<H: InputSource>(host: &H) -> (r: SwipeDir)
        ensures
            r == host.spec_swipe(),
    {
        host.swipe()
    }

    /// See [`InputSource::was_back_gesture`].
    pub fn was_back_gesture<H: InputSource>(host: &H) -> (r: bool)
        ensures
            r == host.spec_was_back_gesture(),
    {
        host.was_back_gesture()
    }

    /// See [`InputSource::was_home_gesture`].
    pub fn was_home_gesture<H: InputSource>(host: &H) -> (r: bool)
        ensures
            r == host.spec_was_home_gesture(),
    {
        host.was_home_gesture()
    }

    /// See [`InputSource::swipe_moves_selection`].
    pub fn swipe_moves_selection<H: InputSource>(host: &H) -> (r: bool)
        ensures
            r == host.spec_swipe_moves_selection(),
    {
        host.swipe_moves_selection()
    }
}

/// What one key along the bottom edge of a device does.
#[derive(Copy, Clone, Debug, PartialEq, Eq, Structural)]
pub enum RowKey {
    /// Leaves the screen, or the value being edited.
    Back,
    /// Acts on whatever has focus.
    Confirm,
    /// Walks a list backwards.
    Previous,
    /// Walks a list forwards.
    Next,
    /// A key with no word in the hint vocabulary, drawn blank.
    Unassigned,
}

/// What the keys along the bottom edge mean, left to right.
///
/// A hint bar asks two questions — how many slots to divide its band into, and
/// which word goes in each — and a device answers both with its row.
#[derive(Copy, Clone, Debug)]
pub struct KeyRow(&'static [RowKey]);

impl View for KeyRow {
    type V = Seq<RowKey>;

    closed spec fn view(&self) -> Seq<RowKey> {
        self.0@
    }
}

impl KeyRow {
    /// A reader's four keys, Back leftmost.
    pub fn reader() -> (r: KeyRow)
        ensures
            r@ == seq![RowKey::Back, RowKey::Confirm, RowKey::Previous, RowKey::Next],
    {
        let keys: &'static [RowKey] = &[
            RowKey::Back,
            RowKey::Confirm,
            RowKey::Previous,
            RowKey::Next,
        ];
        let r = KeyRow(keys);
        assert(r@ =~= seq![RowKey::Back, RowKey::Confirm, RowKey::Previous, RowKey::Next]);
        r
    }

    /// A row of a device's own.
    pub fn new(keys: &'static [RowKey]) -> (r: KeyRow)
        ensures
            r@ == keys@,
    {
        KeyRow(keys)
    }

    /// How many slots the hint band divides into.
    pub fn len(&self) -> (r: usize)
        ensures
            r == self@.len(),
    {
        self.0.len()
    }

    /// Whether the device has no bottom row at all.
    pub fn is_empty(&self) -> (r: bool)
        ensures
            r == (self@.len() == 0),
    {
        self.0.len() == 0
    }

    /// Whether some slot carries `key`.
    pub fn contains(&self, key: RowKey) -> (r: bool)
        ensures
            r == self@.contains(key),
    {
        let mut i: usize = 0;
        while i < self.0.len()
            invariant
                i <= self@.len(),
                forall|j: int| 0 <= j < i ==> self@[j] != key,
            decreases self@.len() - i,
        {
            if self.0[i] == key {
                return true;
            }
            i = i + 1;
        }
        false
    }

    /// The slots, left to right.
    pub fn iter(&self) -> (r: Vec<RowKey>)
        ensures
            r@ == self@,
    {
        let mut out: Vec<RowKey> = Vec::new();
        let mut i: usize = 0;
        while i < self.0.len()
            invariant
                i <= self@.len(),
                out@ == self@.subrange(0, i as int),
            decreases self@.len() - i,
        {
            out.push(self.0[i]);
            i = i + 1;
        }
        assert(out@ =~= self@);
        out
    }
}

} // verus!
