//! What a widget declares: the regions it owns, and the focus order over them.
//!
//! A widget never hit-tests. It declares the regions it owns and the message
//! each produces, and the runtime resolves one frame of input against that
//! list.
use vstd::prelude::*;

use crate::geometry::Rect;
use crate::host::value_mode::ValueMode;
use crate::view::make::{Composed, Make, Maker};
use crate::view::trigger::Trigger;

verus! {

/// Which kinds of input an interaction accepts.
///
/// This is what stops a finger resting on a button re-firing it every frame:
/// only drag interactions are offered held touches, and everything else acts
/// once, on release.
#[derive(Copy, Clone, Debug, PartialEq, Eq, Structural)]
pub struct InputMask(u8);

impl InputMask {
    /// The bits set.
    pub closed spec fn bits(self) -> u8 {
        self.0
    }

    /// Whether every bit of `other` is set here.
    pub open spec fn spec_contains(self, other: InputMask) -> bool {
        self.bits() & other.bits() == other.bits()
    }

    /// The tap mask, in specifications.
    pub closed spec fn tap_spec() -> InputMask {
        InputMask(1)
    }

    /// The focus mask, in specifications.
    pub closed spec fn focus_spec() -> InputMask {
        InputMask(2)
    }

    /// The drag mask, in specifications.
    pub closed spec fn drag_spec() -> InputMask {
        InputMask(4)
    }

    /// The long-press mask, in specifications.
    pub closed spec fn long_press_spec() -> InputMask {
        InputMask(8)
    }

    /// The adjust mask, in specifications.
    pub closed spec fn adjust_spec() -> InputMask {
        InputMask(16)
    }

    /// The bits each named mask carries.
    pub proof fn lemma_bits()
        ensures
            Self::tap_spec().bits() == 1,
            Self::focus_spec().bits() == 2,
            Self::drag_spec().bits() == 4,
            Self::long_press_spec().bits() == 8,
            Self::adjust_spec().bits() == 16,
    {
    }

    /// A tap: press and release inside the control.
    pub fn tap() -> (r: InputMask)
        ensures
            r.bits() == 1,
            r == Self::tap_spec(),
    {
        InputMask(1)
    }

    /// Reachable by Up/Down, activated by Confirm.
    pub fn focus() -> (r: InputMask)
        ensures
            r.bits() == 2,
            r == Self::focus_spec(),
    {
        InputMask(2)
    }

    /// Receives every frame the finger is down, with its position.
    pub fn drag() -> (r: InputMask)
        ensures
            r.bits() == 4,
            r == Self::drag_spec(),
    {
        InputMask(4)
    }

    /// A press held past the long-press threshold.
    pub fn long_press() -> (r: InputMask)
        ensures
            r.bits() == 8,
            r == Self::long_press_spec(),
    {
        InputMask(8)
    }

    /// This control is moved one step at a time rather than fired: Left/Right
    /// nudge it while it holds focus, Confirm declines to fire it, and on a
    /// device with no Left/Right pair Confirm may open it for editing.
    pub fn adjust() -> (r: InputMask)
        ensures
            r.bits() == 16,
            r == Self::adjust_spec(),
    {
        InputMask(16)
    }

    /// Tappable and reachable by button, as a mask.
    pub closed spec fn default_spec() -> InputMask {
        InputMask(3)
    }

    /// What an ordinary control wants: tappable, and reachable by button.
    pub fn default_mask() -> (r: InputMask)
        ensures
            r.bits() == 3,
            r == Self::default_spec(),
    {
        InputMask(3)
    }

    /// No input at all.
    pub fn empty() -> (r: InputMask)
        ensures
            r.bits() == 0,
    {
        InputMask(0)
    }

    /// This mask with `other`'s bits added.
    pub fn union(self, other: InputMask) -> (r: InputMask)
        ensures
            r.bits() == self.bits() | other.bits(),
            r.spec_contains(self),
            r.spec_contains(other),
    {
        let a = self.0;
        let b = other.0;
        let bits = a | b;
        assert(bits & a == a) by (bit_vector)
            requires
                bits == a | b,
        ;
        assert(bits & b == b) by (bit_vector)
            requires
                bits == a | b,
        ;
        InputMask(bits)
    }

    /// This mask with `other`'s bits removed.
    pub fn without(self, other: InputMask) -> (r: InputMask)
        ensures
            r.bits() == self.bits() & !other.bits(),
            self.spec_contains(r),
    {
        let a = self.0;
        let b = other.0;
        let bits = a & !b;
        assert(a & bits == bits) by (bit_vector)
            requires
                bits == a & !b,
        ;
        InputMask(bits)
    }

    /// Whether every bit of `other` is set here.
    pub fn contains(self, other: InputMask) -> (r: bool)
        ensures
            r == self.spec_contains(other),
    {
        self.0 & other.0 == other.0
    }
}

/// The focus bit.
pub open spec fn focus_bit() -> u8 {
    2
}

/// Whether `mask` makes a control a focus stop.
pub open spec fn is_focus_stop(mask: InputMask) -> bool {
    mask.bits() & focus_bit() == focus_bit()
}

/// What an ordinary control declares is a focus stop.
pub proof fn lemma_default_is_focus_stop()
    ensures
        is_focus_stop(InputMask::default_spec()),
{
    assert(3u8 & 2u8 == 2u8) by (bit_vector);
}

/// One interactive region, as declared by the widget that owns it.
#[verifier::reject_recursive_types(M)]
pub struct Interaction<M> {
    /// The region, in screen pixels.
    pub rect: Rect,
    /// Which kinds of input it accepts.
    pub mask: InputMask,
    /// What it produces when it fires.
    pub trigger: Trigger<M>,
}

/// How many of `items` are focus stops.
pub open spec fn count_focusable<M>(items: Seq<Interaction<M>>) -> nat
    decreases items.len(),
{
    if items.len() == 0 {
        0
    } else {
        count_focusable(items.drop_last()) + if is_focus_stop(items.last().mask) {
            1nat
        } else {
            0nat
        }
    }
}

/// Whether `items[index]` is the focus stop numbered `focus`, counting focus
/// stops in tree order from zero.
pub open spec fn is_focus_position<M>(items: Seq<Interaction<M>>, focus: nat, index: int) -> bool {
    &&& 0 <= index < items.len()
    &&& is_focus_stop(items[index].mask)
    &&& count_focusable(items.subrange(0, index)) == focus
}

/// Counting focus stops never exceeds counting items.
pub proof fn lemma_count_focusable_bounded<M>(items: Seq<Interaction<M>>)
    ensures
        count_focusable(items) <= items.len(),
    decreases items.len(),
{
    if items.len() > 0 {
        lemma_count_focusable_bounded(items.drop_last());
    }
}

/// Focus stops in two runs of declarations add up.
pub proof fn lemma_count_focusable_concat<M>(a: Seq<Interaction<M>>, b: Seq<Interaction<M>>)
    ensures
        count_focusable(a + b) == count_focusable(a) + count_focusable(b),
    decreases b.len(),
{
    if b.len() == 0 {
        assert(a + b =~= a);
    } else {
        lemma_count_focusable_concat(a, b.drop_last());
        assert((a + b).drop_last() =~= a + b.drop_last());
    }
}

/// The count over a prefix grows by at most one per item.
proof fn lemma_count_prefix_step<M>(items: Seq<Interaction<M>>, i: int)
    requires
        0 <= i < items.len(),
    ensures
        count_focusable(items.subrange(0, i + 1)) == count_focusable(items.subrange(0, i)) + if is_focus_stop(items[i].mask) {
            1nat
        } else {
            0nat
        },
{
    assert(items.subrange(0, i + 1).drop_last() =~= items.subrange(0, i));
}

/// Counting over a prefix never decreases as the prefix grows.
pub proof fn lemma_count_prefix_monotone<M>(items: Seq<Interaction<M>>, i: int, j: int)
    requires
        0 <= i <= j <= items.len(),
    ensures
        count_focusable(items.subrange(0, i)) <= count_focusable(items.subrange(0, j)),
    decreases j - i,
{
    if i < j {
        lemma_count_prefix_monotone(items, i, j - 1);
        lemma_count_prefix_step(items, j - 1);
    }
}

/// A focus stop numbered `focus` exists only when more than `focus` stops
/// were declared.
pub proof fn lemma_focus_position_below_count<M>(items: Seq<Interaction<M>>, focus: nat, i: int)
    requires
        is_focus_position(items, focus, i),
    ensures
        focus < count_focusable(items),
{
    lemma_count_prefix_step(items, i);
    lemma_count_prefix_monotone(items, i + 1, items.len() as int);
    assert(items.subrange(0, items.len() as int) =~= items);
}

/// At most one declaration is the focus stop numbered `focus`.
pub proof fn lemma_focus_position_unique<M>(items: Seq<Interaction<M>>, focus: nat, i: int, j: int)
    requires
        is_focus_position(items, focus, i),
        is_focus_position(items, focus, j),
    ensures
        i == j,
{
    if i < j {
        lemma_count_prefix_step(items, i);
        lemma_count_prefix_monotone(items, i + 1, j);
    } else if j < i {
        lemma_count_prefix_step(items, j);
        lemma_count_prefix_monotone(items, j + 1, i);
    }
}

/// Where in `items` the focus stop numbered `focus` sits, or `None` when there
/// are no more than `focus` stops.
pub fn focus_position<M>(items: &[Interaction<M>], focus: usize) -> (r: Option<usize>)
    ensures
        r matches Some(i) ==> is_focus_position(items@, focus as nat, i as int),
        r is None <==> count_focusable(items@) <= focus,
{
    let mut seen: usize = 0;
    let mut i: usize = 0;
    while i < items.len()
        invariant
            i <= items@.len(),
            seen == count_focusable(items@.subrange(0, i as int)),
            seen <= focus,
            seen <= i,
        decreases items@.len() - i,
    {
        proof {
            lemma_count_prefix_step(items@, i as int);
        }
        if items[i].mask.contains(InputMask(2)) {
            if seen == focus {
                proof {
                    lemma_count_prefix_monotone(items@, i + 1, items@.len() as int);
                    assert(items@.subrange(0, items@.len() as int) =~= items@);
                }
                return Some(i);
            }
            seen = seen + 1;
        }
        i = i + 1;
    }
    proof {
        assert(items@.subrange(0, i as int) =~= items@);
        assert forall|k: int| !is_focus_position(items@, focus as nat, k) by {
            if is_focus_position(items@, focus as nat, k) {
                lemma_count_prefix_step(items@, k);
                lemma_count_prefix_monotone(items@, k + 1, items@.len() as int);
            }
        }
    }
    None
}

/// The focus stop numbered `focus`, or `None` when no more than `focus`
/// stops were declared.
pub open spec fn focus_item<M>(items: Seq<Interaction<M>>, focus: nat) -> Option<Interaction<M>> {
    if exists|i: int| is_focus_position(items, focus, i) {
        Some(items[choose|i: int| is_focus_position(items, focus, i)])
    } else {
        None
    }
}

/// The focus stop numbered `focus` is the one at any position that holds it,
/// and there is one exactly when more than `focus` stops were declared.
pub proof fn lemma_focus_item<M>(items: Seq<Interaction<M>>, focus: nat)
    ensures
        focus_item(items, focus) is None <==> count_focusable(items) <= focus,
        forall|i: int| #[trigger] is_focus_position(items, focus, i) ==> focus_item(items, focus)
            == Some(items[i]),
{
    if exists|i: int| is_focus_position(items, focus, i) {
        let k = choose|i: int| is_focus_position(items, focus, i);
        lemma_focus_position_below_count(items, focus, k);
        assert forall|i: int| #[trigger] is_focus_position(items, focus, i) implies focus_item(
            items,
            focus,
        ) == Some(items[i]) by {
            lemma_focus_position_unique(items, focus, i, k);
        }
    } else if count_focusable(items) > focus {
        let i = witness_focus_position(items, focus);
        assert(is_focus_position(items, focus, i));
    }
}

/// When more than `focus` stops were declared, one of them is numbered `focus`.
proof fn witness_focus_position<M>(items: Seq<Interaction<M>>, focus: nat) -> (i: int)
    requires
        focus < count_focusable(items),
    ensures
        is_focus_position(items, focus, i),
    decreases items.len(),
{
    let last = items.len() - 1;
    lemma_count_prefix_step(items, last);
    assert(items.subrange(0, items.len() as int) =~= items);
    assert(items.subrange(0, last) =~= items.drop_last());
    if focus < count_focusable(items.drop_last()) {
        let j = witness_focus_position(items.drop_last(), focus);
        assert(items.subrange(0, j) =~= items.drop_last().subrange(0, j));
        j
    } else {
        last
    }
}

/// The declaration's rect and mask, with the trigger's shape: the kind of
/// trigger and the numbers it carries, whatever message it builds.
pub open spec fn same_shape<N, M>(a: Interaction<N>, b: Interaction<M>) -> bool {
    &&& a.rect == b.rect
    &&& a.mask == b.mask
    &&& match (a.trigger, b.trigger) {
        (Trigger::Message(_), Trigger::Message(_)) => true,
        (Trigger::Value { max: m1, value: v1, .. }, Trigger::Value { max: m2, value: v2, .. }) => m1
            == m2 && v1 == v2,
        (
            Trigger::Step { max: m1, value: v1, set: s1, .. },
            Trigger::Step { max: m2, value: v2, set: s2, .. },
        ) => m1 == m2 && v1 == v2 && (s1 is Some) == (s2 is Some),
        _ => false,
    }
}

/// Whether `now` is `was` with its messages translated through `convert`: a
/// built message converted, and every constructor building the conversion of
/// what the original built, for every value.
pub open spec fn translated<N, M, C: Make<N, M>>(was: Trigger<N>, now: Trigger<M>, convert: C) -> bool {
    match (was, now) {
        (Trigger::Message(m), Trigger::Message(n)) => n == convert.made(m),
        (Trigger::Value { make: a, .. }, Trigger::Value { make: b, .. }) => forall|v: i32|
            #[trigger] b.spec_make(v) == convert.made(a.spec_make(v)),
        (Trigger::Step { make: a, set: sa, .. }, Trigger::Step { make: b, set: sb, .. }) => {
            &&& forall|v: i32| #[trigger] b.spec_make(v) == convert.made(a.spec_make(v))
            &&& match (sa, sb) {
                (Some(x), Some(y)) => forall|v: i32| #[trigger] y.spec_make(v) == convert.made(x.spec_make(v)),
                (None, None) => true,
                _ => false,
            }
        },
        _ => false,
    }
}

/// A focus index no declaration can ever have, meaning "the focus is not in
/// this subtree at all".
pub const NO_FOCUS: usize = usize::MAX;

/// Collects a tree's interactions, telling each one whether it has focus as it
/// is declared.
///
/// Focus is an index into the focusable interactions **in tree order**. A
/// widget learns its own state from the return value of
/// [`declare`](Interactions::declare).
#[verifier::reject_recursive_types(M)]
pub struct Interactions<M> {
    items: Vec<Interaction<M>>,
    focus: usize,
    focusable: usize,
    captured: Option<usize>,
    dismissal: Option<M>,
    ignoring: bool,
    scroll: i32,
    viewport: Option<(Rect, i32)>,
    parent_focused: bool,
    editing: Option<i32>,
    mode: ValueMode,
    title: &'static str,
}

impl<M> Interactions<M> {
    /// Everything declared so far, in tree order.
    pub closed spec fn spec_items(&self) -> Seq<Interaction<M>> {
        self.items@
    }

    /// The focus index this walk was started with.
    pub closed spec fn spec_focus(&self) -> usize {
        self.focus
    }

    /// How many focus stops have been declared so far.
    pub closed spec fn spec_focusable(&self) -> usize {
        self.focusable
    }

    /// The focus a capturing view asked for, if one captured.
    pub closed spec fn spec_captured(&self) -> Option<usize> {
        self.captured
    }

    /// What a capturing view said dismisses it.
    pub closed spec fn spec_dismissal(&self) -> Option<M> {
        self.dismissal
    }

    /// Whether declarations are being ignored until a view captures.
    pub closed spec fn spec_ignoring(&self) -> bool {
        self.ignoring
    }

    /// The scroll offset handed down by the runtime.
    pub closed spec fn spec_scroll(&self) -> i32 {
        self.scroll
    }

    /// The viewport a scroll view published.
    pub closed spec fn spec_viewport(&self) -> Option<(Rect, i32)> {
        self.viewport
    }

    /// Whether the control walked into owns the focus.
    pub closed spec fn spec_parent_focused(&self) -> bool {
        self.parent_focused
    }

    /// The open edit's working value.
    pub closed spec fn spec_editing(&self) -> Option<i32> {
        self.editing
    }

    /// What the focused control is doing, for the hint bar.
    pub closed spec fn spec_mode(&self) -> ValueMode {
        self.mode
    }

    /// The running screen's own title.
    pub closed spec fn spec_title(&self) -> &'static str {
        self.title
    }

    /// The count of focus stops kept is the count over what was declared.
    pub closed spec fn wf(&self) -> bool {
        self.focusable == count_focusable(self.items@)
    }

    /// A collector for a tree whose focused control is at `focus`.
    pub fn new(focus: usize) -> (r: Self)
        ensures
            r.wf(),
            r.spec_items() == Seq::<Interaction<M>>::empty(),
            r.spec_focus() == focus,
            r.spec_focusable() == 0,
            r.spec_captured() is None,
            r.spec_dismissal() is None,
            !r.spec_ignoring(),
            r.spec_scroll() == 0,
            r.spec_viewport() is None,
            !r.spec_parent_focused(),
            r.spec_editing() is None,
            r.spec_mode() == ValueMode::Idle,
            r.spec_title()@ == Seq::<char>::empty(),
    {
        proof {
            reveal_strlit("");
        }
        Interactions {
            items: Vec::new(),
            focus,
            focusable: 0,
            captured: None,
            dismissal: None,
            ignoring: false,
            scroll: 0,
            viewport: None,
            parent_focused: false,
            editing: None,
            mode: ValueMode::Idle,
            title: "",
        }
    }

    /// A pass that ignores everything until a view calls
    /// [`capture`](Interactions::capture).
    pub fn capturing(focus: usize) -> (r: Self)
        ensures
            r.wf(),
            r.spec_items() == Seq::<Interaction<M>>::empty(),
            r.spec_focus() == focus,
            r.spec_focusable() == 0,
            r.spec_captured() is None,
            r.spec_dismissal() is None,
            r.spec_ignoring(),
            r.spec_scroll() == 0,
            r.spec_viewport() is None,
            !r.spec_parent_focused(),
            r.spec_editing() is None,
            r.spec_mode() == ValueMode::Idle,
    {
        let mut r = Self::new(focus);
        r.ignoring = true;
        r
    }

    /// Registers an interaction, returning whether it currently holds focus.
    ///
    /// Ignored entirely — and never focused — while the walk is ignoring.
    /// Otherwise it is appended, and holds focus exactly when it is a focus
    /// stop whose number in tree order is the walk's focus.
    pub fn declare(&mut self, rect: Rect, mask: InputMask, trigger: Trigger<M>) -> (r: bool)
        requires
            old(self).wf(),
        ensures
            final(self).wf(),
            old(self).spec_ignoring() ==> !r && final(self).spec_items() == old(self).spec_items()
                && final(self).spec_focusable() == old(self).spec_focusable(),
            !old(self).spec_ignoring() ==> {
                &&& final(self).spec_items() == old(self).spec_items().push(
                    Interaction { rect, mask, trigger },
                )
                &&& r == (is_focus_stop(mask) && old(self).spec_focusable() == old(self).spec_focus())
                &&& final(self).spec_focusable() == old(self).spec_focusable() + if is_focus_stop(mask) {
                    1int
                } else {
                    0int
                }
            },
            final(self).spec_focus() == old(self).spec_focus(),
            final(self).spec_captured() == old(self).spec_captured(),
            final(self).spec_dismissal() == old(self).spec_dismissal(),
            final(self).spec_ignoring() == old(self).spec_ignoring(),
            final(self).spec_scroll() == old(self).spec_scroll(),
            final(self).spec_viewport() == old(self).spec_viewport(),
            final(self).spec_parent_focused() == old(self).spec_parent_focused(),
            final(self).spec_editing() == old(self).spec_editing(),
            final(self).spec_mode() == old(self).spec_mode(),
            final(self).spec_title() == old(self).spec_title(),
    {
        if self.ignoring {
            return false;
        }
        let stop = mask.contains(InputMask(2));
        let mine = self.focusable;
        let ghost before = self.items@;
        self.items.push(Interaction { rect, mask, trigger });
        let _len = self.items.len();
        proof {
            assert(self.items@.drop_last() =~= before);
            lemma_count_focusable_bounded(self.items@);
        }
        if stop {
            self.focusable = mine + 1;
        }
        stop && mine == self.focus
    }

    /// Discards everything declared so far: this view is the only thing
    /// reachable while it is present, and focus should sit at
    /// `preferred_focus` while it is up. A dismissal said before belongs to
    /// what was discarded, so it goes too.
    pub fn capture(&mut self, preferred_focus: usize)
        ensures
            final(self).wf(),
            final(self).spec_items() == Seq::<Interaction<M>>::empty(),
            final(self).spec_focusable() == 0,
            final(self).spec_captured() == Some(preferred_focus),
            !final(self).spec_ignoring(),
            final(self).spec_focus() == old(self).spec_focus(),
            final(self).spec_dismissal() is None,
            final(self).spec_scroll() == old(self).spec_scroll(),
            final(self).spec_viewport() == old(self).spec_viewport(),
            final(self).spec_parent_focused() == old(self).spec_parent_focused(),
            final(self).spec_editing() == old(self).spec_editing(),
            final(self).spec_mode() == old(self).spec_mode(),
            final(self).spec_title() == old(self).spec_title(),
    {
        self.items.clear();
        self.focusable = 0;
        self.captured = Some(preferred_focus);
        self.dismissal = None;
        self.ignoring = false;
    }

    /// Says what dismisses the capturing view: what Back and a tap outside its
    /// regions send.
    pub fn dismiss_with(&mut self, message: M)
        requires
            old(self).wf(),
        ensures
            final(self).wf(),
            final(self).spec_dismissal() == Some(message),
            final(self).spec_items() == old(self).spec_items(),
            final(self).spec_focus() == old(self).spec_focus(),
            final(self).spec_focusable() == old(self).spec_focusable(),
            final(self).spec_captured() == old(self).spec_captured(),
            final(self).spec_ignoring() == old(self).spec_ignoring(),
            final(self).spec_scroll() == old(self).spec_scroll(),
            final(self).spec_viewport() == old(self).spec_viewport(),
            final(self).spec_parent_focused() == old(self).spec_parent_focused(),
            final(self).spec_editing() == old(self).spec_editing(),
            final(self).spec_mode() == old(self).spec_mode(),
            final(self).spec_title() == old(self).spec_title(),
    {
        self.dismissal = Some(message);
    }

    /// What dismisses the capturing view, when one captured and said: with
    /// nothing captured, there is nothing to dismiss.
    pub fn dismissal(&self) -> (r: Option<&M>)
        ensures
            self.spec_captured() is None ==> r is None,
            self.spec_captured() is Some ==> match self.spec_dismissal() {
                Some(m) => r == Some(&m),
                None => r is None,
            },
    {
        if self.captured.is_none() {
            return None;
        }
        self.dismissal.as_ref()
    }

    /// Whether the control being walked into is the one holding focus.
    pub fn parent_focused(&self) -> (r: bool)
        ensures
            r == self.spec_parent_focused(),
    {
        self.parent_focused
    }

    /// Says the subtree about to be walked belongs to a focused control.
    pub fn set_parent_focused(&mut self, focused: bool)
        requires
            old(self).wf(),
        ensures
            final(self).wf(),
            final(self).spec_parent_focused() == focused,
            final(self).spec_items() == old(self).spec_items(),
            final(self).spec_focus() == old(self).spec_focus(),
            final(self).spec_focusable() == old(self).spec_focusable(),
            final(self).spec_captured() == old(self).spec_captured(),
            final(self).spec_dismissal() == old(self).spec_dismissal(),
            final(self).spec_ignoring() == old(self).spec_ignoring(),
            final(self).spec_scroll() == old(self).spec_scroll(),
            final(self).spec_viewport() == old(self).spec_viewport(),
            final(self).spec_editing() == old(self).spec_editing(),
            final(self).spec_mode() == old(self).spec_mode(),
            final(self).spec_title() == old(self).spec_title(),
    {
        self.parent_focused = focused;
    }

    /// Whether the control at the focus is open for editing.
    pub fn is_editing(&self) -> (r: bool)
        ensures
            r == (self.spec_editing() is Some),
    {
        self.editing.is_some()
    }

    /// The open edit's working value, for the control the edit is open on.
    pub fn editing_value(&self) -> (r: Option<i32>)
        ensures
            r == self.spec_editing(),
    {
        self.editing
    }

    /// Says the focused control is open, for the runtime that opened it.
    pub fn editing(self, open: Option<i32>) -> (r: Self)
        requires
            self.wf(),
        ensures
            r.wf(),
            r.spec_editing() == open,
            r.spec_items() == self.spec_items(),
            r.spec_focus() == self.spec_focus(),
            r.spec_focusable() == self.spec_focusable(),
            r.spec_captured() == self.spec_captured(),
            r.spec_ignoring() == self.spec_ignoring(),
            r.spec_scroll() == self.spec_scroll(),
            r.spec_viewport() == self.spec_viewport(),
            r.spec_parent_focused() == self.spec_parent_focused(),
            r.spec_mode() == self.spec_mode(),
            r.spec_title() == self.spec_title(),
    {
        let mut r = self;
        r.editing = open;
        r
    }

    /// Says what the focused control is doing, for the hint bar.
    pub fn with_mode(self, mode: ValueMode) -> (r: Self)
        requires
            self.wf(),
        ensures
            r.wf(),
            r.spec_mode() == mode,
            r.spec_items() == self.spec_items(),
            r.spec_focus() == self.spec_focus(),
            r.spec_focusable() == self.spec_focusable(),
            r.spec_captured() == self.spec_captured(),
            r.spec_ignoring() == self.spec_ignoring(),
            r.spec_scroll() == self.spec_scroll(),
            r.spec_viewport() == self.spec_viewport(),
            r.spec_parent_focused() == self.spec_parent_focused(),
            r.spec_editing() == self.spec_editing(),
            r.spec_title() == self.spec_title(),
    {
        let mut r = self;
        r.mode = mode;
        r
    }

    /// What the focused control is doing, for the hint bar.
    pub fn mode(&self) -> (r: ValueMode)
        ensures
            r == self.spec_mode(),
    {
        self.mode
    }

    /// Starts the walk with the running screen's own title.
    pub fn titled(self, title: &'static str) -> (r: Self)
        requires
            self.wf(),
        ensures
            r.wf(),
            r.spec_title() == title,
            r.spec_items() == self.spec_items(),
            r.spec_focus() == self.spec_focus(),
            r.spec_focusable() == self.spec_focusable(),
            r.spec_captured() == self.spec_captured(),
            r.spec_ignoring() == self.spec_ignoring(),
            r.spec_scroll() == self.spec_scroll(),
            r.spec_viewport() == self.spec_viewport(),
            r.spec_parent_focused() == self.spec_parent_focused(),
            r.spec_editing() == self.spec_editing(),
            r.spec_mode() == self.spec_mode(),
    {
        let mut r = self;
        r.title = title;
        r
    }

    /// The running screen's own title.
    pub fn title(&self) -> (r: &'static str)
        ensures
            r == self.spec_title(),
    {
        self.title
    }

    /// Starts the walk with a scroll offset the scroll view should apply.
    pub fn scrolled(self, offset: i32) -> (r: Self)
        requires
            self.wf(),
        ensures
            r.wf(),
            r.spec_scroll() == offset,
            r.spec_items() == self.spec_items(),
            r.spec_focus() == self.spec_focus(),
            r.spec_focusable() == self.spec_focusable(),
            r.spec_captured() == self.spec_captured(),
            r.spec_ignoring() == self.spec_ignoring(),
            r.spec_viewport() == self.spec_viewport(),
            r.spec_parent_focused() == self.spec_parent_focused(),
            r.spec_editing() == self.spec_editing(),
            r.spec_mode() == self.spec_mode(),
            r.spec_title() == self.spec_title(),
    {
        let mut r = self;
        r.scroll = offset;
        r
    }

    /// The offset a scroll view should apply to its content.
    pub fn scroll(&self) -> (r: i32)
        ensures
            r == self.spec_scroll(),
    {
        self.scroll
    }

    /// Published by a scroll view: the visible band, and how tall its content
    /// is.
    pub fn set_viewport(&mut self, viewport: Rect, content_height: i32)
        requires
            old(self).wf(),
        ensures
            final(self).wf(),
            final(self).spec_viewport() == Some((viewport, content_height)),
            final(self).spec_items() == old(self).spec_items(),
            final(self).spec_focus() == old(self).spec_focus(),
            final(self).spec_focusable() == old(self).spec_focusable(),
            final(self).spec_captured() == old(self).spec_captured(),
            final(self).spec_dismissal() == old(self).spec_dismissal(),
            final(self).spec_ignoring() == old(self).spec_ignoring(),
            final(self).spec_scroll() == old(self).spec_scroll(),
            final(self).spec_parent_focused() == old(self).spec_parent_focused(),
            final(self).spec_editing() == old(self).spec_editing(),
            final(self).spec_mode() == old(self).spec_mode(),
            final(self).spec_title() == old(self).spec_title(),
    {
        self.viewport = Some((viewport, content_height));
    }

    /// The scrolling viewport and its content height, if a scroll view
    /// published one.
    pub fn viewport(&self) -> (r: Option<(Rect, i32)>)
        ensures
            r == self.spec_viewport(),
    {
        self.viewport
    }

    /// How many interactions have been declared so far.
    pub fn len(&self) -> (r: usize)
        ensures
            r == self.spec_items().len(),
    {
        self.items.len()
    }

    /// Withdraws `mask` from every interaction declared since `from` that falls
    /// outside `visible`. A scrolled-away control keeps its focus stop, but
    /// stops accepting touches aimed at whatever now occupies that part of the
    /// screen.
    ///
    /// The count of focus stops is left as it was: withdrawing the focus bit
    /// itself does not renumber the stops already counted.
    pub fn restrict_outside(&mut self, from: usize, visible: Rect, mask: InputMask)
        requires
            old(self).wf(),
        ensures
            !is_focus_stop(mask) ==> final(self).wf(),
            final(self).spec_items().len() == old(self).spec_items().len(),
            forall|i: int|
                0 <= i < old(self).spec_items().len() ==> {
                    let was = #[trigger] old(self).spec_items()[i];
                    let now = final(self).spec_items()[i];
                    &&& now.rect == was.rect
                    &&& now.trigger == was.trigger
                    &&& now.mask.bits() == (if i >= from && !was.rect.spec_intersects(visible) {
                        was.mask.bits() & !mask.bits()
                    } else {
                        was.mask.bits()
                    })
                },
            final(self).spec_focus() == old(self).spec_focus(),
            final(self).spec_focusable() == old(self).spec_focusable(),
            final(self).spec_captured() == old(self).spec_captured(),
            final(self).spec_dismissal() == old(self).spec_dismissal(),
            final(self).spec_ignoring() == old(self).spec_ignoring(),
            final(self).spec_scroll() == old(self).spec_scroll(),
            final(self).spec_viewport() == old(self).spec_viewport(),
            final(self).spec_parent_focused() == old(self).spec_parent_focused(),
            final(self).spec_editing() == old(self).spec_editing(),
            final(self).spec_mode() == old(self).spec_mode(),
            final(self).spec_title() == old(self).spec_title(),
    {
        let mut i: usize = from;
        let ghost declared = self.items@;
        let n = self.items.len();
        while i < n
            invariant
                n == declared.len(),
                self.items@.len() == n,
                from <= i || i == from,
                forall|k: int|
                    0 <= k < n ==> {
                        let was = #[trigger] declared[k];
                        let now = self.items@[k];
                        &&& now.rect == was.rect
                        &&& now.trigger == was.trigger
                        &&& !is_focus_stop(mask) ==> is_focus_stop(now.mask) == is_focus_stop(was.mask)
                        &&& now.mask.bits() == (if from <= k < i && !was.rect.spec_intersects(visible) {
                            was.mask.bits() & !mask.bits()
                        } else {
                            was.mask.bits()
                        })
                    },
                self.focus == old(self).focus,
                self.focusable == old(self).focusable,
                self.focusable == count_focusable(declared),
                self.captured == old(self).captured,
                self.dismissal == old(self).dismissal,
                self.ignoring == old(self).ignoring,
                self.scroll == old(self).scroll,
                self.viewport == old(self).viewport,
                self.parent_focused == old(self).parent_focused,
                self.editing == old(self).editing,
                self.mode == old(self).mode,
                self.title == old(self).title,
            decreases n - i,
        {
            if !self.items[i].rect.intersects(visible) {
                let kept = self.items[i].mask.without(mask);
                let b = self.items[i].mask.0;
                let m = mask.0;
                proof {
                    if !is_focus_stop(mask) {
                        assert((b & !m) & 2u8 == 2u8 <==> b & 2u8 == 2u8) by (bit_vector)
                            requires
                                m & 2u8 != 2u8,
                        ;
                    }
                }
                self.items[i].mask = kept;
            }
            i = i + 1;
        }
        proof {
            if !is_focus_stop(mask) {
                assert forall|k: int| 0 <= k < n implies #[trigger] is_focus_stop(self.items@[k].mask)
                    == is_focus_stop(declared[k].mask) by {}
                lemma_count_focusable_same_stops(declared, self.items@);
            }
        }
    }

    /// The focus index a capturing view asked for, or `None` if none captured.
    pub fn captured_focus(&self) -> (r: Option<usize>)
        ensures
            r == self.spec_captured(),
    {
        self.captured
    }

    /// Rect of the focus stop numbered `focus`, in tree order. The runtime
    /// scrolls to bring this into view.
    pub fn focused_rect(&self, focus: usize) -> (r: Option<Rect>)
        ensures
            r matches Some(rect) ==> exists|i: int|
                is_focus_position(self.spec_items(), focus as nat, i) && self.spec_items()[i].rect
                    == rect,
            r is None <==> count_focusable(self.spec_items()) <= focus,
            r == (match focus_item(self.spec_items(), focus as nat) {
                Some(item) => Some(item.rect),
                None => None,
            }),
    {
        proof {
            lemma_focus_item(self.spec_items(), focus as nat);
        }
        match focus_position(self.items.as_slice(), focus) {
            Some(i) => {
                assert(is_focus_position(self.spec_items(), focus as nat, i as int));
                Some(self.items[i].rect)
            },
            None => None,
        }
    }

    /// How many interactions can hold focus. The runtime wraps its cursor on
    /// this.
    pub fn focusable_count(&self) -> (r: usize)
        requires
            self.wf(),
        ensures
            r == self.spec_focusable(),
            r == count_focusable(self.spec_items()),
    {
        self.focusable
    }

    /// Everything declared so far, in tree order.
    pub fn items(&self) -> (r: &[Interaction<M>])
        ensures
            r@ == self.spec_items(),
    {
        self.items.as_slice()
    }

    /// Whether nothing has been declared.
    pub fn is_empty(&self) -> (r: bool)
        ensures
            r == (self.spec_items().len() == 0),
    {
        self.items.len() == 0
    }

    /// The focus a sub-component's walk starts with: the parent's, counted
    /// from the sub-component's first stop, or none at all when the focus is
    /// behind it.
    pub open spec fn spec_child_focus(&self) -> usize {
        if self.spec_focus() >= self.spec_focusable() {
            (self.spec_focus() - self.spec_focusable()) as usize
        } else {
            NO_FOCUS
        }
    }

    /// A collector for a sub-component, positioned so its focus numbering
    /// continues this one's. Everything a widget can ask crosses with it.
    pub fn child<N>(&self) -> (r: Interactions<N>)
        ensures
            r.wf(),
            r.spec_items() == Seq::<Interaction<N>>::empty(),
            r.spec_focus() == self.spec_child_focus(),
            r.spec_focusable() == 0,
            r.spec_captured() is None,
            r.spec_dismissal() is None,
            r.spec_ignoring() == self.spec_ignoring(),
            r.spec_scroll() == self.spec_scroll(),
            r.spec_viewport() is None,
            r.spec_parent_focused() == self.spec_parent_focused(),
            r.spec_editing() == self.spec_editing(),
            r.spec_mode() == self.spec_mode(),
            r.spec_title() == self.spec_title(),
    {
        let focus = if self.focus >= self.focusable { self.focus - self.focusable } else { NO_FOCUS };
        Interactions {
            items: Vec::new(),
            focus,
            focusable: 0,
            captured: None,
            dismissal: None,
            ignoring: self.ignoring,
            scroll: self.scroll,
            viewport: None,
            parent_focused: self.parent_focused,
            editing: self.editing,
            mode: self.mode,
            title: self.title,
        }
    }
}

/// Two runs of declarations whose masks agree on focus have the same number
/// of focus stops.
pub proof fn lemma_count_focusable_same_stops<N, M>(a: Seq<Interaction<N>>, b: Seq<Interaction<M>>)
    requires
        a.len() == b.len(),
        forall|k: int| 0 <= k < a.len() ==> #[trigger] is_focus_stop(b[k].mask) == is_focus_stop(
            a[k].mask,
        ),
    ensures
        count_focusable(a) == count_focusable(b),
    decreases a.len(),
{
    if a.len() > 0 {
        assert forall|k: int| 0 <= k < a.drop_last().len() implies #[trigger] is_focus_stop(
            b.drop_last()[k].mask,
        ) == is_focus_stop(a.drop_last()[k].mask) by {
            assert(is_focus_stop(b[k].mask) == is_focus_stop(a[k].mask));
        }
        lemma_count_focusable_same_stops(a.drop_last(), b.drop_last());
        assert(is_focus_stop(b[a.len() - 1].mask) == is_focus_stop(a[a.len() - 1].mask));
    }
}

impl<M: 'static> Interactions<M> {
    /// Folds a sub-component's interactions in, translating its messages
    /// through `convert`. Rects, masks and the numbers each trigger carries
    /// cross unchanged, in order, and so does its count of focus stops.
    pub fn absorb<N: 'static, C: Make<N, M> + Copy + 'static>(&mut self, inner: Interactions<N>, convert: C)
        requires
            old(self).wf(),
            inner.wf(),
        ensures
            final(self).wf(),
            final(self).spec_items().len() == old(self).spec_items().len() + inner.spec_items().len(),
            forall|i: int|
                0 <= i < old(self).spec_items().len() ==> #[trigger] final(self).spec_items()[i]
                    == old(self).spec_items()[i],
            forall|i: int|
                0 <= i < inner.spec_items().len() ==> {
                    let now = #[trigger] final(self).spec_items()[old(self).spec_items().len() + i];
                    let was = inner.spec_items()[i];
                    &&& same_shape(was, now)
                    &&& translated(was.trigger, now.trigger, convert)
                },
            final(self).spec_focusable() == old(self).spec_focusable() + inner.spec_focusable(),
            final(self).spec_focus() == old(self).spec_focus(),
            final(self).spec_captured() == old(self).spec_captured(),
            final(self).spec_dismissal() == old(self).spec_dismissal(),
            final(self).spec_ignoring() == old(self).spec_ignoring(),
            final(self).spec_scroll() == old(self).spec_scroll(),
            final(self).spec_viewport() == old(self).spec_viewport(),
            final(self).spec_parent_focused() == old(self).spec_parent_focused(),
            final(self).spec_editing() == old(self).spec_editing(),
            final(self).spec_mode() == old(self).spec_mode(),
            final(self).spec_title() == old(self).spec_title(),
    {
        let ghost start = self.items@;
        let ghost inner_items = inner.items@;
        let inner_focusable = inner.focusable;
        let mut rest = inner.items;
        let mut taken: usize = 0;
        let total = rest.len();
        while rest.len() > 0
            invariant
                total == inner_items.len(),
                rest@ == inner_items.subrange(taken as int, total as int),
                taken <= total,
                inner_focusable == count_focusable(inner_items),
                self.focusable == count_focusable(start),
                self.focus == old(self).focus,
                self.captured == old(self).captured,
                self.dismissal == old(self).dismissal,
                self.ignoring == old(self).ignoring,
                self.scroll == old(self).scroll,
                self.viewport == old(self).viewport,
                self.parent_focused == old(self).parent_focused,
                self.editing == old(self).editing,
                self.mode == old(self).mode,
                self.title == old(self).title,
                self.items@.len() == start.len() + taken,
                forall|i: int| 0 <= i < start.len() ==> #[trigger] self.items@[i] == start[i],
                forall|i: int|
                    0 <= i < taken ==> {
                        let now = #[trigger] self.items@[start.len() + i];
                        let was = inner_items[i];
                        &&& same_shape(was, now)
                        &&& translated(was.trigger, now.trigger, convert)
                    },
            decreases rest.len(),
        {
            let item = rest.remove(0);
            proof {
                assert(item == inner_items[taken as int]);
                assert(rest@ =~= inner_items.subrange(taken + 1, total as int));
            }
            let trigger = match item.trigger {
                Trigger::Message(message) => Trigger::Message(convert.make(message)),
                Trigger::Value { make, max, value } => Trigger::Value {
                    make: Maker::new(Composed { inner: make, outer: convert }),
                    max,
                    value,
                },
                Trigger::Step { make, set, max, value } => {
                    let set = match set {
                        Some(set) => Some(Maker::new(Composed { inner: set, outer: convert })),
                        None => None,
                    };
                    Trigger::Step {
                        make: Maker::new(Composed { inner: make, outer: convert }),
                        set,
                        max,
                        value,
                    }
                },
            };
            self.items.push(Interaction { rect: item.rect, mask: item.mask, trigger });
            taken = taken + 1;
        }
        proof {
            assert forall|k: int| 0 <= k < inner_items.len() implies #[trigger] is_focus_stop(
                self.items@.subrange(start.len() as int, self.items@.len() as int)[k].mask,
            ) == is_focus_stop(inner_items[k].mask) by {
                assert(self.items@.subrange(start.len() as int, self.items@.len() as int)[k]
                    == self.items@[start.len() + k]);
            }
            lemma_count_focusable_same_stops(
                inner_items,
                self.items@.subrange(start.len() as int, self.items@.len() as int),
            );
            assert(self.items@ =~= start + self.items@.subrange(
                start.len() as int,
                self.items@.len() as int,
            ));
            lemma_count_focusable_concat(
                start,
                self.items@.subrange(start.len() as int, self.items@.len() as int),
            );
            lemma_count_focusable_bounded(self.items@);
        }
        let _len = self.items.len();
        self.focusable = self.focusable + inner_focusable;
    }
}

} // verus!
