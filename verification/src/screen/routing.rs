//! Turning one frame of input into a message.
//!
//! Pure functions over the interactions a tree declared, kept apart from the
//! runtime so the *policy* — which control a touch resolves to, what Confirm
//! fires, which control Left/Right nudge — can be read and tested without the
//! lifecycle around it.
use vstd::prelude::*;

use crate::geometry::{Point, Rect};
use crate::host::chrome::Chrome;
use crate::view::interaction::{
    InputMask, Interaction, Interactions, count_focusable, focus_item, focus_position, is_focus_position,
};
use crate::view::trigger::{Trigger, spec_stepped, spec_value_at_on, trunc_div};

verus! {

/// Whether `item` accepts `kind` at `point`.
pub open spec fn hits<M>(item: Interaction<M>, point: Point, kind: InputMask) -> bool {
    item.mask.spec_contains(kind) && item.rect.spec_contains(point)
}

/// Whether `items[index]` is the last declaration accepting `kind` at `point`:
/// later declarations win, so the innermost control is the one that answers.
pub open spec fn is_last_hit<M>(items: Seq<Interaction<M>>, point: Point, kind: InputMask, index: int) -> bool {
    &&& 0 <= index < items.len()
    &&& hits(items[index], point, kind)
    &&& forall|j: int| index < j < items.len() ==> !hits(#[trigger] items[j], point, kind)
}

/// Whether `message` is what `item`'s trigger resolves to for a touch at `x`.
pub open spec fn resolves_to<M: Clone, H: Chrome>(host: &H, item: Interaction<M>, x: i32, message: M) -> bool {
    match item.trigger {
        Trigger::Message(m) => cloned(m, message),
        Trigger::Value { make, max, .. } => message == make.spec_make(
            spec_value_at_on(host, item.rect, x as int, max as int) as i32,
        ),
        Trigger::Step { make, .. } => message == make.spec_make(0),
    }
}

/// The index of the last declaration accepting `kind` at `point`.
pub fn last_hit<M>(items: &[Interaction<M>], point: Point, kind: InputMask) -> (r: Option<usize>)
    ensures
        r matches Some(i) ==> is_last_hit(items@, point, kind, i as int),
        r is None ==> forall|j: int| 0 <= j < items@.len() ==> !hits(#[trigger] items@[j], point, kind),
{
    let mut i: usize = items.len();
    while i > 0
        invariant
            i <= items@.len(),
            forall|j: int| i <= j < items@.len() ==> !hits(#[trigger] items@[j], point, kind),
        decreases i,
    {
        i = i - 1;
        if items[i].mask.contains(kind) && items[i].rect.contains(point) {
            return Some(i);
        }
    }
    None
}

/// The message from the last interaction under `point` that accepts `kind`.
///
/// Later declarations win: a container declares its own region before its
/// children, so scanning backwards resolves to the innermost control.
pub fn resolve<M: Clone, H: Chrome>(host: &H, interactions: &Interactions<M>, point: Point, kind: InputMask) -> (r: Option<M>)
    ensures
        r is None ==> forall|j: int|
            0 <= j < interactions.spec_items().len() ==> !hits(#[trigger] interactions.spec_items()[j], point, kind),
        r matches Some(m) ==> exists|i: int|
            is_last_hit(interactions.spec_items(), point, kind, i) && resolves_to(
                host,
                interactions.spec_items()[i],
                point.x,
                m,
            ),
{
    let items = interactions.items();
    match last_hit(items, point, kind) {
        Some(i) => {
            let item = &items[i];
            let m = item.trigger.resolve(host, item.rect, point.x);
            assert(resolves_to(host, interactions.spec_items()[i as int], point.x, m));
            Some(m)
        },
        None => None,
    }
}

/// The message a hold that went down at `origin`, and is now at `point`,
/// fires: the last long-press region under where it went down, provided the
/// finger has not slid off it.
pub fn long_press<M: Clone, H: Chrome>(host: &H, interactions: &Interactions<M>, origin: Point, point: Point) -> (r: Option<M>)
    ensures
        r matches Some(m) ==> exists|i: int|
            is_last_hit(interactions.spec_items(), origin, InputMask::long_press_spec(), i)
                && interactions.spec_items()[i].rect.spec_contains(point) && resolves_to(
                host,
                interactions.spec_items()[i],
                origin.x,
                m,
            ),
        r is None ==> forall|i: int|
            is_last_hit(interactions.spec_items(), origin, InputMask::long_press_spec(), i)
                ==> !interactions.spec_items()[i].rect.spec_contains(point),
{
    let items = interactions.items();
    match last_hit(items, origin, InputMask::long_press()) {
        Some(i) => {
            let item = &items[i];
            if !item.rect.contains(point) {
                return None;
            }
            let m = item.trigger.resolve(host, item.rect, origin.x);
            assert(resolves_to(host, interactions.spec_items()[i as int], origin.x, m));
            Some(m)
        },
        None => {
            proof {
                assert forall|i: int|
                    is_last_hit(interactions.spec_items(), origin, InputMask::long_press_spec(), i)
                        implies !interactions.spec_items()[i].rect.spec_contains(point) by {
                    assert(hits(interactions.spec_items()[i], origin, InputMask::long_press_spec()));
                }
            }
            None
        },
    }
}

/// The focused interaction, if any: the focus stop numbered `focus` in tree
/// order.
pub fn focused<M>(interactions: &Interactions<M>, focus: usize) -> (r: Option<&Interaction<M>>)
    ensures
        r matches Some(item) ==> exists|i: int|
            is_focus_position(interactions.spec_items(), focus as nat, i) && *item
                == interactions.spec_items()[i],
        r is None <==> count_focusable(interactions.spec_items()) <= focus,
{
    let items = interactions.items();
    match focus_position(items, focus) {
        Some(i) => {
            assert(is_focus_position(interactions.spec_items(), focus as nat, i as int));
            Some(&items[i])
        },
        None => None,
    }
}

/// Whether this is a control the keys move rather than fire. One question,
/// asked in every place that needs it.
pub fn adjustable<M>(item: &Interaction<M>) -> (r: bool)
    ensures
        r == item.mask.spec_contains(InputMask::adjust_spec()),
{
    item.mask.contains(InputMask::adjust())
}

/// What the focused control sends for a nudge of `delta` from Left/Right:
/// nothing unless it is adjustable.
pub open spec fn spec_step_message<M>(item: Interaction<M>, delta: i32) -> Option<M> {
    if !item.mask.spec_contains(InputMask::adjust_spec()) {
        None
    } else {
        match item.trigger {
            Trigger::Step { make, .. } => Some(make.spec_make(delta)),
            Trigger::Value { make, max, value } => Some(
                make.spec_make(spec_stepped(value as int, delta as int, max as int) as i32),
            ),
            Trigger::Message(_) => None,
        }
    }
}

/// A relative nudge for the focused control, for Left/Right.
pub fn focused_step<M: Clone>(interactions: &Interactions<M>, focus: usize, delta: i32) -> (r: Option<M>)
    ensures
        count_focusable(interactions.spec_items()) <= focus ==> r is None,
        forall|i: int|
            is_focus_position(interactions.spec_items(), focus as nat, i) ==> r == spec_step_message(
                interactions.spec_items()[i],
                delta,
            ),
        r == match focus_item(interactions.spec_items(), focus as nat) {
            Some(item) => spec_step_message(item, delta),
            None => None,
        },
{
    proof {
        crate::view::interaction::lemma_focus_item(interactions.spec_items(), focus as nat);
    }
    let item = match focused(interactions, focus) {
        Some(item) => item,
        None => {
            proof {
                assert forall|i: int| !is_focus_position(interactions.spec_items(), focus as nat, i) by {
                    if is_focus_position(interactions.spec_items(), focus as nat, i) {
                        crate::view::interaction::lemma_focus_position_below_count(
                            interactions.spec_items(),
                            focus as nat,
                            i,
                        );
                    }
                }
            }
            return None;
        },
    };
    proof {
        assert forall|i: int| is_focus_position(interactions.spec_items(), focus as nat, i) implies *item
            == interactions.spec_items()[i] by {
            let k = choose|k: int|
                is_focus_position(interactions.spec_items(), focus as nat, k) && *item
                    == interactions.spec_items()[k];
            crate::view::interaction::lemma_focus_position_unique(
                interactions.spec_items(),
                focus as nat,
                i,
                k,
            );
        }
    }
    proof {
        let k = choose|k: int|
            is_focus_position(interactions.spec_items(), focus as nat, k) && *item == interactions.spec_items()[k];
        assert(focus_item(interactions.spec_items(), focus as nat) == Some(*item));
    }
    if !adjustable(item) {
        return None;
    }
    item.trigger.resolve_step(delta)
}

/// The middle column of `rect`, held inside `i32`.
pub open spec fn spec_center_x(rect: Rect) -> i32 {
    let c = rect.origin.x + trunc_div(rect.size.width as int, 2);
    if c > i32::MAX { i32::MAX } else if c < i32::MIN { i32::MIN } else { c as i32 }
}

/// The middle column of `rect`.
pub fn center_x(rect: Rect) -> (r: i32)
    ensures
        r == spec_center_x(rect),
{
    let c: i64 = rect.origin.x as i64 + rect.size.width as i64 / 2;
    if c > i32::MAX as i64 {
        i32::MAX
    } else if c < i32::MIN as i64 {
        i32::MIN
    } else {
        c as i32
    }
}

/// The focused interaction's message, for Confirm. **Confirm never fires a
/// control the keys move**; anything else resolves at the centre of its own
/// region.
pub fn focused_message<M: Clone, H: Chrome>(host: &H, interactions: &Interactions<M>, focus: usize) -> (r: Option<M>)
    ensures
        count_focusable(interactions.spec_items()) <= focus ==> r is None,
        forall|i: int|
            is_focus_position(interactions.spec_items(), focus as nat, i) ==> {
                let item = interactions.spec_items()[i];
                &&& item.mask.spec_contains(InputMask::adjust_spec()) ==> r is None
                &&& !item.mask.spec_contains(InputMask::adjust_spec()) ==> (r matches Some(m)
                    && resolves_to(host, item, spec_center_x(item.rect), m))
            },
{
    let item = match focused(interactions, focus) {
        Some(item) => item,
        None => {
            proof {
                assert forall|i: int| !is_focus_position(interactions.spec_items(), focus as nat, i) by {
                    if is_focus_position(interactions.spec_items(), focus as nat, i) {
                        crate::view::interaction::lemma_focus_position_below_count(
                            interactions.spec_items(),
                            focus as nat,
                            i,
                        );
                    }
                }
            }
            return None;
        },
    };
    proof {
        assert forall|i: int| is_focus_position(interactions.spec_items(), focus as nat, i) implies *item
            == interactions.spec_items()[i] by {
            let k = choose|k: int|
                is_focus_position(interactions.spec_items(), focus as nat, k) && *item
                    == interactions.spec_items()[k];
            crate::view::interaction::lemma_focus_position_unique(
                interactions.spec_items(),
                focus as nat,
                i,
                k,
            );
        }
    }
    if adjustable(item) {
        return None;
    }
    let x = center_x(item.rect);
    Some(item.trigger.resolve(host, item.rect, x))
}

} // verus!
