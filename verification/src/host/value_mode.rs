//! What the runtime wants the hint bar to say, over whatever the screen asked
//! for.
//!
//! The screen builds the bar, but the screen does not know a value is open,
//! and must not: the mode belongs to the framework. So the runtime hands it to
//! the tree through the interactions walk, and the chrome reads it while
//! painting.
use vstd::prelude::*;

verus! {

/// What the focused control is doing, for the hint bar.
#[derive(Copy, Clone, Debug, PartialEq, Eq, Structural)]
pub enum ValueMode {
    /// Nothing is focused that a key could open. The screen's hints stand.
    Idle,
    /// The focused control can be opened: Confirm offers to.
    Openable,
    /// The focused control is open: Confirm keeps it, Back drops it.
    Open,
}

impl Default for ValueMode {
    fn default() -> (r: Self)
        ensures
            r == ValueMode::Idle,
    {
        ValueMode::Idle
    }
}

/// The mode a frame is in: open while an edit holds a value, openable when
/// Confirm would open the focused control, idle otherwise.
pub fn value_mode(editing: bool, openable: bool) -> (r: ValueMode)
    ensures
        editing ==> r == ValueMode::Open,
        !editing && openable ==> r == ValueMode::Openable,
        !editing && !openable ==> r == ValueMode::Idle,
{
    if editing {
        ValueMode::Open
    } else if openable {
        ValueMode::Openable
    } else {
        ValueMode::Idle
    }
}

} // verus!
