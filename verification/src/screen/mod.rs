//! Screens: the contract, the runtime that drives one, and the root views
//! that own a whole screen's chrome.

pub mod routing;
pub mod navigation;
pub mod runtime;
pub mod driver;

pub use driver::Driver;
pub use navigation::NavigationScreen;
pub use runtime::Runtime;

use vstd::prelude::*;

use crate::app::AppShell;
use crate::geometry::Point;
use crate::host::input::{Button, SwipeDir};
use crate::host::Host;

verus! {

/// What a screen's controls send back: one enum of messages per screen,
/// whatever host paints it and whatever stack holds it.
pub trait Messages {
    /// The screen's messages.
    type Message: Clone;
}

/// A screen, painted on `H` and living in a stack of `D`.
///
/// One enum of messages per screen, matched exhaustively in
/// [`update`](Screen::update). Everything a screen asks of the navigation it
/// asks through the [`AppShell`] it is handed, which acts once the frame is
/// over.
pub trait Screen<H: Host, D>: Messages + Sized {
    /// The tree `body` describes.
    type Body: crate::view::View<Self::Message, H>;

    /// Describes the screen. A pure function of `self`: no device writes.
    ///
    /// Called once per paint and once per frame that carries input. Built
    /// fresh rather than stored, so what is painted is never a tree another
    /// frame is halfway through replacing.
    fn body(&self) -> Self::Body;

    /// What applying `message` makes of this screen: holds of the screen as
    /// it was and as its `update` left it. Nothing, unless the screen says
    /// more.
    open spec fn spec_updating(&self, message: Self::Message, after: Self) -> bool {
        true
    }

    /// Applies a message. The only place state changes; the runtime repaints
    /// afterwards, so no screen asks for a repaint itself.
    fn update(&mut self, message: Self::Message, host: &mut H, shell: &mut AppShell<D>)
        ensures
            old(self).spec_updating(message, *final(self)),
    ;

    /// A key the runtime has not claimed, offered before it applies its own
    /// meaning. Return a message to consume it.
    ///
    /// Consulted first, so a screen that wants Up/Down for something other
    /// than moving focus simply says so.
    fn on_key(&self, key: Button) -> (r: Option<Self::Message>)
        default_ensures
            r is None,
    {
        let _ = key;
        None
    }

    /// A swipe, offered before the runtime gives it its own meaning. Return a
    /// message to consume it.
    fn on_swipe(&self, direction: SwipeDir) -> (r: Option<Self::Message>)
        default_ensures
            r is None,
    {
        let _ = direction;
        None
    }

    /// A touch that no control claimed. Return a message to consume it.
    fn on_background_tap(&self, point: Point) -> (r: Option<Self::Message>)
        default_ensures
            r is None,
    {
        let _ = point;
        None
    }

    /// Whether this screen paints over what is already on the panel.
    open spec fn spec_is_overlay(&self) -> bool {
        false
    }

    /// Whether this screen paints over what is already on the panel, leaving
    /// it visible beneath. Most screens answer `false`.
    fn is_overlay(&self) -> (r: bool)
        ensures
            r == self.spec_is_overlay(),
    ;

    /// The title this screen gives.
    open spec fn spec_title(&self) -> Option<&'static str> {
        None
    }

    /// This screen's title, for a host that keeps a stack of them.
    ///
    /// `'static` because a host may hold it past this frame. Leaving it `None`
    /// under a `NavigationScreen` with no title of its own draws an empty
    /// header band, because that is what the screen asked for.
    fn title(&self) -> (r: Option<&'static str>)
        ensures
            r == self.spec_title(),
    ;

    /// A frame happened.
    ///
    /// Called once per frame, before any input is considered, and on frames
    /// where nothing arrived at all: a countdown has nowhere else to notice a
    /// deadline passed. Ask the shell for a repaint if something changed.
    ///
    /// A tick does not change the frame's input: whatever it asks of the
    /// host, the keys, touches and clock it reports are the ones the runtime
    /// then routes.
    fn tick(&mut self, host: &mut H, shell: &mut AppShell<D>)
        ensures
            crate::host::same_input(&*old(host), &*final(host)),
        default_ensures
            *final(self) == *old(self),
            *final(host) == *old(host),
            *final(shell) == *old(shell),
    {
        let _ = host;
        let _ = shell;
    }

    /// What being pushed makes of this screen: holds of the screen as it was
    /// and as its `on_enter` left it. Nothing, unless the screen says more.
    open spec fn spec_entering(&self, after: Self) -> bool {
        true
    }

    /// The screen was pushed, before its first frame. A screen uncovered by a
    /// pop is not told. The shell's title stays as it was.
    fn on_enter(&mut self, host: &mut H, shell: &mut AppShell<D>)
        ensures
            old(self).spec_entering(*final(self)),
            final(shell).spec_title() == old(shell).spec_title(),
    ;

    /// What being popped makes of this screen: holds of the screen as it was
    /// and as its `on_exit` left it. Nothing, unless the screen says more.
    open spec fn spec_exiting(&self, after: Self) -> bool {
        true
    }

    /// The screen is being popped. A screen covered by a push is not told.
    fn on_exit(&mut self, host: &mut H, shell: &mut AppShell<D>)
        ensures
            old(self).spec_exiting(*final(self)),
    ;

    /// Whether this screen, as it stands, consumes the system home gesture.
    open spec fn spec_claims_home(&self) -> bool {
        false
    }

    /// The system home gesture. Return `true` to consume it; an overlay does,
    /// so the gesture dismisses the overlay rather than the screen below.
    /// Most screens answer `false`. The shell's title stays as it was.
    fn handle_home_gesture(&mut self, host: &mut H, shell: &mut AppShell<D>) -> (r: bool)
        ensures
            r == old(self).spec_claims_home(),
            final(shell).spec_title() == old(shell).spec_title(),
    ;
}

} // verus!
