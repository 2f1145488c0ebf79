//! A screen with its type erased behind the stack that holds it.
//!
//! A [`Screen`] describes its body with an associated type, so screens of
//! different kinds are never one type. A stack holds `Driver`s instead: a
//! [`Runtime`] driving one screen is one, and an application with screens of
//! several kinds makes an enum of their runtimes and forwards each call.
use vstd::prelude::*;

use crate::app::AppShell;
use crate::host::Host;
use crate::screen::runtime::Runtime;
use crate::screen::Screen;

verus! {

/// A screen as the stack that holds it drives it.
pub trait Driver<H: Host>: Sized {
    /// Whether the screen has been painted at least once.
    spec fn spec_painted(&self) -> bool;

    /// The title the screen gives.
    spec fn spec_title(&self) -> Option<&'static str>;

    /// Whether the screen paints over what is already on the panel.
    spec fn spec_overlay(&self) -> bool;

    /// Whether the screen, as it stands, consumes the system home gesture.
    spec fn spec_claims_home(&self) -> bool;

    /// How many frames it has run, and how many times it has been told it
    /// was pushed, told it is being popped, and offered the home gesture.
    spec fn spec_hooks(&self) -> (nat, nat, nat, nat);

    /// Whether the shell was asking for a repaint when the screen's last
    /// frame ended.
    spec fn spec_repaint(&self) -> bool;

    /// How many times the screen has been painted.
    spec fn spec_paints(&self) -> nat;

    /// What being pushed makes of the screen: holds of it as it was and as
    /// its `on_enter` left it.
    spec fn spec_entering(&self, after: Self) -> bool;

    /// What being popped makes of the screen: holds of it as it was and as
    /// its `on_exit` left it.
    spec fn spec_exiting(&self, after: Self) -> bool;

    /// The screen was pushed, before its first frame. The shell's title is
    /// left as it was.
    fn on_enter(&mut self, host: &mut H, shell: &mut AppShell<Self>)
        ensures
            old(self).spec_entering(*final(self)),
            final(self).spec_hooks() == ({
                let (frames, entries, exits, homes) = old(self).spec_hooks();
                (frames, entries + 1, exits, homes)
            }),
            final(shell).spec_title() == old(shell).spec_title(),
    ;

    /// One frame of input.
    fn loop_(&mut self, host: &mut H, shell: &mut AppShell<Self>)
        ensures
            final(self).spec_hooks() == ({
                let (frames, entries, exits, homes) = old(self).spec_hooks();
                (frames + 1, entries, exits, homes)
            }),
            final(self).spec_repaint() == final(shell).spec_needs_paint(),
    ;

    /// The screen is being popped.
    fn on_exit(&mut self, host: &mut H, shell: &mut AppShell<Self>)
        ensures
            old(self).spec_exiting(*final(self)),
            final(self).spec_hooks() == ({
                let (frames, entries, exits, homes) = old(self).spec_hooks();
                (frames, entries, exits + 1, homes)
            }),
    ;

    /// Paints the screen.
    fn render(&mut self, host: &mut H)
        ensures
            final(self).spec_painted(),
            final(self).spec_paints() == old(self).spec_paints() + 1,
            final(self).spec_hooks() == old(self).spec_hooks(),
            final(self).spec_title() == old(self).spec_title(),
            final(self).spec_overlay() == old(self).spec_overlay(),
    ;

    /// The system home gesture. Returns whether the screen consumed it. The
    /// shell's title is left as it was.
    fn handle_home_gesture(&mut self, host: &mut H, shell: &mut AppShell<Self>) -> (r: bool)
        ensures
            r == old(self).spec_claims_home(),
            final(self).spec_hooks() == ({
                let (frames, entries, exits, homes) = old(self).spec_hooks();
                (frames, entries, exits, homes + 1)
            }),
            final(shell).spec_title() == old(shell).spec_title(),
    ;

    /// This screen's title, for a host that shows one.
    fn title(&self) -> (r: Option<&'static str>)
        ensures
            r == self.spec_title(),
    ;

    /// Whether this screen paints over what is already on the panel, so the
    /// screen beneath must be painted first.
    fn is_overlay(&self) -> (r: bool)
        ensures
            r == self.spec_overlay(),
    ;
}

impl<H: Host, S: Screen<H, Runtime<S>>> Driver<H> for Runtime<S> {
    open spec fn spec_painted(&self) -> bool {
        self.spec_state().painted
    }

    open spec fn spec_title(&self) -> Option<&'static str> {
        self.spec_screen().spec_title()
    }

    open spec fn spec_overlay(&self) -> bool {
        self.spec_screen().spec_is_overlay()
    }

    open spec fn spec_claims_home(&self) -> bool {
        self.spec_screen().spec_claims_home()
    }

    open spec fn spec_hooks(&self) -> (nat, nat, nat, nat) {
        Runtime::spec_hooks(self)
    }

    open spec fn spec_repaint(&self) -> bool {
        Runtime::spec_repaint(self)
    }

    open spec fn spec_paints(&self) -> nat {
        Runtime::spec_paints(self)
    }

    open spec fn spec_entering(&self, after: Self) -> bool {
        &&& self.spec_screen().spec_entering(after.spec_screen())
        &&& after.spec_state() == self.spec_state()
        &&& after.spec_sent() == self.spec_sent()
        &&& after.spec_table() == self.spec_table()
    }

    open spec fn spec_exiting(&self, after: Self) -> bool {
        &&& self.spec_screen().spec_exiting(after.spec_screen())
        &&& after.spec_state() == self.spec_state()
        &&& after.spec_sent() == self.spec_sent()
        &&& after.spec_table() == self.spec_table()
    }

    fn on_enter(&mut self, host: &mut H, shell: &mut AppShell<Self>)
        ensures
            final(self).spec_state() == old(self).spec_state(),
    {
        self.enter::<H, Runtime<S>>(host, shell)
    }

    fn loop_(&mut self, host: &mut H, shell: &mut AppShell<Self>)
        ensures
            final(self).spec_state().painted == old(self).spec_state().painted,
            (old(self).spec_state().editing is Some || !old(self).spec_state().painted) ==> {
                &&& final(self).spec_state().hold is None
                &&& final(self).spec_state().dragging == old(self).spec_state().dragging
            },
    {
        Runtime::loop_::<H, Runtime<S>>(self, host, shell)
    }

    fn on_exit(&mut self, host: &mut H, shell: &mut AppShell<Self>)
        ensures
            final(self).spec_state() == old(self).spec_state(),
    {
        self.exit::<H, Runtime<S>>(host, shell)
    }

    fn render(&mut self, host: &mut H)
        ensures
            final(self).spec_screen() == old(self).spec_screen(),
            final(self).spec_state().painted,
            final(self).spec_state().dragging == old(self).spec_state().dragging,
            final(self).spec_state().repeat == old(self).spec_state().repeat,
            final(self).spec_state().editing == old(self).spec_state().editing,
            final(self).spec_state().hold == old(self).spec_state().hold,
    {
        Runtime::render::<H, Runtime<S>>(self, host)
    }

    fn handle_home_gesture(&mut self, host: &mut H, shell: &mut AppShell<Self>) -> (r: bool)
        ensures
            final(self).spec_state() == old(self).spec_state(),
    {
        self.home_gesture::<H, Runtime<S>>(host, shell)
    }

    fn title(&self) -> (r: Option<&'static str>) {
        self.screen_title::<H, Runtime<S>>()
    }

    fn is_overlay(&self) -> (r: bool) {
        self.screen_is_overlay::<H, Runtime<S>>()
    }
}

} // verus!
