//! A screen stack the framework owns, for a host that has none of its own.
//!
//! A firmware with an activity stack drives one screen at a time and needs
//! nothing here. Everything else, a desktop simulator or a bare-metal binary,
//! has no such owner, and this is it.
//!
//! What a screen asks of the navigation lands in an [`AppShell`] during the
//! frame, and the [`App`] acts on it once the frame is over, so `finish`,
//! called from inside a frame, never pops the screen that is running.
use vstd::prelude::*;

use crate::host::chrome::{Chrome, PaintRequest, request_update};
use crate::host::navigator::Navigator;
use crate::host::clock::millis;
use crate::host::input::Input;
use crate::host::Host;
use crate::screen::driver::Driver;

verus! {

/// What a running screen asks for, held until the frame it asked in is over:
/// a pop, a push, a repaint, and the title of the screen on top.
#[verifier::reject_recursive_types(D)]
pub struct AppShell<D> {
    finish: bool,
    pending: Option<D>,
    title: &'static str,
    paint: PaintRequest,
}

impl<D> AppShell<D> {
    /// Whether a pop was asked for.
    pub closed spec fn spec_finish(&self) -> bool {
        self.finish
    }

    /// The screen queued to be pushed.
    pub closed spec fn spec_pending(&self) -> Option<D> {
        self.pending
    }

    /// The title of the screen on top.
    pub closed spec fn spec_title(&self) -> &'static str {
        self.title
    }

    /// Whether a repaint was asked for and not yet done.
    pub closed spec fn spec_needs_paint(&self) -> bool {
        self.paint.spec_needed()
    }

    /// Nothing asked for yet, under an empty title.
    pub fn new() -> (r: Self)
        ensures
            !r.spec_finish(),
            r.spec_pending() is None,
            r.spec_title()@ == Seq::<char>::empty(),
            !r.spec_needs_paint(),
    {
        proof {
            reveal_strlit("");
        }
        AppShell { finish: false, pending: None, title: "", paint: PaintRequest::new() }
    }

    /// Reads and clears the finish request.
    pub fn take_finish(&mut self) -> (r: bool)
        ensures
            r == old(self).spec_finish(),
            !final(self).spec_finish(),
            final(self).spec_pending() == old(self).spec_pending(),
            final(self).spec_title() == old(self).spec_title(),
            final(self).spec_needs_paint() == old(self).spec_needs_paint(),
    {
        let r = self.finish;
        self.finish = false;
        r
    }

    /// Takes the queued screen out before any of it runs: entering the new
    /// screen may present again, and an occupied slot would refuse that one.
    pub fn take_pending(&mut self) -> (r: Option<D>)
        ensures
            r == old(self).spec_pending(),
            final(self).spec_pending() is None,
            final(self).spec_finish() == old(self).spec_finish(),
            final(self).spec_title() == old(self).spec_title(),
            final(self).spec_needs_paint() == old(self).spec_needs_paint(),
    {
        self.pending.take()
    }

    /// Records the title of the screen now on top.
    fn set_title(&mut self, title: &'static str)
        ensures
            final(self).spec_title() == title,
            final(self).spec_finish() == old(self).spec_finish(),
            final(self).spec_pending() == old(self).spec_pending(),
            final(self).spec_needs_paint() == old(self).spec_needs_paint(),
    {
        self.title = title;
    }

    /// Asks for a repaint. E-ink does not refresh on its own.
    pub fn request_update<H: Chrome>(&mut self, host: &mut H)
        ensures
            final(self).spec_needs_paint(),
            final(self).spec_finish() == old(self).spec_finish(),
            final(self).spec_pending() == old(self).spec_pending(),
            final(self).spec_title() == old(self).spec_title(),
    {
        request_update(host, &mut self.paint)
    }

    /// Whether a repaint was asked for and not yet done.
    pub fn needs_paint(&self) -> (r: bool)
        ensures
            r == self.spec_needs_paint(),
    {
        self.paint.needed()
    }

    /// Marks the outstanding repaint as done.
    pub fn clear_needs_paint(&mut self)
        ensures
            !final(self).spec_needs_paint(),
            final(self).spec_finish() == old(self).spec_finish(),
            final(self).spec_pending() == old(self).spec_pending(),
            final(self).spec_title() == old(self).spec_title(),
    {
        self.paint.clear()
    }
}

impl<D> Navigator<D> for AppShell<D> {
    open spec fn spec_finishing(&self) -> bool {
        self.spec_finish()
    }

    open spec fn spec_accepts(&self) -> bool {
        self.spec_pending() is None
    }

    fn screen_title(&self) -> (r: &'static str)
        ensures
            r == self.spec_title(),
    {
        self.title
    }

    fn finish(&mut self)
        ensures
            final(self).spec_pending() == old(self).spec_pending(),
            final(self).spec_title() == old(self).spec_title(),
            final(self).spec_needs_paint() == old(self).spec_needs_paint(),
    {
        self.finish = true;
    }

    /// One push per frame: a second is handed back rather than overwriting
    /// the first, so a screen that pushed twice finds out.
    fn present(&mut self, screen: D) -> (r: Option<D>)
        ensures
            old(self).spec_pending() is None ==> final(self).spec_pending() == Some(screen),
            old(self).spec_pending() is Some ==> final(self).spec_pending() == old(self).spec_pending(),
            final(self).spec_finish() == old(self).spec_finish(),
            final(self).spec_title() == old(self).spec_title(),
            final(self).spec_needs_paint() == old(self).spec_needs_paint(),
    {
        if self.pending.is_some() {
            Some(screen)
        } else {
            self.pending = Some(screen);
            None
        }
    }
}

/// Whether `after` is `before` with every screen from `first` up painted
/// once more and every screen below it untouched.
pub open spec fn painted_from<H: Host, D: Driver<H>>(after: Seq<D>, before: Seq<D>, first: int) -> bool {
    &&& 0 <= first < after.len()
    &&& forall|i: int| first <= i < after.len() ==> #[trigger] after[i].spec_painted()
    &&& forall|i: int| first <= i < after.len() ==> #[trigger] after[i].spec_paints() == before[i].spec_paints() + 1
    &&& forall|i: int| 0 <= i < first ==> #[trigger] after[i] == before[i]
}

/// The text a title shows: the title, or nothing.
pub open spec fn title_text(title: Option<&'static str>) -> &'static str {
    match title {
        Some(t) => t,
        None => "",
    }
}

/// The title of the screen on top of `stack`, or nothing when it is empty.
pub open spec fn top_title<H: Host, D: Driver<H>>(stack: Seq<D>) -> &'static str {
    if stack.len() == 0 {
        ""
    } else {
        title_text(stack.last().spec_title())
    }
}

/// `hooks` after one more frame.
pub open spec fn framed(hooks: (nat, nat, nat, nat)) -> (nat, nat, nat, nat) {
    (hooks.0 + 1, hooks.1, hooks.2, hooks.3)
}

/// `hooks` after one more `on_enter`.
pub open spec fn entered(hooks: (nat, nat, nat, nat)) -> (nat, nat, nat, nat) {
    (hooks.0, hooks.1 + 1, hooks.2, hooks.3)
}

/// `hooks` after the home gesture was offered once more.
pub open spec fn homed(hooks: (nat, nat, nat, nat)) -> (nat, nat, nat, nat) {
    (hooks.0, hooks.1, hooks.2, hooks.3 + 1)
}

/// `hooks` after one more `on_exit`.
pub open spec fn exited(hooks: (nat, nat, nat, nat)) -> (nat, nat, nat, nat) {
    (hooks.0, hooks.1, hooks.2 + 1, hooks.3)
}

/// A stack of screens, and the frame loop that drives the top one.
#[verifier::reject_recursive_types(D)]
pub struct App<D> {
    stack: Vec<D>,
    shell: AppShell<D>,
    dirty: bool,
    keep_root: bool,
    home_at: Option<u32>,
    asked: Ghost<(bool, bool)>,
    home_claimed: Ghost<bool>,
    rendered: Ghost<Seq<int>>,
    left: Ghost<Option<D>>,
    presented: Ghost<Option<D>>,
}

impl<D> App<D> {
    /// The screens, bottom first.
    pub closed spec fn spec_stack(&self) -> Seq<D> {
        self.stack@
    }

    /// What the running screens have asked for.
    pub closed spec fn spec_shell(&self) -> AppShell<D> {
        self.shell
    }

    /// Whether the stack changed since it was last painted.
    pub closed spec fn spec_dirty(&self) -> bool {
        self.dirty
    }

    /// Whether the root screen refuses to be finished.
    pub closed spec fn spec_keep_root(&self) -> bool {
        self.keep_root
    }

    /// What the screens asked of the navigation in the last frame acted on:
    /// whether to finish the top screen, and whether to present another.
    pub closed spec fn spec_asked(&self) -> (bool, bool) {
        self.asked@
    }

    /// The positions in the stack the last paint rendered, in the order it
    /// rendered them.
    pub closed spec fn spec_rendered(&self) -> Seq<int> {
        self.rendered@
    }

    /// The screen the last frame's navigation popped, as it was after being
    /// told it exited, if one was.
    pub closed spec fn spec_left(&self) -> Option<D> {
        self.left@
    }

    /// The screen the last frame's navigation presented, as it was queued,
    /// if one was.
    pub closed spec fn spec_presented(&self) -> Option<D> {
        self.presented@
    }

    /// Whether the top screen claimed the last home gesture acted on.
    pub closed spec fn spec_home_claimed(&self) -> bool {
        self.home_claimed@
    }

    /// The clock reading of the frame whose home gesture was last acted on.
    pub closed spec fn spec_home_at(&self) -> Option<u32> {
        self.home_at
    }

    /// Whether the home gesture `host` reports was already acted on in this
    /// frame: a frame is told apart by the clock, so a host that calls
    /// `home_gesture` as well as `tick` for one gesture is answered once.
    pub open spec fn spec_home_acted<H: Host>(&self, host: &H) -> bool {
        host.spec_was_home_gesture() && self.spec_home_at() == Some(host.spec_millis())
    }

    /// Whether a pop requested now would be declined: only the root is left,
    /// the app keeps its root, and no screen is queued to replace it.
    pub open spec fn spec_declines_finish(&self, next: Option<D>) -> bool {
        self.spec_keep_root() && self.spec_stack().len() <= 1 && next is None
    }

    /// Starts an app showing `root`.
    pub fn new<H: Host>(host: &mut H, root: D) -> (r: Self)
        where D: Driver<H>,
        ensures
            r.spec_stack().len() == 1,
            r.spec_dirty(),
            !r.spec_keep_root(),
    {
        let mut app = App {
            stack: Vec::new(),
            shell: AppShell::new(),
            dirty: true,
            keep_root: false,
            home_at: None,
            asked: Ghost((false, false)),
            home_claimed: Ghost(false),
            rendered: Ghost(Seq::empty()),
            left: Ghost(None),
            presented: Ghost(None),
        };
        app.push(host, root);
        app
    }

    /// Refuses to finish the root screen, for a host with nothing underneath
    /// it.
    ///
    /// A window has somewhere to return to, so by default the last screen
    /// finishing ends the app. A device does not: a board that stops
    /// answering is indistinguishable from one that crashed. Declining the
    /// pop, rather than withholding Back, leaves the key's other meanings
    /// alone.
    pub fn keep_root(self) -> (r: Self)
        ensures
            r.spec_keep_root(),
            r.spec_stack() == self.spec_stack(),
            r.spec_dirty() == self.spec_dirty(),
            r.spec_shell() == self.spec_shell(),
    {
        App { keep_root: true, ..self }
    }

    /// Pushes a screen and shows it: its title becomes the shell's, and it is
    /// told it entered before it joins the stack.
    pub fn push<H: Host>(&mut self, host: &mut H, screen: D)
        where D: Driver<H>,
        ensures
            final(self).spec_left() == old(self).spec_left(),
            final(self).spec_presented() == old(self).spec_presented(),
            final(self).spec_home_claimed() == old(self).spec_home_claimed(),
            final(self).spec_asked() == old(self).spec_asked(),
            final(self).spec_stack().len() == old(self).spec_stack().len() + 1,
            final(self).spec_stack().take(old(self).spec_stack().len() as int) == old(self).spec_stack(),
            screen.spec_entering(final(self).spec_stack().last()),
            final(self).spec_stack().last().spec_hooks() == entered(screen.spec_hooks()),
            final(self).spec_shell().spec_title() == title_text(screen.spec_title()),
            final(self).spec_dirty(),
            final(self).spec_keep_root() == old(self).spec_keep_root(),
            final(self).spec_home_at() == old(self).spec_home_at(),
    {
        let title = match screen.title() {
            Some(title) => title,
            None => "",
        };
        self.shell.set_title(title);
        let mut screen = screen;
        screen.on_enter(host, &mut self.shell);
        self.stack.push(screen);
        self.dirty = true;
        proof {
            assert(self.stack@.take(old(self).stack@.len() as int) =~= old(self).stack@);
        }
    }

    /// Pops the top screen, telling it it exited, and returns it rather than
    /// dropping it here. The title becomes that of the screen uncovered.
    fn pop<H: Host>(&mut self, host: &mut H) -> (r: Option<D>)
        where D: Driver<H>,
        ensures
            final(self).spec_left() == old(self).spec_left(),
            final(self).spec_presented() == old(self).spec_presented(),
            final(self).spec_home_claimed() == old(self).spec_home_claimed(),
            final(self).spec_asked() == old(self).spec_asked(),
            old(self).spec_stack().len() == 0 ==> {
                &&& r is None
                &&& final(self).spec_stack() == old(self).spec_stack()
                &&& final(self).spec_shell() == old(self).spec_shell()
                &&& final(self).spec_dirty() == old(self).spec_dirty()
            },
            old(self).spec_stack().len() > 0 ==> {
                &&& r matches Some(gone) && old(self).spec_stack().last().spec_exiting(gone) && gone.spec_hooks()
                    == exited(old(self).spec_stack().last().spec_hooks())
                &&& final(self).spec_stack() == old(self).spec_stack().drop_last()
                &&& final(self).spec_dirty()
                &&& final(self).spec_shell().spec_title() == top_title(final(self).spec_stack())
            },
            final(self).spec_keep_root() == old(self).spec_keep_root(),
            final(self).spec_home_at() == old(self).spec_home_at(),
    {
        let mut screen = match self.stack.pop() {
            Some(screen) => screen,
            None => return None,
        };
        screen.on_exit(host, &mut self.shell);
        let n = self.stack.len();
        let title = if n > 0 {
            match self.stack[n - 1].title() {
                Some(title) => title,
                None => "",
            }
        } else {
            ""
        };
        self.shell.set_title(title);
        self.dirty = true;
        Some(screen)
    }

    /// Whether any screen is left. The loop ends when the last one finishes.
    pub fn is_running(&self) -> (r: bool)
        ensures
            r == (self.spec_stack().len() > 0),
    {
        self.stack.len() > 0
    }

    /// How many screens are on the stack.
    pub fn depth(&self) -> (r: usize)
        ensures
            r == self.spec_stack().len(),
    {
        self.stack.len()
    }

    /// Whether the screen on top is a root this app refuses to finish.
    fn is_root_kept(&self) -> (r: bool)
        ensures
            r == (self.spec_keep_root() && self.spec_stack().len() <= 1),
    {
        self.keep_root && self.stack.len() <= 1
    }

    /// Whether the screen has changed since it was last painted, or a running
    /// screen asked for a repaint.
    pub fn is_dirty(&self) -> (r: bool)
        ensures
            r == (self.spec_dirty() || self.spec_shell().spec_needs_paint()),
    {
        self.dirty || self.shell.needs_paint()
    }

    /// Marks the screen as needing a repaint, for a host reacting to something
    /// the framework cannot see: a window resize, say.
    pub fn invalidate(&mut self)
        ensures
            final(self).spec_dirty(),
            final(self).spec_stack() == old(self).spec_stack(),
            final(self).spec_shell() == old(self).spec_shell(),
            final(self).spec_keep_root() == old(self).spec_keep_root(),
    {
        self.dirty = true;
    }

    /// What the running screens asked of the navigation.
    pub fn shell(&self) -> (r: &AppShell<D>)
        ensures
            *r == self.spec_shell(),
    {
        &self.shell
    }

    /// One frame: the system home gesture if the frame carries one not yet
    /// acted on, otherwise input for the top screen; then whatever navigation
    /// either asked for.
    pub fn tick<H: Host>(&mut self, host: &mut H)
        where D: Driver<H>,
        ensures
            final(self).spec_keep_root() == old(self).spec_keep_root(),
            final(self).spec_stack().len() <= old(self).spec_stack().len() + 1,
            old(self).spec_keep_root() && old(self).spec_stack().len() > 0 ==> final(self).spec_stack().len() > 0,
            old(host).spec_was_home_gesture() && !old(self).spec_home_acted(old(host)) ==> final(self).spec_home_at()
                == Some(old(host).spec_millis()),
            old(host).spec_was_home_gesture() && !old(self).spec_home_acted(old(host)) ==> {
                let n = old(self).spec_stack().len();
                let claimed = final(self).spec_home_claimed();
                let m = if !claimed && n > 1 { 1int } else { n as int };
                let intact = if claimed || n <= 1 { n - 1 } else { 1int };
                let (asked, pushed) = final(self).spec_asked();
                let popped = asked && !(old(self).spec_keep_root() && m <= 1 && !pushed) && m > 0;
                let kept = if popped { m - 1 } else { m };
                let below = if kept < intact { kept } else { intact };
                &&& final(self).spec_stack().len() == kept + if pushed { 1int } else { 0 }
                &&& below > 0 ==> final(self).spec_stack().take(below) == old(self).spec_stack().take(below)
                &&& (!popped && !pushed) ==> !final(self).spec_shell().spec_finish()
                    && final(self).spec_shell().spec_pending() is None
                &&& pushed == final(self).spec_presented() is Some
                &&& final(self).spec_presented() matches Some(screen) ==> {
                    &&& screen.spec_entering(final(self).spec_stack().last())
                    &&& final(self).spec_stack().last().spec_hooks() == entered(screen.spec_hooks())
                    &&& final(self).spec_shell().spec_title() == title_text(screen.spec_title())
                }
                &&& !pushed && (popped || (!claimed && n > 1)) ==> final(self).spec_shell().spec_title() == top_title(
                    final(self).spec_stack(),
                )
                &&& claimed && !popped && !pushed ==> final(self).spec_shell().spec_title() == old(
                    self,
                ).spec_shell().spec_title()
            },
            !(old(host).spec_was_home_gesture() && !old(self).spec_home_acted(old(host))) ==> final(self).spec_home_at()
                == old(self).spec_home_at(),
            !(old(host).spec_was_home_gesture() && !old(self).spec_home_acted(old(host))) && old(self).spec_stack().len()
                > 0 ==> {
                let n = old(self).spec_stack().len();
                let (asked, pushed) = final(self).spec_asked();
                let popped = asked && !(old(self).spec_keep_root() && n <= 1 && !pushed);
                let kept = if popped { n - 1 } else { n as int };
                &&& final(self).spec_stack().len() == kept + if pushed { 1int } else { 0 }
                &&& final(self).spec_stack().take(n - 1) == old(self).spec_stack().take(n - 1)
                &&& (popped || pushed) ==> final(self).spec_dirty()
                &&& (!popped && !pushed) ==> !final(self).spec_shell().spec_finish()
                    && final(self).spec_shell().spec_pending() is None
                &&& !popped ==> final(self).spec_stack()[n - 1].spec_hooks() == framed(
                    old(self).spec_stack()[n - 1].spec_hooks(),
                )
                &&& popped ==> (final(self).spec_left() matches Some(gone) && gone.spec_hooks() == exited(
                    framed(old(self).spec_stack()[n - 1].spec_hooks()),
                ))
                &&& pushed == final(self).spec_presented() is Some
                &&& final(self).spec_presented() matches Some(screen) ==> {
                    &&& screen.spec_entering(final(self).spec_stack().last())
                    &&& final(self).spec_stack().last().spec_hooks() == entered(screen.spec_hooks())
                    &&& final(self).spec_shell().spec_title() == title_text(screen.spec_title())
                }
                &&& (popped && !pushed) ==> final(self).spec_shell().spec_title() == top_title(
                    final(self).spec_stack(),
                )
                &&& !popped && final(self).spec_stack()[n - 1].spec_repaint() ==> final(self).spec_dirty()
                    || final(self).spec_shell().spec_needs_paint()
            },
    {
        if Input::was_home_gesture(&*host) && !self.home_acted(&*host) {
            self.home_gesture(host);
        } else {
            match self.stack.pop() {
                Some(top) => {
                    let mut top = top;
                    top.loop_(host, &mut self.shell);
                    self.stack.push(top);
                    proof {
                        let n = old(self).stack@.len();
                        assert(self.stack@[n - 1].spec_hooks() == framed(old(self).stack@[n - 1].spec_hooks()));
                    }
                    proof {
                        assert(self.stack@.take(old(self).stack@.len() - 1) =~= old(self).stack@.take(
                            old(self).stack@.len() - 1,
                        ));
                    }
                },
                None => {},
            }
        }
        let ghost mid = self.stack@;
        self.after_frame(host);
        proof {
            let n = old(self).stack@.len();
            if n > 0 && self.stack@.len() >= n && self.stack@.take(n as int) == mid.take(n as int) {
                assert(self.stack@[n - 1] == self.stack@.take(n as int)[n - 1]);
            }
        }
    }

    /// Whether the home gesture `host` reports was already acted on in this
    /// frame.
    fn home_acted<H: Host>(&self, host: &H) -> (r: bool)
        ensures
            r == self.spec_home_acted(host),
    {
        if !Input::was_home_gesture(host) {
            return false;
        }
        match self.home_at {
            Some(at) => at == millis(host),
            None => false,
        }
    }

    /// Acts on what the frame asked for: pop, then push.
    ///
    /// Pop before push, so a screen that finishes itself and opens a
    /// replacement in one frame ends up with the replacement on top of the
    /// screen it came from. Both requests are read, and cleared, before either
    /// is acted on, even when the pop is declined: a finish left set would fire
    /// against whatever was pushed next, frames later. A kept root being
    /// *replaced* is not being emptied, so it pops as usual and the replacement
    /// becomes the new root.
    pub fn after_frame<H: Host>(&mut self, host: &mut H)
        where D: Driver<H>,
        ensures
            ({
                let asked = old(self).spec_shell().spec_finish();
                let next = old(self).spec_shell().spec_pending();
                let n = old(self).spec_stack().len();
                let popped = asked && !old(self).spec_declines_finish(next) && n > 0;
                let kept = if popped { n - 1 } else { n as int };
                &&& final(self).spec_stack().len() == kept + if next is Some { 1int } else { 0 }
                &&& final(self).spec_stack().take(kept) == old(self).spec_stack().take(kept)
                &&& (popped || next is Some) ==> final(self).spec_dirty()
                &&& (!popped && next is None) ==> {
                    &&& !final(self).spec_shell().spec_finish()
                    &&& final(self).spec_shell().spec_pending() is None
                    &&& final(self).spec_shell().spec_needs_paint() == old(self).spec_shell().spec_needs_paint()
                    &&& final(self).spec_shell().spec_title() == old(self).spec_shell().spec_title()
                    &&& final(self).spec_stack() == old(self).spec_stack()
                    &&& final(self).spec_dirty() == old(self).spec_dirty()
                }
                &&& popped ==> (final(self).spec_left() matches Some(gone) && old(self).spec_stack().last().spec_exiting(
                    gone,
                ) && gone.spec_hooks() == exited(old(self).spec_stack().last().spec_hooks()))
                &&& !popped ==> final(self).spec_left() is None
                &&& final(self).spec_presented() == next
                &&& next matches Some(screen) ==> {
                    &&& screen.spec_entering(final(self).spec_stack().last())
                    &&& final(self).spec_stack().last().spec_hooks() == entered(screen.spec_hooks())
                    &&& final(self).spec_shell().spec_title() == title_text(screen.spec_title())
                }
                &&& (popped && next is None) ==> final(self).spec_shell().spec_title() == top_title(
                    final(self).spec_stack(),
                )
            }),
            final(self).spec_keep_root() == old(self).spec_keep_root(),
            final(self).spec_home_at() == old(self).spec_home_at(),
            final(self).spec_asked() == (old(self).spec_shell().spec_finish(), old(self).spec_shell().spec_pending() is Some),
            final(self).spec_home_claimed() == old(self).spec_home_claimed(),
    {
        let asked = self.shell.take_finish();
        let next = self.shell.take_pending();
        let ghost pushed = next is Some;
        let keep = self.is_root_kept() && next.is_none();
        let ghost before = self.stack@;
        let finished = if asked && !keep {
            self.pop(host)
        } else {
            None
        };
        self.left = Ghost(finished);
        self.presented = Ghost(next);
        let ghost middle = self.stack@;
        proof {
            assert(middle.take(middle.len() as int) =~= middle);
            if asked && !keep && before.len() > 0 {
                assert(middle =~= before.take(before.len() - 1));
            } else {
                assert(middle =~= before.take(before.len() as int));
            }
        }
        match next {
            Some(next) => {
                self.push(host, next);
                proof {
                    assert(self.stack@.take(middle.len() as int) =~= middle);
                }
            },
            None => {},
        }
        self.asked = Ghost((asked, pushed));
    }

    /// Paints the top screen, and whatever it is transparent over.
    ///
    /// An overlay does not clear, so whatever sits under it is painted first,
    /// bottom up. Capped one short of the stack, since the bottom screen has
    /// nothing beneath it to reveal.
    pub fn render<H: Host>(&mut self, host: &mut H)
        where D: Driver<H>,
        ensures
            !final(self).spec_dirty(),
            !final(self).spec_shell().spec_needs_paint(),
            final(self).spec_stack().len() == old(self).spec_stack().len(),
            final(self).spec_keep_root() == old(self).spec_keep_root(),
            old(self).spec_stack().len() == 0 ==> *final(host) == *old(host),
            final(self).spec_stack().len() > 0 ==> final(self).spec_stack().last().spec_painted(),
            old(self).spec_stack().len() == 0 ==> final(self).spec_rendered().len() == 0,
            old(self).spec_stack().len() > 0 ==> {
                let order = final(self).spec_rendered();
                let n = old(self).spec_stack().len();
                let first = n - order.len();
                &&& 0 < order.len() <= n
                &&& forall|k: int| 0 <= k < order.len() ==> #[trigger] order[k] == first + k
                &&& forall|i: int| first < i < n ==> #[trigger] old(self).spec_stack()[i].spec_overlay()
                &&& first == 0 || !old(self).spec_stack()[first].spec_overlay()
                &&& painted_from::<H, D>(final(self).spec_stack(), old(self).spec_stack(), first)
            },
    {
        self.dirty = false;
        self.shell.clear_needs_paint();
        self.rendered = Ghost(Seq::empty());
        let n = self.stack.len();
        if n == 0 {
            return ;
        }
        let mut overlays: usize = 0;
        while overlays < n - 1 && self.stack[n - 1 - overlays].is_overlay()
            invariant
                n == self.stack@.len(),
                self.stack@ == old(self).stack@,
                n > 0,
                overlays <= n - 1,
                forall|k: int| 0 <= k < overlays ==> #[trigger] self.stack@[n - 1 - k].spec_overlay(),
                !self.dirty,
                !self.shell.spec_needs_paint(),
                self.keep_root == old(self).keep_root,
                self.rendered@.len() == 0,
            decreases n - 1 - overlays,
        {
            overlays = overlays + 1;
        }
        let first = n - 1 - overlays;
        let ghost start = self.stack@;
        let mut index = first;
        while index < n
            invariant
                n == self.stack@.len(),
                first <= index <= n,
                first < n,
                n > 0,
                start == old(self).stack@,
                index == n ==> self.stack@[n - 1].spec_painted(),
                forall|i: int| first <= i < index ==> #[trigger] self.stack@[i].spec_painted(),
                forall|i: int|
                    first <= i < index ==> #[trigger] self.stack@[i].spec_paints() == start[i].spec_paints() + 1,
                forall|i: int| 0 <= i < first ==> #[trigger] self.stack@[i] == start[i],
                forall|i: int| index <= i < n ==> #[trigger] self.stack@[i] == start[i],
                self.rendered@.len() == index - first,
                forall|k: int| 0 <= k < self.rendered@.len() ==> #[trigger] self.rendered@[k] == first + k,
                !self.dirty,
                !self.shell.spec_needs_paint(),
                self.keep_root == old(self).keep_root,
            decreases n - index,
        {
            self.stack[index].render(host);
            self.rendered = Ghost(self.rendered@.push(index as int));
            index = index + 1;
        }
        proof {
            assert(painted_from::<H, D>(self.stack@, old(self).stack@, first as int));
            assert(painted_from::<H, D>(self.spec_stack(), old(self).spec_stack(), first as int));
            assert(n - self.spec_rendered().len() == first);
            assert forall|i: int| first < i < n implies #[trigger] old(self).spec_stack()[i].spec_overlay() by {
                assert(old(self).stack@[n - 1 - (n - 1 - i)].spec_overlay());
            }
        }
    }

    /// Paints only when something changed. E-ink takes a second or more to
    /// refresh, so an unconditional repaint is not free. Returns whether it
    /// painted.
    pub fn render_if_dirty<H: Host>(&mut self, host: &mut H) -> (r: bool)
        where D: Driver<H>,
        ensures
            r == ((old(self).spec_dirty() || old(self).spec_shell().spec_needs_paint()) && old(self).spec_stack().len() > 0),
            r ==> !final(self).spec_dirty() && !final(self).spec_shell().spec_needs_paint(),
            !r ==> *final(self) == *old(self) && *final(host) == *old(host),
    {
        if !self.is_dirty() || self.stack.len() == 0 {
            return false;
        }
        self.render(host);
        true
    }

    /// Offers the system home gesture to the top screen, and pops everything
    /// down to the root if nothing claims it.
    ///
    /// A gesture already acted on in this frame, by `tick` or by an earlier
    /// call, is not acted on again.
    pub fn home_gesture<H: Host>(&mut self, host: &mut H)
        where D: Driver<H>,
        ensures
            old(self).spec_home_acted(old(host)) ==> *final(self) == *old(self) && *final(host) == *old(host),
            !old(self).spec_home_acted(old(host)) ==> {
                &&& final(self).spec_home_at() == Some(old(host).spec_millis())
                &&& final(self).spec_home_claimed() == (old(self).spec_stack().len() > 0 && old(
                    self,
                ).spec_stack().last().spec_claims_home())
                &&& final(self).spec_home_claimed() ==> {
                    &&& final(self).spec_stack().last().spec_hooks() == homed(old(self).spec_stack().last().spec_hooks())
                    &&& final(self).spec_shell().spec_title() == old(self).spec_shell().spec_title()
                }
                &&& !final(self).spec_home_claimed() && old(self).spec_stack().len() == 1
                    ==> final(self).spec_stack()[0].spec_hooks() == homed(old(self).spec_stack()[0].spec_hooks())
                &&& (final(self).spec_stack().len() == old(self).spec_stack().len() && (old(self).spec_stack().len()
                    > 0 ==> final(self).spec_stack().take(old(self).spec_stack().len() - 1) == old(
                    self,
                ).spec_stack().take(old(self).spec_stack().len() - 1))) || (old(
                    self,
                ).spec_stack().len() > 1 && final(self).spec_stack() == old(self).spec_stack().take(1))
                &&& final(self).spec_home_claimed() ==> old(self).spec_stack().len() > 0
                    && final(self).spec_stack().len() == old(self).spec_stack().len()
                &&& !final(self).spec_home_claimed() && old(self).spec_stack().len() > 1 ==> final(self).spec_stack()
                    == old(self).spec_stack().take(1)
                &&& !final(self).spec_home_claimed() && old(self).spec_stack().len() > 1
                    ==> final(self).spec_shell().spec_title() == top_title(final(self).spec_stack())
                &&& !final(self).spec_home_claimed() && old(self).spec_stack().len() <= 1
                    ==> final(self).spec_stack().len() == old(self).spec_stack().len()
            },
            final(self).spec_keep_root() == old(self).spec_keep_root(),
    {
        if self.home_acted(&*host) {
            return ;
        }
        self.home_at = Some(millis(&*host));
        self.home_claimed = Ghost(false);
        let n = self.stack.len();
        if n > 0 {
            let claimed = self.stack[n - 1].handle_home_gesture(host, &mut self.shell);
            self.home_claimed = Ghost(claimed);
            if claimed {
                proof {
                    assert(self.stack@.take(n - 1) =~= old(self).stack@.take(n - 1));
                }
                return ;
            }
        }
        let ghost mid = self.stack@;
        proof {
            if n > 0 {
                assert(mid.take(n - 1) =~= old(self).stack@.take(n - 1));
            }
        }
        let mut popped: Vec<D> = Vec::new();
        while self.stack.len() > 1
            invariant
                n == old(self).stack@.len(),
                mid.len() == n,
                n > 0 ==> mid.take(n - 1) == old(self).stack@.take(n - 1),
                self.stack@.len() == n || (n > 1 && 1 <= self.stack@.len() < n),
                self.stack@ == mid.take(self.stack@.len() as int),
                self.keep_root == old(self).keep_root,
                self.home_at == Some(old(host).spec_millis()),
                !self.home_claimed@,
                self.stack@.len() < n ==> self.shell.spec_title() == top_title(self.stack@),
            decreases self.stack@.len(),
        {
            match self.pop(host) {
                Some(screen) => popped.push(screen),
                None => {},
            }
            proof {
                assert(self.stack@ =~= mid.take(self.stack@.len() as int));
            }
        }
        proof {
            if n > 1 {
                assert(mid.take(1) =~= mid.take(n - 1).take(1));
                assert(old(self).stack@.take(1) =~= old(self).stack@.take(n - 1).take(1));
            } else if n == 1 {
                assert(self.stack@.take(0) =~= old(self).stack@.take(0));
            }
        }
    }
}

} // verus!
