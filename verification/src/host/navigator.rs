//! Who owns the screen stack.
//!
//! Two of the things a screen needs are not drawing at all: what this screen
//! is called, and "I am done, go back". They depend on whoever owns the
//! navigation, which is a different question from what paints the pixels, so
//! they are kept off the chrome.
use vstd::prelude::*;

verus! {

/// The navigation a screen sits inside, holding screens of type `D`.
pub trait Navigator<D> {
    /// Whether a pop has been asked for and not yet acted on.
    spec fn spec_finishing(&self) -> bool;

    /// Whether a screen handed to `present` now would be taken.
    spec fn spec_accepts(&self) -> bool;

    /// This screen's own title, already translated.
    fn screen_title(&self) -> &'static str;

    /// Pops this screen.
    ///
    /// Called from inside a screen's own frame, so an implementation that owns
    /// the stack records the request and acts on it once the frame is over.
    fn finish(&mut self)
        ensures
            final(self).spec_finishing(),
    ;

    /// Pushes `screen` on top of this one.
    ///
    /// Returns `None` when the navigator took it, and hands it back when it
    /// cannot, so a caller can tell the difference. Same rule as `finish`:
    /// record, then act after the frame.
    fn present(&mut self, screen: D) -> (r: Option<D>)
        ensures
            r is None <==> old(self).spec_accepts(),
            r matches Some(back) ==> back == screen,
    ;
}

/// Pops the current screen, once the frame it is running in is over.
pub fn finish_screen<D, N: Navigator<D>>(navigator: &mut N)
    ensures
        final(navigator).spec_finishing(),
{
    navigator.finish()
}

/// Pushes `screen` on top of the current one.
///
/// Returns `false` when the navigator would not take it; the screen is
/// dropped in that case, having gone nowhere.
pub fn present<D, N: Navigator<D>>(navigator: &mut N, screen: D) -> (r: bool)
    ensures
        r == old(navigator).spec_accepts(),
{
    navigator.present(screen).is_none()
}

} // verus!
