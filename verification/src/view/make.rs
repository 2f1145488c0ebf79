//! How a control builds the screen's message from a number.
use vstd::prelude::*;

use std::rc::Rc;

verus! {

/// Builds a screen's message from a value: the constructor a control is given
/// for the message it sends, such as the one a slider sends with its new
/// position.
///
/// Implemented by the screen, usually for a unit struct standing for one of
/// its message variants.
pub trait Make<A, M> {
    /// The message built from `value`.
    spec fn made(&self, value: A) -> M;

    /// Builds the message for `value`.
    fn make(&self, value: A) -> (r: M)
        ensures
            r == self.made(value),
    ;
}

/// Another handle on the value `shared` points at: `Rc::clone`, which makes
/// a new pointer to the same allocation rather than copying what it holds.
#[verifier::external_body]
fn share<T>(shared: &Rc<T>) -> (r: Rc<T>)
    ensures
        r == *shared,
{
    shared.clone()
}

/// A constructor behind a trait object.
#[verifier::reject_recursive_types(A)]
#[verifier::reject_recursive_types(M)]
struct Erased<A, M> {
    make: Box<dyn Make<A, M>>,
}

impl<A, M> Erased<A, M> {
    /// What the constructor builds from `value`.
    closed spec fn spec_make(&self, value: A) -> M {
        self.make.made(value)
    }

    /// Builds the message for `value`.
    fn make(&self, value: A) -> (r: M)
        ensures
            r == self.spec_make(value),
    {
        self.make.make(value)
    }
}

/// `Box::new`, handing the box out as a trait object: calls through the
/// trait object run `make`'s own implementation, so it builds exactly what
/// `make` builds.
#[verifier::external_body]
fn boxed<A, M, F: Make<A, M> + 'static>(make: F) -> (r: Erased<A, M>)
    ensures
        forall|value: A| #[trigger] r.spec_make(value) == make.made(value),
{
    Erased { make: Box::new(make) }
}

/// A message constructor with its type erased, as a control carries one.
#[verifier::reject_recursive_types(A)]
#[verifier::reject_recursive_types(M)]
pub struct Maker<A, M> {
    inner: Rc<Erased<A, M>>,
}

impl<A, M> Maker<A, M> {
    /// The message this constructor builds from `value`.
    pub closed spec fn spec_make(&self, value: A) -> M {
        self.inner.spec_make(value)
    }

    /// Erases the type of `make`.
    pub fn new<F: Make<A, M> + 'static>(make: F) -> (r: Maker<A, M>)
        ensures
            forall|value: A| #[trigger] r.spec_make(value) == make.made(value),
    {
        Maker { inner: Rc::new(boxed(make)) }
    }

    /// Builds the message for `value`.
    pub fn make(&self, value: A) -> (r: M)
        ensures
            r == self.spec_make(value),
    {
        self.inner.make(value)
    }

    /// A second handle on the same constructor, for a control that declares
    /// more than one region sending the same message.
    pub fn share(&self) -> (r: Maker<A, M>)
        ensures
            forall|value: A| #[trigger] r.spec_make(value) == self.spec_make(value),
    {
        Maker { inner: share(&self.inner) }
    }
}

/// A constructor a control keeps, handing out a handle on it per
/// declaration.
#[verifier::reject_recursive_types(A)]
#[verifier::reject_recursive_types(M)]
pub struct Minter<A, M> {
    maker: Maker<A, M>,
}

impl<A, M> Minter<A, M> {
    /// The message the kept constructor builds from `value`.
    pub closed spec fn spec_make(&self, value: A) -> M {
        self.maker.spec_make(value)
    }

    /// Keeps `make`, to hand out handles on.
    pub fn new<F: Make<A, M> + 'static>(make: F) -> (r: Minter<A, M>)
        ensures
            forall|value: A| #[trigger] r.spec_make(value) == make.made(value),
    {
        Minter { maker: Maker::new(make) }
    }

    /// A second keeper of the same constructor.
    pub fn share(&self) -> (r: Minter<A, M>)
        ensures
            forall|value: A| #[trigger] r.spec_make(value) == self.spec_make(value),
    {
        Minter { maker: self.maker.share() }
    }

    /// A handle on the kept constructor.
    pub fn mint(&self) -> (r: Maker<A, M>)
        ensures
            forall|value: A| #[trigger] r.spec_make(value) == self.spec_make(value),
    {
        self.maker.share()
    }
}

/// A constructor seen through a conversion: `outer` applied to what `inner`
/// builds. This is how a sub-component's controls send its parent's messages.
#[verifier::reject_recursive_types(N)]
pub struct Composed<N, C> {
    /// Builds the sub-component's message.
    pub inner: Maker<i32, N>,
    /// Turns it into the parent's.
    pub outer: C,
}

impl<N: 'static, M: 'static, C: Make<N, M> + Copy + 'static> Make<i32, M> for Composed<N, C> {
    open spec fn made(&self, value: i32) -> M {
        self.outer.made(self.inner.spec_make(value))
    }

    fn make(&self, value: i32) -> (r: M) {
        let inner = self.inner.make(value);
        self.outer.make(inner)
    }
}

} // verus!

