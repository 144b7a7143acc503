//! The factory abstraction used by the lazy variant: a zero-argument producer
//! that is run at most once per container to obtain the initial value.

use vstd::prelude::*;

verus! {

/// A zero-argument producer of values of type `T`.
///
/// The lazy variant of the container stores one of these and runs it on the
/// first read. `callable` is the producer's own precondition; `post` describes
/// every value it may hand back.
pub trait Factory<T>: Sized {
    /// When the producer may be run.
    spec fn callable(&self) -> bool;

    /// What holds of a value the producer hands back.
    spec fn post(&self, value: T) -> bool;

    /// Run the producer once and hand back a value.
    fn produce(&self) -> (value: T)
        requires
            self.callable(),
        ensures
            self.post(value),
    ;
}

/// The placeholder producer of containers that never hold the lazy variant.
///
/// It can never be run: the four non-lazy constructors use this type as the
/// factory parameter's default, and no lazy container of this factory type can
/// be built through the public constructors.
pub struct NoFactory;

impl<T> Factory<T> for NoFactory {
    open spec fn callable(&self) -> bool {
        false
    }

    open spec fn post(&self, value: T) -> bool {
        true
    }

    fn produce(&self) -> (value: T) {
        vstd::pervasive::unreached()
    }
}

/// A producer backed by a plain closure (or function) of no arguments.
pub struct FnFactory<F> {
    /// The wrapped closure.
    pub f: F,
}

impl<T, F: Fn() -> T> Factory<T> for FnFactory<F> {
    open spec fn callable(&self) -> bool {
        call_requires(self.f, ())
    }

    open spec fn post(&self, value: T) -> bool {
        call_ensures(self.f, (), value)
    }

    fn produce(&self) -> (value: T) {
        (self.f)()
    }
}

} // verus!
