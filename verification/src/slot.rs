//! The atomic slot adapter: thin wrappers around `arc_swap`'s lock-free cells.
//!
//! Each slot pairs the cell with a ghost mirror of its contents. A cell is
//! reached only through the methods below, and every method that changes the
//! cell takes `&mut self`, so the mirror stays in step with the cell; the
//! trusted contracts on the `external_body` methods record exactly that
//! correspondence and what `arc_swap`'s documentation promises of each call.

use crate::factory::Factory;
use std::sync::Arc;
use vstd::prelude::*;

verus! {


/// Relies on std's Arc::try_unwrap, as its documentation states it: hands the
/// inner value back when this was the only strong handle, else hands the same
/// handle back untouched. (vstd specifies the Rc counterpart, not this one.)
#[verifier::external_body]
pub(crate) fn arc_try_unwrap<T>(v: Arc<T>) -> (r: Result<T, Arc<T>>)
    ensures
        match r {
            Ok(t) => t == v,
            Err(e) => e == v,
        },
{
    Arc::try_unwrap(v)
}

/// Trusted holder of the cell backing the updatable variant.
#[verifier::external_body]
#[verifier::reject_recursive_types(T)]
struct UpdatableCell<T> {
    cell: arc_swap::ArcSwap<T>,
}

/// Relies on arc_swap::ArcSwapAny::from_pointee: builds a cell that holds a
/// fresh handle to exactly `value`.
#[verifier::external_body]
fn new_updatable_cell<T>(value: T) -> UpdatableCell<T> {
    UpdatableCell { cell: arc_swap::ArcSwap::from_pointee(value) }
}

/// The slot behind the updatable variant: an always-full lock-free cell.
#[verifier::reject_recursive_types(T)]
pub struct UpdatableSlot<T> {
    inner: UpdatableCell<T>,
    state: Ghost<T>,
}

impl<T> UpdatableSlot<T> {
    /// The value the slot currently holds.
    pub closed spec fn value(self) -> T {
        self.state@
    }

    pub(crate) fn new(value: T) -> (s: Self)
        ensures
            s.value() == value,
    {
        let ghost mirror = value;
        UpdatableSlot { inner: new_updatable_cell(value), state: Ghost(mirror) }
    }

    /// Relies on arc_swap::ArcSwapAny::load_full: hands back a new handle to
    /// the value the cell holds; the cell changes only through `&mut self`
    /// here, so that value is `self.value()`.
    #[verifier::external_body]
    pub(crate) fn load(&self) -> (r: Arc<T>)
        ensures
            *r == self.value(),
    {
        self.inner.cell.load_full()
    }

    /// Relies on arc_swap::ArcSwapAny::store: atomically installs a fresh
    /// handle to `value`; every later load hands that value back.
    #[verifier::external_body]
    pub(crate) fn store(&mut self, value: T)
        ensures
            final(self).value() == value,
    {
        self.inner.cell.store(Arc::new(value));
    }
}

/// Trusted holder of the cell backing the lazy variant.
#[verifier::external_body]
#[verifier::reject_recursive_types(T)]
struct LazyCell<T> {
    cell: arc_swap::ArcSwapOption<T>,
}

/// Relies on arc_swap::ArcSwapAny::empty: builds a cell that holds nothing.
#[verifier::external_body]
fn new_lazy_cell<T>() -> LazyCell<T> {
    LazyCell { cell: arc_swap::ArcSwapOption::empty() }
}

/// The slot behind the lazy variant: a cell that starts empty and the producer
/// that fills it on the first read. `model()` is `None` until the one-time
/// initialization installs a value.
#[verifier::reject_recursive_types(T)]
pub struct LazySlot<T, F> {
    inner: LazyCell<T>,
    factory: F,
    state: Ghost<Option<T>>,
}

impl<T, F> LazySlot<T, F> {
    /// What the slot holds: `None` before initialization.
    pub closed spec fn model(self) -> Option<T> {
        self.state@
    }

    /// The producer stored beside the cell.
    pub closed spec fn producer(self) -> F {
        self.factory
    }

    pub(crate) fn new(factory: F) -> (s: Self)
        ensures
            s.model() is None,
            s.producer() == factory,
    {
        LazySlot { inner: new_lazy_cell(), factory, state: Ghost(None) }
    }

    /// Relies on arc_swap::ArcSwapAny::load_full: hands back a handle to what
    /// the cell holds, or `None` while it is still empty; the cell changes
    /// only through `&mut self` here, so its contents are `self.model()`.
    #[verifier::external_body]
    pub(crate) fn load(&self) -> (r: Option<Arc<T>>)
        ensures
            match self.model() {
                Some(v) => r matches Some(a) && *a == v,
                None => r is None,
            },
    {
        self.inner.cell.load_full()
    }

    /// Relies on arc_swap::ArcSwapAny::compare_and_swap: one atomic
    /// install-if-still-empty step. It installs a handle to `value` only when
    /// the cell is empty, never overwrites an installed value, and hands back
    /// the handle the cell holds after the step.
    #[verifier::external_body]
    pub(crate) fn install(&mut self, value: T) -> (r: Arc<T>)
        ensures
            old(self).model() is None ==> *r == value && final(self).model() == Some(value),
            old(self).model() matches Some(v) ==> *r == v && final(self).model() == old(
                self,
            ).model(),
            final(self).producer() == old(self).producer(),
    {
        let handle = Arc::new(value);
        let prev = self.inner.cell.compare_and_swap(&None::<Arc<T>>, Some(Arc::clone(&handle)));
        match arc_swap::Guard::into_inner(prev) {
            None => handle,
            Some(existing) => existing,
        }
    }

    /// Relies on arc_swap::ArcSwapAny::store: atomically installs a fresh
    /// handle to `value`; every later load hands that value back.
    #[verifier::external_body]
    pub(crate) fn store(&mut self, value: T)
        ensures
            final(self).model() == Some(value),
            final(self).producer() == old(self).producer(),
    {
        self.inner.cell.store(Some(Arc::new(value)));
    }
}

impl<T, F: Factory<T>> LazySlot<T, F> {
    /// Run the stored producer once; verified glue between the container and
    /// the trusted install step.
    pub(crate) fn produce_value(&self) -> (value: T)
        requires
            self.producer().callable(),
        ensures
            self.producer().post(value),
    {
        self.factory.produce()
    }
}

} // verus!
