//! The five-variant value container and its promotion, replacement, and
//! comparison rules.

use crate::factory::{Factory, FnFactory, NoFactory};
use crate::guard::AnyCowRef;
use crate::slot::{LazySlot, UpdatableSlot};
use std::sync::Arc;
use vstd::prelude::*;
use vstd::std_specs::cmp::OrdSpec;
use vstd::std_specs::cmp::PartialEqSpec;
use vstd::std_specs::cmp::PartialOrdSpec;

verus! {

/// A container holding one logical value of type `T` under one of five
/// storage strategies. Reads are frequent and cheap; replacement is rare and
/// goes through an atomic slot; mutation promotes the container to `Owned`.
#[verifier::reject_recursive_types(T)]
pub enum AnyCow<'a, T, F = NoFactory> {
    /// A borrowed reference to caller-owned data; no allocation.
    Borrowed(&'a T),
    /// A heap value the container exclusively owns; mutable in place.
    Owned(Box<T>),
    /// A reference-counted handle to an immutable shared value.
    Shared(Arc<T>),
    /// An atomic slot holding the value; replace-only, never in-place.
    Updatable(UpdatableSlot<T>),
    /// An atomic slot that starts empty plus the producer that fills it on
    /// the first read; behaves like `Updatable` once initialized.
    Lazy(LazySlot<T, F>),
}

impl<'a, T, F> AnyCow<'a, T, F> {
    /// The logical value the container holds. For a lazy container this is
    /// meaningful only once `ready()` holds.
    pub open spec fn value(self) -> T {
        match self {
            AnyCow::Borrowed(r) => *r,
            AnyCow::Owned(b) => *b,
            AnyCow::Shared(a) => *a,
            AnyCow::Updatable(s) => s.value(),
            AnyCow::Lazy(s) => s.model()->0,
        }
    }

    /// Whether the container currently holds a value: true for every variant
    /// except a lazy container that has not been initialized yet.
    pub open spec fn ready(self) -> bool {
        self matches AnyCow::Lazy(s) ==> s.model() is Some
    }
}

impl<'a, T, F: Factory<T>> AnyCow<'a, T, F> {
    /// Validity: a lazy container's stored producer can be run. Every
    /// constructor establishes this and every operation preserves it.
    pub open spec fn wf(self) -> bool {
        self matches AnyCow::Lazy(s) ==> s.producer().callable()
    }

    /// What holds of a value the stored producer may hand back; meaningful
    /// only for the lazy variant.
    pub open spec fn lazy_post(self, value: T) -> bool {
        match self {
            AnyCow::Lazy(s) => s.producer().post(value),
            _ => true,
        }
    }

    /// Effect of an operation that only reads the container: an initialized
    /// container is left untouched; an uninitialized lazy container is
    /// initialized, once, to a value its producer may hand back.
    pub open spec fn touch_step(pre: Self, post: Self) -> bool {
        &&& post.ready()
        &&& post.wf()
        &&& pre.ready() ==> post == pre
        &&& !pre.ready() ==> {
            &&& pre matches AnyCow::Lazy(s) && post matches AnyCow::Lazy(t)
                && t.producer() == s.producer() && t.model() == Some(post.value())
            &&& pre.lazy_post(post.value())
        }
    }

    /// Effect of a read: `touch_step` plus the value handed out, which is
    /// exactly the value the container holds afterwards.
    pub open spec fn read_step(pre: Self, post: Self, out: T) -> bool {
        &&& Self::touch_step(pre, post)
        &&& out == post.value()
    }

    /// Which containers accept an atomic replacement.
    pub open spec fn replaceable(self) -> bool {
        ||| self is Updatable
        ||| self is Lazy && self.ready()
    }

    /// Effect of `try_replace`: success exactly on replaceable containers,
    /// which then hold `v`; every other container reports the inapplicable
    /// operation and is left untouched.
    pub open spec fn replace_step(pre: Self, post: Self, v: T, r: Result<(), ()>) -> bool {
        &&& r is Ok <==> pre.replaceable()
        &&& pre.replaceable() ==> {
            &&& post.ready()
            &&& post.value() == v
            &&& pre is Updatable ==> post is Updatable
            &&& pre matches AnyCow::Lazy(s) ==> post matches AnyCow::Lazy(t) && t.producer()
                == s.producer()
        }
        &&& !pre.replaceable() ==> post == pre
        &&& pre.wf() ==> post.wf()
    }
}

impl<'a, T: Clone, F: Factory<T>> AnyCow<'a, T, F> {
    /// Effect of `to_mut`: the container ends up `Owned`; the reference
    /// handed out starts at (a clone of) the held value, and whatever the
    /// caller leaves behind it is the container's new value.
    pub open spec fn mut_step(pre: Self, post: Self, start: T, end: T) -> bool {
        &&& pre.ready() ==> cloned::<T>(pre.value(), start)
        &&& !pre.ready() ==> pre is Lazy && pre.lazy_post(start)
        &&& post is Owned
        &&& post.value() == end
    }

    /// Effect of `clone`: the original is only touched (read, possibly
    /// initialized); the duplicate holds (a clone of) the same value, stored
    /// per variant, and shares no further state with the original.
    pub open spec fn clone_step(pre: Self, post: Self, dup: Self) -> bool {
        &&& Self::touch_step(pre, post)
        &&& dup.ready()
        &&& dup.wf()
        &&& cloned::<T>(post.value(), dup.value())
        &&& pre is Borrowed ==> dup is Borrowed && dup.value() == pre.value()
        &&& pre is Owned ==> dup is Owned
        &&& pre is Shared ==> dup is Shared && dup.value() == post.value()
        &&& pre is Updatable ==> dup is Shared && dup.value() == post.value()
        &&& pre is Lazy ==> dup is Updatable
    }
}

impl<'a, T> AnyCow<'a, T> {
    /// Wrap a borrowed reference; zero-cost, total.
    pub fn borrowed(value: &'a T) -> (c: Self)
        ensures
            c is Borrowed,
            c.value() == *value,
            c.ready(),
            c.wf(),
    {
        AnyCow::Borrowed(value)
    }

    /// Move a value into exclusively owned heap storage; total.
    pub fn owned(value: T) -> (c: Self)
        ensures
            c is Owned,
            c.value() == value,
            c.ready(),
            c.wf(),
    {
        AnyCow::Owned(Box::new(value))
    }

    /// Wrap an existing reference-counted handle; total.
    pub fn shared(value: Arc<T>) -> (c: Self)
        ensures
            c is Shared,
            c.value() == *value,
            c.ready(),
            c.wf(),
    {
        AnyCow::Shared(value)
    }

    /// Move a value into a fresh atomic slot open to replacement; total.
    pub fn updatable(value: T) -> (c: Self)
        ensures
            c is Updatable,
            c.value() == value,
            c.ready(),
            c.wf(),
    {
        AnyCow::Updatable(UpdatableSlot::new(value))
    }
}

impl<'a, T, F: Fn() -> T> AnyCow<'a, T, FnFactory<F>> {
    /// Store a producer beside an empty atomic slot; the producer runs on the
    /// first read, at most once per container.
    pub fn lazy(factory: F) -> (c: Self)
        requires
            call_requires(factory, ()),
        ensures
            c is Lazy,
            !c.ready(),
            c.wf(),
            forall|t: T| c.lazy_post(t) == call_ensures(factory, (), t),
    {
        AnyCow::Lazy(LazySlot::new(FnFactory { f: factory }))
    }
}

impl<'a, T, F> AnyCow<'a, T, F> {
    /// Whether the container borrows its value. Pure; never initializes.
    pub fn is_borrowed(&self) -> (r: bool)
        ensures
            r == (self is Borrowed),
    {
        matches!(self, AnyCow::Borrowed(_))
    }

    /// Whether the container owns its value exclusively. Pure.
    pub fn is_owned(&self) -> (r: bool)
        ensures
            r == (self is Owned),
    {
        matches!(self, AnyCow::Owned(_))
    }

    /// Whether the container holds a shared handle. Pure.
    pub fn is_shared(&self) -> (r: bool)
        ensures
            r == (self is Shared),
    {
        matches!(self, AnyCow::Shared(_))
    }

    /// Whether the container holds an always-full atomic slot. Pure.
    pub fn is_updatable(&self) -> (r: bool)
        ensures
            r == (self is Updatable),
    {
        matches!(self, AnyCow::Updatable(_))
    }

    /// Whether the container is the lazy variant, initialized or not. Pure;
    /// never triggers initialization.
    pub fn is_lazy(&self) -> (r: bool)
        ensures
            r == (self is Lazy),
    {
        matches!(self, AnyCow::Lazy(_))
    }
}

impl<'a, T, F: Factory<T>> AnyCow<'a, T, F> {
    /// Read the contained value through a guarded reference.
    ///
    /// Borrowed, owned, and shared storage hand out a direct reference; the
    /// two slot-backed variants hand out a pinned snapshot. On the first read
    /// of a lazy container the stored producer runs and its result is
    /// installed by one atomic install-if-empty step.
    pub fn borrow(&mut self) -> (r: AnyCowRef<'_, T>)
        requires
            old(self).wf(),
        ensures
            Self::read_step(*old(self), *final(self), r.value()),
    {
        match self {
            AnyCow::Borrowed(v) => AnyCowRef::Direct(*v),
            AnyCow::Owned(b) => AnyCowRef::Direct(&**b),
            AnyCow::Shared(a) => AnyCowRef::Direct(&**a),
            AnyCow::Updatable(s) => AnyCowRef::Guarded(s.load()),
            AnyCow::Lazy(s) => match s.load() {
                Some(a) => AnyCowRef::Guarded(a),
                None => {
                    let produced = s.produce_value();
                    AnyCowRef::Guarded(s.install(produced))
                },
            },
        }
    }

    /// Atomically replace the contained value.
    ///
    /// Succeeds exactly on an updatable container or an already-initialized
    /// lazy container; any other variant reports the inapplicable operation
    /// with `Err(())` and is left untouched.
    pub fn try_replace(&mut self, new_val: T) -> (r: Result<(), ()>)
        ensures
            Self::replace_step(*old(self), *final(self), new_val, r),
    {
        match self {
            AnyCow::Updatable(s) => {
                s.store(new_val);
                Ok(())
            },
            AnyCow::Lazy(s) => match s.load() {
                Some(_) => {
                    s.store(new_val);
                    Ok(())
                },
                None => Err(()),
            },
            _ => Err(()),
        }
    }
}

impl<'a, T: Clone, F: Factory<T>> AnyCow<'a, T, F> {
    /// Get exclusive mutable access, promoting the container to `Owned`
    /// first when it is not already owned (clone-on-write). Other holders of
    /// the same logical value never observe the mutation.
    pub fn to_mut(&mut self) -> (r: &mut T)
        requires
            old(self).wf(),
        ensures
            Self::mut_step(*old(self), *final(self), *r, *final(r)),
    {
        match self {
            AnyCow::Owned(b) => &mut **b,
            AnyCow::Borrowed(v) => {
                let t = (**v).clone();
                *self = AnyCow::Owned(Box::new(t));
                match self {
                    AnyCow::Owned(b) => &mut **b,
                    _ => vstd::pervasive::unreached(),
                }
            },
            AnyCow::Shared(a) => {
                let t = (**a).clone();
                *self = AnyCow::Owned(Box::new(t));
                match self {
                    AnyCow::Owned(b) => &mut **b,
                    _ => vstd::pervasive::unreached(),
                }
            },
            AnyCow::Updatable(s) => {
                let snapshot = s.load();
                let t = (*snapshot).clone();
                *self = AnyCow::Owned(Box::new(t));
                match self {
                    AnyCow::Owned(b) => &mut **b,
                    _ => vstd::pervasive::unreached(),
                }
            },
            AnyCow::Lazy(s) => {
                let t = match s.load() {
                    Some(snapshot) => (*snapshot).clone(),
                    None => s.produce_value(),
                };
                *self = AnyCow::Owned(Box::new(t));
                match self {
                    AnyCow::Owned(b) => &mut **b,
                    _ => vstd::pervasive::unreached(),
                }
            },
        }
    }

    /// Consume the container and hand the value back, cloning only when the
    /// storage is not exclusively owned. A shared handle held by nobody else
    /// gives the value up without a clone.
    pub fn into_owned(self) -> (r: T)
        requires
            self.wf(),
        ensures
            self.ready() ==> cloned::<T>(self.value(), r),
            !self.ready() ==> self is Lazy && self.lazy_post(r),
    {
        match self {
            AnyCow::Borrowed(v) => (*v).clone(),
            AnyCow::Owned(b) => *b,
            AnyCow::Shared(a) => match crate::slot::arc_try_unwrap(a) {
                Ok(t) => t,
                Err(handle) => (*handle).clone(),
            },
            AnyCow::Updatable(s) => {
                let snapshot = s.load();
                (*snapshot).clone()
            },
            AnyCow::Lazy(s) => match s.load() {
                Some(snapshot) => (*snapshot).clone(),
                None => s.produce_value(),
            },
        }
    }

    /// Hand back a reference-counted handle to the contained value, cloning
    /// the value only when the storage holds no handle already. A lazy
    /// container is initialized first if needed.
    pub fn to_arc(&mut self) -> (r: Arc<T>)
        requires
            old(self).wf(),
        ensures
            Self::touch_step(*old(self), *final(self)),
            cloned::<T>(final(self).value(), *r),
    {
        match self {
            AnyCow::Borrowed(v) => Arc::new((**v).clone()),
            AnyCow::Owned(b) => Arc::new((**b).clone()),
            AnyCow::Shared(a) => a.clone(),
            AnyCow::Updatable(s) => s.load(),
            AnyCow::Lazy(s) => match s.load() {
                Some(snapshot) => snapshot,
                None => {
                    let produced = s.produce_value();
                    s.install(produced)
                },
            },
        }
    }

    /// Build a container around a shared handle to the current value, while
    /// a borrowed container stays borrowed (the zero-cost case). The original
    /// is only read (a lazy one is initialized first if needed).
    pub fn to_shared(&mut self) -> (r: Self)
        requires
            old(self).wf(),
        ensures
            Self::touch_step(*old(self), *final(self)),
            *old(self) is Borrowed ==> r is Borrowed && r.value() == old(self).value(),
            !(*old(self) is Borrowed) ==> r is Shared && cloned::<T>(final(self).value(), r.value()),
            r.ready(),
            r.wf(),
    {
        match self {
            AnyCow::Borrowed(v) => AnyCow::Borrowed(*v),
            AnyCow::Owned(b) => AnyCow::Shared(Arc::new((**b).clone())),
            AnyCow::Shared(a) => AnyCow::Shared(a.clone()),
            AnyCow::Updatable(s) => AnyCow::Shared(s.load()),
            AnyCow::Lazy(s) => match s.load() {
                Some(snapshot) => AnyCow::Shared(snapshot),
                None => {
                    let produced = s.produce_value();
                    AnyCow::Shared(s.install(produced))
                },
            },
        }
    }

    /// Duplicate the container. A borrowed container copies the reference; an
    /// owned one clones the value; a shared one clones the cheap handle; an
    /// updatable one exposes the current snapshot as a new `Shared`; a lazy
    /// one is initialized if needed and duplicated as a fresh independent
    /// `Updatable` that shares no slot with the original. The duplicate never
    /// aliases the original's atomic slot, so later replacements on either
    /// side stay invisible to the other.
    ///
    /// This is `Clone::clone` in spirit; it takes `&mut self` because the
    /// first duplication of an uninitialized lazy container installs the
    /// produced value in the original's slot.
    pub fn clone(&mut self) -> (dup: Self)
        requires
            old(self).wf(),
        ensures
            Self::clone_step(*old(self), *final(self), dup),
    {
        match self {
            AnyCow::Borrowed(v) => AnyCow::Borrowed(*v),
            AnyCow::Owned(b) => AnyCow::Owned(Box::new((**b).clone())),
            AnyCow::Shared(a) => AnyCow::Shared(a.clone()),
            AnyCow::Updatable(s) => AnyCow::Shared(s.load()),
            AnyCow::Lazy(s) => {
                let snapshot = match s.load() {
                    Some(snapshot) => snapshot,
                    None => {
                        let produced = s.produce_value();
                        s.install(produced)
                    },
                };
                AnyCow::Updatable(UpdatableSlot::new((*snapshot).clone()))
            },
        }
    }
}

impl<'a, T: PartialEq, F: Factory<T>> AnyCow<'a, T, F> {
    /// Equality over the logical values, whatever variant holds each one.
    /// Both operands are materialized first, so an uninitialized lazy
    /// container is initialized by the comparison.
    pub fn eq_value<'b, F2: Factory<T>>(&mut self, other: &mut AnyCow<'b, T, F2>) -> (r: bool)
        requires
            old(self).wf(),
            old(other).wf(),
        ensures
            Self::touch_step(*old(self), *final(self)),
            AnyCow::<'b, T, F2>::touch_step(*old(other), *final(other)),
            T::obeys_eq_spec() ==> r == final(self).value().eq_spec(&final(other).value()),
    {
        let left = self.borrow();
        let right = other.borrow();
        *left.get() == *right.get()
    }
}

impl<'a, T: PartialOrd, F: Factory<T>> AnyCow<'a, T, F> {
    /// Partial ordering over the logical values, whatever variant holds each
    /// one; materializes both operands first.
    pub fn partial_cmp_value<'b, F2: Factory<T>>(
        &mut self,
        other: &mut AnyCow<'b, T, F2>,
    ) -> (r: Option<core::cmp::Ordering>)
        requires
            old(self).wf(),
            old(other).wf(),
        ensures
            Self::touch_step(*old(self), *final(self)),
            AnyCow::<'b, T, F2>::touch_step(*old(other), *final(other)),
            T::obeys_partial_cmp_spec() ==> r == final(self).value().partial_cmp_spec(
                &final(other).value(),
            ),
    {
        let left = self.borrow();
        let right = other.borrow();
        left.get().partial_cmp(right.get())
    }
}

impl<'a, T: Ord, F: Factory<T>> AnyCow<'a, T, F> {
    /// Total ordering over the logical values, whatever variant holds each
    /// one; materializes both operands first.
    pub fn cmp_value<'b, F2: Factory<T>>(
        &mut self,
        other: &mut AnyCow<'b, T, F2>,
    ) -> (r: core::cmp::Ordering)
        requires
            old(self).wf(),
            old(other).wf(),
        ensures
            Self::touch_step(*old(self), *final(self)),
            AnyCow::<'b, T, F2>::touch_step(*old(other), *final(other)),
            T::obeys_cmp_spec() ==> r == final(self).value().cmp_spec(&final(other).value()),
    {
        let left = self.borrow();
        let right = other.borrow();
        left.get().cmp(right.get())
    }
}

impl<'a, T> core::convert::From<T> for AnyCow<'a, T> {
    /// A raw value converts to `Owned`.
    fn from(value: T) -> (c: Self) {
        AnyCow::Owned(Box::new(value))
    }
}

impl<'a, T> vstd::std_specs::convert::FromSpecImpl<T> for AnyCow<'a, T> {
    open spec fn obeys_from_spec() -> bool {
        true
    }

    open spec fn from_spec(value: T) -> Self {
        AnyCow::Owned(Box::new(value))
    }
}

impl<'a, T> core::convert::From<&'a T> for AnyCow<'a, T> {
    /// A reference converts to `Borrowed`.
    fn from(value: &'a T) -> (c: Self) {
        AnyCow::Borrowed(value)
    }
}

impl<'a, T> vstd::std_specs::convert::FromSpecImpl<&'a T> for AnyCow<'a, T> {
    open spec fn obeys_from_spec() -> bool {
        true
    }

    open spec fn from_spec(value: &'a T) -> Self {
        AnyCow::Borrowed(value)
    }
}

impl<'a, T> core::convert::From<Arc<T>> for AnyCow<'a, T> {
    /// A shared handle converts to `Shared`.
    fn from(value: Arc<T>) -> (c: Self) {
        AnyCow::Shared(value)
    }
}

impl<'a, T> vstd::std_specs::convert::FromSpecImpl<Arc<T>> for AnyCow<'a, T> {
    open spec fn obeys_from_spec() -> bool {
        true
    }

    open spec fn from_spec(value: Arc<T>) -> Self {
        AnyCow::Shared(value)
    }
}

} // verus!
