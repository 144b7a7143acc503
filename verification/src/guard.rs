//! The guarded reference: one dereference interface over a direct borrow and
//! a pinned snapshot taken from an atomic slot.

use std::sync::Arc;
use vstd::prelude::*;

verus! {

/// A read-access handle to the value inside a container.
///
/// `Direct` borrows storage the container already owns or references;
/// `Guarded` owns a handle to a snapshot taken from an atomic slot, so the
/// value stays alive and unchanged for the handle's lifetime even if the
/// container is replaced afterwards.
pub enum AnyCowRef<'a, T> {
    /// A direct reference into existing storage.
    Direct(&'a T),
    /// An independently owned snapshot of a slot's value.
    Guarded(Arc<T>),
}

impl<'a, T> AnyCowRef<'a, T> {
    /// The value the handle gives access to.
    pub open spec fn value(self) -> T {
        match self {
            AnyCowRef::Direct(r) => *r,
            AnyCowRef::Guarded(a) => *a,
        }
    }
}

impl<'a, T> AnyCowRef<'a, T> {
    /// Plain accessor form of the dereference.
    pub fn get(&self) -> (r: &T)
        ensures
            *r == self.value(),
    {
        match self {
            AnyCowRef::Direct(v) => v,
            AnyCowRef::Guarded(a) => &**a,
        }
    }
}

impl<'a, T> core::ops::Deref for AnyCowRef<'a, T> {
    type Target = T;

    fn deref(&self) -> (r: &T)
        ensures
            *r == self.value(),
    {
        self.get()
    }
}

} // verus!
