//! The container's laws, each proved over the step predicates that the
//! executable operations promise in their contracts.

use crate::container::AnyCow;
use crate::factory::Factory;
use vstd::prelude::*;
use vstd::std_specs::cmp::OrdSpec;
use vstd::std_specs::cmp::PartialEqSpec;

verus! {

/// Reading a container that holds `x` yields exactly `x`, whatever variant
/// holds it.
pub proof fn lemma_read_yields_held_value<'a, T, F: Factory<T>>(
    pre: AnyCow<'a, T, F>,
    post: AnyCow<'a, T, F>,
    out: T,
    x: T,
)
    requires
        pre.ready(),
        pre.value() == x,
        AnyCow::read_step(pre, post, out),
    ensures
        out == x,
        post == pre,
{
}

/// The first read of an uninitialized lazy container hands out a value its
/// producer may return; with a producer pinned to return `x`, it hands out
/// exactly `x`.
pub proof fn lemma_lazy_first_read<'a, T, F: Factory<T>>(
    pre: AnyCow<'a, T, F>,
    post: AnyCow<'a, T, F>,
    out: T,
    x: T,
)
    requires
        !pre.ready(),
        AnyCow::read_step(pre, post, out),
        forall|t: T| pre.lazy_post(t) ==> t == x,
    ensures
        out == x,
        post.ready(),
        post is Lazy,
{
}

/// Reading twice without an intervening store yields the same value both
/// times, and the second read leaves the container untouched.
pub proof fn lemma_read_idempotent<'a, T, F: Factory<T>>(
    c0: AnyCow<'a, T, F>,
    c1: AnyCow<'a, T, F>,
    c2: AnyCow<'a, T, F>,
    r1: T,
    r2: T,
)
    requires
        AnyCow::read_step(c0, c1, r1),
        AnyCow::read_step(c1, c2, r2),
    ensures
        r2 == r1,
        c2 == c1,
{
}

/// Initialize-once: the first read of an uninitialized lazy container
/// installs a value its producer handed back, and every later read observes
/// that same value without consulting the producer again.
pub proof fn lemma_initialize_once<'a, T, F: Factory<T>>(
    c0: AnyCow<'a, T, F>,
    c1: AnyCow<'a, T, F>,
    c2: AnyCow<'a, T, F>,
    r1: T,
    r2: T,
)
    requires
        !c0.ready(),
        AnyCow::read_step(c0, c1, r1),
        AnyCow::read_step(c1, c2, r2),
    ensures
        c0.lazy_post(r1),
        r2 == r1,
        c2 == c1,
{
}

/// Replacement succeeds exactly on an updatable container or an initialized
/// lazy one, which afterwards holds the new value; a read after the
/// replacement hands that value out. An updatable container keeps its
/// variant.
pub proof fn lemma_replace_then_read<'a, T, F: Factory<T>>(
    pre: AnyCow<'a, T, F>,
    mid: AnyCow<'a, T, F>,
    post: AnyCow<'a, T, F>,
    v: T,
    r: Result<(), ()>,
    out: T,
)
    requires
        pre.replaceable(),
        AnyCow::replace_step(pre, mid, v, r),
        AnyCow::read_step(mid, post, out),
    ensures
        r is Ok,
        pre is Updatable ==> mid is Updatable,
        out == v,
{
}

/// Replacement on a container that is not updatable (and not an initialized
/// lazy container) reports the inapplicable operation and changes nothing.
pub proof fn lemma_replace_inapplicable<'a, T, F: Factory<T>>(
    pre: AnyCow<'a, T, F>,
    post: AnyCow<'a, T, F>,
    v: T,
    r: Result<(), ()>,
)
    requires
        !pre.replaceable(),
        AnyCow::replace_step(pre, post, v, r),
    ensures
        r is Err,
        post == pre,
{
}

/// Clone-on-write: requesting mutable access to a borrowed container hands
/// out a clone of the referenced value, never the reference itself, and the
/// container afterwards owns whatever was written; the caller-owned data the
/// borrow pointed at is only read, so `pre.value()` is what it was.
pub proof fn lemma_clone_on_write<'a, T: Clone, F: Factory<T>>(
    pre: AnyCow<'a, T, F>,
    post: AnyCow<'a, T, F>,
    start: T,
    end: T,
)
    requires
        pre is Borrowed,
        AnyCow::mut_step(pre, post, start, end),
    ensures
        post is Owned,
        post.value() == end,
        cloned::<T>(pre.value(), start),
{
}

/// Snapshot independence: after cloning, a replacement on the original is
/// invisible to the duplicate — reading the duplicate still yields the value
/// it captured at the clone.
pub proof fn lemma_clone_snapshot_independent<'a, T: Clone, F: Factory<T>>(
    c0: AnyCow<'a, T, F>,
    c1: AnyCow<'a, T, F>,
    dup: AnyCow<'a, T, F>,
    c1b: AnyCow<'a, T, F>,
    w: T,
    res: Result<(), ()>,
    d2: AnyCow<'a, T, F>,
    out: T,
)
    requires
        AnyCow::clone_step(c0, c1, dup),
        AnyCow::replace_step(c1, c1b, w, res),
        AnyCow::read_step(dup, d2, out),
    ensures
        out == dup.value(),
        cloned::<T>(c1.value(), dup.value()),
{
}

/// Round trip: consuming a container that holds `x` hands back `x` whenever
/// the element type's `Clone` is faithful (a clone is equal to its source).
pub proof fn lemma_into_owned_round_trip<'a, T: Clone, F: Factory<T>>(
    c: AnyCow<'a, T, F>,
    handed_back: T,
    x: T,
)
    requires
        c.ready(),
        c.value() == x,
        cloned::<T>(x, handed_back),
        forall|a: T, b: T| #[trigger] cloned::<T>(a, b) ==> a == b,
    ensures
        handed_back == x,
{
}

/// Cross-variant equality: two containers holding equal logical values
/// compare equal through `eq_value`, whichever variants hold them, whenever
/// the element type's equality agrees with logical equality.
pub proof fn lemma_cross_variant_eq<'a, 'b, T: PartialEq, F: Factory<T>, F2: Factory<T>>(
    pre1: AnyCow<'a, T, F>,
    post1: AnyCow<'a, T, F>,
    pre2: AnyCow<'b, T, F2>,
    post2: AnyCow<'b, T, F2>,
    r: bool,
)
    requires
        vstd::laws_eq::obeys_concrete_eq::<T>(),
        pre1.ready(),
        pre2.ready(),
        pre1.value() == pre2.value(),
        AnyCow::touch_step(pre1, post1),
        AnyCow::touch_step(pre2, post2),
        T::obeys_eq_spec() ==> r == post1.value().eq_spec(&post2.value()),
    ensures
        r,
{
    reveal(vstd::laws_eq::obeys_concrete_eq);
}

/// Cross-variant ordering: two containers holding equal logical values
/// compare `Equal` through `cmp_value`, whichever variants hold them,
/// whenever the element type's ordering obeys the usual laws and its
/// equality agrees with logical equality.
pub proof fn lemma_cross_variant_cmp<'a, 'b, T: Ord, F: Factory<T>, F2: Factory<T>>(
    pre1: AnyCow<'a, T, F>,
    post1: AnyCow<'a, T, F>,
    pre2: AnyCow<'b, T, F2>,
    post2: AnyCow<'b, T, F2>,
    r: core::cmp::Ordering,
)
    requires
        vstd::laws_eq::obeys_concrete_eq::<T>(),
        vstd::laws_cmp::obeys_cmp::<T>(),
        pre1.ready(),
        pre2.ready(),
        pre1.value() == pre2.value(),
        AnyCow::touch_step(pre1, post1),
        AnyCow::touch_step(pre2, post2),
        T::obeys_cmp_spec() ==> r == post1.value().cmp_spec(&post2.value()),
    ensures
        r == core::cmp::Ordering::Equal,
{
    reveal(vstd::laws_eq::obeys_concrete_eq);
    reveal(vstd::laws_cmp::obeys_cmp_partial_ord);
    reveal(vstd::laws_cmp::obeys_cmp_ord);
}

} // verus!
