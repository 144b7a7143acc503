//! A polymorphic value container for data read far more often than it is
//! replaced: one logical value held under one of five storage strategies —
//! a zero-copy borrow, an exclusively owned heap value, a reference-counted
//! shared value, a lock-free atomically replaceable value, and a one-time
//! lazily initialized value.

mod container;
mod factory;
mod guard;
mod laws;
mod slot;

pub use container::AnyCow;
pub use factory::Factory;
pub use factory::FnFactory;
pub use factory::NoFactory;
pub use guard::AnyCowRef;
pub use laws::lemma_clone_on_write;
pub use laws::lemma_clone_snapshot_independent;
pub use laws::lemma_cross_variant_cmp;
pub use laws::lemma_cross_variant_eq;
pub use laws::lemma_initialize_once;
pub use laws::lemma_into_owned_round_trip;
pub use laws::lemma_lazy_first_read;
pub use laws::lemma_read_idempotent;
pub use laws::lemma_read_yields_held_value;
pub use laws::lemma_replace_inapplicable;
pub use laws::lemma_replace_then_read;
pub use slot::LazySlot;
pub use slot::UpdatableSlot;
