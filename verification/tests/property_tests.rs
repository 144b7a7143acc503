use anycow::AnyCow;
use std::cell::Cell;
use std::cmp::Ordering;
use std::rc::Rc;
use std::sync::Arc;

#[test]
fn construct_and_read_each_variant() {
    let x = String::from("payload");

    let mut borrowed = AnyCow::borrowed(&x);
    assert_eq!(*borrowed.borrow(), "payload");

    let mut owned = AnyCow::owned(x.clone());
    assert_eq!(*owned.borrow(), "payload");

    let mut shared = AnyCow::shared(Arc::new(x.clone()));
    assert_eq!(*shared.borrow(), "payload");

    let mut updatable = AnyCow::updatable(x.clone());
    assert_eq!(*updatable.borrow(), "payload");

    let seed = x.clone();
    let mut lazy = AnyCow::lazy(move || seed.clone());
    assert_eq!(*lazy.borrow(), "payload");
}

#[test]
fn cross_variant_equality_and_ordering() {
    let x = String::from("same");
    let mut borrowed = AnyCow::borrowed(&x);
    let mut owned = AnyCow::owned(String::from("same"));
    let mut shared = AnyCow::shared(Arc::new(String::from("same")));
    let mut updatable = AnyCow::updatable(String::from("same"));
    let mut lazy = AnyCow::lazy(|| String::from("same"));

    assert!(borrowed.eq_value(&mut owned));
    assert!(owned.eq_value(&mut shared));
    assert!(shared.eq_value(&mut updatable));
    assert!(updatable.eq_value(&mut lazy));
    assert!(lazy.eq_value(&mut borrowed));

    assert_eq!(borrowed.cmp_value(&mut owned), Ordering::Equal);
    assert_eq!(shared.cmp_value(&mut updatable), Ordering::Equal);
    assert_eq!(updatable.cmp_value(&mut lazy), Ordering::Equal);
    assert_eq!(
        owned.partial_cmp_value(&mut shared),
        Some(Ordering::Equal)
    );

    let mut smaller = AnyCow::owned(String::from("aaa"));
    assert!(!smaller.eq_value(&mut owned));
    assert_eq!(smaller.cmp_value(&mut owned), Ordering::Less);
    assert_eq!(owned.cmp_value(&mut smaller), Ordering::Greater);
}

#[test]
fn repeated_reads_are_idempotent() {
    let mut updatable = AnyCow::updatable(vec![9, 8, 7]);
    let first = updatable.borrow().clone();
    let second = updatable.borrow().clone();
    assert_eq!(first, second);

    let mut lazy = AnyCow::lazy(|| vec![5, 5, 5]);
    let first = lazy.borrow().clone();
    let second = lazy.borrow().clone();
    assert_eq!(first, second);
}

#[test]
fn factory_runs_exactly_once_over_many_reads() {
    let runs = Rc::new(Cell::new(0usize));
    let counter = Rc::clone(&runs);
    let mut lazy = AnyCow::lazy(move || {
        counter.set(counter.get() + 1);
        42u64
    });

    assert_eq!(runs.get(), 0);
    let mut seen = Vec::new();
    let mut i = 0;
    while i < 10 {
        seen.push(*lazy.borrow());
        i += 1;
    }
    assert_eq!(runs.get(), 1);
    assert!(seen.iter().all(|v| *v == 42));
}

#[test]
fn replace_semantics_per_variant() {
    let mut updatable = AnyCow::updatable(vec![1, 2, 3]);
    assert!(updatable.try_replace(vec![4, 5, 6]).is_ok());
    assert_eq!(*updatable.borrow(), vec![4, 5, 6]);

    let mut owned = AnyCow::owned(vec![1, 2, 3]);
    assert!(owned.try_replace(vec![4, 5, 6]).is_err());
    assert_eq!(*owned.borrow(), vec![1, 2, 3]);

    let data = vec![1, 2, 3];
    let mut borrowed = AnyCow::borrowed(&data);
    assert!(borrowed.try_replace(vec![4, 5, 6]).is_err());
    assert_eq!(*borrowed.borrow(), vec![1, 2, 3]);

    let mut shared = AnyCow::shared(Arc::new(vec![1, 2, 3]));
    assert!(shared.try_replace(vec![4, 5, 6]).is_err());
    assert_eq!(*shared.borrow(), vec![1, 2, 3]);

    // An uninitialized lazy container does not accept replacement...
    let mut lazy = AnyCow::lazy(|| vec![1, 2, 3]);
    assert!(lazy.try_replace(vec![4, 5, 6]).is_err());
    // ...but an initialized one does.
    assert_eq!(*lazy.borrow(), vec![1, 2, 3]);
    assert!(lazy.try_replace(vec![4, 5, 6]).is_ok());
    assert_eq!(*lazy.borrow(), vec![4, 5, 6]);
}

#[test]
fn clone_on_write_leaves_original_data_alone() {
    let external = String::from("hello");
    let mut cow = AnyCow::borrowed(&external);
    assert!(cow.is_borrowed());

    let slot = cow.to_mut();
    *slot = String::from("world");

    assert!(cow.is_owned());
    assert_eq!(*cow.borrow(), "world");
    assert_eq!(external, "hello");
}

#[test]
fn snapshot_independence_after_clone() {
    let mut c1 = AnyCow::updatable(String::from("a"));
    let mut c2 = c1.clone();
    assert!(c1.try_replace(String::from("b")).is_ok());
    assert_eq!(*c2.borrow(), "a");
    assert_eq!(*c1.borrow(), "b");
}

#[test]
fn into_owned_round_trips_each_variant() {
    let x = vec![3, 1, 4];

    let borrowed = AnyCow::borrowed(&x);
    assert_eq!(borrowed.into_owned(), vec![3, 1, 4]);

    let owned = AnyCow::owned(x.clone());
    assert_eq!(owned.into_owned(), vec![3, 1, 4]);

    // A shared handle held by nobody else gives the value up directly...
    let shared = AnyCow::shared(Arc::new(x.clone()));
    assert_eq!(shared.into_owned(), vec![3, 1, 4]);
    // ...and one held elsewhere too is cloned instead.
    let handle = Arc::new(x.clone());
    let keeper = Arc::clone(&handle);
    let shared_again = AnyCow::shared(handle);
    assert_eq!(shared_again.into_owned(), vec![3, 1, 4]);
    assert_eq!(*keeper, vec![3, 1, 4]);

    let updatable = AnyCow::updatable(x.clone());
    assert_eq!(updatable.into_owned(), vec![3, 1, 4]);

    let seed = x.clone();
    let lazy = AnyCow::lazy(move || seed.clone());
    assert_eq!(lazy.into_owned(), vec![3, 1, 4]);

    // An already-initialized lazy container hands back what was installed.
    let mut lazy_read = AnyCow::lazy(|| vec![3, 1, 4]);
    let _ = lazy_read.borrow();
    assert!(lazy_read.try_replace(vec![2, 7, 1]).is_ok());
    assert_eq!(lazy_read.into_owned(), vec![2, 7, 1]);
}

#[test]
fn clone_variant_mapping() {
    let x = String::from("v");
    let mut borrowed = AnyCow::borrowed(&x);
    assert!(borrowed.clone().is_borrowed());

    let mut owned = AnyCow::owned(x.clone());
    assert!(owned.clone().is_owned());

    let mut shared = AnyCow::shared(Arc::new(x.clone()));
    assert!(shared.clone().is_shared());

    let mut updatable = AnyCow::updatable(x.clone());
    let mut dup = updatable.clone();
    assert!(dup.is_shared());
    assert_eq!(*dup.borrow(), "v");

    let mut lazy = AnyCow::lazy(|| String::from("v"));
    let mut dup = lazy.clone();
    assert!(dup.is_updatable());
    assert_eq!(*dup.borrow(), "v");
}

#[test]
fn conversions_into_container() {
    let mut from_value: AnyCow<String> = String::from("hello").into();
    assert!(from_value.is_owned());
    assert_eq!(*from_value.borrow(), "hello");

    let data = String::from("hello");
    let mut from_ref: AnyCow<String> = (&data).into();
    assert!(from_ref.is_borrowed());
    assert_eq!(*from_ref.borrow(), "hello");

    let arc = Arc::new(String::from("hello"));
    let mut from_arc: AnyCow<String> = arc.into();
    assert!(from_arc.is_shared());
    assert_eq!(*from_arc.borrow(), "hello");
}

#[test]
fn to_arc_reflects_current_value() {
    let mut owned = AnyCow::owned(String::from("hello"));
    let arc: Arc<String> = owned.to_arc();
    assert_eq!(*arc, "hello");

    let mut updatable = AnyCow::updatable(String::from("one"));
    assert!(updatable.try_replace(String::from("two")).is_ok());
    assert_eq!(*updatable.to_arc(), "two");

    // The Arc handed out is a snapshot: a later replacement leaves it alone.
    let pinned = updatable.to_arc();
    assert!(updatable.try_replace(String::from("three")).is_ok());
    assert_eq!(*pinned, "two");
    assert_eq!(*updatable.to_arc(), "three");
}

#[test]
fn to_mut_per_variant() {
    let mut owned = AnyCow::owned(vec![1]);
    owned.to_mut().push(2);
    assert!(owned.is_owned());
    assert_eq!(*owned.borrow(), vec![1, 2]);

    let mut shared = AnyCow::shared(Arc::new(vec![1]));
    shared.to_mut().push(2);
    assert!(shared.is_owned());
    assert_eq!(*shared.borrow(), vec![1, 2]);

    let mut updatable = AnyCow::updatable(vec![1]);
    updatable.to_mut().push(2);
    assert!(updatable.is_owned());
    assert_eq!(*updatable.borrow(), vec![1, 2]);

    let mut lazy = AnyCow::lazy(|| vec![1]);
    lazy.to_mut().push(2);
    assert!(lazy.is_owned());
    assert_eq!(*lazy.borrow(), vec![1, 2]);
}
