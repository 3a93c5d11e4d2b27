use std::collections::VecDeque;

use lifeguard::{pool, MaxSize, Pool, Recycleable, StartingSize, Supplier, Supply};

#[test]
fn checkout_decrements_and_recycle_restores() {
    let mut p: Pool<String> = Pool::with_size_and_max(2, 2);
    assert_eq!(2, p.size());
    let h = p.new();
    assert_eq!(1, p.size());
    p.recycle(h);
    assert_eq!(2, p.size());
}

#[test]
fn checkout_from_empty_supplies_fresh() {
    let mut p: Pool<String> = Pool::with_size(0);
    assert_eq!(0, p.size());
    let h = p.new();
    assert_eq!(0, p.size());
    assert_eq!("", h.as_ref().as_str());
}

#[test]
fn round_trip_matches_initializing_a_fresh_value() {
    let mut p: Pool<String> = Pool::with_size(1);
    let h = p.new_from("cat");
    let mut fresh = String::new();
    fresh.push_str("cat");
    assert_eq!(&fresh, h.as_ref());
}

#[test]
fn capacity_clamps_initial_fill() {
    let p: Pool<String> = Pool::with_size_and_max(5, 2);
    assert_eq!(2, p.size());
    assert_eq!(2, p.max_size());
}

#[test]
fn detach_removes_permanently() {
    let mut p: Pool<String> = Pool::with_size(1);
    let value = p.new().detach();
    assert_eq!(0, p.size());
    drop(value);
    assert_eq!(0, p.size());
}

#[test]
fn overflow_is_discarded() {
    let mut p: Pool<String> = Pool::with_size_and_max(0, 1);
    let first = p.new();
    let second = p.new();
    assert_eq!(0, p.size());
    p.recycle(first);
    p.recycle(second);
    assert_eq!(1, p.size());
}

#[test]
fn donation_increases_count() {
    let mut p: Pool<String> = Pool::with_size_and_max(0, 4);
    let external = String::from("donated");
    let h = p.attach(external);
    assert_eq!(0, p.size());
    p.recycle(h);
    assert_eq!(1, p.size());
}

#[test]
fn donation_to_full_pool_is_discarded() {
    let mut p: Pool<String> = Pool::with_size_and_max(1, 1);
    let h = p.attach(String::from("donated"));
    p.recycle(h);
    assert_eq!(1, p.size());
}

#[test]
fn one_slot_pool_reuses_its_allocation() {
    let mut p: Pool<String> = pool().with(StartingSize(1)).with(MaxSize(1)).build();
    assert_eq!(1, p.size());
    assert_eq!(1, p.max_size());
    let h = p.new_from("cat");
    assert_eq!("cat", h.as_ref().as_str());
    p.recycle(h);
    assert_eq!(1, p.size());
    let h = p.new_from("dog");
    assert_eq!("dog", h.as_ref().as_str());
    p.recycle(h);
    assert_eq!(1, p.size());
}

#[test]
fn builder_defaults() {
    let p: Pool<String> = pool().build();
    assert_eq!(16, p.size());
    assert_eq!(usize::MAX, p.max_size());
}

#[test]
fn builder_last_write_wins() {
    let p: Pool<String> = pool()
        .with(StartingSize(8))
        .with(StartingSize(3))
        .with(MaxSize(5))
        .build();
    assert_eq!(3, p.size());
    assert_eq!(5, p.max_size());
}

struct RoomySupplier;

impl Supply<String> for RoomySupplier {
    fn get(&mut self) -> String {
        String::with_capacity(64)
    }
}

#[test]
fn builder_custom_supplier() {
    let mut p: Pool<String, RoomySupplier> = pool()
        .with(StartingSize(2))
        .with(Supplier::new(RoomySupplier))
        .build();
    assert_eq!(2, p.size());
    let h = p.new();
    assert!(h.as_ref().capacity() >= 64);
    assert_eq!(0, h.as_ref().len());
    p.recycle(h);
}

#[test]
fn vec_payloads_are_reset_on_return() {
    let mut p: Pool<Vec<u8>> = Pool::with_size(1);
    let mut h = p.new();
    h.as_mut().push(1);
    h.as_mut().push(2);
    assert_eq!(2, h.as_ref().len());
    p.recycle(h);
    assert_eq!(1, p.size());
    let h = p.new();
    assert!(h.as_ref().is_empty());
}

#[test]
fn vecdeque_payloads_are_reset_on_return() {
    let mut p: Pool<VecDeque<u32>> = Pool::with_size(1);
    let mut h = p.new();
    h.as_mut().push_back(7);
    p.recycle(h);
    let h = p.new();
    assert!(h.as_ref().is_empty());
}

#[test]
fn reset_makes_values_fresh() {
    let mut s = String::from("something");
    Recycleable::reset(&mut s);
    assert_eq!("", s);
    let created: String = Recycleable::new();
    assert_eq!("", created);
}

#[test]
fn detached_pops_most_recent_spare() {
    let mut p: Pool<String> = Pool::with_size(2);
    assert_eq!(2, p.size());
    let v = p.detached();
    assert_eq!(1, p.size());
    assert_eq!("", v);
}
