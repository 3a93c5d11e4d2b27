use lifeguard::{RecycledString, StringPool};

#[test]
fn string_pool_starts_with_empty_spares() {
    let mut p = StringPool::with_size(3);
    assert_eq!(3, p.size());
    let s = p.new();
    assert_eq!("", s);
    assert_eq!(2, p.size());
}

#[test]
fn string_pool_new_from_fills_a_spare() {
    let mut p = StringPool::with_size(1);
    let s = p.new_from("dog");
    assert_eq!("dog", s);
    assert_eq!(0, p.size());
}

#[test]
fn string_pool_allocates_when_empty() {
    let mut p = StringPool::with_size(0);
    let s = p.new_from("mouse");
    assert_eq!("mouse", s);
    assert_eq!(0, p.size());
}

#[test]
fn recycled_string_travels_back_through_the_channel() {
    let mut p = StringPool::with_size(0);
    let sender = p.sender.clone();
    let handle = RecycledString::new_from(&sender, String::from("cat"));
    assert_eq!(3, handle.len());
    handle.recycle();
    // the next request reclaims the sent-back string, cleared, and fills it
    let s = p.new_from("dog");
    assert_eq!("dog", s);
    assert_eq!(0, p.size());
}

#[test]
fn reclaimed_strings_grow_the_pool() {
    let mut p = StringPool::with_size(0);
    let sender = p.sender.clone();
    RecycledString::new_from(&sender, String::from("one")).recycle();
    RecycledString::new_from(&sender, String::from("two")).recycle();
    let _ = p.new();
    assert_eq!(1, p.size());
}

#[test]
fn recycled_string_clear_and_push_str() {
    let p = StringPool::with_size(0);
    let sender = p.sender.clone();
    let mut handle = RecycledString::new(&sender);
    assert_eq!(0, handle.len());
    handle.push_str("man");
    assert_eq!(3, handle.len());
    handle.clear();
    assert_eq!(0, handle.len());
    handle.push_str("cheese");
    assert_eq!(6, handle.len());
    handle.recycle();
}
