use lifeguard::{Pool, RcRecycled, Recycled};

#[test]
fn test_deref() {
    let mut str_pool: Pool<String> = Pool::with_size(1);
    let rstring = str_pool.new_from("cat");
    assert_eq!("cat", rstring.as_ref().as_str());
}

#[test]
fn test_deref_rc() {
    let mut str_pool: Pool<String> = Pool::with_size(1);
    let rstring = str_pool.new_rc_from("cat");
    assert_eq!("cat", rstring.as_ref().as_str());
}

#[test]
fn test_deref_mut() {
    let mut str_pool: Pool<String> = Pool::with_size(1);
    let mut rstring = str_pool.new_from("cat");
    rstring.as_mut().push_str("s love eating mice");
    assert_eq!("cats love eating mice", rstring.as_ref().as_str());
}

#[test]
fn test_deref_mut_rc() {
    let mut str_pool: Pool<String> = Pool::with_size(1);
    let mut rstring = str_pool.new_rc_from("cat");
    rstring.as_mut().push_str("s love eating mice");
    assert_eq!("cats love eating mice", rstring.as_ref().as_str());
}

#[test]
fn test_as_mut() {
    let mut str_pool: Pool<String> = Pool::with_size(1);
    let mut rstring = str_pool.new_from("cat");
    rstring.as_mut().push_str("s love eating mice");
    assert_eq!("cats love eating mice", rstring.as_ref().as_str());
}

#[test]
fn test_as_mut_rc() {
    let mut str_pool: Pool<String> = Pool::with_size(1);
    let mut rstring = str_pool.new_rc_from("cat");
    rstring.as_mut().push_str("s love eating mice");
    assert_eq!("cats love eating mice", rstring.as_ref().as_str());
}

#[test]
fn test_as_ref() {
    let mut str_pool: Pool<String> = Pool::with_size(1);
    let rstring = str_pool.new_from("cat");
    assert_eq!("cat", rstring.as_ref().as_str());
}

#[test]
fn test_as_ref_rc() {
    let mut str_pool: Pool<String> = Pool::with_size(1);
    let rstring = str_pool.new_rc_from("cat");
    assert_eq!("cat", rstring.as_ref().as_str());
}

#[test]
fn test_recycle() {
    let mut str_pool: Pool<String> = Pool::with_size(1);
    assert_eq!(1, str_pool.size());
    let rstring = str_pool.new_from("cat");
    assert_eq!(0, str_pool.size());
    str_pool.recycle(rstring);
    assert_eq!(1, str_pool.size());
}

#[test]
fn test_recycle_rc() {
    let mut str_pool: Pool<String> = Pool::with_size(1);
    assert_eq!(1, str_pool.size());
    let rstring = str_pool.new_rc_from("cat");
    assert_eq!(0, str_pool.size());
    str_pool.recycle_rc(rstring);
    assert_eq!(1, str_pool.size());
}

#[test]
fn test_size_cap() {
    let mut str_pool: Pool<String> = Pool::with_size_and_max(1, 1);
    assert_eq!(1, str_pool.size());
    let rstring = str_pool.new_from("dog");
    let rstring2 = str_pool.new_from("cat");
    assert_eq!(0, str_pool.size());
    str_pool.recycle(rstring);
    str_pool.recycle(rstring2);
    assert_eq!(1, str_pool.size());
}

#[test]
fn test_detach() {
    let mut str_pool: Pool<String> = Pool::with_size(1);
    assert_eq!(1, str_pool.size());
    let _string: String = str_pool.new().detach();
    assert_eq!(0, str_pool.size());
    drop(_string);
    assert_eq!(0, str_pool.size());
}

#[test]
fn test_detach_rc() {
    let mut str_pool: Pool<String> = Pool::with_size(1);
    assert_eq!(1, str_pool.size());
    let _string: String = str_pool.new_rc().detach();
    assert_eq!(0, str_pool.size());
    drop(_string);
    assert_eq!(0, str_pool.size());
}

#[test]
fn test_attach() {
    let mut str_pool: Pool<String> = Pool::with_size(1);
    assert_eq!(1, str_pool.size());
    let string: String = str_pool.new().detach();
    assert_eq!(0, str_pool.size());
    let rstring: Recycled<String> = str_pool.attach(string);
    str_pool.recycle(rstring);
    assert_eq!(1, str_pool.size());
}

#[test]
fn test_attach_rc() {
    let mut str_pool: Pool<String> = Pool::with_size(1);
    assert_eq!(1, str_pool.size());
    let string: String = str_pool.new_rc().detach();
    assert_eq!(0, str_pool.size());
    let rstring: RcRecycled<String> = str_pool.attach_rc(string);
    str_pool.recycle_rc(rstring);
    assert_eq!(1, str_pool.size());
}
