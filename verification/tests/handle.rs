use dobbyhook::Handle;

type AddI32 = fn(i32, i32) -> i32;

#[test]
fn new_keeps_the_address() {
    let h: Handle<'static, AddI32> = Handle::new(0x1000);
    assert_eq!(h.into_raw(), 0x1000);
    assert_eq!(h.into_ptr(), 0x1000);
}

#[test]
fn from_mut_rejects_null() {
    let h: Option<Handle<'static, AddI32>> = Handle::from_mut(0);
    assert!(h.is_none());
}

#[test]
fn from_mut_accepts_non_null() {
    let h: Option<Handle<'static, AddI32>> = Handle::from_mut(0xdead_beef);
    assert_eq!(h.map(|h| h.into_raw()), Some(0xdead_beef));
}

#[test]
fn from_mut_unchecked_keeps_the_address() {
    let h: Handle<'static, AddI32> = Handle::from_mut_unchecked(usize::MAX);
    assert_eq!(h.into_ptr(), usize::MAX);
}

#[test]
fn clone_keeps_the_address() {
    let h: Handle<'static, AddI32> = Handle::new(42);
    let c = h.clone();
    assert_eq!(c.into_raw(), 42);
    assert_eq!(h.into_raw(), 42);
}

#[test]
fn round_trip_through_every_constructor() {
    for raw in [1usize, 2, 0x7fff_0000, usize::MAX] {
        let a: Handle<'static, AddI32> = Handle::new(raw);
        let b: Handle<'static, AddI32> = Handle::from_mut_unchecked(raw);
        let c: Handle<'static, AddI32> = Handle::from_mut(raw).unwrap();
        assert_eq!(a.into_raw(), raw);
        assert_eq!(b.into_ptr(), raw);
        assert_eq!(c.into_raw(), raw);
    }
}

#[test]
fn into_raw_is_never_null() {
    let h: Handle<'static, AddI32> = Handle::new(1);
    assert_ne!(h.into_raw(), 0);
    assert_eq!(h.into_raw(), h.into_ptr());
}
