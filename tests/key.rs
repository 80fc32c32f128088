use std::marker::PhantomData;
use xoverlay::key::{Key, KeyRef, ARROW_DOWN, ARROW_LEFT, ARROW_RIGHT, ARROW_UP};

#[test]
fn test_key_from_xorg_raw() {
    let key1 = Key::from_xorg_raw(ARROW_UP);
    assert_eq!(key1.0, KeyRef::ArrowUp);

    let key2 = Key::from_xorg_raw(ARROW_RIGHT);
    assert_eq!(key2.0, KeyRef::ArrowRight);

    let key3 = Key::from_xorg_raw(ARROW_DOWN);
    assert_eq!(key3.0, KeyRef::ArrowDown);

    let key4 = Key::from_xorg_raw(ARROW_LEFT);
    assert_eq!(key4.0, KeyRef::ArrowLeft);

    let key5 = Key::from_xorg_raw(0);
    assert_eq!(key5.0, KeyRef::Unkown(PhantomData));
}

#[test]
fn test_keyref_from() {
    let key1 = KeyRef::from(ARROW_UP);
    assert_eq!(key1, KeyRef::ArrowUp);

    let key2 = KeyRef::from(ARROW_RIGHT);
    assert_eq!(key2, KeyRef::ArrowRight);

    let key3 = KeyRef::from(ARROW_DOWN);
    assert_eq!(key3, KeyRef::ArrowDown);

    let key4 = KeyRef::from(ARROW_LEFT);
    assert_eq!(key4, KeyRef::ArrowLeft);

    let key5 = KeyRef::from(0);
    assert_eq!(key5, KeyRef::Unkown(PhantomData));
}

#[test]
fn arrow_codes_are_the_documented_keycodes() {
    assert_eq!(Key::from_xorg_raw(111).0, KeyRef::ArrowUp);
    assert_eq!(Key::from_xorg_raw(113).0, KeyRef::ArrowLeft);
    assert_eq!(Key::from_xorg_raw(112).0, KeyRef::Unkown(PhantomData));
}
