use std::cell::Cell;

use itunes_com::wrappers::{Error, PossibleIITObject, Variant};
use windows::Win32::System::Com::VARIANT;

type Object = PossibleIITObject<&'static str, u32, char>;

#[test]
fn a_source_resolves_to_the_source_arm_and_no_other() {
    let object = Object::from_casts(Some("library"), None, None).unwrap();
    assert_eq!(object.as_source(), Some(&"library"));
    assert_eq!(object.as_playlist(), None);
    assert_eq!(object.as_track(), None);
}

#[test]
fn a_playlist_resolves_to_the_playlist_arm_and_no_other() {
    let object = Object::from_casts(None, Some(7), None).unwrap();
    assert_eq!(object.as_source(), None);
    assert_eq!(object.as_playlist(), Some(&7));
    assert_eq!(object.as_track(), None);
}

#[test]
fn a_track_resolves_to_the_track_arm_and_no_other() {
    let object = Object::from_casts(None, None, Some('t')).unwrap();
    assert_eq!(object.as_source(), None);
    assert_eq!(object.as_playlist(), None);
    assert_eq!(object.as_track(), Some(&'t'));
}

#[test]
fn an_object_of_no_known_kind_does_not_resolve() {
    let outcome = Object::from_casts(None, None, None);
    assert_eq!(outcome.err(), Some(Error::UnresolvedKind));
}

#[test]
fn the_first_kind_in_order_wins() {
    assert_eq!(Object::from_casts(Some("s"), Some(1), Some('t')).unwrap().as_source(), Some(&"s"));
    assert_eq!(Object::from_casts(None, Some(1), Some('t')).unwrap().as_playlist(), Some(&1));
    assert_eq!(Object::from_casts(Some("s"), None, Some('t')).unwrap().as_source(), Some(&"s"));
}

#[test]
fn resolve_stops_at_the_first_cast_that_succeeds() {
    let casts = Cell::new(0);
    let object = Object::resolve(
        || {
            casts.set(casts.get() + 1);
            None
        },
        || {
            casts.set(casts.get() + 1);
            Some(7)
        },
        || {
            casts.set(casts.get() + 1);
            Some('t')
        },
    )
    .unwrap();
    assert_eq!(object.as_playlist(), Some(&7));
    assert_eq!(object.as_track(), None);
    assert_eq!(casts.get(), 2);
}

#[test]
fn resolve_tries_source_then_playlist_then_track() {
    let order = Cell::new(0);
    let step = |expected: u32| {
        assert_eq!(order.get(), expected);
        order.set(expected + 1);
    };
    let outcome = Object::resolve(
        || {
            step(0);
            None
        },
        || {
            step(1);
            None
        },
        || {
            step(2);
            None
        },
    );
    assert_eq!(outcome.err(), Some(Error::UnresolvedKind));
    assert_eq!(order.get(), 3);
}

#[test]
fn resolve_matches_each_kind() {
    let source = Object::resolve(|| Some("s"), || Some(1), || Some('t')).unwrap();
    assert_eq!(source.as_source(), Some(&"s"));
    let track = Object::resolve(|| None, || None, || Some('t')).unwrap();
    assert_eq!(track.as_track(), Some(&'t'));
    assert_eq!(track.as_source(), None);
    assert_eq!(track.as_playlist(), None);
}

#[test]
fn variant_hands_out_what_it_wraps() {
    let handle = String::from("track");
    let raw = VARIANT::default();
    let variant = Variant::new(&handle, raw);
    assert!(std::ptr::eq(variant.as_raw(), variant.as_raw()));
    assert_eq!(std::mem::size_of_val(variant.as_raw()), std::mem::size_of::<VARIANT>());
}
