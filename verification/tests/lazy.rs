use grisui::lazy::Lazy;

#[test]
fn lazy_from_some_is_loaded() {
    let l = Lazy::from_option(Some(7u32));
    assert_eq!(l, Lazy::Loaded(7));
    assert!(l.is_loaded());
    assert!(!l.is_unloaded());
}

#[test]
fn lazy_from_none_is_unloaded() {
    let l: Lazy<u32> = Lazy::from_option(None);
    assert_eq!(l, Lazy::Unloaded);
    assert!(l.is_unloaded());
    assert!(!l.is_loaded());
}

#[test]
fn lazy_option_round_trip_values() {
    assert_eq!(Lazy::from_option(Some(3i32)).into_option(), Some(3));
    assert_eq!(Lazy::<i32>::from_option(None).into_option(), None);
    let l: Lazy<u8> = Lazy::from(Some(9u8));
    assert_eq!(l, Lazy::Loaded(9));
}

#[test]
fn lazy_set_and_unload() {
    let mut l: Lazy<String> = Lazy::default();
    assert!(l.is_unloaded());
    l.set("shape".to_string());
    assert_eq!(l, Lazy::Loaded("shape".to_string()));
    l.unload();
    assert_eq!(l, Lazy::Unloaded);
}

#[test]
fn lazy_as_ref_and_as_mut() {
    let mut l = Lazy::Loaded(1u32);
    assert_eq!(l.as_ref(), Lazy::Loaded(&1));
    if let Lazy::Loaded(x) = l.as_mut() {
        *x = 5;
    }
    assert_eq!(l, Lazy::Loaded(5));
    let mut u: Lazy<u32> = Lazy::Unloaded;
    assert_eq!(u.as_ref(), Lazy::Unloaded);
    assert!(matches!(u.as_mut(), Lazy::Unloaded));
}

#[test]
fn lazy_unwrap_and_expect() {
    assert_eq!(Lazy::Loaded(11u64).unwrap(), 11);
    assert_eq!(Lazy::Loaded("x").expect("loaded"), "x");
}
