use runtime_modules::authorization::Registry;
use runtime_modules::common::RawOrigin;

#[test]
fn registry_binds_one_account_to_an_identity() {
    let mut registry = Registry::new();
    assert!(!registry.contains(1));
    assert_eq!(registry.account_of(1), None);
    registry.bind(1, 10);
    registry.bind(2, 10);
    assert!(registry.contains(1));
    assert_eq!(registry.account_of(1), Some(10));
    assert!(registry.is_bound(1, 10));
    assert!(registry.is_bound(2, 10));
    assert!(!registry.is_bound(1, 11));
    assert!(!registry.is_bound(3, 10));
    // A new account takes the place of the old.
    registry.bind(1, 11);
    assert_eq!(registry.account_of(1), Some(11));
    assert!(!registry.is_bound(1, 10));
    assert!(registry.is_bound(2, 10));
}

#[test]
fn registry_tells_who_signed_for_an_identity() {
    let mut registry = Registry::new();
    registry.bind(1, 10);
    assert_eq!(registry.signed_by(RawOrigin::Signed(10), 1), Some(10));
    assert_eq!(registry.signed_by(RawOrigin::Signed(11), 1), None);
    assert_eq!(registry.signed_by(RawOrigin::Signed(10), 2), None);
    assert_eq!(registry.signed_by(RawOrigin::Root, 1), None);
    assert_eq!(registry.signed_by(RawOrigin::Unsigned, 1), None);
}
