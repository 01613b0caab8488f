use geohashed_relay::scope::{Scope, ScopeError};

#[test]
fn test_scope_comparison() {
    // Verify that different scopes are actually different
    let scope1 = Scope::named("drt2z").unwrap();
    let scope2 = Scope::named("9q8yy").unwrap();
    let scope3 = Scope::root();

    assert_ne!(scope1, scope2, "Different geohash scopes should not be equal");
    assert_ne!(scope1, scope3, "Geohash scope should not equal root scope");
    assert_ne!(scope2, scope3, "Different geohash scope should not equal root scope");

    // Same geohash should create equal scopes
    let scope1_copy = Scope::named("drt2z").unwrap();
    assert_eq!(scope1, scope1_copy, "Same geohash should create equal scopes");
}

#[test]
fn test_named_scope_equality() {
    // Names need not be geohashes; equality is by name alone.
    assert_eq!(Scope::named("a").unwrap(), Scope::named("a").unwrap());
    assert_ne!(Scope::named("a").unwrap(), Scope::named("b").unwrap());
    assert_ne!(Scope::named("a").unwrap(), Scope::root());
    // No prefix relation: a lexical extension is an unrelated partition.
    assert_ne!(Scope::named("abc").unwrap(), Scope::named("abcd").unwrap());
}

#[test]
fn test_empty_scope_name_rejected() {
    assert_eq!(Scope::named(""), Err(ScopeError::EmptyName));
}

#[test]
fn test_scope_clone_equal() {
    let scope = Scope::named("drt2z").unwrap();
    assert_eq!(scope.clone(), scope);
    let root = Scope::root();
    assert_eq!(root.clone(), root);
}
