use kv_couchbase::registry::Registry;

#[test]
fn unknown_identity_is_not_found() {
    let r: Registry<u32> = Registry::new();
    assert!(r.lookup(&"x".to_string()).is_none());
    assert_eq!(r.len(), 0);
}

#[test]
fn register_then_lookup_then_unregister() {
    let mut r: Registry<u32> = Registry::new();
    assert_eq!(r.register("x".to_string(), 7), None);
    assert_eq!(r.register("y".to_string(), 8), None);
    assert_eq!(r.lookup(&"x".to_string()), Some(&7));
    assert_eq!(r.unregister(&"x".to_string()), Some(7));
    assert!(r.lookup(&"x".to_string()).is_none());
    assert_eq!(r.lookup(&"y".to_string()), Some(&8));
    assert_eq!(r.len(), 1);
}

#[test]
fn register_replaces_and_returns_old_handle() {
    let mut r: Registry<u32> = Registry::new();
    r.register("x".to_string(), 1);
    assert_eq!(r.register("x".to_string(), 2), Some(1));
    assert_eq!(r.lookup(&"x".to_string()), Some(&2));
    assert_eq!(r.len(), 1);
}

#[test]
fn unregister_unknown_is_noop() {
    let mut r: Registry<u32> = Registry::new();
    r.register("x".to_string(), 1);
    assert_eq!(r.unregister(&"z".to_string()), None);
    assert_eq!(r.len(), 1);
    assert_eq!(r.lookup(&"x".to_string()), Some(&1));
}

#[test]
fn clear_empties_registry() {
    let mut r: Registry<u32> = Registry::new();
    r.register("x".to_string(), 1);
    r.register("y".to_string(), 2);
    r.clear();
    assert_eq!(r.len(), 0);
    assert!(r.lookup(&"x".to_string()).is_none());
    assert!(r.lookup(&"y".to_string()).is_none());
}
