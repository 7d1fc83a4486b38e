use unified_clipboard::errors::SyncError;
use unified_clipboard::registry::Registry;

fn s(v: &str) -> String {
    v.to_string()
}

#[test]
fn absent_identifier_is_not_found() {
    let mut registry = Registry::new();
    assert_eq!(registry.get(&s("nobody"), &s("")), Err(SyncError::NotFound));
    assert_eq!(registry.set(&s("nobody"), s("value"), &s("")), Err(SyncError::NotFound));
    assert_eq!(registry.kill(&s("nobody"), &s("")), Err(SyncError::NotFound));
}

#[test]
fn empty_passphrase_means_open_access() {
    let mut registry = Registry::new();
    registry.create(s("host"), s("value"), s(""));
    assert_eq!(registry.get(&s("host"), &s("anything")).unwrap(), s("value"));
    assert!(registry.set(&s("host"), s("other"), &s("whatever")).is_ok());
    assert_eq!(registry.get(&s("host"), &s("")).unwrap(), s("other"));
    assert!(registry.kill(&s("host"), &s("wrong")).is_ok());
    assert_eq!(registry.get(&s("host"), &s("")), Err(SyncError::NotFound));
}

#[test]
fn non_empty_passphrase_must_match_exactly() {
    let mut registry = Registry::new();
    registry.create(s("host"), s("value"), s("Secret"));
    assert_eq!(registry.get(&s("host"), &s("secret")), Err(SyncError::Forbidden));
    assert_eq!(registry.get(&s("host"), &s(" Secret ")), Err(SyncError::Forbidden));
    assert_eq!(registry.get(&s("host"), &s("")), Err(SyncError::Forbidden));
    assert_eq!(registry.get(&s("host"), &s("Secret")).unwrap(), s("value"));
    assert_eq!(registry.set(&s("host"), s("v2"), &s("secret")), Err(SyncError::Forbidden));
    assert!(registry.set(&s("host"), s("v2"), &s("Secret")).is_ok());
    assert_eq!(registry.kill(&s("host"), &s("SECRET")), Err(SyncError::Forbidden));
    assert!(registry.kill(&s("host"), &s("Secret")).is_ok());
}

#[test]
fn create_is_idempotent_overwrite() {
    let mut registry = Registry::new();
    registry.create(s("host"), s("first"), s("p1"));
    registry.create(s("host"), s("second"), s("p2"));
    assert_eq!(registry.get(&s("host"), &s("p1")), Err(SyncError::Forbidden));
    assert_eq!(registry.get(&s("host"), &s("p2")).unwrap(), s("second"));
    let names = registry.list();
    assert_eq!(names.len(), 1);
}

#[test]
fn set_keeps_the_passphrase() {
    let mut registry = Registry::new();
    registry.create(s("host"), s("value"), s("p"));
    assert!(registry.set(&s("host"), s("changed"), &s("p")).is_ok());
    assert_eq!(registry.get(&s("host"), &s("p")).unwrap(), s("changed"));
    assert_eq!(registry.get(&s("host"), &s("changed")), Err(SyncError::Forbidden));
}

#[test]
fn round_trip_create_then_get() {
    let mut registry = Registry::new();
    registry.create(s("id"), s("X"), s(""));
    assert_eq!(registry.get(&s("id"), &s("")).unwrap(), s("X"));
}

#[test]
fn serialized_sets_leave_one_of_the_values() {
    let mut registry = Registry::new();
    registry.create(s("host"), s("start"), s("p"));
    let values = [s("a"), s("b"), s("c"), s("d")];
    for v in values.iter() {
        assert!(registry.set(&s("host"), v.clone(), &s("p")).is_ok());
    }
    let stored = registry.get(&s("host"), &s("p")).unwrap();
    assert!(values.contains(&stored));
    assert_eq!(stored, s("d"));
}

#[test]
fn presence_scenario() {
    let mut registry = Registry::new();
    registry.create(s("host1"), s("Initial contents"), s(""));
    let names = registry.list();
    assert!(names.contains(&s("host1")));
    assert_eq!(registry.get(&s("host1"), &s("")).unwrap(), s("Initial contents"));
    assert!(registry.kill(&s("host1"), &s("")).is_ok());
    assert_eq!(registry.get(&s("host1"), &s("")), Err(SyncError::NotFound));
}

#[test]
fn list_names_every_identifier_once() {
    let mut registry = Registry::new();
    registry.create(s("a"), s("1"), s(""));
    registry.create(s("b"), s("2"), s(""));
    registry.create(s("a"), s("3"), s(""));
    let mut names = registry.list();
    names.sort();
    assert_eq!(names, vec![s("a"), s("b")]);
}
