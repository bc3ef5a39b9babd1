//! The lifecycle operations end to end: create, read, mutate, delete, the
//! validity arithmetic and the overwrite-on-recreate behaviour.

use did_registry::attribute::DidError;
use did_registry::registry::AttributeRegistry;
use did_registry::hashing::derive_key;

fn owner() -> Vec<u8> {
    b"alice".to_vec()
}

#[test]
fn create_then_read() {
    let mut r = AttributeRegistry::new();
    let o = owner();
    let name = b"email".to_vec();
    let value = b"a@x.com".to_vec();
    assert_eq!(r.create_attribute(&o, &name, &value, None, 100, 5000), Ok(()));
    let got = r.get_attribute(&o, &name).expect("attribute must be stored");
    assert_eq!(got.name, name);
    assert_eq!(got.value, value);
    assert_eq!(got.validity, u64::MAX);
    assert_eq!(got.created, 5000);
    assert_eq!(got.nonce, 0);
}

#[test]
fn create_then_delete_then_read() {
    let mut r = AttributeRegistry::new();
    let o = owner();
    let name = b"email".to_vec();
    let value = b"a@x.com".to_vec();
    assert_eq!(r.create_attribute(&o, &name, &value, None, 100, 5000), Ok(()));
    assert_eq!(r.delete_attribute(&o, &name), Ok(()));
    assert!(r.get_attribute(&o, &name).is_none());
    assert_eq!(r.delete_attribute(&o, &name), Err(DidError::NotFound));
}

#[test]
fn mutate_preserves_identity_fields() {
    let mut r = AttributeRegistry::new();
    let o = owner();
    let name = b"email".to_vec();
    let v1 = b"a@x.com".to_vec();
    let v2 = b"b@y.org".to_vec();
    assert_eq!(r.create_attribute(&o, &name, &v1, None, 100, 5000), Ok(()));
    assert_eq!(r.mutate_attribute(&o, &name, &v2, Some(10), 120), Ok(()));
    let got = r.get_attribute(&o, &name).expect("attribute must be stored");
    assert_eq!(got.value, v2);
    assert_eq!(got.validity, 130);
    assert_eq!(got.name, name);
    assert_eq!(got.created, 5000);
    assert_eq!(got.nonce, 0);
}

#[test]
fn mutate_on_absent_name_fails() {
    let mut r = AttributeRegistry::new();
    let o = owner();
    let name = b"nope".to_vec();
    let value = b"v".to_vec();
    assert_eq!(r.mutate_attribute(&o, &name, &value, None, 100), Err(DidError::NotFound));
    assert!(r.get_attribute(&o, &name).is_none());
}

#[test]
fn validity_arithmetic() {
    let mut r = AttributeRegistry::new();
    let o = owner();
    let name = b"n".to_vec();
    let value = b"v".to_vec();
    assert_eq!(r.create_attribute(&o, &name, &value, Some(17), 100, 1), Ok(()));
    assert_eq!(r.get_attribute(&o, &name).unwrap().validity, 117);
    assert_eq!(r.create_attribute(&o, &name, &value, Some(0), 100, 1), Ok(()));
    assert_eq!(r.get_attribute(&o, &name).unwrap().validity, 100);
    assert_eq!(r.create_attribute(&o, &name, &value, None, 100, 1), Ok(()));
    assert_eq!(r.get_attribute(&o, &name).unwrap().validity, u64::MAX);
}

#[test]
fn overwrite_on_recreate() {
    let mut r = AttributeRegistry::new();
    let o = owner();
    let name = b"email".to_vec();
    let v1 = b"first".to_vec();
    let v2 = b"second".to_vec();
    assert_eq!(r.create_attribute(&o, &name, &v1, None, 100, 1), Ok(()));
    assert_eq!(r.create_attribute(&o, &name, &v2, Some(5), 200, 2), Ok(()));
    let got = r.get_attribute(&o, &name).expect("attribute must be stored");
    assert_eq!(got.value, v2);
    assert_eq!(got.validity, 205);
    assert_eq!(got.created, 2);
    // exactly one record sits under the derived key: one delete empties it
    assert_eq!(r.delete_attribute(&o, &name), Ok(()));
    assert!(r.get_attribute(&o, &name).is_none());
    assert_eq!(r.delete_attribute(&o, &name), Err(DidError::NotFound));
}

#[test]
fn strict_create_reports_existing_record() {
    let mut r = AttributeRegistry::new();
    let o = owner();
    let name = b"email".to_vec();
    let v1 = b"first".to_vec();
    let v2 = b"second".to_vec();
    assert_eq!(r.create_attribute_strict(&o, &name, &v1, None, 100, 1), Ok(()));
    assert_eq!(
        r.create_attribute_strict(&o, &name, &v2, None, 100, 2),
        Err(DidError::AlreadyExist)
    );
    let got = r.get_attribute(&o, &name).expect("attribute must be stored");
    assert_eq!(got.value, v1);
    assert_eq!(got.created, 1);
}

#[test]
fn owners_are_isolated() {
    let mut r = AttributeRegistry::new();
    let alice = b"alice".to_vec();
    let bob = b"bob".to_vec();
    let name = b"email".to_vec();
    let va = b"a@x.com".to_vec();
    let vb = b"b@y.org".to_vec();
    assert_eq!(r.create_attribute(&alice, &name, &va, None, 1, 1), Ok(()));
    assert_eq!(r.create_attribute(&bob, &name, &vb, None, 1, 1), Ok(()));
    assert_eq!(r.get_attribute(&alice, &name).unwrap().value, va);
    assert_eq!(r.get_attribute(&bob, &name).unwrap().value, vb);
    assert_eq!(r.delete_attribute(&alice, &name), Ok(()));
    assert!(r.get_attribute(&alice, &name).is_none());
    assert_eq!(r.get_attribute(&bob, &name).unwrap().value, vb);
}

#[test]
fn empty_name_and_value_are_accepted() {
    let mut r = AttributeRegistry::new();
    let o = owner();
    let name = Vec::new();
    let value = Vec::new();
    assert_eq!(r.create_attribute(&o, &name, &value, None, 1, 1), Ok(()));
    let got = r.get_attribute(&o, &name).expect("attribute must be stored");
    assert_eq!(got.name, name);
    assert_eq!(got.value, value);
}

#[test]
fn advance_nonce_rotates_the_storage_key() {
    let mut r = AttributeRegistry::new();
    let o = owner();
    let name = b"email".to_vec();
    let v1 = b"first".to_vec();
    let v2 = b"second".to_vec();
    assert_eq!(r.get_nonce(&o, &name), 0);
    assert_eq!(r.create_attribute(&o, &name, &v1, None, 1, 1), Ok(()));
    r.advance_nonce(&o, &name);
    assert_eq!(r.get_nonce(&o, &name), 1);
    // the old generation is no longer reachable under the new key
    assert!(r.get_attribute(&o, &name).is_none());
    assert_eq!(r.create_attribute(&o, &name, &v2, None, 1, 2), Ok(()));
    let got = r.get_attribute(&o, &name).expect("attribute must be stored");
    assert_eq!(got.value, v2);
    assert_eq!(got.nonce, 1);
}

#[test]
fn store_operations_compose() {
    let mut r = AttributeRegistry::new();
    let o = owner();
    let name = b"email".to_vec();
    let value = b"a@x.com".to_vec();
    let key = derive_key(&o, &name, 0);
    assert!(!r.contains(&o, &key));
    assert!(r.fetch(&o, &key).is_none());
    assert_eq!(r.create_attribute(&o, &name, &value, None, 1, 1), Ok(()));
    assert!(r.contains(&o, &key));
    let fetched = r.fetch(&o, &key).expect("record must sit under the derived key");
    assert_eq!(fetched.value, value);
    r.remove(&o, &key);
    assert!(!r.contains(&o, &key));
}
