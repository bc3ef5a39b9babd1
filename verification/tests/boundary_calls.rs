//! The boundary the host dispatches into: name-length enforcement, the
//! notifications each call returns, and the error mapping.

use did_registry::attribute::{DidError, Error, Event};
use did_registry::registry::AttributeRegistry;
use did_registry::bytes::{bytes_eq, clone_bytes};

fn owner() -> Vec<u8> {
    b"alice".to_vec()
}

#[test]
fn add_attribute_returns_added_event() {
    let mut r = AttributeRegistry::new();
    let o = owner();
    let name = b"email".to_vec();
    let value = b"a@x.com".to_vec();
    let event = r.add_attribute(&o, &name, &value, Some(9), 100, 5000).expect("add must succeed");
    assert_eq!(event, Event::AttributeAdded(o.clone(), name.clone(), value.clone(), Some(9)));
    let got = r.get_attribute(&o, &name).expect("attribute must be stored");
    assert_eq!(got.validity, 109);
}

#[test]
fn add_attribute_rejects_names_over_64_bytes() {
    let mut r = AttributeRegistry::new();
    let o = owner();
    let name_64 = vec![b'x'; 64];
    let name_65 = vec![b'x'; 65];
    let value = b"v".to_vec();
    assert!(r.add_attribute(&o, &name_64, &value, None, 1, 1).is_ok());
    assert_eq!(
        r.add_attribute(&o, &name_65, &value, None, 1, 1),
        Err(Error::AttributeNameExceedMax64)
    );
    assert!(r.get_attribute(&o, &name_65).is_none());
}

#[test]
fn update_attribute_returns_updated_event() {
    let mut r = AttributeRegistry::new();
    let o = owner();
    let name = b"email".to_vec();
    let v1 = b"a@x.com".to_vec();
    let v2 = b"b@y.org".to_vec();
    r.add_attribute(&o, &name, &v1, None, 100, 5000).expect("add must succeed");
    let event = r.update_attribute(&o, &name, &v2, None, 120).expect("update must succeed");
    assert_eq!(event, Event::AttributeUpdated(o.clone(), name.clone(), v2.clone(), None));
    assert_eq!(r.get_attribute(&o, &name).unwrap().value, v2);
}

#[test]
fn update_attribute_errors() {
    let mut r = AttributeRegistry::new();
    let o = owner();
    let name_65 = vec![b'x'; 65];
    let value = b"v".to_vec();
    assert_eq!(
        r.update_attribute(&o, &name_65, &value, None, 1),
        Err(Error::AttributeNameExceedMax64)
    );
    let absent = b"nope".to_vec();
    assert_eq!(
        r.update_attribute(&o, &absent, &value, None, 1),
        Err(Error::AttributeNotFound)
    );
}

#[test]
fn read_attribute_returns_read_event() {
    let mut r = AttributeRegistry::new();
    let o = owner();
    let name = b"email".to_vec();
    let value = b"a@x.com".to_vec();
    r.add_attribute(&o, &name, &value, None, 100, 5000).expect("add must succeed");
    match r.read_attribute(&o, &name) {
        Ok(Event::AttributeRead(attribute)) => {
            assert_eq!(attribute.name, name);
            assert_eq!(attribute.value, value);
            assert_eq!(attribute.validity, u64::MAX);
            assert_eq!(attribute.created, 5000);
            assert_eq!(attribute.nonce, 0);
        }
        other => panic!("expected an AttributeRead event, got {:?}", other),
    }
    let absent = b"nope".to_vec();
    assert_eq!(r.read_attribute(&o, &absent), Err(Error::AttributeNotFound));
    let name_65 = vec![b'x'; 65];
    assert_eq!(r.read_attribute(&o, &name_65), Err(Error::AttributeNameExceedMax64));
}

#[test]
fn remove_attribute_returns_removed_event() {
    let mut r = AttributeRegistry::new();
    let o = owner();
    let name = b"email".to_vec();
    let value = b"a@x.com".to_vec();
    r.add_attribute(&o, &name, &value, None, 100, 5000).expect("add must succeed");
    let event = r.remove_attribute(&o, &name, 140).expect("remove must succeed");
    assert_eq!(event, Event::AttributeRemoved(o.clone(), name.clone(), Some(140)));
    assert!(r.get_attribute(&o, &name).is_none());
    assert_eq!(r.remove_attribute(&o, &name, 141), Err(Error::AttributeNotFound));
    let name_65 = vec![b'x'; 65];
    assert_eq!(r.remove_attribute(&o, &name_65, 142), Err(Error::AttributeNameExceedMax64));
}

#[test]
fn dispatch_error_mapping() {
    assert_eq!(Error::dispatch_error(DidError::NotFound), Error::AttributeNotFound);
    assert_eq!(Error::dispatch_error(DidError::NameExceedMaxChar), Error::AttributeNameExceedMax64);
    assert_eq!(Error::dispatch_error(DidError::AlreadyExist), Error::AttributeAlreadyExist);
    assert_eq!(Error::dispatch_error(DidError::FailedCreate), Error::AttributeCreationFailed);
    assert_eq!(Error::dispatch_error(DidError::FailedUpdate), Error::AttributeUpdateFailed);
}

#[test]
fn byte_helpers() {
    let a = b"abc".to_vec();
    let b = b"abd".to_vec();
    assert!(bytes_eq(&a, &a));
    assert!(!bytes_eq(&a, &b));
    assert!(!bytes_eq(&a, &b"ab".to_vec()));
    assert!(bytes_eq(&Vec::new(), &Vec::new()));
    assert_eq!(clone_bytes(&a), a);
    assert_eq!(clone_bytes(&Vec::new()), Vec::<u8>::new());
}
