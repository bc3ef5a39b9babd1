//! Key derivation: determinism, owner isolation, and agreement with the
//! SCALE encoding and BLAKE2b-256 digest computed directly.

use did_registry::hashing::derive_key;
use parity_scale_codec::Encode;

#[test]
fn derive_key_is_deterministic() {
    let owner = b"alice".to_vec();
    let name = b"email".to_vec();
    let k1 = derive_key(&owner, &name, 0);
    let k2 = derive_key(&owner, &name, 0);
    assert_eq!(k1, k2);
}

#[test]
fn derive_key_is_32_bytes() {
    let owner = b"alice".to_vec();
    let short = derive_key(&owner, &Vec::new(), 0);
    assert_eq!(short.len(), 32);
    let long_name = vec![7u8; 1000];
    let long = derive_key(&owner, &long_name, u64::MAX);
    assert_eq!(long.len(), 32);
}

#[test]
fn derive_key_isolates_owners() {
    let owner_a = b"alice".to_vec();
    let owner_b = b"bob".to_vec();
    let name = b"email".to_vec();
    assert_ne!(derive_key(&owner_a, &name, 0), derive_key(&owner_b, &name, 0));
}

#[test]
fn derive_key_depends_on_name_and_nonce() {
    let owner = b"alice".to_vec();
    let name_1 = b"email".to_vec();
    let name_2 = b"phone".to_vec();
    assert_ne!(derive_key(&owner, &name_1, 0), derive_key(&owner, &name_2, 0));
    assert_ne!(derive_key(&owner, &name_1, 0), derive_key(&owner, &name_1, 1));
}

#[test]
fn derive_key_matches_direct_encoding_and_digest() {
    let owner = b"alice".to_vec();
    let name = b"email".to_vec();
    let nonce: u64 = 7;
    let encoded = (owner.as_slice(), name.as_slice(), nonce).encode();
    let expected = sp_io::hashing::blake2_256(&encoded).to_vec();
    assert_eq!(derive_key(&owner, &name, nonce), expected);
}
