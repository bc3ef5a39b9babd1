//! Derivation of storage keys: the BLAKE2b-256 digest of the SCALE-encoded
//! (owner, name, nonce) triple. The encoding and the digest are computed by
//! outside crates behind trusted wrappers; everything stated of them is that
//! each is a function of its input alone, which is what key derivation needs.

use vstd::prelude::*;
use parity_scale_codec::Encode;

verus! {

/// The SCALE encoding of an (owner, name, nonce) triple, as a named function
/// of the three inputs alone.
pub uninterp spec fn scale_encoding_of(owner: Seq<u8>, name: Seq<u8>, nonce: u64) -> Seq<u8>;

/// The BLAKE2b-256 digest of a byte string, as a named function of the input
/// bytes alone.
pub uninterp spec fn blake2_256_of(data: Seq<u8>) -> Seq<u8>;

/// The storage key that locates generation `nonce` of attribute `name` under
/// `owner`.
pub open spec fn derived_key_of(owner: Seq<u8>, name: Seq<u8>, nonce: u64) -> Seq<u8> {
    blake2_256_of(scale_encoding_of(owner, name, nonce))
}

/// Whether the owner and name bytes fit SCALE's compact length prefix, which
/// bounds each encoded slice at `u32::MAX` bytes; encoding a longer slice
/// panics.
pub open spec fn encodable(owner: Seq<u8>, name: Seq<u8>) -> bool {
    owner.len() <= u32::MAX && name.len() <= u32::MAX
}

/// Relies on `parity_scale_codec::Encode::encode` for `(&[u8], &[u8], u64)`:
/// a deterministic encoding that depends on the encoded fields alone. The
/// slices must fit the compact length prefix, past which `encode` panics.
#[verifier::external_body]
fn encode_triple(owner: &Vec<u8>, name: &Vec<u8>, nonce: u64) -> (r: Vec<u8>)
    requires
        encodable(owner@, name@),
    ensures
        r@ == scale_encoding_of(owner@, name@, nonce),
{
    (owner.as_slice(), name.as_slice(), nonce).encode()
}

/// Relies on `sp_io::hashing::blake2_256`: a 32-byte BLAKE2b-256 digest that
/// depends on the input bytes alone.
#[verifier::external_body]
fn blake2_256_digest(data: &Vec<u8>) -> (r: Vec<u8>)
    ensures
        r@ == blake2_256_of(data@),
        r@.len() == 32,
{
    sp_io::hashing::blake2_256(data.as_slice()).to_vec()
}

/// The derived storage key of (owner, name, nonce): a fixed-width 256-bit
/// value, deterministic in its three inputs.
pub fn derive_key(owner: &Vec<u8>, name: &Vec<u8>, nonce: u64) -> (r: Vec<u8>)
    requires
        encodable(owner@, name@),
    ensures
        r@ == derived_key_of(owner@, name@, nonce),
        r@.len() == 32,
{
    let encoded = encode_triple(owner, name, nonce);
    blake2_256_digest(&encoded)
}

/// For one (owner, name, nonce) triple, every call of `derive_key` returns
/// the same key: the derived key is a function of the triple alone, with no
/// salt, randomness or ambient state.
pub proof fn lemma_derive_key_deterministic(
    owner: Seq<u8>,
    name: Seq<u8>,
    nonce: u64,
    k1: Seq<u8>,
    k2: Seq<u8>,
)
    requires
        k1 == derived_key_of(owner, name, nonce),
        k2 == derived_key_of(owner, name, nonce),
    ensures
        k1 == k2,
{
}

} // verus!
