//! An attribute registry for decentralized identifiers: each owner can attach,
//! update, read and remove named byte-valued attributes, each with an optional
//! expiration horizon in ledger heights. Records are stored under a 256-bit
//! key derived from (owner, name, nonce) by a fixed cryptographic hash.

pub mod attribute;
pub mod bytes;
pub mod calls;
pub mod hashing;
pub mod laws;
pub mod lifecycle;
pub mod registry;
