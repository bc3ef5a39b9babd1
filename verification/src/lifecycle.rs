//! The lifecycle operations: create, mutate, read, delete. Each derives the
//! current storage key of (owner, name) from the nonce counter, then reads or
//! writes the store at that key. Each either completes and commits its one
//! write, or fails before any write.

use vstd::prelude::*;
use crate::attribute::{Attribute, AttributeView, DidError};
use crate::bytes::clone_bytes;
use crate::hashing::{derive_key, derived_key_of, encodable};
use crate::registry::AttributeRegistry;

verus! {

/// The absolute validity height an operation stores: the current height plus
/// the window when one is given, else the maximum representable height
/// ("never expires").
pub open spec fn spec_validity(now_height: u64, valid_for: Option<u64>) -> u64 {
    match valid_for {
        Some(blocks) => (now_height + blocks) as u64,
        None => u64::MAX,
    }
}

/// Whether the validity sum fits the height type; what every operation that
/// computes a validity requires.
pub open spec fn validity_fits(now_height: u64, valid_for: Option<u64>) -> bool {
    match valid_for {
        Some(blocks) => now_height + blocks <= u64::MAX,
        None => true,
    }
}

/// The record a create stores.
pub open spec fn new_attribute_view(
    name: Seq<u8>,
    value: Seq<u8>,
    valid_for: Option<u64>,
    now_height: u64,
    now_moment: u64,
    nonce: u64,
) -> AttributeView {
    AttributeView {
        name,
        value,
        validity: spec_validity(now_height, valid_for),
        created: now_moment,
        nonce,
    }
}

impl AttributeRegistry {
    /// The storage key every operation on (owner, name) currently uses:
    /// deterministic while the nonce counter is not advanced.
    pub open spec fn key_of(self, owner: Seq<u8>, name: Seq<u8>) -> Seq<u8> {
        derived_key_of(owner, name, self.nonce_of(owner, name))
    }

    /// Whether `post` is `pre` with exactly the record of a create stored
    /// under the current key of (owner, name), and nothing else changed.
    pub open spec fn created_ok(
        pre: AttributeRegistry,
        post: AttributeRegistry,
        owner: Seq<u8>,
        name: Seq<u8>,
        value: Seq<u8>,
        valid_for: Option<u64>,
        now_height: u64,
        now_moment: u64,
    ) -> bool {
        &&& post.wf()
        &&& forall|o: Seq<u8>, k: Seq<u8>| #[trigger] post.attr_at(o, k) == (if o == owner && k
            == pre.key_of(owner, name) {
            Some(
                new_attribute_view(
                    name,
                    value,
                    valid_for,
                    now_height,
                    now_moment,
                    pre.nonce_of(owner, name),
                ),
            )
        } else {
            pre.attr_at(o, k)
        })
        &&& forall|o: Seq<u8>, n: Seq<u8>| #[trigger] post.nonce_of(o, n) == pre.nonce_of(o, n)
    }

    /// Whether `post` is `pre` with the record under the current key of
    /// (owner, name) carrying a new value and validity, its name, creation
    /// moment and nonce untouched, and nothing else changed. False when no
    /// record is stored there.
    pub open spec fn mutated_ok(
        pre: AttributeRegistry,
        post: AttributeRegistry,
        owner: Seq<u8>,
        name: Seq<u8>,
        value: Seq<u8>,
        valid_for: Option<u64>,
        now_height: u64,
    ) -> bool {
        match pre.attr_at(owner, pre.key_of(owner, name)) {
            Some(prev) => {
                &&& post.wf()
                &&& forall|o: Seq<u8>, k: Seq<u8>| #[trigger] post.attr_at(o, k) == (if o == owner
                    && k == pre.key_of(owner, name) {
                    Some(
                        AttributeView {
                            name: prev.name,
                            value,
                            validity: spec_validity(now_height, valid_for),
                            created: prev.created,
                            nonce: prev.nonce,
                        },
                    )
                } else {
                    pre.attr_at(o, k)
                })
                &&& forall|o: Seq<u8>, n: Seq<u8>| #[trigger] post.nonce_of(o, n) == pre.nonce_of(
                    o,
                    n,
                )
            },
            None => false,
        }
    }

    /// Whether `post` is `pre` with the record under the current key of
    /// (owner, name) removed, and nothing else changed.
    pub open spec fn deleted_ok(
        pre: AttributeRegistry,
        post: AttributeRegistry,
        owner: Seq<u8>,
        name: Seq<u8>,
    ) -> bool {
        &&& post.wf()
        &&& forall|o: Seq<u8>, k: Seq<u8>| #[trigger] post.attr_at(o, k) == (if o == owner && k
            == pre.key_of(owner, name) {
            None::<AttributeView>
        } else {
            pre.attr_at(o, k)
        })
        &&& forall|o: Seq<u8>, n: Seq<u8>| #[trigger] post.nonce_of(o, n) == pre.nonce_of(o, n)
    }

    /// Creates the attribute (owner, name): derives the current key from the
    /// nonce counter and unconditionally upserts the new record there. A
    /// record already at that key is silently overwritten;
    /// `create_attribute_strict` is the variant that reports it instead.
    pub fn create_attribute(
        &mut self,
        owner: &Vec<u8>,
        name: &Vec<u8>,
        value: &Vec<u8>,
        valid_for: Option<u64>,
        now_height: u64,
        now_moment: u64,
    ) -> (r: Result<(), DidError>)
        requires
            old(self).wf(),
            encodable(owner@, name@),
            validity_fits(now_height, valid_for),
        ensures
            r == Ok::<(), DidError>(()),
            AttributeRegistry::created_ok(
                *old(self),
                *final(self),
                owner@,
                name@,
                value@,
                valid_for,
                now_height,
                now_moment,
            ),
    {
        let validity: u64 = match valid_for {
            Some(blocks) => now_height + blocks,
            None => u64::MAX,
        };
        let nonce = self.get_nonce(owner, name);
        let key = derive_key(owner, name, nonce);
        let attribute = Attribute {
            name: clone_bytes(name),
            value: clone_bytes(value),
            validity,
            created: now_moment,
            nonce,
        };
        self.insert(owner, &key, attribute);
        Ok(())
    }

    /// The strict variant of create: fails with `AlreadyExist`, writing
    /// nothing, when a record already sits under the derived key.
    pub fn create_attribute_strict(
        &mut self,
        owner: &Vec<u8>,
        name: &Vec<u8>,
        value: &Vec<u8>,
        valid_for: Option<u64>,
        now_height: u64,
        now_moment: u64,
    ) -> (r: Result<(), DidError>)
        requires
            old(self).wf(),
            encodable(owner@, name@),
            validity_fits(now_height, valid_for),
        ensures
            old(self).attr_at(owner@, old(self).key_of(owner@, name@)) is Some ==> r == Err::<
                (),
                DidError,
            >(DidError::AlreadyExist) && *final(self) == *old(self),
            old(self).attr_at(owner@, old(self).key_of(owner@, name@)) is None ==> r == Ok::<
                (),
                DidError,
            >(()) && AttributeRegistry::created_ok(
                *old(self),
                *final(self),
                owner@,
                name@,
                value@,
                valid_for,
                now_height,
                now_moment,
            ),
    {
        let nonce = self.get_nonce(owner, name);
        let key = derive_key(owner, name, nonce);
        if self.contains(owner, &key) {
            return Err(DidError::AlreadyExist);
        }
        self.create_attribute(owner, name, value, valid_for, now_height, now_moment)
    }

    /// Replaces value and validity of the attribute (owner, name), keeping
    /// its name, creation moment and nonce; fails with `NotFound`, writing
    /// nothing, when no record sits under the derived key.
    pub fn mutate_attribute(
        &mut self,
        owner: &Vec<u8>,
        name: &Vec<u8>,
        value: &Vec<u8>,
        valid_for: Option<u64>,
        now_height: u64,
    ) -> (r: Result<(), DidError>)
        requires
            old(self).wf(),
            encodable(owner@, name@),
            validity_fits(now_height, valid_for),
        ensures
            old(self).attr_at(owner@, old(self).key_of(owner@, name@)) is Some ==> r == Ok::<
                (),
                DidError,
            >(()) && AttributeRegistry::mutated_ok(
                *old(self),
                *final(self),
                owner@,
                name@,
                value@,
                valid_for,
                now_height,
            ),
            old(self).attr_at(owner@, old(self).key_of(owner@, name@)) is None ==> r == Err::<
                (),
                DidError,
            >(DidError::NotFound) && *final(self) == *old(self),
    {
        let validity: u64 = match valid_for {
            Some(blocks) => now_height + blocks,
            None => u64::MAX,
        };
        let nonce = self.get_nonce(owner, name);
        let key = derive_key(owner, name, nonce);
        match self.fetch(owner, &key) {
            Some(found) => {
                let attribute = Attribute {
                    name: found.name,
                    value: clone_bytes(value),
                    validity,
                    created: found.created,
                    nonce: found.nonce,
                };
                self.insert(owner, &key, attribute);
                Ok(())
            },
            None => Err(DidError::NotFound),
        }
    }

    /// The record of (owner, name) under its current key, if any. No expiry
    /// check is made: callers compare `validity` against the current height
    /// themselves.
    pub fn get_attribute(&self, owner: &Vec<u8>, name: &Vec<u8>) -> (r: Option<Attribute>)
        requires
            self.wf(),
            encodable(owner@, name@),
        ensures
            match r {
                Some(a) => self.attr_at(owner@, self.key_of(owner@, name@)) == Some(a@),
                None => self.attr_at(owner@, self.key_of(owner@, name@)) is None,
            },
    {
        let nonce = self.get_nonce(owner, name);
        let key = derive_key(owner, name, nonce);
        self.fetch(owner, &key)
    }

    /// Removes the attribute (owner, name); fails with `NotFound`, writing
    /// nothing, when no record sits under the derived key.
    pub fn delete_attribute(&mut self, owner: &Vec<u8>, name: &Vec<u8>) -> (r: Result<
        (),
        DidError,
    >)
        requires
            old(self).wf(),
            encodable(owner@, name@),
        ensures
            old(self).attr_at(owner@, old(self).key_of(owner@, name@)) is Some ==> r == Ok::<
                (),
                DidError,
            >(()) && AttributeRegistry::deleted_ok(*old(self), *final(self), owner@, name@),
            old(self).attr_at(owner@, old(self).key_of(owner@, name@)) is None ==> r == Err::<
                (),
                DidError,
            >(DidError::NotFound) && *final(self) == *old(self),
    {
        let nonce = self.get_nonce(owner, name);
        let key = derive_key(owner, name, nonce);
        if !self.contains(owner, &key) {
            return Err(DidError::NotFound);
        }
        self.remove(owner, &key);
        Ok(())
    }
}

} // verus!
