//! The boundary the host dispatches into: each call takes an owner identity
//! the host has already authenticated, enforces the 64-byte name bound, runs
//! one lifecycle operation, and returns either the notification to post to
//! the event sink or the dispatch-level error.

use vstd::prelude::*;
use crate::attribute::{Error, Event, EventView};
use crate::bytes::clone_bytes;
use crate::lifecycle::validity_fits;
use crate::registry::AttributeRegistry;

verus! {

/// The longest attribute name the boundary accepts, in bytes.
pub const MAX_NAME_LENGTH: usize = 64;

impl AttributeRegistry {
    /// Creates a new attribute with optional expiration. Rejects names over
    /// 64 bytes; otherwise creates the record and returns the
    /// `AttributeAdded` notification.
    pub fn add_attribute(
        &mut self,
        owner: &Vec<u8>,
        name: &Vec<u8>,
        value: &Vec<u8>,
        valid_for: Option<u64>,
        now_height: u64,
        now_moment: u64,
    ) -> (r: Result<Event, Error>)
        requires
            old(self).wf(),
            owner@.len() <= u32::MAX,
            name@.len() <= 64 ==> validity_fits(now_height, valid_for),
        ensures
            name@.len() > 64 ==> r == Err::<Event, Error>(Error::AttributeNameExceedMax64)
                && *final(self) == *old(self),
            name@.len() <= 64 ==> {
                &&& AttributeRegistry::created_ok(
                    *old(self),
                    *final(self),
                    owner@,
                    name@,
                    value@,
                    valid_for,
                    now_height,
                    now_moment,
                )
                &&& r matches Ok(e) && e@ == (EventView::AttributeAdded {
                    owner: owner@,
                    name: name@,
                    value: value@,
                    valid_for,
                })
            },
    {
        if name.len() > MAX_NAME_LENGTH {
            return Err(Error::AttributeNameExceedMax64);
        }
        match self.create_attribute(owner, name, value, valid_for, now_height, now_moment) {
            Ok(()) => Ok(
                Event::AttributeAdded(
                    clone_bytes(owner),
                    clone_bytes(name),
                    clone_bytes(value),
                    valid_for,
                ),
            ),
            Err(e) => Err(Error::dispatch_error(e)),
        }
    }

    /// Updates an existing attribute with optional expiration. Rejects names
    /// over 64 bytes; fails with `AttributeNotFound` when the attribute is
    /// absent; otherwise replaces value and validity and returns the
    /// `AttributeUpdated` notification.
    pub fn update_attribute(
        &mut self,
        owner: &Vec<u8>,
        name: &Vec<u8>,
        value: &Vec<u8>,
        valid_for: Option<u64>,
        now_height: u64,
    ) -> (r: Result<Event, Error>)
        requires
            old(self).wf(),
            owner@.len() <= u32::MAX,
            name@.len() <= 64 ==> validity_fits(now_height, valid_for),
        ensures
            name@.len() > 64 ==> r == Err::<Event, Error>(Error::AttributeNameExceedMax64)
                && *final(self) == *old(self),
            name@.len() <= 64 && old(self).attr_at(owner@, old(self).key_of(owner@, name@))
                is None ==> r == Err::<Event, Error>(Error::AttributeNotFound) && *final(self)
                == *old(self),
            name@.len() <= 64 && old(self).attr_at(owner@, old(self).key_of(owner@, name@))
                is Some ==> {
                &&& AttributeRegistry::mutated_ok(
                    *old(self),
                    *final(self),
                    owner@,
                    name@,
                    value@,
                    valid_for,
                    now_height,
                )
                &&& r matches Ok(e) && e@ == (EventView::AttributeUpdated {
                    owner: owner@,
                    name: name@,
                    value: value@,
                    valid_for,
                })
            },
    {
        if name.len() > MAX_NAME_LENGTH {
            return Err(Error::AttributeNameExceedMax64);
        }
        match self.mutate_attribute(owner, name, value, valid_for, now_height) {
            Ok(()) => Ok(
                Event::AttributeUpdated(
                    clone_bytes(owner),
                    clone_bytes(name),
                    clone_bytes(value),
                    valid_for,
                ),
            ),
            Err(e) => Err(Error::dispatch_error(e)),
        }
    }

    /// Reads the attribute (owner, name). Rejects names over 64 bytes;
    /// otherwise returns the `AttributeRead` notification carrying the full
    /// record, or `AttributeNotFound`.
    pub fn read_attribute(&self, owner: &Vec<u8>, name: &Vec<u8>) -> (r: Result<Event, Error>)
        requires
            self.wf(),
            owner@.len() <= u32::MAX,
        ensures
            name@.len() > 64 ==> r == Err::<Event, Error>(Error::AttributeNameExceedMax64),
            name@.len() <= 64 ==> match self.attr_at(owner@, self.key_of(owner@, name@)) {
                Some(a) => r matches Ok(e) && e@ == (EventView::AttributeRead { attribute: a }),
                None => r == Err::<Event, Error>(Error::AttributeNotFound),
            },
    {
        if name.len() > MAX_NAME_LENGTH {
            return Err(Error::AttributeNameExceedMax64);
        }
        match self.get_attribute(owner, name) {
            Some(attribute) => Ok(Event::AttributeRead(attribute)),
            None => Err(Error::AttributeNotFound),
        }
    }

    /// Deletes the attribute (owner, name). Rejects names over 64 bytes;
    /// fails with `AttributeNotFound` when the attribute is absent; otherwise
    /// removes the record and returns the `AttributeRemoved` notification
    /// carrying the current ledger height.
    pub fn remove_attribute(&mut self, owner: &Vec<u8>, name: &Vec<u8>, now_height: u64) -> (r:
        Result<Event, Error>)
        requires
            old(self).wf(),
            owner@.len() <= u32::MAX,
        ensures
            name@.len() > 64 ==> r == Err::<Event, Error>(Error::AttributeNameExceedMax64)
                && *final(self) == *old(self),
            name@.len() <= 64 && old(self).attr_at(owner@, old(self).key_of(owner@, name@))
                is None ==> r == Err::<Event, Error>(Error::AttributeNotFound) && *final(self)
                == *old(self),
            name@.len() <= 64 && old(self).attr_at(owner@, old(self).key_of(owner@, name@))
                is Some ==> {
                &&& AttributeRegistry::deleted_ok(*old(self), *final(self), owner@, name@)
                &&& r matches Ok(e) && e@ == (EventView::AttributeRemoved {
                    owner: owner@,
                    name: name@,
                    block: Some(now_height),
                })
            },
    {
        if name.len() > MAX_NAME_LENGTH {
            return Err(Error::AttributeNameExceedMax64);
        }
        match self.delete_attribute(owner, name) {
            Ok(()) => Ok(
                Event::AttributeRemoved(clone_bytes(owner), clone_bytes(name), Some(now_height)),
            ),
            Err(e) => Err(Error::dispatch_error(e)),
        }
    }
}

} // verus!
