//! The attribute record, the registry's error taxonomy and the notifications
//! it hands to the host.

use vstd::prelude::*;
use crate::bytes::clone_bytes;

verus! {

/// One attribute record: a named byte value with its validity horizon (an
/// absolute ledger height), the moment it was created, and the generation
/// nonce its storage key was derived with.
#[derive(Debug, PartialEq, Eq)]
pub struct Attribute {
    pub name: Vec<u8>,
    pub value: Vec<u8>,
    pub validity: u64,
    pub created: u64,
    pub nonce: u64,
}

/// The mathematical value of an `Attribute`.
pub struct AttributeView {
    pub name: Seq<u8>,
    pub value: Seq<u8>,
    pub validity: u64,
    pub created: u64,
    pub nonce: u64,
}

impl View for Attribute {
    type V = AttributeView;

    open spec fn view(&self) -> AttributeView {
        AttributeView {
            name: self.name@,
            value: self.value@,
            validity: self.validity,
            created: self.created,
            nonce: self.nonce,
        }
    }
}

impl Attribute {
    /// A copy of the record, field for field.
    pub fn clone_record(&self) -> (r: Attribute)
        ensures
            r@ == self@,
    {
        Attribute {
            name: clone_bytes(&self.name),
            value: clone_bytes(&self.value),
            validity: self.validity,
            created: self.created,
            nonce: self.nonce,
        }
    }
}

/// The errors the core operations surface. None is retried: every failure is
/// terminal for its operation, and no operation mutates state before failing.
#[derive(Clone, Copy, Debug, PartialEq, Eq, Structural)]
pub enum DidError {
    /// No record is stored under the derived key.
    NotFound,
    /// The attribute name is longer than 64 bytes.
    NameExceedMaxChar,
    /// A record already sits under the derived key (only the strict create
    /// reports this).
    AlreadyExist,
    /// Reserved for a fallible backing store; never produced here.
    FailedCreate,
    /// Reserved for a fallible backing store; never produced here.
    FailedUpdate,
}

/// The dispatch-level error enumeration the host sees.
#[derive(Clone, Copy, Debug, PartialEq, Eq, Structural)]
pub enum Error {
    AttributeNameExceedMax64,
    AttributeCreationFailed,
    AttributeUpdateFailed,
    AttributeNotFound,
    AttributeAlreadyExist,
}

/// The dispatch-level error that each core error surfaces as, verbatim.
pub open spec fn spec_dispatch_error(err: DidError) -> Error {
    match err {
        DidError::NotFound => Error::AttributeNotFound,
        DidError::NameExceedMaxChar => Error::AttributeNameExceedMax64,
        DidError::AlreadyExist => Error::AttributeAlreadyExist,
        DidError::FailedCreate => Error::AttributeCreationFailed,
        DidError::FailedUpdate => Error::AttributeUpdateFailed,
    }
}

impl Error {
    /// Maps a core error to the dispatch-level error it surfaces as.
    pub fn dispatch_error(err: DidError) -> (r: Error)
        ensures
            r == spec_dispatch_error(err),
    {
        match err {
            DidError::NotFound => Error::AttributeNotFound,
            DidError::NameExceedMaxChar => Error::AttributeNameExceedMax64,
            DidError::AlreadyExist => Error::AttributeAlreadyExist,
            DidError::FailedCreate => Error::AttributeCreationFailed,
            DidError::FailedUpdate => Error::AttributeUpdateFailed,
        }
    }
}

/// A notification posted to the host's event sink after the corresponding
/// store mutation succeeds.
#[derive(Debug, PartialEq, Eq)]
pub enum Event {
    /// An attribute was added: owner, name, value, optional expiry window.
    AttributeAdded(Vec<u8>, Vec<u8>, Vec<u8>, Option<u64>),
    /// An attribute was read successfully.
    AttributeRead(Attribute),
    /// An attribute was updated: owner, name, value, optional expiry window.
    AttributeUpdated(Vec<u8>, Vec<u8>, Vec<u8>, Option<u64>),
    /// An attribute was removed: owner, name, ledger height at removal.
    AttributeRemoved(Vec<u8>, Vec<u8>, Option<u64>),
}

/// The mathematical value of an `Event`.
pub enum EventView {
    AttributeAdded { owner: Seq<u8>, name: Seq<u8>, value: Seq<u8>, valid_for: Option<u64> },
    AttributeRead { attribute: AttributeView },
    AttributeUpdated { owner: Seq<u8>, name: Seq<u8>, value: Seq<u8>, valid_for: Option<u64> },
    AttributeRemoved { owner: Seq<u8>, name: Seq<u8>, block: Option<u64> },
}

impl View for Event {
    type V = EventView;

    open spec fn view(&self) -> EventView {
        match self {
            Event::AttributeAdded(owner, name, value, valid_for) => EventView::AttributeAdded {
                owner: owner@,
                name: name@,
                value: value@,
                valid_for: *valid_for,
            },
            Event::AttributeRead(attribute) => EventView::AttributeRead {
                attribute: attribute@,
            },
            Event::AttributeUpdated(owner, name, value, valid_for) => EventView::AttributeUpdated {
                owner: owner@,
                name: name@,
                value: value@,
                valid_for: *valid_for,
            },
            Event::AttributeRemoved(owner, name, block) => EventView::AttributeRemoved {
                owner: owner@,
                name: name@,
                block: *block,
            },
        }
    }
}

} // verus!
