//! Storage and calls of the identity pallet.
use vstd::prelude::*;
use std::collections::HashMap;
use crate::bytemap::{copy_bytes, lemma_map_values_insert, lemma_map_values_remove, lemma_seq_map_values_push, ByteMap};
use crate::origin::{AccountId, BlockNumber};
use super::types::{
    attribute_id, attribute_key, delegate_key,
    delegate_key_bytes, nonce_key, nonce_key_bytes, Attribute, AttributeTransaction, AttributeView,
    Moment, TransactionView,
};

verus! {

broadcast use vstd::std_specs::hash::group_hash_axioms;

/// Why a call of the identity pallet failed.
#[derive(Clone, Copy, Debug, PartialEq, Eq, Structural)]
pub enum Error {
    NotOwner,
    InvalidDelegate,
    BadSignature,
    AttributeCreationFailed,
    AttributeResetFailed,
    AttributeRemovalFailed,
    InvalidAttribute,
    Overflow,
    BadTransaction,
    Unknown,
    /// The call was not signed.
    BadOrigin,
}

/// Events of the identity pallet.
#[derive(Debug)]
pub enum Event {
    OwnerChanged { identity: AccountId, owner: AccountId, new_owner: AccountId, now: BlockNumber },
    DelegateAdded { identity: AccountId, delegate_type: Vec<u8>, delegate: AccountId, valid_for: Option<BlockNumber> },
    DelegateRevoked { identity: AccountId, delegate_type: Vec<u8>, delegate: AccountId },
    AttributeAdded { identity: AccountId, name: Vec<u8>, valid_for: Option<BlockNumber> },
    AttributeRevoked { identity: AccountId, name: Vec<u8>, now: BlockNumber },
    AttributeDeleted { identity: AccountId, name: Vec<u8>, now: BlockNumber },
    AttributeTransactionExecuted(AttributeTransaction),
}

/// Mathematical value of an [`Event`].
pub enum EventView {
    OwnerChanged { identity: AccountId, owner: AccountId, new_owner: AccountId, now: BlockNumber },
    DelegateAdded { identity: AccountId, delegate_type: Seq<u8>, delegate: AccountId, valid_for: Option<BlockNumber> },
    DelegateRevoked { identity: AccountId, delegate_type: Seq<u8>, delegate: AccountId },
    AttributeAdded { identity: AccountId, name: Seq<u8>, valid_for: Option<BlockNumber> },
    AttributeRevoked { identity: AccountId, name: Seq<u8>, now: BlockNumber },
    AttributeDeleted { identity: AccountId, name: Seq<u8>, now: BlockNumber },
    AttributeTransactionExecuted(TransactionView),
}

impl View for Event {
    type V = EventView;

    open spec fn view(&self) -> EventView {
        match self {
            Event::OwnerChanged { identity, owner, new_owner, now } =>
                EventView::OwnerChanged { identity: *identity, owner: *owner, new_owner: *new_owner, now: *now },
            Event::DelegateAdded { identity, delegate_type, delegate, valid_for } =>
                EventView::DelegateAdded { identity: *identity, delegate_type: delegate_type@, delegate: *delegate, valid_for: *valid_for },
            Event::DelegateRevoked { identity, delegate_type, delegate } =>
                EventView::DelegateRevoked { identity: *identity, delegate_type: delegate_type@, delegate: *delegate },
            Event::AttributeAdded { identity, name, valid_for } =>
                EventView::AttributeAdded { identity: *identity, name: name@, valid_for: *valid_for },
            Event::AttributeRevoked { identity, name, now } =>
                EventView::AttributeRevoked { identity: *identity, name: name@, now: *now },
            Event::AttributeDeleted { identity, name, now } =>
                EventView::AttributeDeleted { identity: *identity, name: name@, now: *now },
            Event::AttributeTransactionExecuted(t) => EventView::AttributeTransactionExecuted(t@),
        }
    }
}

/// The identity pallet's storage: delegates (valid until a block), attributes,
/// attribute nonces, identity owners, last updates, plus the current block, the
/// clock and the deposited events.
pub struct Pallet {
    pub block_number: BlockNumber,
    pub now: Moment,
    pub delegates: ByteMap<BlockNumber>,
    pub attributes: ByteMap<Attribute>,
    pub nonces: ByteMap<u64>,
    pub owners: HashMap<AccountId, AccountId>,
    pub updated_by: HashMap<AccountId, (AccountId, BlockNumber, Moment)>,
    pub events: Vec<Event>,
}

/// Mathematical value of the identity [`Pallet`].
pub struct IdentityState {
    pub block_number: BlockNumber,
    pub now: Moment,
    /// Delegate key to the block until which the delegate is valid.
    pub delegates: Map<Seq<u8>, BlockNumber>,
    /// Attribute key to attribute.
    pub attributes: Map<Seq<u8>, AttributeView>,
    /// Nonce key to the number of attributes of that name created so far.
    pub nonces: Map<Seq<u8>, u64>,
    pub owners: Map<AccountId, AccountId>,
    pub updated_by: Map<AccountId, (AccountId, BlockNumber, Moment)>,
    pub events: Seq<EventView>,
}

impl View for Pallet {
    type V = IdentityState;

    open spec fn view(&self) -> IdentityState {
        IdentityState {
            block_number: self.block_number,
            now: self.now,
            delegates: self.delegates.view(),
            attributes: self.attributes.view().map_values(|a: Attribute| a@),
            nonces: self.nonces.view(),
            owners: self.owners@,
            updated_by: self.updated_by@,
            events: self.events@.map_values(|e: Event| e@),
        }
    }
}

/// The owner of an identity: the recorded owner, or the identity itself.
pub open spec fn identity_owner_of(s: IdentityState, identity: AccountId) -> AccountId {
    if s.owners.contains_key(identity) { s.owners[identity] } else { identity }
}

pub open spec fn spec_is_owner(s: IdentityState, identity: AccountId, actual_owner: AccountId) -> Result<(), Error> {
    if identity_owner_of(s, identity) == actual_owner { Ok(()) } else { Err(Error::NotOwner) }
}

/// A listed delegate is valid while its expiry block is after the current block.
pub open spec fn spec_valid_listed_delegate(s: IdentityState, identity: AccountId, delegate_type: Seq<u8>, delegate: AccountId) -> Result<(), Error> {
    let k = delegate_key(identity, delegate_type, delegate);
    if s.delegates.contains_key(k) && s.delegates[k] > s.block_number { Ok(()) } else { Err(Error::InvalidDelegate) }
}

/// A delegate is valid for an identity when the type is at most 64 bytes and it
/// is a valid listed delegate or the identity's owner.
pub open spec fn spec_valid_delegate(s: IdentityState, identity: AccountId, delegate_type: Seq<u8>, delegate: AccountId) -> Result<(), Error> {
    if delegate_type.len() > 64 {
        Err(Error::InvalidDelegate)
    } else if spec_valid_listed_delegate(s, identity, delegate_type, delegate) is Ok
        || spec_is_owner(s, identity, delegate) is Ok {
        Ok(())
    } else {
        Err(Error::InvalidDelegate)
    }
}

/// The block until which something granted for `valid_for` blocks is valid.
pub open spec fn validity_until(now: BlockNumber, valid_for: Option<BlockNumber>) -> BlockNumber {
    match valid_for {
        Some(b) => (now + b) as BlockNumber,
        None => u32::MAX,
    }
}

/// Whether `now + valid_for` fits a block number.
pub open spec fn validity_fits(now: BlockNumber, valid_for: Option<BlockNumber>) -> bool {
    valid_for is Some ==> now + valid_for->0 <= u32::MAX
}

/// Listing a delegate: refused unless the delegate owns the identity, is not yet a
/// valid listed delegate, or differs from `owner`; then the delegate is listed until
/// `valid_for` blocks from now (forever when `None`).
pub open spec fn spec_create_delegate(s: IdentityState, owner: AccountId, identity: AccountId, delegate: AccountId, delegate_type: Seq<u8>, valid_for: Option<BlockNumber>) -> (IdentityState, Result<(), Error>) {
    if !(spec_is_owner(s, identity, delegate) is Ok
        || spec_valid_listed_delegate(s, identity, delegate_type, delegate) is Err
        || owner != delegate) {
        (s, Err(Error::InvalidDelegate))
    } else {
        let k = delegate_key(identity, delegate_type, delegate);
        (IdentityState { delegates: s.delegates.insert(k, validity_until(s.block_number, valid_for)), ..s }, Ok(()))
    }
}

/// The number of attributes named `name` created for `identity` so far.
pub open spec fn nonce_of(s: IdentityState, identity: AccountId, name: Seq<u8>) -> u64 {
    let k = nonce_key(identity, name);
    if s.nonces.contains_key(k) { s.nonces[k] } else { 0 }
}

/// The latest attribute named `name` of `identity`, with its id: the one created
/// with the last nonce, if it is stored under the identity.
pub open spec fn spec_attribute_and_id(s: IdentityState, identity: AccountId, name: Seq<u8>) -> Option<(AttributeView, Seq<u8>)> {
    let nonce = nonce_of(s, identity, name);
    let lookup = if nonce == 0 { 0 } else { (nonce - 1) as u64 };
    let id = attribute_id(identity, name, lookup);
    let k = attribute_key(identity, id);
    if s.attributes.contains_key(k) { Some((s.attributes[k], id)) } else { None }
}

/// Handing out the next nonce for an attribute name: the stored count, which then
/// grows by one (failing with `Overflow` at the maximum). The latest attribute of a
/// name is so found under the stored count less one.
pub open spec fn spec_get_next_nonce(s: IdentityState, identity: AccountId, name: Seq<u8>) -> (IdentityState, Result<u64, Error>) {
    let n = nonce_of(s, identity, name);
    if n == u64::MAX {
        (s, Err(Error::Overflow))
    } else {
        (IdentityState { nonces: s.nonces.insert(nonce_key(identity, name), (n + 1) as u64), ..s }, Ok(n))
    }
}

/// Creating an attribute: refused unless `owner` owns the identity, and refused
/// with `AttributeCreationFailed` when an attribute of that name is already found
/// for the identity (no duplicates). Otherwise the next nonce is taken (failing on
/// overflow), the attribute is stored under the identity and its id, and the
/// identity's last update is recorded.
pub open spec fn spec_create_attribute(s: IdentityState, owner: AccountId, identity: AccountId, name: Seq<u8>, value: Seq<u8>, valid_for: Option<BlockNumber>) -> (IdentityState, Result<(), Error>) {
    if spec_is_owner(s, identity, owner) is Err {
        (s, spec_is_owner(s, identity, owner))
    } else if spec_attribute_and_id(s, identity, name) is Some {
        (s, Err(Error::AttributeCreationFailed))
    } else {
        let validity = validity_until(s.block_number, valid_for);
        let (s1, r) = spec_get_next_nonce(s, identity, name);
        match r {
            Err(e) => (s1, Err(e)),
            Ok(nonce) => {
                let attr = AttributeView { name, value, validity, creation: s.now, nonce };
                let k = attribute_key(identity, attribute_id(identity, name, nonce));
                (IdentityState {
                    attributes: s1.attributes.insert(k, attr),
                    updated_by: s1.updated_by.insert(identity, (owner, s.block_number, s.now)),
                    ..s1
                }, Ok(()))
            },
        }
    }
}

/// Expiring an attribute now: refused unless `owner` owns the identity, and with
/// `AttributeResetFailed` when no attribute of that name is found.
pub open spec fn spec_reset_attributes(s: IdentityState, owner: AccountId, identity: AccountId, name: Seq<u8>) -> (IdentityState, Result<(), Error>) {
    if spec_is_owner(s, identity, owner) is Err {
        (s, spec_is_owner(s, identity, owner))
    } else {
        match spec_attribute_and_id(s, identity, name) {
            None => (s, Err(Error::AttributeResetFailed)),
            Some((attr, id)) => (IdentityState {
                attributes: s.attributes.insert(attribute_key(identity, id), AttributeView { validity: s.block_number, ..attr }),
                updated_by: s.updated_by.insert(identity, (owner, s.block_number, s.now)),
                ..s
            }, Ok(())),
        }
    }
}

/// An attribute is valid when its name is at most 64 bytes and the latest one of
/// that name has not expired and holds `value`.
pub open spec fn spec_valid_attribute(s: IdentityState, identity: AccountId, name: Seq<u8>, value: Seq<u8>) -> Result<(), Error> {
    if name.len() > 64 {
        Err(Error::InvalidAttribute)
    } else {
        match spec_attribute_and_id(s, identity, name) {
            None => Err(Error::InvalidAttribute),
            Some((attr, _)) => if attr.validity > s.block_number && attr.value == value {
                Ok(())
            } else {
                Err(Error::InvalidAttribute)
            },
        }
    }
}

/// The delegate type that may sign attribute transactions.
pub open spec fn verification_key_type() -> Seq<u8> {
    seq![120u8, 50, 53, 53, 49, 57, 86, 101, 114, 105, 102, 105, 99, 97, 116, 105, 111, 110, 75, 101, 121, 50, 48, 49, 56]
}

/// A signer is valid when it is a valid verification-key delegate of the identity
/// and the signature checks.
pub open spec fn spec_valid_signer(s: IdentityState, identity: AccountId, signature_valid: bool, signer: AccountId) -> Result<(), Error> {
    match spec_valid_delegate(s, identity, verification_key_type(), signer) {
        Err(e) => Err(e),
        Ok(_) => if signature_valid { Ok(()) } else { Err(Error::BadSignature) },
    }
}

/// Executing a signed attribute transaction on behalf of `who`: refused when the
/// signer is not valid, does not own the identity, or the name is longer than 64
/// bytes. A transaction with positive validity attempts to create the attribute
/// (its own failure is ignored); one with zero validity expires it.
pub open spec fn spec_signed_attribute(s: IdentityState, who: AccountId, tx: TransactionView, signature_valid: bool) -> (IdentityState, Result<(), Error>) {
    if spec_valid_signer(s, tx.identity, signature_valid, tx.signer) is Err {
        (s, spec_valid_signer(s, tx.identity, signature_valid, tx.signer))
    } else if spec_is_owner(s, tx.identity, tx.signer) is Err {
        (s, spec_is_owner(s, tx.identity, tx.signer))
    } else if tx.name.len() > 64 {
        (s, Err(Error::BadTransaction))
    } else if tx.validity > 0 {
        (spec_create_attribute(s, who, tx.identity, tx.name, tx.value, Some(tx.validity)).0, Ok(()))
    } else {
        spec_reset_attributes(s, who, tx.identity, tx.name)
    }
}

pub open spec fn with_event(s: IdentityState, e: EventView) -> IdentityState {
    IdentityState { events: s.events.push(e), ..s }
}

pub open spec fn with_update(s: IdentityState, identity: AccountId, owner: AccountId) -> IdentityState {
    IdentityState { updated_by: s.updated_by.insert(identity, (owner, s.block_number, s.now)), ..s }
}

impl Attribute {
    /// A copy of this attribute.
    pub fn duplicate(&self) -> (r: Attribute)
        ensures
            r@ == self@,
    {
        Attribute {
            name: copy_bytes(&self.name),
            value: copy_bytes(&self.value),
            validity: self.validity,
            creation: self.creation,
            nonce: self.nonce,
        }
    }
}

impl Pallet {
    /// An identity pallet with empty storage at the given block and time.
    pub fn new(block_number: BlockNumber, now: Moment) -> (r: Pallet)
        ensures
            r@ == (IdentityState {
                block_number,
                now,
                delegates: Map::empty(),
                attributes: Map::empty(),
                nonces: Map::empty(),
                owners: Map::empty(),
                updated_by: Map::empty(),
                events: Seq::empty(),
            }),
    {
        let r = Pallet {
            block_number,
            now,
            delegates: ByteMap::new(),
            attributes: ByteMap::new(),
            nonces: ByteMap::new(),
            owners: HashMap::new(),
            updated_by: HashMap::new(),
            events: Vec::new(),
        };
        assert(r@.attributes =~= Map::<Seq<u8>, AttributeView>::empty());
        assert(r@.events =~= Seq::<EventView>::empty());
        r
    }

    /// Moves the chain to block `n`.
    pub fn set_block_number(&mut self, n: BlockNumber)
        ensures
            final(self)@ == (IdentityState { block_number: n, ..old(self)@ }),
    {
        self.block_number = n;
    }

    /// Sets the time that the clock reports.
    pub fn set_now(&mut self, t: Moment)
        ensures
            final(self)@ == (IdentityState { now: t, ..old(self)@ }),
    {
        self.now = t;
    }

    /// The events deposited so far.
    pub fn events(&self) -> (r: &Vec<Event>)
        ensures
            r@.map_values(|e: Event| e@) == self@.events,
    {
        &self.events
    }

    pub(crate) fn deposit_event(&mut self, e: Event)
        ensures
            final(self)@ == with_event(old(self)@, e@),
    {
        proof { lemma_seq_map_values_push(self.events@, e, |e: Event| e@); }
        self.events.push(e);
    }

    pub(crate) fn record_update(&mut self, identity: AccountId, owner: AccountId)
        ensures
            final(self)@ == with_update(old(self)@, identity, owner),
    {
        let entry = (owner, self.block_number, self.now);
        self.updated_by.insert(identity, entry);
    }

    pub(crate) fn put_attribute(&mut self, key: Vec<u8>, a: Attribute)
        ensures
            final(self)@ == (IdentityState { attributes: old(self)@.attributes.insert(key@, a@), ..old(self)@ }),
    {
        proof { lemma_map_values_insert(self.attributes.view(), key@, a, |a: Attribute| a@); }
        self.attributes.insert(key, a);
    }

    pub(crate) fn remove_attribute(&mut self, key: &[u8])
        ensures
            final(self)@ == (IdentityState { attributes: old(self)@.attributes.remove(key@), ..old(self)@ }),
    {
        proof { lemma_map_values_remove(self.attributes.view(), key@, |a: Attribute| a@); }
        self.attributes.remove(key);
    }

    /// The number of attributes named `name` created for `identity`.
    pub fn nonce_of(&self, identity: AccountId, name: &[u8]) -> (r: u64)
        ensures
            r == nonce_of(self@, identity, name@),
    {
        let k = nonce_key_bytes(identity, name);
        match self.nonces.get(k.as_slice()) {
            Some(n) => *n,
            None => 0,
        }
    }

    /// The block until which a delegate is listed, if it is.
    pub fn delegate_of(&self, identity: AccountId, delegate_type: &[u8], delegate: AccountId) -> (r: Option<BlockNumber>)
        ensures
            r == (if self@.delegates.contains_key(delegate_key(identity, delegate_type@, delegate)) {
                Some(self@.delegates[delegate_key(identity, delegate_type@, delegate)])
            } else {
                None
            }),
    {
        let k = delegate_key_bytes(identity, delegate_type, delegate);
        match self.delegates.get(k.as_slice()) {
            Some(b) => Some(*b),
            None => None,
        }
    }

    /// The recorded owner of an identity, if one was set.
    pub fn owner_of(&self, identity: AccountId) -> (r: Option<AccountId>)
        ensures
            r == (if self@.owners.contains_key(identity) { Some(self@.owners[identity]) } else { None }),
    {
        match self.owners.get(&identity) {
            Some(o) => Some(*o),
            None => None,
        }
    }

    /// Who last updated an identity, at which block and time.
    pub fn updated_by(&self, identity: AccountId) -> (r: Option<(AccountId, BlockNumber, Moment)>)
        ensures
            r == (if self@.updated_by.contains_key(identity) { Some(self@.updated_by[identity]) } else { None }),
    {
        match self.updated_by.get(&identity) {
            Some(u) => Some(*u),
            None => None,
        }
    }
}

} // verus!
