//! The identity pallet's checks and dispatchable calls.
use vstd::prelude::*;
use crate::origin::{signer_of, ensure_signed, AccountId, BlockNumber, Origin};
use crate::scale::{encoded_bytes, le_bytes, push_encoded_bytes, push_le};
use super::types::{
    attribute_key, attribute_key_bytes, compute_attribute_id, delegate_key,
    delegate_key_bytes, nonce_key_bytes, Attribute, AttributeTransaction, TransactionView,
};
use super::pallet::{
    nonce_of, spec_attribute_and_id, spec_create_attribute, spec_create_delegate,
    spec_get_next_nonce, spec_is_owner, spec_reset_attributes, spec_signed_attribute,
    spec_valid_attribute, spec_valid_delegate, spec_valid_listed_delegate, spec_valid_signer,
    identity_owner_of, validity_fits, validity_until, verification_key_type, with_event, with_update,
    Error, Event, EventView, IdentityState, Pallet,
};

verus! {

/// Whether the delegate check of `create_delegate` lets the listing through.
pub open spec fn delegate_admitted(s: IdentityState, owner: AccountId, identity: AccountId, delegate: AccountId, delegate_type: Seq<u8>) -> bool {
    spec_create_delegate(s, owner, identity, delegate, delegate_type, None).1 is Ok
}

/// Whether `create_attribute` gets as far as computing the validity.
pub open spec fn attribute_creatable(s: IdentityState, owner: AccountId, identity: AccountId, name: Seq<u8>) -> bool {
    spec_is_owner(s, identity, owner) is Ok && spec_attribute_and_id(s, identity, name) is None
}

/// Whether a signed attribute transaction gets as far as adding its validity to
/// the current block.
pub open spec fn transaction_admitted(s: IdentityState, tx: TransactionView, signature_valid: bool) -> bool {
    spec_valid_signer(s, tx.identity, signature_valid, tx.signer) is Ok
        && spec_is_owner(s, tx.identity, tx.signer) is Ok
        && tx.name.len() <= 64
}

/// The bytes a signed attribute transaction signs: the encoded name, the encoded
/// value, the validity and the identity.
pub open spec fn signing_payload(tx: TransactionView) -> Seq<u8> {
    encoded_bytes(tx.name) + encoded_bytes(tx.value) + le_bytes(tx.validity as nat, 4) + le_bytes(tx.identity as nat, 8)
}

pub open spec fn spec_change_owner(s: IdentityState, origin: Origin, identity: AccountId, new_owner: AccountId) -> (IdentityState, Result<(), Error>) {
    match signer_of(origin) {
        None => (s, Err(Error::BadOrigin)),
        Some(owner) => if spec_is_owner(s, identity, owner) is Err {
            (s, Err(Error::NotOwner))
        } else {
            let s1 = IdentityState { owners: s.owners.insert(identity, new_owner), ..s };
            (with_event(with_update(s1, identity, owner),
                EventView::OwnerChanged { identity, owner, new_owner, now: s.block_number }), Ok(()))
        },
    }
}

pub open spec fn spec_add_delegate(s: IdentityState, origin: Origin, identity: AccountId, delegate: AccountId, delegate_type: Seq<u8>, valid_for: Option<BlockNumber>) -> (IdentityState, Result<(), Error>) {
    match signer_of(origin) {
        None => (s, Err(Error::BadOrigin)),
        Some(owner) => if delegate_type.len() > 64 {
            (s, Err(Error::InvalidDelegate))
        } else {
            let (s1, r) = spec_create_delegate(s, owner, identity, delegate, delegate_type, valid_for);
            if r is Err {
                (s1, r)
            } else {
                (with_event(with_update(s1, identity, owner),
                    EventView::DelegateAdded { identity, delegate_type, delegate, valid_for }), Ok(()))
            }
        },
    }
}

pub open spec fn spec_revoke_delegate(s: IdentityState, origin: Origin, identity: AccountId, delegate: AccountId, delegate_type: Seq<u8>) -> (IdentityState, Result<(), Error>) {
    match signer_of(origin) {
        None => (s, Err(Error::BadOrigin)),
        Some(owner) => if delegate_type.len() > 64 {
            (s, Err(Error::InvalidDelegate))
        } else if spec_is_owner(s, identity, owner) is Err {
            (s, Err(Error::NotOwner))
        } else if spec_valid_listed_delegate(s, identity, delegate_type, delegate) is Err {
            (s, Err(Error::InvalidDelegate))
        } else {
            let k = delegate_key(identity, delegate_type, delegate);
            let s1 = IdentityState { delegates: s.delegates.insert(k, s.block_number), ..s };
            (with_event(with_update(s1, identity, owner),
                EventView::DelegateRevoked { identity, delegate_type, delegate }), Ok(()))
        },
    }
}

pub open spec fn spec_add_attribute(s: IdentityState, origin: Origin, identity: AccountId, name: Seq<u8>, value: Seq<u8>, valid_for: Option<BlockNumber>) -> (IdentityState, Result<(), Error>) {
    match signer_of(origin) {
        None => (s, Err(Error::BadOrigin)),
        Some(owner) => if name.len() > 65 {
            (s, Err(Error::AttributeCreationFailed))
        } else {
            let (s1, r) = spec_create_attribute(s, owner, identity, name, value, valid_for);
            if r is Err {
                (s1, r)
            } else {
                (with_event(s1, EventView::AttributeAdded { identity, name, valid_for }), Ok(()))
            }
        },
    }
}

pub open spec fn spec_revoke_attribute(s: IdentityState, origin: Origin, identity: AccountId, name: Seq<u8>) -> (IdentityState, Result<(), Error>) {
    match signer_of(origin) {
        None => (s, Err(Error::BadOrigin)),
        Some(owner) => if name.len() > 64 {
            (s, Err(Error::AttributeRemovalFailed))
        } else {
            let (s1, r) = spec_reset_attributes(s, owner, identity, name);
            if r is Err {
                (s1, r)
            } else {
                (with_event(s1, EventView::AttributeRevoked { identity, name, now: s.block_number }), Ok(()))
            }
        },
    }
}

pub open spec fn spec_delete_attribute(s: IdentityState, origin: Origin, identity: AccountId, name: Seq<u8>) -> (IdentityState, Result<(), Error>) {
    match signer_of(origin) {
        None => (s, Err(Error::BadOrigin)),
        Some(owner) => if spec_is_owner(s, identity, owner) is Err {
            (s, Err(Error::NotOwner))
        } else if name.len() > 64 {
            (s, Err(Error::AttributeRemovalFailed))
        } else {
            match spec_attribute_and_id(s, identity, name) {
                None => (s, Err(Error::AttributeRemovalFailed)),
                Some((_, id)) => {
                    let s1 = IdentityState { attributes: s.attributes.remove(attribute_key(identity, id)), ..s };
                    (with_event(with_update(s1, identity, owner),
                        EventView::AttributeDeleted { identity, name, now: s.block_number }), Ok(()))
                },
            }
        },
    }
}

pub open spec fn spec_execute(s: IdentityState, origin: Origin, tx: TransactionView, signature_valid: bool) -> (IdentityState, Result<(), Error>) {
    match signer_of(origin) {
        None => (s, Err(Error::BadOrigin)),
        Some(owner) => {
            let (s1, r) = spec_signed_attribute(s, owner, tx, signature_valid);
            if r is Err {
                (s1, r)
            } else {
                (with_event(s1, EventView::AttributeTransactionExecuted(tx)), Ok(()))
            }
        },
    }
}

/// The outcome of a signature check whose verification gave `signature_valid`.
pub fn check_signature(signature_valid: bool) -> (r: Result<(), Error>)
    ensures
        r == (if signature_valid { Ok::<(), Error>(()) } else { Err(Error::BadSignature) }),
{
    if signature_valid { Ok(()) } else { Err(Error::BadSignature) }
}

/// The bytes that the signer of `tx` signs.
pub fn signing_payload_bytes(tx: &AttributeTransaction) -> (r: Vec<u8>)
    ensures
        r@ == signing_payload(tx@),
{
    let mut out: Vec<u8> = Vec::new();
    push_encoded_bytes(&mut out, tx.name.as_slice());
    push_encoded_bytes(&mut out, tx.value.as_slice());
    push_le(&mut out, tx.validity as u64, 4);
    push_le(&mut out, tx.identity, 8);
    proof {
        assert(Seq::<u8>::empty() + encoded_bytes(tx.name@) =~= encoded_bytes(tx.name@));
    }
    out
}

impl Pallet {
    /// The owner of an identity: the recorded owner, or the identity itself.
    pub fn identity_owner(&self, identity: AccountId) -> (r: AccountId)
        ensures
            r == identity_owner_of(self@, identity),
    {
        match self.owners.get(&identity) {
            Some(o) => *o,
            None => identity,
        }
    }

    /// Succeeds when `actual_owner` owns `identity`.
    pub fn is_owner(&self, identity: AccountId, actual_owner: AccountId) -> (r: Result<(), Error>)
        ensures
            r == spec_is_owner(self@, identity, actual_owner),
    {
        if self.identity_owner(identity) == actual_owner { Ok(()) } else { Err(Error::NotOwner) }
    }

    /// Succeeds when `delegate` is listed for `identity` under `delegate_type` and
    /// has not expired.
    pub fn valid_listed_delegate(&self, identity: AccountId, delegate_type: &[u8], delegate: AccountId) -> (r: Result<(), Error>)
        ensures
            r == spec_valid_listed_delegate(self@, identity, delegate_type@, delegate),
    {
        match self.delegate_of(identity, delegate_type, delegate) {
            Some(until) => if until > self.block_number { Ok(()) } else { Err(Error::InvalidDelegate) },
            None => Err(Error::InvalidDelegate),
        }
    }

    /// Succeeds when `delegate` may act for `identity` under `delegate_type`.
    pub fn valid_delegate(&self, identity: AccountId, delegate_type: &[u8], delegate: AccountId) -> (r: Result<(), Error>)
        ensures
            r == spec_valid_delegate(self@, identity, delegate_type@, delegate),
    {
        if delegate_type.len() > 64 {
            return Err(Error::InvalidDelegate);
        }
        if self.valid_listed_delegate(identity, delegate_type, delegate).is_ok()
            || self.is_owner(identity, delegate).is_ok() {
            Ok(())
        } else {
            Err(Error::InvalidDelegate)
        }
    }

    /// Lists `delegate` for `identity` under `delegate_type` for `valid_for`
    /// blocks (forever when `None`).
    pub fn create_delegate(&mut self, owner: AccountId, identity: AccountId, delegate: AccountId, delegate_type: &[u8], valid_for: Option<BlockNumber>) -> (r: Result<(), Error>)
        requires
            delegate_admitted(old(self)@, owner, identity, delegate, delegate_type@)
                ==> validity_fits(old(self)@.block_number, valid_for),
        ensures
            (final(self)@, r) == spec_create_delegate(old(self)@, owner, identity, delegate, delegate_type@, valid_for),
    {
        if !(self.is_owner(identity, delegate).is_ok()
            || !self.valid_listed_delegate(identity, delegate_type, delegate).is_ok()
            || owner != delegate) {
            return Err(Error::InvalidDelegate);
        }
        let validity: BlockNumber = match valid_for {
            Some(blocks) => self.block_number + blocks,
            None => u32::MAX,
        };
        let k = delegate_key_bytes(identity, delegate_type, delegate);
        self.delegates.insert(k, validity);
        Ok(())
    }

    /// The latest attribute named `name` of `identity`, with its id.
    pub fn attribute_and_id(&self, identity: AccountId, name: &[u8]) -> (r: Option<(Attribute, [u8; 32])>)
        ensures
            match r {
                Some((a, id)) => spec_attribute_and_id(self@, identity, name@) == Some((a@, id@)),
                None => spec_attribute_and_id(self@, identity, name@) is None,
            },
    {
        let nonce = self.nonce_of(identity, name);
        let lookup: u64 = if nonce == 0 { 0 } else { nonce - 1 };
        let id = compute_attribute_id(identity, name, lookup);
        let k = attribute_key_bytes(identity, &id);
        match self.attributes.get(k.as_slice()) {
            Some(a) => Some((a.duplicate(), id)),
            None => None,
        }
    }

    /// Takes the next nonce for attributes named `name` of `identity`.
    pub fn get_next_nonce(&mut self, identity: AccountId, name: &[u8]) -> (r: Result<u64, Error>)
        ensures
            (final(self)@, r) == spec_get_next_nonce(old(self)@, identity, name@),
    {
        let n = self.nonce_of(identity, name);
        if n == u64::MAX {
            return Err(Error::Overflow);
        }
        let k = nonce_key_bytes(identity, name);
        self.nonces.insert(k, n + 1);
        Ok(n)
    }

    /// Creates an attribute of `identity` on behalf of its owner.
    pub fn create_attribute(&mut self, owner: AccountId, identity: AccountId, name: &[u8], value: &[u8], valid_for: Option<BlockNumber>) -> (r: Result<(), Error>)
        requires
            attribute_creatable(old(self)@, owner, identity, name@) ==> validity_fits(old(self)@.block_number, valid_for),
        ensures
            (final(self)@, r) == spec_create_attribute(old(self)@, owner, identity, name@, value@, valid_for),
    {
        let ghost s0 = self@;
        if let Err(e) = self.is_owner(identity, owner) {
            return Err(e);
        }
        if self.attribute_and_id(identity, name).is_some() {
            return Err(Error::AttributeCreationFailed);
        }
        let time_now = self.now;
        let now = self.block_number;
        let validity: BlockNumber = match valid_for {
            Some(blocks) => now + blocks,
            None => u32::MAX,
        };
        let nonce = match self.get_next_nonce(identity, name) {
            Ok(n) => n,
            Err(e) => return Err(e),
        };
        let id = compute_attribute_id(identity, name, nonce);
        let k = attribute_key_bytes(identity, &id);
        let attr = Attribute {
            name: vstd::slice::slice_to_vec(name),
            value: vstd::slice::slice_to_vec(value),
            validity,
            creation: time_now,
            nonce,
        };
        self.put_attribute(k, attr);
        self.record_update(identity, owner);
        proof {
            assert(validity == validity_until(s0.block_number, valid_for));
        }
        Ok(())
    }

    /// Expires the latest attribute named `name` of `identity` at the current block.
    pub fn reset_attributes(&mut self, owner: AccountId, identity: AccountId, name: &[u8]) -> (r: Result<(), Error>)
        ensures
            (final(self)@, r) == spec_reset_attributes(old(self)@, owner, identity, name@),
    {
        if let Err(e) = self.is_owner(identity, owner) {
            return Err(e);
        }
        match self.attribute_and_id(identity, name) {
            Some((attribute, id)) => {
                let mut attribute = attribute;
                attribute.validity = self.block_number;
                let k = attribute_key_bytes(identity, &id);
                self.put_attribute(k, attribute);
            },
            None => return Err(Error::AttributeResetFailed),
        }
        self.record_update(identity, owner);
        Ok(())
    }

    /// Succeeds when the latest attribute named `name` of `identity` holds
    /// `value` and has not expired.
    pub fn valid_attribute(&self, identity: AccountId, name: &[u8], value: &[u8]) -> (r: Result<(), Error>)
        ensures
            r == spec_valid_attribute(self@, identity, name@, value@),
    {
        if name.len() > 64 {
            return Err(Error::InvalidAttribute);
        }
        match self.attribute_and_id(identity, name) {
            None => Err(Error::InvalidAttribute),
            Some((attribute, _)) => {
                if attribute.validity > self.block_number
                    && crate::bytemap::bytes_equal(attribute.value.as_slice(), value) {
                    Ok(())
                } else {
                    Err(Error::InvalidAttribute)
                }
            },
        }
    }

    /// Succeeds when `signer` may sign for `identity` and its signature verified.
    pub fn valid_signer(&self, identity: AccountId, signature_valid: bool, signer: AccountId) -> (r: Result<(), Error>)
        ensures
            r == spec_valid_signer(self@, identity, signature_valid, signer),
    {
        let key_type: [u8; 25] = [
            120u8, 50, 53, 53, 49, 57, 86, 101, 114, 105, 102, 105, 99, 97, 116, 105, 111, 110, 75, 101, 121, 50, 48, 49, 56,
        ];
        proof {
            assert(key_type@ =~= verification_key_type());
        }
        if let Err(e) = self.valid_delegate(identity, key_type.as_slice(), signer) {
            return Err(e);
        }
        check_signature(signature_valid)
    }

    /// Applies a signed attribute transaction on behalf of `who`.
    pub fn signed_attribute(&mut self, who: AccountId, tx: &AttributeTransaction, signature_valid: bool) -> (r: Result<(), Error>)
        requires
            transaction_admitted(old(self)@, tx@, signature_valid) ==> old(self)@.block_number + tx.validity <= u32::MAX,
        ensures
            (final(self)@, r) == spec_signed_attribute(old(self)@, who, tx@, signature_valid),
    {
        if let Err(e) = self.valid_signer(tx.identity, signature_valid, tx.signer) {
            return Err(e);
        }
        if let Err(e) = self.is_owner(tx.identity, tx.signer) {
            return Err(e);
        }
        if tx.name.len() > 64 {
            return Err(Error::BadTransaction);
        }
        let now = self.block_number;
        let valid = now + tx.validity;
        if valid > now {
            let _ = self.create_attribute(who, tx.identity, tx.name.as_slice(), tx.value.as_slice(), Some(tx.validity));
            Ok(())
        } else {
            self.reset_attributes(who, tx.identity, tx.name.as_slice())
        }
    }
}


impl Pallet {
    /// Transfers `identity` to `new_owner`; only its current owner may do so.
    pub fn change_owner(&mut self, origin: Origin, identity: AccountId, new_owner: AccountId) -> (r: Result<(), Error>)
        ensures
            (final(self)@, r) == spec_change_owner(old(self)@, origin, identity, new_owner),
    {
        let owner = match ensure_signed(origin) {
            Some(a) => a,
            None => return Err(Error::BadOrigin),
        };
        if let Err(e) = self.is_owner(identity, owner) {
            return Err(e);
        }
        self.owners.insert(identity, new_owner);
        let now = self.block_number;
        self.record_update(identity, owner);
        self.deposit_event(Event::OwnerChanged { identity, owner, new_owner, now });
        Ok(())
    }

    /// Lists a delegate of `identity` of type `delegate_type` for `valid_for`
    /// blocks.
    pub fn add_delegate(&mut self, origin: Origin, identity: AccountId, delegate: AccountId, delegate_type: Vec<u8>, valid_for: Option<BlockNumber>) -> (r: Result<(), Error>)
        requires
            signer_of(origin) is Some && delegate_type.len() <= 64
                && delegate_admitted(old(self)@, signer_of(origin)->0, identity, delegate, delegate_type@)
                ==> validity_fits(old(self)@.block_number, valid_for),
        ensures
            (final(self)@, r) == spec_add_delegate(old(self)@, origin, identity, delegate, delegate_type@, valid_for),
    {
        let owner = match ensure_signed(origin) {
            Some(a) => a,
            None => return Err(Error::BadOrigin),
        };
        if delegate_type.len() > 64 {
            return Err(Error::InvalidDelegate);
        }
        if let Err(e) = self.create_delegate(owner, identity, delegate, delegate_type.as_slice(), valid_for) {
            return Err(e);
        }
        self.record_update(identity, owner);
        self.deposit_event(Event::DelegateAdded { identity, delegate_type, delegate, valid_for });
        Ok(())
    }

    /// Expires a listed delegate of `identity` at the current block.
    pub fn revoke_delegate(&mut self, origin: Origin, identity: AccountId, delegate: AccountId, delegate_type: Vec<u8>) -> (r: Result<(), Error>)
        ensures
            (final(self)@, r) == spec_revoke_delegate(old(self)@, origin, identity, delegate, delegate_type@),
    {
        let owner = match ensure_signed(origin) {
            Some(a) => a,
            None => return Err(Error::BadOrigin),
        };
        if delegate_type.len() > 64 {
            return Err(Error::InvalidDelegate);
        }
        if let Err(e) = self.is_owner(identity, owner) {
            return Err(e);
        }
        if let Err(e) = self.valid_listed_delegate(identity, delegate_type.as_slice(), delegate) {
            return Err(e);
        }
        let now = self.block_number;
        let k = delegate_key_bytes(identity, delegate_type.as_slice(), delegate);
        self.delegates.insert(k, now);
        self.record_update(identity, owner);
        self.deposit_event(Event::DelegateRevoked { identity, delegate_type, delegate });
        Ok(())
    }

    /// Adds an attribute to `identity`, valid for `valid_for` blocks.
    pub fn add_attribute(&mut self, origin: Origin, identity: AccountId, name: Vec<u8>, value: Vec<u8>, valid_for: Option<BlockNumber>) -> (r: Result<(), Error>)
        requires
            signer_of(origin) is Some && name.len() <= 65
                && attribute_creatable(old(self)@, signer_of(origin)->0, identity, name@)
                ==> validity_fits(old(self)@.block_number, valid_for),
        ensures
            (final(self)@, r) == spec_add_attribute(old(self)@, origin, identity, name@, value@, valid_for),
    {
        let owner = match ensure_signed(origin) {
            Some(a) => a,
            None => return Err(Error::BadOrigin),
        };
        if name.len() > 65 {
            return Err(Error::AttributeCreationFailed);
        }
        if let Err(e) = self.create_attribute(owner, identity, name.as_slice(), value.as_slice(), valid_for) {
            return Err(e);
        }
        self.deposit_event(Event::AttributeAdded { identity, name, valid_for });
        Ok(())
    }

    /// Revokes an attribute of `identity`: it expires at the current block.
    pub fn revoke_attribute(&mut self, origin: Origin, identity: AccountId, name: Vec<u8>) -> (r: Result<(), Error>)
        ensures
            (final(self)@, r) == spec_revoke_attribute(old(self)@, origin, identity, name@),
    {
        let owner = match ensure_signed(origin) {
            Some(a) => a,
            None => return Err(Error::BadOrigin),
        };
        if name.len() > 64 {
            return Err(Error::AttributeRemovalFailed);
        }
        if let Err(e) = self.reset_attributes(owner, identity, name.as_slice()) {
            return Err(e);
        }
        let now = self.block_number;
        self.deposit_event(Event::AttributeRevoked { identity, name, now });
        Ok(())
    }

    /// Deletes the latest attribute named `name` of `identity`.
    pub fn delete_attribute(&mut self, origin: Origin, identity: AccountId, name: Vec<u8>) -> (r: Result<(), Error>)
        ensures
            (final(self)@, r) == spec_delete_attribute(old(self)@, origin, identity, name@),
    {
        let owner = match ensure_signed(origin) {
            Some(a) => a,
            None => return Err(Error::BadOrigin),
        };
        if let Err(e) = self.is_owner(identity, owner) {
            return Err(e);
        }
        if name.len() > 64 {
            return Err(Error::AttributeRemovalFailed);
        }
        match self.attribute_and_id(identity, name.as_slice()) {
            Some((_, id)) => {
                let k = attribute_key_bytes(identity, &id);
                self.remove_attribute(k.as_slice());
            },
            None => return Err(Error::AttributeRemovalFailed),
        }
        let now = self.block_number;
        self.record_update(identity, owner);
        self.deposit_event(Event::AttributeDeleted { identity, name, now });
        Ok(())
    }

    /// Executes an off-chain signed attribute transaction. `signature_valid` is
    /// whether the transaction's signature verified over [`signing_payload_bytes`]
    /// for its signer.
    pub fn execute(&mut self, origin: Origin, transaction: AttributeTransaction, signature_valid: bool) -> (r: Result<(), Error>)
        requires
            signer_of(origin) is Some && transaction_admitted(old(self)@, transaction@, signature_valid)
                ==> old(self)@.block_number + transaction.validity <= u32::MAX,
        ensures
            (final(self)@, r) == spec_execute(old(self)@, origin, transaction@, signature_valid),
    {
        let owner = match ensure_signed(origin) {
            Some(a) => a,
            None => return Err(Error::BadOrigin),
        };
        if let Err(e) = self.signed_attribute(owner, &transaction, signature_valid) {
            return Err(e);
        }
        self.deposit_event(Event::AttributeTransactionExecuted(transaction));
        Ok(())
    }
}

} // verus!
