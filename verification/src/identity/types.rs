//! Attributes, signed attribute transactions and the storage keys of the
//! identity pallet.
use vstd::prelude::*;
use crate::origin::{AccountId, BlockNumber};
use crate::scale::{encoded_bytes, le_bytes, push_encoded_bytes, push_le};
use crate::hashing::{blake2_256, blake2_256_of};

verus! {

/// Time, as the configured clock counts it.
pub type Moment = u64;

/// An attribute of an identity.
#[derive(Debug)]
pub struct Attribute {
    pub name: Vec<u8>,
    pub value: Vec<u8>,
    /// Block until which the attribute is valid.
    pub validity: BlockNumber,
    /// When the attribute was created.
    pub creation: Moment,
    pub nonce: u64,
}

/// Mathematical value of an [`Attribute`].
pub struct AttributeView {
    pub name: Seq<u8>,
    pub value: Seq<u8>,
    pub validity: BlockNumber,
    pub creation: Moment,
    pub nonce: u64,
}

impl View for Attribute {
    type V = AttributeView;

    open spec fn view(&self) -> AttributeView {
        AttributeView { name: self.name@, value: self.value@, validity: self.validity, creation: self.creation, nonce: self.nonce }
    }
}

/// A signed request to set (or, with zero validity, revoke) an attribute.
#[derive(Debug)]
pub struct AttributeTransaction {
    pub signature: Vec<u8>,
    pub name: Vec<u8>,
    pub value: Vec<u8>,
    /// Blocks for which the attribute stays valid.
    pub validity: u32,
    pub signer: AccountId,
    pub identity: AccountId,
}

/// Mathematical value of an [`AttributeTransaction`].
pub struct TransactionView {
    pub signature: Seq<u8>,
    pub name: Seq<u8>,
    pub value: Seq<u8>,
    pub validity: u32,
    pub signer: AccountId,
    pub identity: AccountId,
}

impl View for AttributeTransaction {
    type V = TransactionView;

    open spec fn view(&self) -> TransactionView {
        TransactionView {
            signature: self.signature@,
            name: self.name@,
            value: self.value@,
            validity: self.validity,
            signer: self.signer,
            identity: self.identity,
        }
    }
}

/// The SCALE encoding of an account.
pub open spec fn account_bytes(a: AccountId) -> Seq<u8> {
    le_bytes(a as nat, 8)
}

/// Storage key of a delegate entry: identity, delegate, then the delegate type.
pub open spec fn delegate_key(identity: AccountId, delegate_type: Seq<u8>, delegate: AccountId) -> Seq<u8> {
    account_bytes(identity) + account_bytes(delegate) + delegate_type
}

/// Storage key of an attribute nonce: identity, then the attribute name.
pub open spec fn nonce_key(identity: AccountId, name: Seq<u8>) -> Seq<u8> {
    account_bytes(identity) + name
}

/// Storage key of an attribute: account, then the attribute id.
pub open spec fn attribute_key(account: AccountId, id: Seq<u8>) -> Seq<u8> {
    account_bytes(account) + id
}

/// The SCALE encoding of `(identity, name, nonce)` that attribute ids hash.
pub open spec fn attribute_preimage(identity: AccountId, name: Seq<u8>, nonce: u64) -> Seq<u8> {
    account_bytes(identity) + encoded_bytes(name) + le_bytes(nonce as nat, 8)
}

/// The id of the `nonce`-th attribute named `name` of `identity`.
pub open spec fn attribute_id(identity: AccountId, name: Seq<u8>, nonce: u64) -> Seq<u8> {
    blake2_256_of(attribute_preimage(identity, name, nonce))
}

pub fn delegate_key_bytes(identity: AccountId, delegate_type: &[u8], delegate: AccountId) -> (r: Vec<u8>)
    ensures
        r@ == delegate_key(identity, delegate_type@, delegate),
{
    let mut out: Vec<u8> = Vec::new();
    push_le(&mut out, identity, 8);
    push_le(&mut out, delegate, 8);
    let mut i: usize = 0;
    let ghost prefix = out@;
    while i < delegate_type.len()
        invariant
            i <= delegate_type@.len(),
            out@ == prefix + delegate_type@.subrange(0, i as int),
        decreases delegate_type.len() - i,
    {
        out.push(delegate_type[i]);
        proof {
            assert(delegate_type@.subrange(0, i as int).push(delegate_type@[i as int]) =~= delegate_type@.subrange(0, i + 1));
        }
        i = i + 1;
    }
    proof {
        assert(delegate_type@.subrange(0, delegate_type@.len() as int) =~= delegate_type@);
        assert(Seq::<u8>::empty() + account_bytes(identity) =~= account_bytes(identity));
    }
    out
}

pub fn nonce_key_bytes(identity: AccountId, name: &[u8]) -> (r: Vec<u8>)
    ensures
        r@ == nonce_key(identity, name@),
{
    let mut out: Vec<u8> = Vec::new();
    push_le(&mut out, identity, 8);
    let mut i: usize = 0;
    let ghost prefix = out@;
    while i < name.len()
        invariant
            i <= name@.len(),
            out@ == prefix + name@.subrange(0, i as int),
        decreases name.len() - i,
    {
        out.push(name[i]);
        proof {
            assert(name@.subrange(0, i as int).push(name@[i as int]) =~= name@.subrange(0, i + 1));
        }
        i = i + 1;
    }
    proof {
        assert(name@.subrange(0, name@.len() as int) =~= name@);
        assert(Seq::<u8>::empty() + account_bytes(identity) =~= account_bytes(identity));
    }
    out
}

pub fn attribute_key_bytes(account: AccountId, id: &[u8; 32]) -> (r: Vec<u8>)
    ensures
        r@ == attribute_key(account, id@),
{
    let mut out: Vec<u8> = Vec::new();
    push_le(&mut out, account, 8);
    let mut i: usize = 0;
    let ghost prefix = out@;
    while i < 32
        invariant
            i <= 32,
            id@.len() == 32,
            out@ == prefix + id@.subrange(0, i as int),
        decreases 32 - i,
    {
        out.push(id[i]);
        proof {
            assert(id@.subrange(0, i as int).push(id@[i as int]) =~= id@.subrange(0, i + 1));
        }
        i = i + 1;
    }
    proof {
        assert(id@.subrange(0, 32) =~= id@);
        assert(Seq::<u8>::empty() + account_bytes(account) =~= account_bytes(account));
    }
    out
}

/// The id of the `nonce`-th attribute named `name` of `identity`.
pub fn compute_attribute_id(identity: AccountId, name: &[u8], nonce: u64) -> (r: [u8; 32])
    ensures
        r@ == attribute_id(identity, name@, nonce),
{
    let mut out: Vec<u8> = Vec::new();
    push_le(&mut out, identity, 8);
    push_encoded_bytes(&mut out, name);
    push_le(&mut out, nonce, 8);
    proof {
        assert(Seq::<u8>::empty() + account_bytes(identity) =~= account_bytes(identity));
    }
    blake2_256(out.as_slice())
}

} // verus!
