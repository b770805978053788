//! Properties of the identity pallet that relate its calls.
use vstd::prelude::*;
use crate::origin::{AccountId, BlockNumber, Origin};
use super::types::TransactionView;
use super::pallet::{
    nonce_of, spec_attribute_and_id, spec_is_owner, spec_valid_attribute, spec_valid_listed_delegate, validity_until, Error,
    IdentityState,
};
use super::calls::{
    spec_add_attribute, spec_add_delegate, spec_change_owner, spec_delete_attribute, spec_execute,
    spec_revoke_attribute, spec_revoke_delegate,
};

verus! {

/// Changing the owner hands the identity over: on success the new owner owns it,
/// and the previous owner, if another account, no longer does.
pub proof fn law_change_owner_transfers(s: IdentityState, owner: AccountId, identity: AccountId, new_owner: AccountId)
    requires
        spec_change_owner(s, Origin::Signed(owner), identity, new_owner).1 is Ok,
    ensures
        ({
            let t = spec_change_owner(s, Origin::Signed(owner), identity, new_owner).0;
            &&& spec_is_owner(t, identity, new_owner) is Ok
            &&& owner != new_owner ==> spec_is_owner(t, identity, owner) == Err::<(), Error>(Error::NotOwner)
        }),
{
}

/// A delegate that was added is valid until it expires: on success, a delegate
/// added for `valid_for` blocks (or for ever) is a valid listed delegate at the
/// block it was added in, unless it was given no blocks at all or was added
/// for ever at the last block.
pub proof fn law_added_delegate_is_valid(
    s: IdentityState,
    owner: AccountId,
    identity: AccountId,
    delegate: AccountId,
    delegate_type: Seq<u8>,
    valid_for: Option<BlockNumber>,
)
    requires
        spec_add_delegate(s, Origin::Signed(owner), identity, delegate, delegate_type, valid_for).1 is Ok,
        valid_for is Some ==> 0 < valid_for->0 && s.block_number + valid_for->0 <= u32::MAX,
        valid_for is None ==> s.block_number < u32::MAX,
    ensures
        spec_valid_listed_delegate(
            spec_add_delegate(s, Origin::Signed(owner), identity, delegate, delegate_type, valid_for).0,
            identity,
            delegate_type,
            delegate,
        ) is Ok,
{
}

/// A revoked delegate is no longer valid: on success it has expired at the
/// current block.
pub proof fn law_revoked_delegate_is_invalid(
    s: IdentityState,
    owner: AccountId,
    identity: AccountId,
    delegate: AccountId,
    delegate_type: Seq<u8>,
)
    requires
        spec_revoke_delegate(s, Origin::Signed(owner), identity, delegate, delegate_type).1 is Ok,
    ensures
        spec_valid_listed_delegate(
            spec_revoke_delegate(s, Origin::Signed(owner), identity, delegate, delegate_type).0,
            identity,
            delegate_type,
            delegate,
        ) == Err::<(), Error>(Error::InvalidDelegate),
{
}

/// A revoked attribute is no longer valid: on success it expires at the current
/// block, so it is invalid whatever value it is checked against.
pub proof fn law_revoked_attribute_is_invalid(
    s: IdentityState,
    owner: AccountId,
    identity: AccountId,
    name: Seq<u8>,
    value: Seq<u8>,
)
    requires
        spec_revoke_attribute(s, Origin::Signed(owner), identity, name).1 is Ok,
    ensures
        spec_valid_attribute(spec_revoke_attribute(s, Origin::Signed(owner), identity, name).0, identity, name, value)
            == Err::<(), Error>(Error::InvalidAttribute),
{
}

/// A deleted attribute is gone: on success no attribute of that name is found
/// for the identity, and checking it fails.
pub proof fn law_deleted_attribute_is_gone(
    s: IdentityState,
    owner: AccountId,
    identity: AccountId,
    name: Seq<u8>,
    value: Seq<u8>,
)
    requires
        spec_delete_attribute(s, Origin::Signed(owner), identity, name).1 is Ok,
    ensures
        ({
            let t = spec_delete_attribute(s, Origin::Signed(owner), identity, name).0;
            &&& spec_attribute_and_id(t, identity, name) is None
            &&& spec_valid_attribute(t, identity, name, value) == Err::<(), Error>(Error::InvalidAttribute)
        }),
{
}

/// An unsigned call changes nothing: every identity call is refused with
/// `BadOrigin`.
pub proof fn law_unsigned_calls_change_nothing(
    s: IdentityState,
    identity: AccountId,
    account: AccountId,
    bytes: Seq<u8>,
    value: Seq<u8>,
    valid_for: Option<BlockNumber>,
    tx: TransactionView,
    signature_valid: bool,
)
    ensures
        spec_change_owner(s, Origin::Unsigned, identity, account) == (s, Err::<(), Error>(Error::BadOrigin)),
        spec_add_delegate(s, Origin::Unsigned, identity, account, bytes, valid_for) == (s, Err::<(), Error>(Error::BadOrigin)),
        spec_revoke_delegate(s, Origin::Unsigned, identity, account, bytes) == (s, Err::<(), Error>(Error::BadOrigin)),
        spec_add_attribute(s, Origin::Unsigned, identity, bytes, value, valid_for) == (s, Err::<(), Error>(Error::BadOrigin)),
        spec_revoke_attribute(s, Origin::Unsigned, identity, bytes) == (s, Err::<(), Error>(Error::BadOrigin)),
        spec_delete_attribute(s, Origin::Unsigned, identity, bytes) == (s, Err::<(), Error>(Error::BadOrigin)),
        spec_execute(s, Origin::Unsigned, tx, signature_valid) == (s, Err::<(), Error>(Error::BadOrigin)),
{
}

/// Delegates expire: a delegate added for `n` blocks is no longer a valid
/// listed delegate once the chain reaches the block `n` blocks later.
pub proof fn law_delegates_expire(
    s: IdentityState,
    owner: AccountId,
    identity: AccountId,
    delegate: AccountId,
    delegate_type: Seq<u8>,
    n: BlockNumber,
    later: BlockNumber,
)
    requires
        spec_add_delegate(s, Origin::Signed(owner), identity, delegate, delegate_type, Some(n)).1 is Ok,
        s.block_number + n <= u32::MAX,
        later >= s.block_number + n,
    ensures
        spec_valid_listed_delegate(
            IdentityState {
                block_number: later,
                ..spec_add_delegate(s, Origin::Signed(owner), identity, delegate, delegate_type, Some(n)).0
            },
            identity,
            delegate_type,
            delegate,
        ) == Err::<(), Error>(Error::InvalidDelegate),
{
}

/// Each added attribute takes a fresh nonce: on success the count of
/// attributes of that name created for the identity grows by one.
pub proof fn law_added_attribute_takes_next_nonce(
    s: IdentityState,
    owner: AccountId,
    identity: AccountId,
    name: Seq<u8>,
    value: Seq<u8>,
    valid_for: Option<BlockNumber>,
)
    requires
        spec_add_attribute(s, Origin::Signed(owner), identity, name, value, valid_for).1 is Ok,
    ensures
        nonce_of(spec_add_attribute(s, Origin::Signed(owner), identity, name, value, valid_for).0, identity, name)
            == nonce_of(s, identity, name) + 1,
{
}

/// An added attribute is valid: once an attribute with a name of at most 64 bytes
/// is added with a validity that reaches past the current block, the value it was
/// added with validates for the identity, and no other value does.
pub proof fn law_added_attribute_is_valid(
    s: IdentityState,
    owner: AccountId,
    identity: AccountId,
    name: Seq<u8>,
    value: Seq<u8>,
    other: Seq<u8>,
    valid_for: Option<BlockNumber>,
)
    requires
        spec_add_attribute(s, Origin::Signed(owner), identity, name, value, valid_for).1 is Ok,
        name.len() <= 64,
        validity_until(s.block_number, valid_for) > s.block_number,
        other != value,
    ensures
        spec_valid_attribute(spec_add_attribute(s, Origin::Signed(owner), identity, name, value, valid_for).0, identity, name, value) is Ok,
        spec_valid_attribute(spec_add_attribute(s, Origin::Signed(owner), identity, name, value, valid_for).0, identity, name, other) is Err,
{
}

} // verus!
