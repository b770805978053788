//! Dispatch origins and the account model shared by the pallets.
use vstd::prelude::*;

verus! {

/// Identifier of an on-chain account.
pub type AccountId = u64;

/// Block height.
pub type BlockNumber = u32;

/// The origin of a dispatched call.
#[derive(Clone, Copy, Debug, PartialEq, Eq, Structural)]
pub enum Origin {
    /// The root (privileged) origin.
    Root,
    /// A call signed by an account.
    Signed(AccountId),
    /// An unsigned call.
    Unsigned,
}

/// The signer of a signed origin, or `None` for any other origin.
pub open spec fn signer_of(o: Origin) -> Option<AccountId> {
    match o {
        Origin::Signed(a) => Some(a),
        _ => None,
    }
}

/// Returns the signer of `origin` when it is signed.
pub fn ensure_signed(origin: Origin) -> (r: Option<AccountId>)
    ensures
        r == signer_of(origin),
{
    match origin {
        Origin::Signed(a) => Some(a),
        _ => None,
    }
}

/// Whether `origin` is the root origin.
pub fn ensure_root(origin: Origin) -> (r: bool)
    ensures
        r == (origin == Origin::Root),
{
    match origin {
        Origin::Root => true,
        _ => false,
    }
}

/// What a force origin check (`try_origin` of a root-only force origin) yields:
/// `Ok(None)` for root, `Ok(Some(signer))` for a signed call, `Err(())` for an
/// unsigned call.
pub open spec fn spec_root_or_signed(o: Origin) -> Result<Option<AccountId>, ()> {
    match o {
        Origin::Root => Ok(None),
        Origin::Signed(a) => Ok(Some(a)),
        Origin::Unsigned => Err(()),
    }
}

/// Resolves an origin that may be either the force (root) origin or a signed one.
pub fn root_or_signed(origin: Origin) -> (r: Result<Option<AccountId>, ()>)
    ensures
        r == spec_root_or_signed(origin),
{
    match origin {
        Origin::Root => Ok(None),
        Origin::Signed(a) => Ok(Some(a)),
        Origin::Unsigned => Err(()),
    }
}

} // verus!
