//! Permissioned membership: a sorted member list, roles per pallet, the
//! permissions granted to accounts, admins, and the transaction filter that
//! admits admins and permitted accounts.
use vstd::prelude::*;
use std::collections::HashMap;
use crate::bytemap::{copy_bytes, lemma_seq_map_values_push, ByteMap};
use crate::membership::types::{permission_name, Permissions, Role, RoleView};
use crate::origin::{ensure_root, ensure_signed, signer_of, AccountId, Origin};
use crate::scale::{encoded_bytes, le_bytes, push_encoded_bytes, push_le};
use crate::sorted::{insert_sorted, law_insert_keeps_strict_order, sorted, split_point, strictly_sorted, SortedAccounts};

verus! {

broadcast use vstd::std_specs::hash::group_hash_axioms;

/// Why a call of the membership pallet failed.
#[derive(Clone, Copy, Debug, PartialEq, Eq, Structural)]
pub enum Error {
    MemberAlreadyExists,
    NoneExistentMember,
    RoleAlreadyExists,
    UnAuthorisedCall,
    RevokeUserAccess,
    Unknown,
    /// The call did not come from the required origin.
    BadOrigin,
}

/// Events of the membership pallet. `now` is in minutes.
#[derive(Debug)]
#[allow(inconsistent_fields)]
pub enum Event {
    RolesCreated { who: AccountId, pallet_name: Vec<u8>, permission: Vec<u8>, now: u64 },
    AccessGranted { who: AccountId, pallet_name: Vec<u8>, permission: Permissions, now: u64 },
    RevokeUserAccess { who: AccountId, pallet_name: Vec<u8>, now: u64 },
    AdminAdded { who: AccountId },
    MemberAdded { who: AccountId, now: u64 },
    RevokeMembership { who: AccountId, pallet_name: Vec<u8>, permission: Permissions, now: u64 },
}

/// Mathematical value of an [`Event`].
#[allow(inconsistent_fields)]
pub enum EventView {
    RolesCreated { who: AccountId, pallet_name: Seq<u8>, permission: Seq<u8>, now: u64 },
    AccessGranted { who: AccountId, pallet_name: Seq<u8>, permission: Permissions, now: u64 },
    RevokeUserAccess { who: AccountId, pallet_name: Seq<u8>, now: u64 },
    AdminAdded { who: AccountId },
    MemberAdded { who: AccountId, now: u64 },
    RevokeMembership { who: AccountId, pallet_name: Seq<u8>, permission: Permissions, now: u64 },
}

impl View for Event {
    type V = EventView;

    open spec fn view(&self) -> EventView {
        match self {
            Event::RolesCreated { who, pallet_name, permission, now } =>
                EventView::RolesCreated { who: *who, pallet_name: pallet_name@, permission: permission@, now: *now },
            Event::AccessGranted { who, pallet_name, permission, now } =>
                EventView::AccessGranted { who: *who, pallet_name: pallet_name@, permission: *permission, now: *now },
            Event::RevokeUserAccess { who, pallet_name, now } =>
                EventView::RevokeUserAccess { who: *who, pallet_name: pallet_name@, now: *now },
            Event::AdminAdded { who } => EventView::AdminAdded { who: *who },
            Event::MemberAdded { who, now } => EventView::MemberAdded { who: *who, now: *now },
            Event::RevokeMembership { who, pallet_name, permission, now } =>
                EventView::RevokeMembership { who: *who, pallet_name: pallet_name@, permission: *permission, now: *now },
        }
    }
}

/// A transaction the filter lets into the pool.
#[derive(Clone, Copy, Debug, PartialEq, Eq, Structural)]
pub struct ValidTransaction {
    pub priority: u64,
    pub longevity: u64,
    pub propagate: bool,
}

/// Why the filter refused a transaction.
#[derive(Clone, Copy, Debug, PartialEq, Eq, Structural)]
pub enum InvalidTransaction {
    /// The call is not permitted to the sender.
    Call,
}

/// The pallet's storage, the wall clock (in seconds) and the deposited events.
/// Members are kept sorted; permissions are keyed by the encoded account and role.
pub struct Pallet {
    pub now_secs: u64,
    pub members: SortedAccounts,
    pub permissions: ByteMap<bool>,
    pub roles: Vec<Role>,
    pub admins: HashMap<AccountId, bool>,
    pub events: Vec<Event>,
}

/// Mathematical value of the membership [`Pallet`].
pub struct AuthState {
    pub now_secs: u64,
    pub members: Seq<AccountId>,
    pub permissions: Map<Seq<u8>, bool>,
    pub roles: Seq<RoleView>,
    pub admins: Map<AccountId, bool>,
    pub events: Seq<EventView>,
}

impl View for Pallet {
    type V = AuthState;

    open spec fn view(&self) -> AuthState {
        AuthState {
            now_secs: self.now_secs,
            members: self.members.view(),
            permissions: self.permissions.view(),
            roles: self.roles@.map_values(|r: Role| r@),
            admins: self.admins@,
            events: self.events@.map_values(|e: Event| e@),
        }
    }
}

/// The genesis members of the pallet.
pub struct GenesisConfig {
    pub members: Vec<AccountId>,
}

/// The encoding of a permission: its index.
pub open spec fn permission_index(p: Permissions) -> u8 {
    match p {
        Permissions::Management => 0,
        Permissions::Executors => 1,
    }
}

/// The storage key of an account's permission for a role: the encoded account,
/// pallet name and permission.
pub open spec fn permission_key(acc: AccountId, role: RoleView) -> Seq<u8> {
    le_bytes(acc as nat, 8) + encoded_bytes(role.pallet_name) + seq![permission_index(role.permission)]
}

/// Whether `acc` holds `role` (an absent entry reads as `false`).
pub open spec fn granted(s: AuthState, acc: AccountId, role: RoleView) -> bool {
    let k = permission_key(acc, role);
    s.permissions.contains_key(k) && s.permissions[k]
}

/// The current time in minutes.
pub open spec fn minutes(s: AuthState) -> u64 {
    s.now_secs / 60
}

pub open spec fn management(pallet_name: Seq<u8>) -> RoleView {
    RoleView { pallet_name, permission: Permissions::Management }
}

pub open spec fn execution(pallet_name: Seq<u8>) -> RoleView {
    RoleView { pallet_name, permission: Permissions::Executors }
}

/// Whether `acc` manages the pallet: the management role exists and `acc` holds it.
pub open spec fn spec_verify_manage_access(s: AuthState, pallet_name: Seq<u8>, acc: AccountId) -> bool {
    s.roles.contains(management(pallet_name)) && granted(s, acc, management(pallet_name))
}

/// Whether `acc` may use the pallet: it holds its existing management or
/// executor role.
pub open spec fn spec_verify_access(s: AuthState, acc: AccountId, pallet_name: Seq<u8>) -> bool {
    (s.roles.contains(management(pallet_name)) && granted(s, acc, management(pallet_name)))
        || (s.roles.contains(execution(pallet_name)) && granted(s, acc, execution(pallet_name)))
}

/// Registering a role: `false` when it exists, otherwise it is appended.
pub open spec fn spec_do_add_role(s: AuthState, role: RoleView) -> (AuthState, bool) {
    if s.roles.contains(role) {
        (s, false)
    } else {
        (AuthState { roles: s.roles.push(role), ..s }, true)
    }
}

pub open spec fn with_event(s: AuthState, e: EventView) -> AuthState {
    AuthState { events: s.events.push(e), ..s }
}

pub open spec fn spec_create_role(s: AuthState, origin: Origin, pallet_name: Seq<u8>, permission: Permissions, new_member: AccountId) -> (AuthState, Result<(), Error>) {
    if origin != Origin::Root {
        (s, Err(Error::BadOrigin))
    } else {
        let role = RoleView { pallet_name, permission };
        let (s1, added) = spec_do_add_role(s, role);
        if !added {
            (s1, Err(Error::RoleAlreadyExists))
        } else {
            let s2 = AuthState { permissions: s1.permissions.insert(permission_key(new_member, role), true), ..s1 };
            (with_event(s2, EventView::RolesCreated {
                who: new_member,
                pallet_name,
                permission: permission_name(permission),
                now: minutes(s),
            }), Ok(()))
        }
    }
}

pub open spec fn spec_assign_role(s: AuthState, origin: Origin, acc: AccountId, role: RoleView) -> (AuthState, Result<(), Error>) {
    if signer_of(origin) is None {
        (s, Err(Error::BadOrigin))
    } else if spec_verify_manage_access(s, role.pallet_name, acc) {
        (s, Err(Error::UnAuthorisedCall))
    } else {
        let s1 = AuthState { permissions: s.permissions.insert(permission_key(acc, role), true), ..s };
        (with_event(s1, EventView::AccessGranted {
            who: acc,
            pallet_name: role.pallet_name,
            permission: Permissions::Management,
            now: minutes(s),
        }), Ok(()))
    }
}

pub open spec fn spec_revoke_user_access(s: AuthState, origin: Origin, acc: AccountId, role: RoleView) -> (AuthState, Result<(), Error>) {
    if signer_of(origin) is None {
        (s, Err(Error::BadOrigin))
    } else if spec_verify_manage_access(s, role.pallet_name, acc) {
        (s, Err(Error::UnAuthorisedCall))
    } else {
        let s1 = AuthState { permissions: s.permissions.remove(permission_key(acc, role)), ..s };
        (with_event(s1, EventView::RevokeUserAccess { who: acc, pallet_name: role.pallet_name, now: minutes(s) }), Ok(()))
    }
}

pub open spec fn spec_add_admin(s: AuthState, origin: Origin, acc: AccountId) -> (AuthState, Result<(), Error>) {
    if origin != Origin::Root {
        (s, Err(Error::BadOrigin))
    } else {
        (with_event(AuthState { admins: s.admins.insert(acc, true), ..s }, EventView::AdminAdded { who: acc }), Ok(()))
    }
}

pub open spec fn spec_add_member(s: AuthState, origin: Origin, new_member: AccountId) -> (AuthState, Result<(), Error>) {
    if origin != Origin::Root {
        (s, Err(Error::BadOrigin))
    } else if s.members.contains(new_member) {
        (s, Err(Error::MemberAlreadyExists))
    } else {
        (with_event(AuthState { members: insert_sorted(s.members, new_member), ..s },
            EventView::MemberAdded { who: new_member, now: minutes(s) }), Ok(()))
    }
}

pub open spec fn spec_remove_member(s: AuthState, origin: Origin, curr_member: AccountId) -> (AuthState, Result<(), Error>) {
    if origin != Origin::Root {
        (s, Err(Error::BadOrigin))
    } else if !s.members.contains(curr_member) {
        (s, Err(Error::NoneExistentMember))
    } else {
        (AuthState { members: s.members.remove(split_point(s.members, curr_member)), ..s }, Ok(()))
    }
}

/// The transaction filter: admins and accounts with access to the called pallet
/// are admitted with the call's weight as priority, for ever, propagated; any
/// other sender is refused.
pub open spec fn spec_validate(s: AuthState, who: AccountId, pallet_name: Seq<u8>, weight: u64) -> Result<ValidTransaction, InvalidTransaction> {
    if s.admins.contains_key(who) || spec_verify_access(s, who, pallet_name) {
        Ok(ValidTransaction { priority: weight, longevity: u64::MAX, propagate: true })
    } else {
        Err(InvalidTransaction::Call)
    }
}

/// The storage key of `acc`'s permission for `role`.
pub fn permission_key_bytes(acc: AccountId, role: &Role) -> (r: Vec<u8>)
    ensures
        r@ == permission_key(acc, role@),
{
    let mut out: Vec<u8> = Vec::new();
    push_le(&mut out, acc, 8);
    push_encoded_bytes(&mut out, role.pallet_name.as_slice());
    let idx: u8 = match role.permission {
        Permissions::Management => 0,
        Permissions::Executors => 1,
    };
    out.push(idx);
    proof {
        assert(Seq::<u8>::empty() + le_bytes(acc as nat, 8) =~= le_bytes(acc as nat, 8));
    }
    out
}

impl GenesisConfig {
    /// Puts the genesis members into storage, sorted.
    pub fn build(&self, pallet: &mut Pallet)
        ensures
            sorted(final(pallet)@.members),
            final(pallet)@.members.to_multiset() == self.members@.to_multiset(),
            final(pallet)@ == (AuthState { members: final(pallet)@.members, ..old(pallet)@ }),
    {
        pallet.members = SortedAccounts::from_unsorted(&self.members);
    }
}

impl Pallet {
    /// A pallet with empty storage at the given wall-clock time (seconds).
    pub fn new(now_secs: u64) -> (r: Pallet)
        ensures
            r@ == (AuthState {
                now_secs,
                members: Seq::empty(),
                permissions: Map::empty(),
                roles: Seq::empty(),
                admins: Map::empty(),
                events: Seq::empty(),
            }),
    {
        let r = Pallet {
            now_secs,
            members: SortedAccounts::new(),
            permissions: ByteMap::new(),
            roles: Vec::new(),
            admins: HashMap::new(),
            events: Vec::new(),
        };
        assert(r@.roles =~= Seq::<RoleView>::empty());
        assert(r@.events =~= Seq::<EventView>::empty());
        r
    }

    /// Sets the wall-clock time (seconds).
    pub fn set_now_secs(&mut self, t: u64)
        ensures
            final(self)@ == (AuthState { now_secs: t, ..old(self)@ }),
    {
        self.now_secs = t;
    }

    fn deposit_event(&mut self, e: Event)
        ensures
            final(self)@ == with_event(old(self)@, e@),
    {
        proof { lemma_seq_map_values_push(self.events@, e, |e: Event| e@); }
        self.events.push(e);
    }

    fn has_role(&self, role: &Role) -> (r: bool)
        ensures
            r == self@.roles.contains(role@),
    {
        let mut i: usize = 0;
        while i < self.roles.len()
            invariant
                i <= self.roles@.len(),
                forall|j: int| 0 <= j < i ==> self.roles@[j]@ != role@,
            decreases self.roles.len() - i,
        {
            if self.roles[i].same_as(role) {
                proof { assert(self@.roles[i as int] == role@); }
                return true;
            }
            i = i + 1;
        }
        proof {
            if self@.roles.contains(role@) {
                let j = choose|j: int| 0 <= j < self@.roles.len() && self@.roles[j] == role@;
                assert(self.roles@[j]@ == role@);
            }
        }
        false
    }

    /// Whether `acc` holds `role`.
    pub fn permission_of(&self, acc: AccountId, role: &Role) -> (r: bool)
        ensures
            r == granted(self@, acc, role@),
    {
        let k = permission_key_bytes(acc, role);
        match self.permissions.get(k.as_slice()) {
            Some(b) => *b,
            None => false,
        }
    }

    /// Registers `role`; `false` when it already exists.
    pub fn do_add_role(&mut self, role: Role) -> (r: bool)
        ensures
            (final(self)@, r) == spec_do_add_role(old(self)@, role@),
    {
        if self.has_role(&role) {
            return false;
        }
        proof { lemma_seq_map_values_push(self.roles@, role, |r: Role| r@); }
        self.roles.push(role);
        true
    }

    /// Whether `acc` manages the pallet named `pallet_name`.
    pub fn verify_manage_access(&self, pallet_name: Vec<u8>, acc: AccountId) -> (r: bool)
        ensures
            r == spec_verify_manage_access(self@, pallet_name@, acc),
    {
        let role = Role { pallet_name, permission: Permissions::Management };
        self.has_role(&role) && self.permission_of(acc, &role)
    }

    /// Whether `acc` may use the pallet named `pallet_name`.
    pub fn verify_access(&self, acc: AccountId, pallet_name: Vec<u8>) -> (r: bool)
        ensures
            r == spec_verify_access(self@, acc, pallet_name@),
    {
        let role_management = Role { pallet_name: copy_bytes(&pallet_name), permission: Permissions::Management };
        let role_executor = Role { pallet_name, permission: Permissions::Executors };
        let management = self.permission_of(acc, &role_management);
        let executor = self.permission_of(acc, &role_executor);
        (self.has_role(&role_management) && management) || (self.has_role(&role_executor) && executor)
    }

    /// Creates a role for a pallet and grants it to `new_member`.
    pub fn create_role(&mut self, origin: Origin, pallet_name: Vec<u8>, permission: Permissions, new_member: AccountId) -> (r: Result<(), Error>)
        ensures
            (final(self)@, r) == spec_create_role(old(self)@, origin, pallet_name@, permission, new_member),
    {
        if !ensure_root(origin) {
            return Err(Error::BadOrigin);
        }
        let role = Role { pallet_name: copy_bytes(&pallet_name), permission };
        let key = permission_key_bytes(new_member, &role);
        if !self.do_add_role(role) {
            return Err(Error::RoleAlreadyExists);
        }
        self.permissions.insert(key, true);
        let now = self.now_secs / 60;
        let name = permission.as_bytes();
        let permission_bytes = vstd::slice::slice_to_vec(name);
        self.deposit_event(Event::RolesCreated { who: new_member, pallet_name, permission: permission_bytes, now });
        Ok(())
    }

    /// Grants `role` to `acc`, unless `acc` manages the role's pallet.
    pub fn assign_role(&mut self, origin: Origin, acc: AccountId, role: Role) -> (r: Result<(), Error>)
        ensures
            (final(self)@, r) == spec_assign_role(old(self)@, origin, acc, role@),
    {
        if ensure_signed(origin).is_none() {
            return Err(Error::BadOrigin);
        }
        if self.verify_manage_access(copy_bytes(&role.pallet_name), acc) {
            return Err(Error::UnAuthorisedCall);
        }
        let now = self.now_secs / 60;
        let key = permission_key_bytes(acc, &role);
        self.permissions.insert(key, true);
        self.deposit_event(Event::AccessGranted {
            who: acc,
            pallet_name: role.pallet_name,
            permission: Permissions::Management,
            now,
        });
        Ok(())
    }

    /// Takes `role` from `acc`, unless `acc` manages the role's pallet.
    pub fn revoke_user_access(&mut self, origin: Origin, acc: AccountId, role: Role) -> (r: Result<(), Error>)
        ensures
            (final(self)@, r) == spec_revoke_user_access(old(self)@, origin, acc, role@),
    {
        if ensure_signed(origin).is_none() {
            return Err(Error::BadOrigin);
        }
        if self.verify_manage_access(copy_bytes(&role.pallet_name), acc) {
            return Err(Error::UnAuthorisedCall);
        }
        let now = self.now_secs / 60;
        let key = permission_key_bytes(acc, &role);
        self.permissions.remove(key.as_slice());
        self.deposit_event(Event::RevokeUserAccess { who: acc, pallet_name: role.pallet_name, now });
        Ok(())
    }

    /// Makes `acc` an admin.
    pub fn add_admin(&mut self, origin: Origin, acc: AccountId) -> (r: Result<(), Error>)
        ensures
            (final(self)@, r) == spec_add_admin(old(self)@, origin, acc),
    {
        if !ensure_root(origin) {
            return Err(Error::BadOrigin);
        }
        self.admins.insert(acc, true);
        self.deposit_event(Event::AdminAdded { who: acc });
        Ok(())
    }

    /// Adds a member at its place in the sorted list.
    pub fn add_member(&mut self, origin: Origin, new_member: AccountId) -> (r: Result<(), Error>)
        ensures
            (final(self)@, r) == spec_add_member(old(self)@, origin, new_member),
            sorted(old(self)@.members) ==> sorted(final(self)@.members),
    {
        if !ensure_root(origin) {
            return Err(Error::BadOrigin);
        }
        if !self.members.insert(new_member) {
            return Err(Error::MemberAlreadyExists);
        }
        let now = self.now_secs / 60;
        self.deposit_event(Event::MemberAdded { who: new_member, now });
        Ok(())
    }

    /// Removes a member from the list.
    pub fn remove_member(&mut self, origin: Origin, curr_member: AccountId) -> (r: Result<(), Error>)
        ensures
            (final(self)@, r) == spec_remove_member(old(self)@, origin, curr_member),
            sorted(old(self)@.members) ==> sorted(final(self)@.members),
    {
        if !ensure_root(origin) {
            return Err(Error::BadOrigin);
        }
        if !self.members.remove(curr_member) {
            return Err(Error::NoneExistentMember);
        }
        Ok(())
    }
}

/// The signed-transaction filter of the pallet.
#[derive(Clone, Copy, Debug, PartialEq, Eq, Structural)]
pub struct Authorize;

impl Authorize {
    /// The data the filter adds to the signed payload: none.
    pub fn additional_signed(&self) -> (r: Result<(), InvalidTransaction>)
        ensures
            r is Ok,
    {
        Ok(())
    }

    /// Admits a call of pallet `pallet_name` with weight `weight` signed by `who`:
    /// admins and accounts with access to the pallet get the weight as priority,
    /// for ever, propagated; any other sender is refused.
    pub fn validate(&self, pallet: &Pallet, who: AccountId, pallet_name: &[u8], weight: u64) -> (r: Result<ValidTransaction, InvalidTransaction>)
        ensures
            r == spec_validate(pallet@, who, pallet_name@, weight),
    {
        if pallet.admins.contains_key(&who) || pallet.verify_access(who, vstd::slice::slice_to_vec(pallet_name)) {
            Ok(ValidTransaction { priority: weight, longevity: u64::MAX, propagate: true })
        } else {
            Err(InvalidTransaction::Call)
        }
    }
}

/// A created role is usable: once root creates a role for a pallet and grants
/// it to `new_member`, that account has access to the pallet.
pub proof fn law_created_role_grants_access(
    s: AuthState,
    pallet_name: Seq<u8>,
    permission: Permissions,
    new_member: AccountId,
)
    requires
        spec_create_role(s, Origin::Root, pallet_name, permission, new_member).1 is Ok,
    ensures
        spec_verify_access(spec_create_role(s, Origin::Root, pallet_name, permission, new_member).0, new_member, pallet_name),
{
    let t = spec_create_role(s, Origin::Root, pallet_name, permission, new_member).0;
    let role = RoleView { pallet_name, permission };
    assert(t.roles[t.roles.len() - 1] == role);
    match permission {
        Permissions::Management => assert(t.roles.contains(management(pallet_name))),
        Permissions::Executors => assert(t.roles.contains(execution(pallet_name))),
    }
}

/// An admin's transactions are admitted: once root adds an admin, the filter
/// admits every call it signs, with the call's weight as priority.
pub proof fn law_admins_are_admitted(s: AuthState, acc: AccountId, pallet_name: Seq<u8>, weight: u64)
    ensures
        spec_validate(spec_add_admin(s, Origin::Root, acc).0, acc, pallet_name, weight)
            == Ok::<ValidTransaction, InvalidTransaction>(ValidTransaction { priority: weight, longevity: u64::MAX, propagate: true }),
{
}

/// A revoked role is no longer held: once access is revoked, the account does
/// not hold the role.
pub proof fn law_revoked_role_is_not_held(s: AuthState, origin: Origin, acc: AccountId, role: RoleView)
    requires
        spec_revoke_user_access(s, origin, acc, role).1 is Ok,
    ensures
        !granted(spec_revoke_user_access(s, origin, acc, role).0, acc, role),
{
}

/// Removing a member undoes adding it: on a sorted list, adding an account and
/// then removing it gives the list back.
pub proof fn law_remove_undoes_add(s: AuthState, m: AccountId)
    requires
        sorted(s.members),
        spec_add_member(s, Origin::Root, m).1 is Ok,
    ensures
        spec_remove_member(spec_add_member(s, Origin::Root, m).0, Origin::Root, m).0.members == s.members,
        spec_remove_member(spec_add_member(s, Origin::Root, m).0, Origin::Root, m).1 is Ok,
{
    crate::sorted::lemma_remove_undoes_insert(s.members, m);
}

/// Adding a member keeps the members strictly increasing: on a member list with no
/// account twice, an added account ends up in it exactly once, beside all the old
/// members.
pub proof fn law_add_keeps_members_strictly_sorted(s: AuthState, m: AccountId)
    requires
        strictly_sorted(s.members),
        spec_add_member(s, Origin::Root, m).1 is Ok,
    ensures
        strictly_sorted(spec_add_member(s, Origin::Root, m).0.members),
        spec_add_member(s, Origin::Root, m).0.members.to_multiset() == s.members.to_multiset().insert(m),
{
    law_insert_keeps_strict_order(s.members, m);
}

} // verus!
