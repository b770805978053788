//! Roles and permissions shared by the membership pallets.
use vstd::prelude::*;

verus! {

/// What a role allows: managing a pallet, or executing its calls.
#[derive(Clone, Copy, Debug, PartialEq, Eq, Structural)]
pub enum Permissions {
    Management,
    Executors,
}

/// Executors are the buyers and sellers.
#[derive(Clone, Copy, Debug, PartialEq, Eq, Structural)]
pub enum Executors {
    Seller,
    Buyer,
}

/// The name of a permission, as bytes.
pub open spec fn permission_name(p: Permissions) -> Seq<u8> {
    match p {
        Permissions::Management => seq![80u8, 101, 114, 109, 105, 115, 115, 105, 111, 110, 115, 58, 58, 77, 97, 110, 97, 103, 101, 109, 101, 110, 116],
        Permissions::Executors => seq![80u8, 101, 114, 109, 105, 115, 115, 105, 111, 110, 115, 58, 58, 69, 120, 101, 99, 117, 116, 111, 114, 115],
    }
}

const MANAGEMENT_NAME: [u8; 23] = [80, 101, 114, 109, 105, 115, 115, 105, 111, 110, 115, 58, 58, 77, 97, 110, 97, 103, 101, 109, 101, 110, 116];

const EXECUTORS_NAME: [u8; 22] = [80, 101, 114, 109, 105, 115, 115, 105, 111, 110, 115, 58, 58, 69, 120, 101, 99, 117, 116, 111, 114, 115];

impl Permissions {
    /// The permission's name: `Permissions::Management` or `Permissions::Executors`.
    pub fn as_bytes(&self) -> (r: &'static [u8])
        ensures
            r@ == permission_name(*self),
    {
        match self {
            Permissions::Management => {
                let name: &'static [u8; 23] = &MANAGEMENT_NAME;
                assert(name@ =~= permission_name(Permissions::Management));
                name.as_slice()
            },
            Permissions::Executors => {
                let name: &'static [u8; 22] = &EXECUTORS_NAME;
                assert(name@ =~= permission_name(Permissions::Executors));
                name.as_slice()
            },
        }
    }
}

impl Default for Permissions {
    /// A member's permission is, by default, to execute.
    fn default() -> (r: Permissions)
        ensures
            r == Permissions::Executors,
    {
        Permissions::Executors
    }
}

/// A role: a permission within a named pallet.
#[derive(Clone, Debug)]
pub struct Role {
    pub pallet_name: Vec<u8>,
    pub permission: Permissions,
}

/// Mathematical value of a [`Role`].
pub struct RoleView {
    pub pallet_name: Seq<u8>,
    pub permission: Permissions,
}

impl View for Role {
    type V = RoleView;

    open spec fn view(&self) -> RoleView {
        RoleView { pallet_name: self.pallet_name@, permission: self.permission }
    }
}

impl Role {
    /// Whether two roles name the same pallet and permission.
    pub fn same_as(&self, other: &Role) -> (r: bool)
        ensures
            r == (self@ == other@),
    {
        self.permission == other.permission
            && crate::bytemap::bytes_equal(self.pallet_name.as_slice(), other.pallet_name.as_slice())
    }

    /// A copy of this role.
    pub fn duplicate(&self) -> (r: Role)
        ensures
            r@ == self@,
    {
        Role { pallet_name: crate::bytemap::copy_bytes(&self.pallet_name), permission: self.permission }
    }
}

} // verus!
