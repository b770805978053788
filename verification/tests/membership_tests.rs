use gamma_pallets::authenticate::{
    permission_key_bytes, Authorize, Error, Event, GenesisConfig, InvalidTransaction, Pallet, ValidTransaction,
};
use gamma_pallets::identity::pallet::{Error as IdentityError, Pallet as Identity};
use gamma_pallets::membership::company::{EnsureOrg, Error as CompanyError, Pallet as Companies};
use gamma_pallets::membership::types::{Executors, Permissions, Role};
use gamma_pallets::origin::Origin;
use parity_scale_codec::Encode;

fn role(name: &[u8], permission: Permissions) -> Role {
    Role { pallet_name: name.to_vec(), permission }
}

#[test]
fn permission_names() {
    assert_eq!(Permissions::Management.as_bytes(), b"Permissions::Management");
    assert_eq!(Permissions::Executors.as_bytes(), b"Permissions::Executors");
    assert_eq!(Permissions::default(), Permissions::Executors);
    assert_ne!(Executors::Seller, Executors::Buyer);
}

#[test]
fn roles_compare_by_name_and_permission() {
    assert!(role(b"shop", Permissions::Management).same_as(&role(b"shop", Permissions::Management)));
    assert!(!role(b"shop", Permissions::Management).same_as(&role(b"shop", Permissions::Executors)));
    assert!(!role(b"shop", Permissions::Management).same_as(&role(b"shops", Permissions::Management)));
}

#[test]
fn permission_keys_encode_account_and_role() {
    let expected = (7u64, b"shop".to_vec(), 1u8).encode();
    assert_eq!(permission_key_bytes(7, &role(b"shop", Permissions::Executors)), expected);
}

#[test]
fn genesis_sorts_the_members() {
    let mut p = Pallet::new(0);
    GenesisConfig { members: vec![5, 1, 3, 1] }.build(&mut p);
    assert_eq!(p.members.as_vec(), &vec![1, 1, 3, 5]);
}

#[test]
fn members_are_kept_sorted() {
    let mut p = Pallet::new(600);
    assert_eq!(p.add_member(Origin::Signed(1), 4), Err(Error::BadOrigin));
    assert_eq!(p.add_member(Origin::Root, 4), Ok(()));
    assert_eq!(p.add_member(Origin::Root, 2), Ok(()));
    assert_eq!(p.add_member(Origin::Root, 9), Ok(()));
    assert_eq!(p.add_member(Origin::Root, 2), Err(Error::MemberAlreadyExists));
    assert_eq!(p.members.as_vec(), &vec![2, 4, 9]);
    assert!(matches!(p.events.last(), Some(Event::MemberAdded { who: 9, now: 10 })));
    assert_eq!(p.remove_member(Origin::Root, 4), Ok(()));
    assert_eq!(p.remove_member(Origin::Root, 4), Err(Error::NoneExistentMember));
    assert_eq!(p.members.as_vec(), &vec![2, 9]);
}

#[test]
fn created_roles_grant_access() {
    let mut p = Pallet::new(120);
    assert!(!p.verify_access(7, b"shop".to_vec()));
    assert_eq!(p.create_role(Origin::Signed(1), b"shop".to_vec(), Permissions::Executors, 7), Err(Error::BadOrigin));
    assert_eq!(p.create_role(Origin::Root, b"shop".to_vec(), Permissions::Executors, 7), Ok(()));
    assert!(p.verify_access(7, b"shop".to_vec()));
    assert!(!p.verify_access(8, b"shop".to_vec()));
    assert!(!p.verify_manage_access(b"shop".to_vec(), 7));
    assert!(matches!(p.events.last(), Some(Event::RolesCreated { who: 7, now: 2, .. })));
    assert_eq!(p.create_role(Origin::Root, b"shop".to_vec(), Permissions::Executors, 8), Err(Error::RoleAlreadyExists));
}

#[test]
fn managers_cannot_be_reassigned_or_revoked() {
    let mut p = Pallet::new(0);
    p.create_role(Origin::Root, b"shop".to_vec(), Permissions::Management, 7).unwrap();
    assert!(p.verify_manage_access(b"shop".to_vec(), 7));
    assert_eq!(p.assign_role(Origin::Signed(1), 7, role(b"shop", Permissions::Executors)), Err(Error::UnAuthorisedCall));
    assert_eq!(p.revoke_user_access(Origin::Signed(1), 7, role(b"shop", Permissions::Management)), Err(Error::UnAuthorisedCall));
}

#[test]
fn assigning_and_revoking_roles() {
    let mut p = Pallet::new(0);
    p.create_role(Origin::Root, b"shop".to_vec(), Permissions::Executors, 7).unwrap();
    assert_eq!(p.assign_role(Origin::Unsigned, 8, role(b"shop", Permissions::Executors)), Err(Error::BadOrigin));
    assert_eq!(p.assign_role(Origin::Signed(1), 8, role(b"shop", Permissions::Executors)), Ok(()));
    assert!(p.permission_of(8, &role(b"shop", Permissions::Executors)));
    assert!(p.verify_access(8, b"shop".to_vec()));
    assert_eq!(p.revoke_user_access(Origin::Signed(1), 8, role(b"shop", Permissions::Executors)), Ok(()));
    assert!(!p.permission_of(8, &role(b"shop", Permissions::Executors)));
    assert!(!p.verify_access(8, b"shop".to_vec()));
}

#[test]
fn the_filter_admits_admins_and_permitted_accounts() {
    let mut p = Pallet::new(0);
    assert_eq!(Authorize.additional_signed(), Ok(()));
    assert_eq!(Authorize.validate(&p, 5, b"shop", 42), Err(InvalidTransaction::Call));
    assert_eq!(p.add_admin(Origin::Signed(5), 5), Err(Error::BadOrigin));
    assert_eq!(p.add_admin(Origin::Root, 5), Ok(()));
    assert_eq!(Authorize.validate(&p, 5, b"anything", 42), Ok(ValidTransaction { priority: 42, longevity: u64::MAX, propagate: true }));
    p.create_role(Origin::Root, b"shop".to_vec(), Permissions::Executors, 6).unwrap();
    assert!(Authorize.validate(&p, 6, b"shop", 1).is_ok());
    assert_eq!(Authorize.validate(&p, 6, b"bank", 1), Err(InvalidTransaction::Call));
}

#[test]
fn companies_must_already_be_listed() {
    let mut c = Companies::new(Identity::new(1, 0));
    assert_eq!(c.create_company(Origin::Signed(1), b"acme".to_vec()), Err(CompanyError::CompanyDoesNotExist));
    assert_eq!(c.create_company(Origin::Unsigned, b"acme".to_vec()), Err(CompanyError::BadOrigin));
    c.company.push(1);
    // Listed again, and the `Org` attribute is set to the name.
    assert_eq!(c.create_company(Origin::Signed(1), b"acme".to_vec()), Ok(()));
    assert_eq!(c.company, vec![1, 1]);
    assert_eq!(c.did.valid_attribute(1, b"Org", b"acme"), Ok(()));
    // A second `Org` attribute is a duplicate; the listing stays.
    assert_eq!(
        c.create_company(Origin::Signed(1), b"bolt".to_vec()),
        Err(CompanyError::Identity(IdentityError::AttributeCreationFailed))
    );
    assert_eq!(c.company, vec![1, 1, 1]);
}

#[test]
fn company_members_are_delegates() {
    let mut c = Companies::new(Identity::new(1, 0));
    assert_eq!(c.add_to_company(Origin::Signed(1), 5), Err(CompanyError::InvalidOrganisation));
    c.company.push(1);
    assert!(!c.verify_member(5));
    assert_eq!(c.add_to_company(Origin::Signed(1), 5), Ok(()));
    assert!(c.verify_member(5));
    assert_eq!(EnsureOrg::try_origin(&c, Origin::Signed(5)), Ok(5));
    assert_eq!(EnsureOrg::try_origin(&c, Origin::Signed(6)), Err(Origin::Signed(6)));
    assert_eq!(EnsureOrg::try_origin(&c, Origin::Root), Err(Origin::Root));
    c.members.insert(1, vec![5]);
    assert_eq!(c.add_to_company(Origin::Signed(1), 5), Err(CompanyError::AlreadyAMember));
}
