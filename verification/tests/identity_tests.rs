use gamma_pallets::identity::calls::{check_signature, signing_payload_bytes};
use gamma_pallets::identity::pallet::{Error, Event, Pallet};
use gamma_pallets::identity::types::{attribute_key_bytes, compute_attribute_id, Attribute, AttributeTransaction};
use gamma_pallets::origin::Origin;
use parity_scale_codec::Encode;

const ALICE: u64 = 1;
const BOB: u64 = 2;
const CAROL: u64 = 3;

/// An identity pallet at block 10 where ALICE's identity already has an
/// attribute `age` = `30`, valid until block 100.
fn with_attribute() -> Pallet {
    let mut p = Pallet::new(10, 1_000);
    let id = compute_attribute_id(ALICE, b"age", 0);
    let key = attribute_key_bytes(ALICE, &id);
    p.attributes.insert(
        key,
        Attribute { name: b"age".to_vec(), value: b"30".to_vec(), validity: 100, creation: 0, nonce: 0 },
    );
    p
}

#[test]
fn an_identity_owns_itself() {
    let p = Pallet::new(10, 1_000);
    assert_eq!(p.identity_owner(ALICE), ALICE);
    assert_eq!(p.is_owner(ALICE, ALICE), Ok(()));
    assert_eq!(p.is_owner(ALICE, BOB), Err(Error::NotOwner));
}

#[test]
fn changing_the_owner_hands_the_identity_over() {
    let mut p = Pallet::new(10, 1_000);
    assert_eq!(p.change_owner(Origin::Signed(BOB), ALICE, CAROL), Err(Error::NotOwner));
    assert_eq!(p.change_owner(Origin::Signed(ALICE), ALICE, BOB), Ok(()));
    assert_eq!(p.identity_owner(ALICE), BOB);
    assert_eq!(p.is_owner(ALICE, ALICE), Err(Error::NotOwner));
    assert_eq!(p.updated_by(ALICE), Some((ALICE, 10, 1_000)));
    assert!(matches!(p.events().last(), Some(Event::OwnerChanged { identity: ALICE, owner: ALICE, new_owner: BOB, now: 10 })));
    assert_eq!(p.change_owner(Origin::Unsigned, ALICE, CAROL), Err(Error::BadOrigin));
}

#[test]
fn delegates_are_valid_until_revoked() {
    let mut p = Pallet::new(10, 1_000);
    assert_eq!(p.add_delegate(Origin::Signed(ALICE), ALICE, BOB, vec![b'x'; 65], None), Err(Error::InvalidDelegate));
    assert_eq!(p.add_delegate(Origin::Signed(ALICE), ALICE, BOB, b"sig".to_vec(), Some(5)), Ok(()));
    assert_eq!(p.delegate_of(ALICE, b"sig", BOB), Some(15));
    assert_eq!(p.valid_listed_delegate(ALICE, b"sig", BOB), Ok(()));
    assert_eq!(p.valid_delegate(ALICE, b"sig", BOB), Ok(()));
    assert_eq!(p.valid_delegate(ALICE, b"sig", CAROL), Err(Error::InvalidDelegate));
    // The owner is always a valid delegate.
    assert_eq!(p.valid_delegate(ALICE, b"sig", ALICE), Ok(()));
    p.set_block_number(15);
    assert_eq!(p.valid_listed_delegate(ALICE, b"sig", BOB), Err(Error::InvalidDelegate));
}

#[test]
fn revoked_delegates_expire_now() {
    let mut p = Pallet::new(10, 1_000);
    p.add_delegate(Origin::Signed(ALICE), ALICE, BOB, b"sig".to_vec(), None).unwrap();
    assert_eq!(p.delegate_of(ALICE, b"sig", BOB), Some(u32::MAX));
    assert_eq!(p.revoke_delegate(Origin::Signed(BOB), ALICE, BOB, b"sig".to_vec()), Err(Error::NotOwner));
    assert_eq!(p.revoke_delegate(Origin::Signed(ALICE), ALICE, BOB, b"sig".to_vec()), Ok(()));
    assert_eq!(p.delegate_of(ALICE, b"sig", BOB), Some(10));
    assert_eq!(p.valid_listed_delegate(ALICE, b"sig", BOB), Err(Error::InvalidDelegate));
    assert_eq!(p.revoke_delegate(Origin::Signed(ALICE), ALICE, BOB, b"sig".to_vec()), Err(Error::InvalidDelegate));
}

#[test]
fn attributes_refuse_duplicates() {
    let mut p = Pallet::new(10, 1_000);
    assert_eq!(p.add_attribute(Origin::Signed(ALICE), ALICE, vec![b'n'; 66], b"30".to_vec(), None), Err(Error::AttributeCreationFailed));
    assert_eq!(p.add_attribute(Origin::Signed(BOB), ALICE, b"age".to_vec(), b"30".to_vec(), None), Err(Error::NotOwner));
    assert_eq!(p.add_attribute(Origin::Signed(ALICE), ALICE, b"age".to_vec(), b"30".to_vec(), None), Ok(()));
    assert_eq!(p.add_attribute(Origin::Signed(ALICE), ALICE, b"age".to_vec(), b"31".to_vec(), None), Err(Error::AttributeCreationFailed));
    let mut q = with_attribute();
    assert_eq!(q.add_attribute(Origin::Signed(ALICE), ALICE, b"age".to_vec(), b"31".to_vec(), None), Err(Error::AttributeCreationFailed));
}

#[test]
fn an_added_attribute_validates() {
    let mut p = Pallet::new(10, 1_000);
    assert_eq!(p.add_attribute(Origin::Signed(ALICE), ALICE, b"age".to_vec(), b"31".to_vec(), Some(20)), Ok(()));
    assert_eq!(p.valid_attribute(ALICE, b"age", b"31"), Ok(()));
    assert_eq!(p.valid_attribute(ALICE, b"age", b"30"), Err(Error::InvalidAttribute));
    assert_eq!(p.nonce_of(ALICE, b"age"), 1);
    let id = compute_attribute_id(ALICE, b"age", 0);
    let stored = p.attributes.get(&attribute_key_bytes(ALICE, &id)).unwrap();
    assert_eq!(stored.value, b"31".to_vec());
    assert_eq!(stored.validity, 30);
    assert_eq!(stored.creation, 1_000);
    assert_eq!(stored.nonce, 0);
    assert!(matches!(p.events().last(), Some(Event::AttributeAdded { identity: ALICE, valid_for: Some(20), .. })));
}

#[test]
fn adding_an_attribute_takes_the_next_nonce() {
    let mut p = Pallet::new(10, 1_000);
    assert_eq!(p.add_attribute(Origin::Signed(ALICE), ALICE, b"age".to_vec(), b"30".to_vec(), None), Ok(()));
    assert_eq!(p.delete_attribute(Origin::Signed(ALICE), ALICE, b"age".to_vec()), Ok(()));
    assert_eq!(p.add_attribute(Origin::Signed(ALICE), ALICE, b"age".to_vec(), b"31".to_vec(), None), Ok(()));
    assert_eq!(p.nonce_of(ALICE, b"age"), 2);
    let id = compute_attribute_id(ALICE, b"age", 1);
    let stored = p.attributes.get(&attribute_key_bytes(ALICE, &id)).unwrap();
    assert_eq!(stored.nonce, 1);
    assert_eq!(p.valid_attribute(ALICE, b"age", b"31"), Ok(()));
}

#[test]
fn revoked_attributes_are_invalid() {
    let mut p = with_attribute();
    assert_eq!(p.revoke_attribute(Origin::Signed(ALICE), ALICE, vec![b'n'; 65]), Err(Error::AttributeRemovalFailed));
    assert_eq!(p.revoke_attribute(Origin::Signed(ALICE), ALICE, b"name".to_vec()), Err(Error::AttributeResetFailed));
    assert_eq!(p.revoke_attribute(Origin::Signed(ALICE), ALICE, b"age".to_vec()), Ok(()));
    assert_eq!(p.valid_attribute(ALICE, b"age", b"30"), Err(Error::InvalidAttribute));
    let (attr, _) = p.attribute_and_id(ALICE, b"age").unwrap();
    assert_eq!(attr.validity, 10);
}

#[test]
fn deleted_attributes_are_gone() {
    let mut p = with_attribute();
    assert_eq!(p.delete_attribute(Origin::Signed(BOB), ALICE, b"age".to_vec()), Err(Error::NotOwner));
    assert_eq!(p.delete_attribute(Origin::Signed(ALICE), ALICE, b"age".to_vec()), Ok(()));
    assert!(p.attribute_and_id(ALICE, b"age").is_none());
    assert_eq!(p.valid_attribute(ALICE, b"age", b"30"), Err(Error::InvalidAttribute));
    assert_eq!(p.delete_attribute(Origin::Signed(ALICE), ALICE, b"age".to_vec()), Err(Error::AttributeRemovalFailed));
}

#[test]
fn attribute_ids_hash_the_encoded_identity_name_and_nonce() {
    let expected = sp_crypto_hashing::blake2_256(&(ALICE, b"age".to_vec(), 3u64).encode());
    assert_eq!(compute_attribute_id(ALICE, b"age", 3), expected);
    assert_ne!(compute_attribute_id(ALICE, b"age", 3), compute_attribute_id(ALICE, b"age", 4));
}

fn transaction(validity: u32) -> AttributeTransaction {
    AttributeTransaction {
        signature: vec![0u8; 64],
        name: b"age".to_vec(),
        value: b"40".to_vec(),
        validity,
        signer: ALICE,
        identity: ALICE,
    }
}

#[test]
fn the_signed_payload_is_the_encoded_transaction() {
    let tx = transaction(7);
    let mut expected = tx.name.encode();
    expected.extend(tx.value.encode());
    expected.extend(tx.validity.encode());
    expected.extend(tx.identity.encode());
    assert_eq!(signing_payload_bytes(&tx), expected);
}

#[test]
fn signature_checks() {
    assert_eq!(check_signature(true), Ok(()));
    assert_eq!(check_signature(false), Err(Error::BadSignature));
}

#[test]
fn executing_signed_transactions() {
    let mut p = with_attribute();
    assert_eq!(p.execute(Origin::Signed(BOB), transaction(5), false), Err(Error::BadSignature));
    let mut stranger = transaction(5);
    stranger.signer = CAROL;
    assert_eq!(p.execute(Origin::Signed(BOB), stranger, true), Err(Error::InvalidDelegate));
    // A positive validity creates the attribute on behalf of the caller, whose
    // own failure is not reported.
    assert_eq!(p.execute(Origin::Signed(BOB), transaction(5), true), Ok(()));
    assert_eq!(p.nonce_of(ALICE, b"age"), 0);
    assert!(matches!(p.events().last(), Some(Event::AttributeTransactionExecuted(_))));
    // Zero validity expires the attribute, here as its owner.
    assert_eq!(p.execute(Origin::Signed(ALICE), transaction(0), true), Ok(()));
    assert_eq!(p.valid_attribute(ALICE, b"age", b"30"), Err(Error::InvalidAttribute));
}
