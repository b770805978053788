use gamma_pallets::origin::Origin;
use gamma_pallets::prices::{
    BillingScheme, Config, CreatedBy, Error as PriceError, Event as PriceEvent, Interval, Pallet as Prices, Price,
    PriceTerms, TiersMode, Type, UsageTypes,
};
use gamma_pallets::products::{
    get_id, Error, Event, ObjectType, Pallet, ProductFields, ProductInfo, TypeLabel, ONE_MINUTE,
};
use gamma_pallets::bytemap::ByteMap;
use parity_scale_codec::Encode;

const MERCHANT: u64 = 4;

fn fields(name: &[u8]) -> ProductFields {
    ProductFields {
        active: true,
        name: name.to_vec(),
        description: b"desc".to_vec(),
        package_dimensions: Some(vec![(b"height".to_vec(), b"3".to_vec())]),
        livemode: false,
        ipfs_cid: b"cid".to_vec(),
        shippable: true,
        unit_label: b"kg".to_vec(),
        product_url: b"url".to_vec(),
    }
}

#[test]
fn defaults() {
    assert_eq!(ObjectType::default(), ObjectType::Product);
    assert!(matches!(TypeLabel::default(), TypeLabel::USDT));
    assert_eq!(ONE_MINUTE, 60);
    let empty = ProductInfo::empty();
    assert_eq!(empty.id, [0u8; 16]);
    assert!(empty.package_dimensions.is_none());
}

#[test]
fn product_ids_hash_the_random_value_and_block() {
    let random = [3u8; 32];
    let expected = sp_crypto_hashing::blake2_128(&(random, 9u32).encode());
    assert_eq!(get_id(&random, 9), expected);
    assert_ne!(get_id(&random, 9), get_id(&random, 10));
}

#[test]
fn time_is_truncated_to_the_minute() {
    let p = Pallet::new(8, 125, 1);
    assert_eq!(p.get_time(), 120);
}

#[test]
fn creating_a_product_stores_and_lists_it() {
    let mut p = Pallet::new(8, 125, 1);
    let random = [1u8; 32];
    assert_eq!(p.create_product(Origin::Unsigned, MERCHANT, fields(b"shoe"), &random), Err(Error::BadOrigin));
    assert_eq!(p.create_product(Origin::Signed(MERCHANT), MERCHANT, fields(b"much too long"), &random), Err(Error::BadMetadata));
    assert_eq!(p.create_product(Origin::Signed(MERCHANT), MERCHANT, fields(b"shoe"), &random), Ok(()));
    let id = get_id(&random, 1);
    let stored = p.product_list.get(&id).unwrap();
    assert_eq!(stored.product_name, b"shoe".to_vec());
    assert_eq!(stored.created_at, 120);
    assert_eq!(stored.updated_at, 120);
    assert_eq!(stored.object, ObjectType::Product);
    assert_eq!(p.organisation_products(MERCHANT), vec![id]);
    assert_eq!(p.owner_of.get(&id), Some(&Some(MERCHANT)));
    assert!(matches!(p.events.last(), Some(Event::ProductCreated { created_at: 120, livemode: false, .. })));
}

#[test]
fn ownership_checks() {
    let mut p = Pallet::new(8, 125, 1);
    let random = [1u8; 32];
    let id = get_id(&random, 1);
    assert_eq!(p.product_owner(&id), Err(Error::ProductDoesNotExist));
    assert_eq!(p.verify_product_owner(MERCHANT, &id), Err(Error::ProductDoesNotExist));
    p.create_product(Origin::Signed(MERCHANT), MERCHANT, fields(b"shoe"), &random).unwrap();
    assert_eq!(p.product_owner(&id), Ok(MERCHANT));
    assert_eq!(p.verify_product_owner(MERCHANT, &id), Ok(()));
    assert_eq!(p.verify_product_owner(7, &id), Err(Error::NoOwnerFound));
    // A product stored without an owner entry, and one whose owner does not list it.
    let other = get_id(&[2u8; 32], 1);
    p.product_list.insert(other.to_vec(), ProductInfo::empty());
    assert_eq!(p.product_owner(&other), Err(Error::NoOwnerFound));
    p.owner_of.insert(other.to_vec(), None);
    assert_eq!(p.product_owner(&other), Err(Error::Unknown));
    p.owner_of.insert(other.to_vec(), Some(MERCHANT));
    assert_eq!(p.verify_product_owner(MERCHANT, &other), Err(Error::ProductNotFoundInOrg));
}

#[test]
fn retrieving_an_owned_product() {
    let mut p = Pallet::new(8, 125, 1);
    let random = [1u8; 32];
    let id = get_id(&random, 1);
    p.create_product(Origin::Signed(MERCHANT), MERCHANT, fields(b"shoe"), &random).unwrap();
    assert_eq!(p.retrieve_product(Origin::Unsigned, id, MERCHANT), Err(Error::BadOrigin));
    assert_eq!(p.retrieve_product(Origin::Signed(MERCHANT), id, 7), Err(Error::NoOwnerFound));
    assert_eq!(p.retrieve_product(Origin::Signed(MERCHANT), id, MERCHANT), Ok(()));
    match p.events.last() {
        Some(Event::RetrieveProduct { product }) => {
            assert_eq!(product.id, id);
            assert_eq!(product.product_name, b"shoe".to_vec());
            assert_eq!(product.created_at, 120);
            assert_eq!(product.url, b"url".to_vec());
        },
        _ => panic!("expected the product"),
    }
}

#[test]
fn updating_an_owned_product() {
    let mut p = Pallet::new(8, 125, 1);
    let random = [1u8; 32];
    let id = get_id(&random, 1);
    p.create_product(Origin::Signed(MERCHANT), MERCHANT, fields(b"shoe"), &random).unwrap();
    p.set_clock(400, 3);
    assert_eq!(p.update_product(Origin::Signed(MERCHANT), 7, id, fields(b"boot")), Err(Error::NoOwnerFound));
    assert_eq!(p.update_product(Origin::Signed(MERCHANT), MERCHANT, id, fields(b"much too long")), Err(Error::BadMetadata));
    let mut new_fields = fields(b"boot");
    new_fields.active = false;
    new_fields.unit_label = b"pair".to_vec();
    assert_eq!(p.update_product(Origin::Signed(MERCHANT), MERCHANT, id, new_fields), Ok(()));
    let stored = p.product_list.get(&id).unwrap();
    assert_eq!(stored.product_name, b"boot".to_vec());
    assert!(!stored.active);
    assert_eq!(stored.unit_label, b"pair".to_vec());
    assert_eq!(stored.id, id);
    assert_eq!(stored.created_at, 120);
    assert!(matches!(p.events.last(), Some(Event::ProductUpdated { updated_at: 360, active: false, .. })));
}

#[test]
fn listing_announces_the_ids_newest_first() {
    let mut p = Pallet::new(8, 125, 1);
    p.create_product(Origin::Signed(MERCHANT), MERCHANT, fields(b"shoe"), &[1u8; 32]).unwrap();
    p.create_product(Origin::Signed(MERCHANT), MERCHANT, fields(b"sock"), &[2u8; 32]).unwrap();
    assert_eq!(p.list_all_products(Origin::Unsigned, MERCHANT), Err(Error::BadOrigin));
    assert_eq!(p.list_all_products(Origin::Signed(MERCHANT), MERCHANT), Ok(()));
    match p.events.last() {
        Some(Event::ListAllProducts { id, total }) => {
            assert_eq!(*total, 2);
            assert_eq!(id, &vec![get_id(&[2u8; 32], 1), get_id(&[1u8; 32], 1)]);
        },
        _ => panic!("expected a listing"),
    }
}

#[test]
fn listing_orders_by_creation_time() {
    let mut p = Pallet::new(8, 125, 1);
    p.create_product(Origin::Signed(MERCHANT), MERCHANT, fields(b"a"), &[1u8; 32]).unwrap();
    p.set_clock(600, 1);
    p.create_product(Origin::Signed(MERCHANT), MERCHANT, fields(b"b"), &[2u8; 32]).unwrap();
    p.set_clock(60, 1);
    p.create_product(Origin::Signed(MERCHANT), MERCHANT, fields(b"c"), &[3u8; 32]).unwrap();
    p.list_all_products(Origin::Signed(MERCHANT), MERCHANT).unwrap();
    match p.events.last() {
        Some(Event::ListAllProducts { id, total }) => {
            assert_eq!(*total, 3);
            assert_eq!(id, &vec![get_id(&[2u8; 32], 1), get_id(&[1u8; 32], 1), get_id(&[3u8; 32], 1)]);
        },
        _ => panic!("expected a listing"),
    }
}

#[test]
fn deleting_a_product() {
    let mut p = Pallet::new(8, 125, 1);
    let random = [1u8; 32];
    let id = get_id(&random, 1);
    let no_prices: ByteMap<[u8; 16]> = ByteMap::new();
    p.create_product(Origin::Signed(MERCHANT), MERCHANT, fields(b"shoe"), &random).unwrap();
    assert_eq!(p.delete_product(Origin::Signed(MERCHANT), id, 7, &no_prices), Err(Error::NoOwnerFound));
    assert!(p.product_list.get(&id).is_some());
    let mut priced: ByteMap<[u8; 16]> = ByteMap::new();
    priced.insert(vec![5u8; 16], id);
    assert_eq!(p.delete_product(Origin::Signed(MERCHANT), id, MERCHANT, &priced), Err(Error::ProductHasPrices));
    assert!(p.product_list.get(&id).is_some());
    assert_eq!(p.organisation_products(MERCHANT), vec![id]);
    assert_eq!(p.delete_product(Origin::Signed(MERCHANT), id, MERCHANT, &no_prices), Ok(()));
    assert!(p.product_list.get(&id).is_none());
    assert!(p.organisation_products(MERCHANT).is_empty());
    assert!(matches!(p.events.last(), Some(Event::DeleteProduct { merchant: MERCHANT, now: 120, .. })));
    assert_eq!(p.delete_product(Origin::Signed(MERCHANT), id, MERCHANT, &no_prices), Err(Error::ProductDoesNotExist));
}

/// A prices pallet whose products pallet holds one product of the merchant,
/// the one with id [`owned_product`].
fn prices() -> Prices {
    let config = Config { string_limit: 8, month: 30, year: 365, week: 7, day: 1 };
    let mut products = Pallet::new(8, 185, 2);
    products.create_product(Origin::Signed(MERCHANT), MERCHANT, fields(b"shoe"), &[9u8; 32]).unwrap();
    Prices::new(config, products)
}

fn owned_product() -> [u8; 16] {
    get_id(&[9u8; 32], 2)
}

fn terms(description: &[u8]) -> PriceTerms {
    PriceTerms {
        currency: 1,
        active: true,
        livemode: true,
        product: owned_product(),
        description: description.to_vec(),
        tiers_mode: Some(TiersMode::Volume { total_first_unit: 1, total_last_unit: 10, per_unit: 5, flat_fee: 2 }),
        purchase_type: Type::Recurring {
            aggregated_usage: UsageTypes::Licensed,
            interval: Interval::Month,
            interval_as_blocknumber: 30,
            interval_count: 1,
            usage_type: UsageTypes::Metered { total_sum_of_usage: None, last_during_period: Some(1), last_ever: None },
        },
        unit_amount: 500,
        unit_amount_decimal: Some(5),
    }
}

#[test]
fn intervals_in_blocks() {
    let p = prices();
    assert_eq!(p.convert(Interval::Month), 30);
    assert_eq!(p.convert(Interval::Year), 365);
    assert_eq!(p.convert(Interval::Week), 7);
    assert_eq!(p.convert(Interval::Day), 1);
}

#[test]
fn root_or_signed_origins() {
    assert_eq!(Prices::ensure_root_or_signed(Origin::Root), Ok(Origin::Root));
    assert_eq!(Prices::ensure_root_or_signed(Origin::Signed(3)), Ok(Origin::Signed(3)));
    assert_eq!(Prices::ensure_root_or_signed(Origin::Unsigned), Err(PriceError::BadOrigin));
}

#[test]
fn strings_are_bounded() {
    let p = prices();
    assert_eq!(p.convert_string(b"short".to_vec()), Ok(b"short".to_vec()));
    assert_eq!(p.convert_string(b"far too long".to_vec()), Err(PriceError::BadMetadata));
    assert_eq!(p.get_time(), 180);
}

#[test]
fn new_prices_record_their_creator() {
    let p = prices();
    let price = Price::new(&p, [1u8; 16], 4, terms(b"monthly")).unwrap();
    assert_eq!(price.created_by, CreatedBy { account_id: 4, blocknumber: 2, time: 180 });
    assert_eq!(price.billing_scheme, BillingScheme::Per_unit);
    assert_eq!(price.object, ObjectType::Product);
    assert_eq!(price.created_at, 180);
    assert!(Price::new(&p, [1u8; 16], 4, terms(b"far too long")).is_err());
    assert_eq!(CreatedBy::new(&p, 7), CreatedBy { account_id: 7, blocknumber: 2, time: 180 });
}

#[test]
fn creating_a_price_records_it() {
    let mut p = prices();
    let random = [5u8; 32];
    assert_eq!(p.create_price(Origin::Unsigned, terms(b"monthly"), &random), Err(PriceError::BadOrigin));
    assert_eq!(p.create_price(Origin::Signed(4), terms(b"far too long"), &random), Err(PriceError::BadMetadata));
    let mut foreign = terms(b"monthly");
    foreign.product = [9u8; 16];
    assert_eq!(p.create_price(Origin::Signed(4), foreign, &random), Err(PriceError::Product(Error::ProductDoesNotExist)));
    assert_eq!(p.create_price(Origin::Signed(5), terms(b"monthly"), &random), Err(PriceError::Product(Error::NoOwnerFound)));
    assert!(p.events.is_empty());
    assert_eq!(p.create_price(Origin::Signed(4), terms(b"monthly"), &random), Ok(()));
    let id = get_id(&random, 2);
    assert_eq!(p.organisation_price.get(&4), Some(&Some(id)));
    assert_eq!(p.priced_for.get(&id), Some(&owned_product()));
    // The product now has a price, so it cannot be deleted.
    let priced = &p.priced_for;
    assert_eq!(
        p.products.delete_product(Origin::Signed(MERCHANT), owned_product(), MERCHANT, priced),
        Err(Error::ProductHasPrices)
    );
    assert_eq!(p.price_id_owner.get(&id), Some(&Some(4)));
    assert_eq!(p.price_list.get(&id).unwrap().unit_amount, 500);
    assert!(matches!(p.events.last(), Some(PriceEvent::PriceCreated { created_by: 4, unit_amount: 500, .. })));
}
