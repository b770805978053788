//! The merchant products pallet: products with bounded texts, owned by
//! merchants and listed per merchant.
use vstd::prelude::*;
use std::collections::HashMap;
use crate::bytemap::{copy_bytes, lemma_map_values_insert, lemma_map_values_remove, lemma_seq_map_values_push, ByteMap};
use crate::hashing::{blake2_128, blake2_128_of};
use crate::origin::{ensure_signed, signer_of, AccountId, BlockNumber, Origin};
use crate::scale::{le_bytes, push_le};

verus! {

broadcast use vstd::std_specs::hash::group_hash_axioms;

/// Identifier of a product.
pub type ProductId = [u8; 16];

/// An IPFS content identifier.
pub type Cid = Vec<u8>;

/// Package dimensions: named measures, in key order.
pub type Dimensions = Vec<(Vec<u8>, Vec<u8>)>;

/// Seconds in a minute.
pub const ONE_MINUTE: u64 = 60;

/// The kind of object a record describes.
#[derive(Clone, Copy, Debug, PartialEq, Eq, Structural)]
pub enum ObjectType {
    Product,
    Person,
    Payout,
    Order,
    PaymentIntent,
    Invoice,
    Subscription,
    Event,
}

impl Default for ObjectType {
    /// Records describe products unless they say otherwise.
    fn default() -> (r: ObjectType)
        ensures
            r == ObjectType::Product,
    {
        ObjectType::Product
    }
}

/// The unit a product is counted in.
#[derive(Clone, Debug)]
pub enum TypeLabel {
    USDT,
    Custom { name: Vec<u8>, symbol: Vec<u8> },
}

impl Default for TypeLabel {
    /// Products are counted in USDT unless they say otherwise.
    fn default() -> (r: TypeLabel)
        ensures
            r is USDT,
    {
        TypeLabel::USDT
    }
}

/// A product.
#[derive(Debug)]
pub struct ProductInfo {
    pub id: ProductId,
    pub object: ObjectType,
    pub active: bool,
    pub created_at: u64,
    pub description: Vec<u8>,
    pub ipfs_cid: Cid,
    pub livemode: bool,
    pub product_name: Vec<u8>,
    pub package_dimensions: Option<Dimensions>,
    pub shippable: bool,
    pub unit_label: Vec<u8>,
    pub updated_at: u64,
    pub url: Vec<u8>,
}

/// Mathematical value of package dimensions.
pub open spec fn dimensions_view(d: Option<Dimensions>) -> Option<Seq<(Seq<u8>, Seq<u8>)>> {
    match d {
        Some(v) => Some(v@.map_values(|p: (Vec<u8>, Vec<u8>)| (p.0@, p.1@))),
        None => None,
    }
}

/// Mathematical value of a [`ProductInfo`].
pub struct ProductView {
    pub id: Seq<u8>,
    pub object: ObjectType,
    pub active: bool,
    pub created_at: u64,
    pub description: Seq<u8>,
    pub ipfs_cid: Seq<u8>,
    pub livemode: bool,
    pub product_name: Seq<u8>,
    pub package_dimensions: Option<Seq<(Seq<u8>, Seq<u8>)>>,
    pub shippable: bool,
    pub unit_label: Seq<u8>,
    pub updated_at: u64,
    pub url: Seq<u8>,
}

impl View for ProductInfo {
    type V = ProductView;

    open spec fn view(&self) -> ProductView {
        ProductView {
            id: self.id@,
            object: self.object,
            active: self.active,
            created_at: self.created_at,
            description: self.description@,
            ipfs_cid: self.ipfs_cid@,
            livemode: self.livemode,
            product_name: self.product_name@,
            package_dimensions: dimensions_view(self.package_dimensions),
            shippable: self.shippable,
            unit_label: self.unit_label@,
            updated_at: self.updated_at,
            url: self.url@,
        }
    }
}

/// The product a missing storage entry reads as.
pub open spec fn default_product() -> ProductView {
    ProductView {
        id: seq![0u8, 0, 0, 0, 0, 0, 0, 0, 0, 0, 0, 0, 0, 0, 0, 0],
        object: ObjectType::Product,
        active: false,
        created_at: 0,
        description: Seq::empty(),
        ipfs_cid: Seq::empty(),
        livemode: false,
        product_name: Seq::empty(),
        package_dimensions: None,
        shippable: false,
        unit_label: Seq::empty(),
        updated_at: 0,
        url: Seq::empty(),
    }
}

/// A copy of some package dimensions.
pub fn copy_dimensions(d: &Option<Dimensions>) -> (r: Option<Dimensions>)
    ensures
        dimensions_view(r) == dimensions_view(*d),
{
    match d {
        None => None,
        Some(v) => {
            let mut out: Dimensions = Vec::new();
            let mut i: usize = 0;
            while i < v.len()
                invariant
                    i <= v@.len(),
                    out@.len() == i,
                    forall|j: int| 0 <= j < i ==> out@[j].0@ == v@[j].0@ && out@[j].1@ == v@[j].1@,
                decreases v.len() - i,
            {
                out.push((copy_bytes(&v[i].0), copy_bytes(&v[i].1)));
                i = i + 1;
            }
            let ghost f = |p: (Vec<u8>, Vec<u8>)| (p.0@, p.1@);
            assert(out@.map_values(f) =~= v@.map_values(f));
            Some(out)
        },
    }
}

impl ProductInfo {
    /// A copy of this product.
    pub fn duplicate(&self) -> (r: ProductInfo)
        ensures
            r@ == self@,
    {
        ProductInfo {
            id: self.id,
            object: self.object,
            active: self.active,
            created_at: self.created_at,
            description: copy_bytes(&self.description),
            ipfs_cid: copy_bytes(&self.ipfs_cid),
            livemode: self.livemode,
            product_name: copy_bytes(&self.product_name),
            package_dimensions: copy_dimensions(&self.package_dimensions),
            shippable: self.shippable,
            unit_label: copy_bytes(&self.unit_label),
            updated_at: self.updated_at,
            url: copy_bytes(&self.url),
        }
    }

    /// The product a missing storage entry reads as.
    pub fn empty() -> (r: ProductInfo)
        ensures
            r@ == default_product(),
    {
        let r = ProductInfo {
            id: [0u8; 16],
            object: ObjectType::Product,
            active: false,
            created_at: 0,
            description: Vec::new(),
            ipfs_cid: Vec::new(),
            livemode: false,
            product_name: Vec::new(),
            package_dimensions: None,
            shippable: false,
            unit_label: Vec::new(),
            updated_at: 0,
            url: Vec::new(),
        };
        assert(r@.id =~= default_product().id);
        r
    }
}

/// Why a call of the products pallet failed.
#[derive(Clone, Copy, Debug, PartialEq, Eq, Structural)]
pub enum Error {
    NoneValue,
    StorageOverflow,
    BadMetadata,
    ProductDoesNotExist,
    NoOwnerFound,
    ProductNotFoundInOrg,
    Unknown,
    /// The call was not signed by a merchant.
    BadOrigin,
    /// A price is still set for the product.
    ProductHasPrices,
}

/// Events of the products pallet.
#[derive(Debug)]
pub enum Event {
    ProductCreated { product_id: ProductId, object_type: ObjectType, created_at: u64, livemode: bool },
    ProductDeleted { product_id: ProductId, object_type: ObjectType, created_at: u64, live: bool },
    ProductUpdated {
        product_id: ProductId,
        updated_at: u64,
        active: bool,
        name: Vec<u8>,
        description: Vec<u8>,
        livemode: bool,
        shippable: bool,
        unit_label: Vec<u8>,
        product_url: Vec<u8>,
    },
    RetrieveProduct { product: ProductInfo },
    ListAllProducts { id: Vec<ProductId>, total: u32 },
    DeleteProduct { id: ProductId, merchant: AccountId, now: u64 },
}

/// The texts of a product update.
pub struct UpdateView {
    pub active: bool,
    pub name: Seq<u8>,
    pub description: Seq<u8>,
    pub livemode: bool,
    pub shippable: bool,
    pub unit_label: Seq<u8>,
    pub product_url: Seq<u8>,
}

/// Mathematical value of an [`Event`].
pub enum EventView {
    ProductCreated { product_id: Seq<u8>, object_type: ObjectType, created_at: u64, livemode: bool },
    ProductDeleted { product_id: Seq<u8>, object_type: ObjectType, created_at: u64, live: bool },
    ProductUpdated { product_id: Seq<u8>, updated_at: u64, update: UpdateView },
    RetrieveProduct { product: ProductView },
    ListAllProducts { id: Seq<Seq<u8>>, total: u32 },
    DeleteProduct { id: Seq<u8>, merchant: AccountId, now: u64 },
}

impl View for Event {
    type V = EventView;

    open spec fn view(&self) -> EventView {
        match self {
            Event::ProductCreated { product_id, object_type, created_at, livemode } =>
                EventView::ProductCreated { product_id: product_id@, object_type: *object_type, created_at: *created_at, livemode: *livemode },
            Event::ProductDeleted { product_id, object_type, created_at, live } =>
                EventView::ProductDeleted { product_id: product_id@, object_type: *object_type, created_at: *created_at, live: *live },
            Event::ProductUpdated { product_id, updated_at, active, name, description, livemode, shippable, unit_label, product_url } =>
                EventView::ProductUpdated {
                    product_id: product_id@,
                    updated_at: *updated_at,
                    update: UpdateView {
                        active: *active,
                        name: name@,
                        description: description@,
                        livemode: *livemode,
                        shippable: *shippable,
                        unit_label: unit_label@,
                        product_url: product_url@,
                    },
                },
            Event::RetrieveProduct { product } => EventView::RetrieveProduct { product: product@ },
            Event::ListAllProducts { id, total } =>
                EventView::ListAllProducts { id: id@.map_values(|p: ProductId| p@), total: *total },
            Event::DeleteProduct { id, merchant, now } => EventView::DeleteProduct { id: id@, merchant: *merchant, now: *now },
        }
    }
}

/// The products pallet's storage, its string limit, the wall clock (seconds),
/// the current block and the deposited events.
pub struct Pallet {
    pub string_limit: u32,
    pub now_secs: u64,
    pub block_number: BlockNumber,
    /// Products by id.
    pub product_list: ByteMap<ProductInfo>,
    /// The ids of each merchant's products, in the order they were stored.
    pub organisation_products: HashMap<AccountId, Vec<ProductId>>,
    /// The owner recorded for each product id.
    pub owner_of: ByteMap<Option<AccountId>>,
    pub events: Vec<Event>,
}

/// Mathematical value of the products [`Pallet`].
pub struct ProductsState {
    pub string_limit: u32,
    pub now_secs: u64,
    pub block_number: BlockNumber,
    pub product_list: Map<Seq<u8>, ProductView>,
    pub organisation_products: Map<AccountId, Seq<Seq<u8>>>,
    pub owner_of: Map<Seq<u8>, Option<AccountId>>,
    pub events: Seq<EventView>,
}

impl View for Pallet {
    type V = ProductsState;

    open spec fn view(&self) -> ProductsState {
        ProductsState {
            string_limit: self.string_limit,
            now_secs: self.now_secs,
            block_number: self.block_number,
            product_list: self.product_list.view().map_values(|p: ProductInfo| p@),
            organisation_products: self.organisation_products@.map_values(|v: Vec<ProductId>| v@.map_values(|p: ProductId| p@)),
            owner_of: self.owner_of.view(),
            events: self.events@.map_values(|e: Event| e@),
        }
    }
}

/// The time as the pallet records it: whole minutes, in seconds.
pub open spec fn spec_get_time(s: ProductsState) -> u64 {
    ((s.now_secs / 60) * 60) as u64
}

/// The id of a product created at block `block_number` from the random value
/// `random`: the Blake2-128 hash of both, encoded.
pub open spec fn product_id_of(random: Seq<u8>, block_number: BlockNumber) -> Seq<u8> {
    blake2_128_of(random + le_bytes(block_number as nat, 4))
}

/// The ids recorded for a merchant (none when absent).
pub open spec fn products_of(s: ProductsState, merchant: AccountId) -> Seq<Seq<u8>> {
    if s.organisation_products.contains_key(merchant) { s.organisation_products[merchant] } else { Seq::empty() }
}

/// The stored product (the default when absent).
pub open spec fn product_at(s: ProductsState, id: Seq<u8>) -> ProductView {
    if s.product_list.contains_key(id) { s.product_list[id] } else { default_product() }
}

/// The owner of a product: `ProductDoesNotExist` unless it is stored,
/// `NoOwnerFound` unless an owner entry is recorded for it, `Unknown` when that
/// entry holds no account.
pub open spec fn spec_product_owner(s: ProductsState, id: Seq<u8>) -> Result<AccountId, Error> {
    if !s.product_list.contains_key(id) {
        Err(Error::ProductDoesNotExist)
    } else if !s.owner_of.contains_key(id) {
        Err(Error::NoOwnerFound)
    } else {
        match s.owner_of[id] {
            Some(owner) => Ok(owner),
            None => Err(Error::Unknown),
        }
    }
}

/// Checking that `merchant` owns a product: its owner must be the merchant
/// (`NoOwnerFound` otherwise) and the merchant's list must hold it
/// (`ProductNotFoundInOrg` otherwise).
pub open spec fn spec_verify_product_owner(s: ProductsState, merchant: AccountId, id: Seq<u8>) -> Result<(), Error> {
    match spec_product_owner(s, id) {
        Err(e) => Err(e),
        Ok(owner) => if owner != merchant {
            Err(Error::NoOwnerFound)
        } else if !products_of(s, merchant).contains(id) {
            Err(Error::ProductNotFoundInOrg)
        } else {
            Ok(())
        },
    }
}

/// Storing a product: under its id, appended to the merchant's list, owned by
/// the merchant.
pub open spec fn spec_store_product(s: ProductsState, id: Seq<u8>, info: ProductView, merchant: AccountId) -> ProductsState {
    ProductsState {
        product_list: s.product_list.insert(id, info),
        organisation_products: s.organisation_products.insert(merchant, products_of(s, merchant).push(id)),
        owner_of: s.owner_of.insert(id, Some(merchant)),
        ..s
    }
}

pub open spec fn with_event(s: ProductsState, e: EventView) -> ProductsState {
    ProductsState { events: s.events.push(e), ..s }
}

/// Whether a text fits the string limit.
pub open spec fn fits(s: ProductsState, text: Seq<u8>) -> bool {
    text.len() <= s.string_limit
}

/// The fields of a new or updated product.
pub struct ProductFields {
    pub active: bool,
    pub name: Vec<u8>,
    pub description: Vec<u8>,
    pub package_dimensions: Option<Dimensions>,
    pub livemode: bool,
    pub ipfs_cid: Cid,
    pub shippable: bool,
    pub unit_label: Vec<u8>,
    pub product_url: Vec<u8>,
}

/// Mathematical value of [`ProductFields`].
pub struct FieldsView {
    pub active: bool,
    pub name: Seq<u8>,
    pub description: Seq<u8>,
    pub package_dimensions: Option<Seq<(Seq<u8>, Seq<u8>)>>,
    pub livemode: bool,
    pub ipfs_cid: Seq<u8>,
    pub shippable: bool,
    pub unit_label: Seq<u8>,
    pub product_url: Seq<u8>,
}

impl View for ProductFields {
    type V = FieldsView;

    open spec fn view(&self) -> FieldsView {
        FieldsView {
            active: self.active,
            name: self.name@,
            description: self.description@,
            package_dimensions: dimensions_view(self.package_dimensions),
            livemode: self.livemode,
            ipfs_cid: self.ipfs_cid@,
            shippable: self.shippable,
            unit_label: self.unit_label@,
            product_url: self.product_url@,
        }
    }
}

/// Whether all bounded texts of `f` fit the string limit.
pub open spec fn texts_fit(s: ProductsState, f: FieldsView) -> bool {
    fits(s, f.name) && fits(s, f.product_url) && fits(s, f.description) && fits(s, f.unit_label)
}

/// Creating a product with id `id`: refused with `BadMetadata` when a text is
/// over the limit; otherwise stored for the merchant and announced.
pub open spec fn spec_do_create(s: ProductsState, merchant: AccountId, f: FieldsView, id: Seq<u8>) -> (ProductsState, Result<(), Error>) {
    if !texts_fit(s, f) {
        (s, Err(Error::BadMetadata))
    } else {
        let now = spec_get_time(s);
        let info = ProductView {
            id,
            object: ObjectType::Product,
            active: f.active,
            created_at: now,
            description: f.description,
            ipfs_cid: f.ipfs_cid,
            livemode: f.livemode,
            product_name: f.name,
            package_dimensions: f.package_dimensions,
            shippable: f.shippable,
            unit_label: f.unit_label,
            updated_at: now,
            url: f.product_url,
        };
        (with_event(spec_store_product(s, id, info, merchant),
            EventView::ProductCreated { product_id: id, object_type: ObjectType::Product, created_at: now, livemode: f.livemode }),
            Ok(()))
    }
}

pub open spec fn spec_create_product(s: ProductsState, origin: Origin, merchant: AccountId, f: FieldsView, random: Seq<u8>) -> (ProductsState, Result<(), Error>) {
    if signer_of(origin) is None {
        (s, Err(Error::BadOrigin))
    } else {
        spec_do_create(s, merchant, f, product_id_of(random, s.block_number))
    }
}

pub open spec fn spec_retrieve_product(s: ProductsState, origin: Origin, id: Seq<u8>, merchant: AccountId) -> (ProductsState, Result<(), Error>) {
    if signer_of(origin) is None {
        (s, Err(Error::BadOrigin))
    } else {
        match spec_verify_product_owner(s, merchant, id) {
            Err(e) => (s, Err(e)),
            Ok(_) => (with_event(s, EventView::RetrieveProduct { product: product_at(s, id) }), Ok(())),
        }
    }
}

pub open spec fn spec_update_product(s: ProductsState, origin: Origin, merchant: AccountId, id: Seq<u8>, f: FieldsView) -> (ProductsState, Result<(), Error>) {
    if signer_of(origin) is None {
        (s, Err(Error::BadOrigin))
    } else {
        match spec_verify_product_owner(s, merchant, id) {
            Err(e) => (s, Err(e)),
            Ok(_) => if !texts_fit(s, f) {
                (s, Err(Error::BadMetadata))
            } else if !s.product_list.contains_key(id) {
                (s, Err(Error::Unknown))
            } else {
                let old = s.product_list[id];
                let info = ProductView {
                    active: f.active,
                    product_name: f.name,
                    description: f.description,
                    package_dimensions: f.package_dimensions,
                    livemode: f.livemode,
                    ipfs_cid: f.ipfs_cid,
                    shippable: f.shippable,
                    unit_label: f.unit_label,
                    url: f.product_url,
                    ..old
                };
                let s1 = ProductsState { product_list: s.product_list.insert(id, info), ..s };
                (with_event(s1, EventView::ProductUpdated {
                    product_id: id,
                    updated_at: spec_get_time(s),
                    update: UpdateView {
                        active: f.active,
                        name: f.name,
                        description: f.description,
                        livemode: f.livemode,
                        shippable: f.shippable,
                        unit_label: f.unit_label,
                        product_url: f.product_url,
                    },
                }), Ok(()))
            },
        }
    }
}

/// The creation time of the product stored under `id` (zero when absent).
pub open spec fn created_of(s: ProductsState, id: Seq<u8>) -> u64 {
    product_at(s, id).created_at
}

/// Whether `ids` lists the merchant's products sorted by creation time, the most
/// recently created first: the same ids, each as often, in non-increasing order of
/// creation time.
pub open spec fn newest_first(s: ProductsState, merchant: AccountId, ids: Seq<Seq<u8>>) -> bool {
    &&& ids.to_multiset() == products_of(s, merchant).to_multiset()
    &&& forall|i: int, j: int| 0 <= i < j < ids.len() ==> created_of(s, ids[i]) >= created_of(s, ids[j])
}

/// Whether `t` is `s` after listing the merchant's products as `ids`: the listing
/// event is deposited with the ids and their number, and nothing else changes.
pub open spec fn listed(s: ProductsState, merchant: AccountId, ids: Seq<Seq<u8>>, t: ProductsState) -> bool {
    &&& newest_first(s, merchant, ids)
    &&& t == with_event(s, EventView::ListAllProducts { id: ids, total: products_of(s, merchant).len() as u32 })
}

/// Whether some price is set for the product `id`, given the product each price is for.
pub open spec fn has_prices(priced_for: Map<Seq<u8>, ProductId>, id: Seq<u8>) -> bool {
    exists|k: Seq<u8>| #[trigger] priced_for.contains_key(k) && priced_for[k]@ == id
}

/// The first position of `id` in `ids`.
pub open spec fn first_index(ids: Seq<Seq<u8>>, id: Seq<u8>) -> int {
    choose|i: int| 0 <= i < ids.len() && ids[i] == id && forall|j: int| 0 <= j < i ==> ids[j] != id
}

/// Deleting a product: refused unless signed; refused unless `merchant` owns it
/// (see [`spec_verify_product_owner`]); refused with `ProductHasPrices` while a
/// price is set for it. Otherwise the product leaves the product list and the
/// merchant's list, and the deletion is announced.
pub open spec fn spec_delete_product(s: ProductsState, origin: Origin, id: Seq<u8>, merchant: AccountId, priced_for: Map<Seq<u8>, ProductId>) -> (ProductsState, Result<(), Error>) {
    if signer_of(origin) is None {
        (s, Err(Error::BadOrigin))
    } else {
        match spec_verify_product_owner(s, merchant, id) {
            Err(e) => (s, Err(e)),
            Ok(_) => if has_prices(priced_for, id) {
                (s, Err(Error::ProductHasPrices))
            } else {
                let ids = products_of(s, merchant);
                let s1 = ProductsState {
                    product_list: s.product_list.remove(id),
                    organisation_products: s.organisation_products.insert(merchant, ids.remove(first_index(ids, id))),
                    ..s
                };
                (with_event(s1, EventView::DeleteProduct { id, merchant, now: spec_get_time(s) }), Ok(()))
            },
        }
    }
}

/// `ids` with `x` inserted at `i`, viewed, is the view with `x` viewed inserted at `i`.
proof fn lemma_map_values_insert_at(ids: Seq<ProductId>, i: int, x: ProductId)
    requires
        0 <= i <= ids.len(),
    ensures
        ids.insert(i, x).map_values(|p: ProductId| p@) == ids.map_values(|p: ProductId| p@).insert(i, x@),
{
    assert(ids.insert(i, x).map_values(|p: ProductId| p@) =~= ids.map_values(|p: ProductId| p@).insert(i, x@));
}

/// The id of a product created at block `block_number` from the random value
/// `random`.
pub fn get_id(random: &[u8; 32], block_number: BlockNumber) -> (r: ProductId)
    ensures
        r@ == product_id_of(random@, block_number),
{
    let mut payload: Vec<u8> = Vec::new();
    let mut i: usize = 0;
    while i < 32
        invariant
            i <= 32,
            random@.len() == 32,
            payload@ == random@.subrange(0, i as int),
        decreases 32 - i,
    {
        payload.push(random[i]);
        proof { assert(random@.subrange(0, i as int).push(random@[i as int]) =~= random@.subrange(0, i + 1)); }
        i = i + 1;
    }
    push_le(&mut payload, block_number as u64, 4);
    proof { assert(random@.subrange(0, 32) =~= random@); }
    blake2_128(payload.as_slice())
}

impl ProductFields {
    /// A copy of these fields.
    pub fn duplicate(&self) -> (r: ProductFields)
        ensures
            r@ == self@,
    {
        ProductFields {
            active: self.active,
            name: copy_bytes(&self.name),
            description: copy_bytes(&self.description),
            package_dimensions: copy_dimensions(&self.package_dimensions),
            livemode: self.livemode,
            ipfs_cid: copy_bytes(&self.ipfs_cid),
            shippable: self.shippable,
            unit_label: copy_bytes(&self.unit_label),
            product_url: copy_bytes(&self.product_url),
        }
    }
}

impl Pallet {
    /// A products pallet with empty storage.
    pub fn new(string_limit: u32, now_secs: u64, block_number: BlockNumber) -> (r: Pallet)
        ensures
            r@ == (ProductsState {
                string_limit,
                now_secs,
                block_number,
                product_list: Map::empty(),
                organisation_products: Map::empty(),
                owner_of: Map::empty(),
                events: Seq::empty(),
            }),
    {
        let r = Pallet {
            string_limit,
            now_secs,
            block_number,
            product_list: ByteMap::new(),
            organisation_products: HashMap::new(),
            owner_of: ByteMap::new(),
            events: Vec::new(),
        };
        assert(r@.product_list =~= Map::<Seq<u8>, ProductView>::empty());
        assert(r@.organisation_products =~= Map::<AccountId, Seq<Seq<u8>>>::empty());
        assert(r@.events =~= Seq::<EventView>::empty());
        r
    }

    /// Sets the wall-clock time (seconds) and the current block.
    pub fn set_clock(&mut self, now_secs: u64, block_number: BlockNumber)
        ensures
            final(self)@ == (ProductsState { now_secs, block_number, ..old(self)@ }),
    {
        self.now_secs = now_secs;
        self.block_number = block_number;
    }

    fn deposit_event(&mut self, e: Event)
        ensures
            final(self)@ == with_event(old(self)@, e@),
    {
        proof { lemma_seq_map_values_push(self.events@, e, |e: Event| e@); }
        self.events.push(e);
    }

    /// The time as the pallet records it: whole minutes, in seconds.
    pub fn get_time(&self) -> (r: u64)
        ensures
            r == spec_get_time(self@),
    {
        (self.now_secs / ONE_MINUTE) * ONE_MINUTE
    }

    /// The ids recorded for `merchant`.
    pub fn organisation_products(&self, merchant: AccountId) -> (r: Vec<ProductId>)
        ensures
            r@.map_values(|p: ProductId| p@) == products_of(self@, merchant),
    {
        match self.organisation_products.get(&merchant) {
            Some(v) => {
                let mut r: Vec<ProductId> = Vec::new();
                let mut i: usize = 0;
                while i < v.len()
                    invariant
                        i <= v@.len(),
                        r@ == v@.subrange(0, i as int),
                    decreases v.len() - i,
                {
                    r.push(v[i]);
                    proof { assert(v@.subrange(0, i as int).push(v@[i as int]) =~= v@.subrange(0, i + 1)); }
                    i = i + 1;
                }
                proof { assert(v@.subrange(0, v@.len() as int) =~= v@); }
                r
            },
            None => {
                let r: Vec<ProductId> = Vec::new();
                proof { assert(r@.map_values(|p: ProductId| p@) =~= Seq::<Seq<u8>>::empty()); }
                r
            },
        }
    }

    fn put_products_of(&mut self, merchant: AccountId, ids: Vec<ProductId>)
        ensures
            final(self)@ == (ProductsState {
                organisation_products: old(self)@.organisation_products.insert(merchant, ids@.map_values(|p: ProductId| p@)),
                ..old(self)@
            }),
    {
        proof {
            lemma_map_values_insert(self.organisation_products@, merchant, ids, |v: Vec<ProductId>| v@.map_values(|p: ProductId| p@));
        }
        self.organisation_products.insert(merchant, ids);
    }

    fn put_product(&mut self, id: &ProductId, info: ProductInfo)
        ensures
            final(self)@ == (ProductsState { product_list: old(self)@.product_list.insert(id@, info@), ..old(self)@ }),
    {
        proof { lemma_map_values_insert(self.product_list.view(), id@, info, |p: ProductInfo| p@); }
        self.product_list.insert(vstd::slice::slice_to_vec(id.as_slice()), info);
    }

    fn drop_product(&mut self, id: &ProductId)
        ensures
            final(self)@ == (ProductsState { product_list: old(self)@.product_list.remove(id@), ..old(self)@ }),
    {
        proof { lemma_map_values_remove(self.product_list.view(), id@, |p: ProductInfo| p@); }
        self.product_list.remove(id.as_slice());
    }

    /// The owner of a product.
    pub fn product_owner(&self, product_id: &ProductId) -> (r: Result<AccountId, Error>)
        ensures
            r == spec_product_owner(self@, product_id@),
    {
        if !self.product_list.contains_key(product_id.as_slice()) {
            return Err(Error::ProductDoesNotExist);
        }
        match self.owner_of.get(product_id.as_slice()) {
            None => Err(Error::NoOwnerFound),
            Some(Some(id)) => Ok(*id),
            Some(None) => Err(Error::Unknown),
        }
    }

    /// The first position of `id` in `ids`, if it occurs there.
    fn position_of(ids: &Vec<ProductId>, id: &ProductId) -> (r: Option<usize>)
        ensures
            match r {
                Some(i) => ids@.map_values(|p: ProductId| p@).contains(id@)
                    && i as int == first_index(ids@.map_values(|p: ProductId| p@), id@)
                    && i < ids@.len(),
                None => !ids@.map_values(|p: ProductId| p@).contains(id@),
            },
    {
        let ghost v = ids@.map_values(|p: ProductId| p@);
        let mut i: usize = 0;
        while i < ids.len()
            invariant
                i <= ids@.len(),
                v == ids@.map_values(|p: ProductId| p@),
                forall|j: int| 0 <= j < i ==> v[j] != id@,
            decreases ids.len() - i,
        {
            if crate::bytemap::bytes_equal(ids[i].as_slice(), id.as_slice()) {
                proof {
                    let ii = i as int;
                    assert(v[ii] == id@);
                    assert(v.contains(id@));
                    let k = first_index(v, id@);
                    assert(0 <= k < v.len() && v[k] == id@ && forall|j: int| 0 <= j < k ==> v[j] != id@);
                    if k < ii {
                        assert(v[k] != id@);
                    }
                    if ii < k {
                        assert(v[ii] != id@);
                    }
                }
                return Some(i);
            }
            i = i + 1;
        }
        proof {
            if v.contains(id@) {
                let j = choose|j: int| 0 <= j < v.len() && v[j] == id@;
                assert(v[j] != id@);
            }
        }
        None
    }

    /// Checks that `merchant` owns the product and lists it.
    pub fn verify_product_owner(&self, merchant: AccountId, product_id: &ProductId) -> (r: Result<(), Error>)
        ensures
            r == spec_verify_product_owner(self@, merchant, product_id@),
    {
        let owner = match self.product_owner(product_id) {
            Ok(o) => o,
            Err(e) => return Err(e),
        };
        if owner != merchant {
            return Err(Error::NoOwnerFound);
        }
        let org_products = self.organisation_products(merchant);
        match Self::position_of(&org_products, product_id) {
            Some(_) => Ok(()),
            None => Err(Error::ProductNotFoundInOrg),
        }
    }

    /// Stores a product for `merchant`.
    pub fn store_product(&mut self, product_id: ProductId, product_info: ProductInfo, merchant: AccountId) -> (r: Result<(), Error>)
        ensures
            final(self)@ == spec_store_product(old(self)@, product_id@, product_info@, merchant),
            r is Ok,
    {
        self.put_product(&product_id, product_info);
        let mut ids = self.organisation_products(merchant);
        let ghost before = ids@;
        ids.push(product_id);
        proof {
            lemma_seq_map_values_push(before, product_id, |p: ProductId| p@);
        }
        self.put_products_of(merchant, ids);
        self.owner_of.insert(vstd::slice::slice_to_vec(product_id.as_slice()), Some(merchant));
        Ok(())
    }

    /// Creates a product with id `id` for `merchant`.
    pub fn do_create(&mut self, merchant: AccountId, fields: ProductFields, id: ProductId) -> (r: Result<(), Error>)
        ensures
            (final(self)@, r) == spec_do_create(old(self)@, merchant, fields@, id@),
    {
        let now = self.get_time();
        if fields.name.len() > self.string_limit as usize
            || fields.product_url.len() > self.string_limit as usize
            || fields.description.len() > self.string_limit as usize
            || fields.unit_label.len() > self.string_limit as usize {
            return Err(Error::BadMetadata);
        }
        let livemode = fields.livemode;
        let product_info = ProductInfo {
            id,
            object: ObjectType::Product,
            active: fields.active,
            created_at: now,
            description: fields.description,
            ipfs_cid: fields.ipfs_cid,
            livemode: fields.livemode,
            product_name: fields.name,
            package_dimensions: fields.package_dimensions,
            shippable: fields.shippable,
            unit_label: fields.unit_label,
            updated_at: now,
            url: fields.product_url,
        };
        let _ = self.store_product(id, product_info, merchant);
        self.deposit_event(Event::ProductCreated { product_id: id, object_type: ObjectType::Product, created_at: now, livemode });
        Ok(())
    }

    /// Creates a product for `merchant`; its id derives from `random`, the
    /// runtime's random value for product ids.
    pub fn create_product(&mut self, origin: Origin, merchant: AccountId, fields: ProductFields, random: &[u8; 32]) -> (r: Result<(), Error>)
        ensures
            (final(self)@, r) == spec_create_product(old(self)@, origin, merchant, fields@, random@),
    {
        if ensure_signed(origin).is_none() {
            return Err(Error::BadOrigin);
        }
        let id = get_id(random, self.block_number);
        self.do_create(merchant, fields, id)
    }

    /// Announces the details of a product that `merchant` owns.
    pub fn retrieve_product(&mut self, origin: Origin, product_id: ProductId, merchant: AccountId) -> (r: Result<(), Error>)
        ensures
            (final(self)@, r) == spec_retrieve_product(old(self)@, origin, product_id@, merchant),
    {
        if ensure_signed(origin).is_none() {
            return Err(Error::BadOrigin);
        }
        if let Err(e) = self.verify_product_owner(merchant, &product_id) {
            return Err(e);
        }
        let product = match self.product_list.get(product_id.as_slice()) {
            Some(p) => p.duplicate(),
            None => ProductInfo::empty(),
        };
        self.deposit_event(Event::RetrieveProduct { product });
        Ok(())
    }

    /// Updates a product that `merchant` owns with the given fields.
    pub fn update_product(&mut self, origin: Origin, merchant: AccountId, product_id: ProductId, fields: ProductFields) -> (r: Result<(), Error>)
        ensures
            (final(self)@, r) == spec_update_product(old(self)@, origin, merchant, product_id@, fields@),
    {
        if ensure_signed(origin).is_none() {
            return Err(Error::BadOrigin);
        }
        if let Err(e) = self.verify_product_owner(merchant, &product_id) {
            return Err(e);
        }
        if fields.name.len() > self.string_limit as usize
            || fields.product_url.len() > self.string_limit as usize
            || fields.description.len() > self.string_limit as usize {
            return Err(Error::BadMetadata);
        }
        let now = self.get_time();
        if fields.unit_label.len() > self.string_limit as usize {
            return Err(Error::BadMetadata);
        }
        let mut details = match self.product_list.get(product_id.as_slice()) {
            Some(p) => p.duplicate(),
            None => return Err(Error::Unknown),
        };
        let copy = fields.duplicate();
        details.active = fields.active;
        details.product_name = fields.name;
        details.description = fields.description;
        details.package_dimensions = fields.package_dimensions;
        details.livemode = fields.livemode;
        details.ipfs_cid = fields.ipfs_cid;
        details.shippable = fields.shippable;
        details.unit_label = fields.unit_label;
        details.url = fields.product_url;
        self.put_product(&product_id, details);
        self.deposit_event(Event::ProductUpdated {
            product_id,
            updated_at: now,
            active: copy.active,
            name: copy.name,
            description: copy.description,
            livemode: copy.livemode,
            shippable: copy.shippable,
            unit_label: copy.unit_label,
            product_url: copy.product_url,
        });
        Ok(())
    }

    /// The creation time of the product stored under `id` (zero when absent).
    fn created_at_of(&self, id: &ProductId) -> (r: u64)
        ensures
            r == created_of(self@, id@),
    {
        match self.product_list.get(id.as_slice()) {
            Some(p) => p.created_at,
            None => 0,
        }
    }

    /// Announces the ids of `merchant`'s products sorted by creation date, the most
    /// recently created first, and their number.
    pub fn list_all_products(&mut self, origin: Origin, merchant: AccountId) -> (r: Result<(), Error>)
        ensures
            signer_of(origin) is None ==> r == Err::<(), Error>(Error::BadOrigin) && final(self)@ == old(self)@,
            signer_of(origin) is Some ==> r is Ok && exists|ids: Seq<Seq<u8>>| listed(old(self)@, merchant, ids, final(self)@),
    {
        if ensure_signed(origin).is_none() {
            return Err(Error::BadOrigin);
        }
        let org_list = self.organisation_products(merchant);
        let count: usize = org_list.len();
        let total: u32 = #[verifier::truncate] (count as u32);
        let ghost s = self@;
        let ghost src = org_list@.map_values(|p: ProductId| p@);
        let mut out: Vec<ProductId> = Vec::new();
        let mut keys: Vec<u64> = Vec::new();
        let mut i: usize = 0;
        proof {
            assert(out@.map_values(|p: ProductId| p@) =~= Seq::<Seq<u8>>::empty());
            assert(src.subrange(0, 0) =~= Seq::<Seq<u8>>::empty());
        }
        while i < count
            invariant
                i <= count,
                count == org_list@.len(),
                s == self@,
                src == org_list@.map_values(|p: ProductId| p@),
                keys@.len() == out@.len(),
                forall|j: int| 0 <= j < out@.len() ==> keys@[j] == created_of(s, #[trigger] out@[j]@),
                forall|a: int, b: int| 0 <= a < b < out@.len() ==> keys@[a] >= keys@[b],
                out@.map_values(|p: ProductId| p@).to_multiset() == src.subrange(0, i as int).to_multiset(),
            decreases count - i,
        {
            let id = org_list[i];
            let key = self.created_at_of(&id);
            let mut p: usize = 0;
            while p < out.len() && keys[p] > key
                invariant
                    p <= out@.len(),
                    keys@.len() == out@.len(),
                    forall|j: int| 0 <= j < p ==> keys@[j] > key,
                decreases out.len() - p,
            {
                p = p + 1;
            }
            let ghost old_out = out@;
            let ghost old_keys = keys@;
            out.insert(p, id);
            keys.insert(p, key);
            proof {
                let pp = p as int;
                lemma_map_values_insert_at(old_out, pp, id);
                vstd::seq_lib::to_multiset_insert(old_out.map_values(|q: ProductId| q@), pp, id@);
                assert(src.subrange(0, i + 1) =~= src.subrange(0, i as int).push(src[i as int]));
                vstd::seq_lib::to_multiset_build(src.subrange(0, i as int), src[i as int]);
                assert(src[i as int] == id@);
                assert forall|j: int| pp <= j < old_keys.len() implies old_keys[j] <= key by {
                    assert(old_keys[pp] <= key);
                }
                assert forall|a: int, b: int| 0 <= a < b < keys@.len() implies keys@[a] >= keys@[b] by {
                    if b < pp {
                        assert(keys@[a] == old_keys[a] && keys@[b] == old_keys[b]);
                    } else if b == pp {
                        assert(keys@[a] == old_keys[a]);
                    } else if a < pp {
                        assert(keys@[a] == old_keys[a] && keys@[b] == old_keys[b - 1]);
                    } else if a == pp {
                        assert(keys@[b] == old_keys[b - 1]);
                    } else {
                        assert(keys@[a] == old_keys[a - 1] && keys@[b] == old_keys[b - 1]);
                    }
                }
                assert forall|j: int| 0 <= j < out@.len() implies keys@[j] == created_of(s, #[trigger] out@[j]@) by {
                    if j < pp {
                        assert(out@[j] == old_out[j]);
                    } else if j > pp {
                        assert(out@[j] == old_out[j - 1]);
                    }
                }
            }
            i = i + 1;
        }
        let ghost ids = out@.map_values(|p: ProductId| p@);
        proof {
            assert(src.subrange(0, count as int) =~= src);
            assert forall|a: int, b: int| 0 <= a < b < ids.len() implies created_of(s, ids[a]) >= created_of(s, ids[b]) by {
                assert(keys@[a] == created_of(s, out@[a]@));
                assert(keys@[b] == created_of(s, out@[b]@));
            }
        }
        self.deposit_event(Event::ListAllProducts { id: out, total });
        assert(listed(s, merchant, ids, self@));
        Ok(())
    }

    /// Deletes a product that `merchant` owns and for which no price is set; the
    /// prices set so far are given by the product each of them is for.
    pub fn delete_product(&mut self, origin: Origin, product_id: ProductId, merchant: AccountId, priced_for: &ByteMap<ProductId>) -> (r: Result<(), Error>)
        ensures
            (final(self)@, r) == spec_delete_product(old(self)@, origin, product_id@, merchant, priced_for.view()),
    {
        if ensure_signed(origin).is_none() {
            return Err(Error::BadOrigin);
        }
        if let Err(e) = self.verify_product_owner(merchant, &product_id) {
            return Err(e);
        }
        if priced_for.has_value(&product_id) {
            return Err(Error::ProductHasPrices);
        }
        let now = self.get_time();
        let mut id_list = self.organisation_products(merchant);
        let index = match Self::position_of(&id_list, &product_id) {
            Some(i) => i,
            None => return Err(Error::ProductDoesNotExist),
        };
        self.drop_product(&product_id);
        let ghost before = id_list@;
        id_list.remove(index);
        proof {
            assert(id_list@.map_values(|p: ProductId| p@) =~= before.map_values(|p: ProductId| p@).remove(index as int));
        }
        self.put_products_of(merchant, id_list);
        self.deposit_event(Event::DeleteProduct { id: product_id, merchant, now });
        Ok(())
    }
}

/// A created product is stored, owned and listed: on success it is stored under
/// its id with its creation and update times equal, its owner is the merchant,
/// and the merchant's list ends with its id.
pub proof fn law_created_product_is_listed(
    s: ProductsState,
    origin: Origin,
    merchant: AccountId,
    f: FieldsView,
    random: Seq<u8>,
)
    requires
        spec_create_product(s, origin, merchant, f, random).1 is Ok,
    ensures
        ({
            let t = spec_create_product(s, origin, merchant, f, random).0;
            let id = product_id_of(random, s.block_number);
            &&& t.product_list.contains_key(id)
            &&& t.product_list[id].created_at == t.product_list[id].updated_at
            &&& t.product_list[id].product_name == f.name
            &&& t.owner_of[id] == Some(merchant)
            &&& products_of(t, merchant) == products_of(s, merchant).push(id)
            &&& spec_verify_product_owner(t, merchant, id) is Ok
        }),
{
    let t = spec_create_product(s, origin, merchant, f, random).0;
    let id = product_id_of(random, s.block_number);
    assert(products_of(t, merchant)[products_of(s, merchant).len() as int] == id);
}

/// An owned product is retrieved: when `merchant` owns a stored product, a signed
/// retrieval succeeds, announces the stored product and changes no storage.
pub proof fn law_owned_product_is_retrieved(s: ProductsState, caller: AccountId, merchant: AccountId, id: Seq<u8>)
    requires
        s.product_list.contains_key(id),
        s.owner_of.contains_key(id),
        s.owner_of[id] == Some(merchant),
        products_of(s, merchant).contains(id),
    ensures
        spec_retrieve_product(s, Origin::Signed(caller), id, merchant).1 is Ok,
        spec_retrieve_product(s, Origin::Signed(caller), id, merchant).0
            == with_event(s, EventView::RetrieveProduct { product: s.product_list[id] }),
{
}

/// An owned product is updated: when `merchant` owns a stored product and the new
/// texts fit, a signed update succeeds; the given fields replace the stored ones,
/// while the id, the kind of object and the creation time stay.
pub proof fn law_owned_product_is_updated(s: ProductsState, caller: AccountId, merchant: AccountId, id: Seq<u8>, f: FieldsView)
    requires
        s.product_list.contains_key(id),
        s.owner_of.contains_key(id),
        s.owner_of[id] == Some(merchant),
        products_of(s, merchant).contains(id),
        texts_fit(s, f),
    ensures
        ({
            let (t, r) = spec_update_product(s, Origin::Signed(caller), merchant, id, f);
            let old = s.product_list[id];
            let new = t.product_list[id];
            &&& r is Ok
            &&& new.id == old.id && new.object == old.object && new.created_at == old.created_at
            &&& new.active == f.active && new.product_name == f.name && new.description == f.description
            &&& new.package_dimensions == f.package_dimensions && new.livemode == f.livemode
            &&& new.ipfs_cid == f.ipfs_cid && new.shippable == f.shippable
            &&& new.unit_label == f.unit_label && new.url == f.product_url
            &&& t.organisation_products == s.organisation_products && t.owner_of == s.owner_of
        }),
{
}

/// A deleted product is gone: after a successful deletion no product is stored
/// under the id.
pub proof fn law_deleted_product_is_gone(
    s: ProductsState,
    merchant: AccountId,
    id: Seq<u8>,
    caller: AccountId,
    priced_for: Map<Seq<u8>, ProductId>,
)
    requires
        spec_delete_product(s, Origin::Signed(caller), id, merchant, priced_for).1 is Ok,
    ensures
        !spec_delete_product(s, Origin::Signed(caller), id, merchant, priced_for).0.product_list.contains_key(id),
        products_of(spec_delete_product(s, Origin::Signed(caller), id, merchant, priced_for).0, merchant).to_multiset()
            == products_of(s, merchant).to_multiset().remove(id),
        products_of(spec_delete_product(s, Origin::Signed(caller), id, merchant, priced_for).0, merchant).len()
            + 1 == products_of(s, merchant).len(),
        !has_prices(priced_for, id),
        s.owner_of[id] == Some(merchant),
{
    let ids = products_of(s, merchant);
    assert(ids.contains(id));
    let j = choose|j: int| 0 <= j < ids.len() && ids[j] == id;
    lemma_least_index(ids, id, j);
    let k = first_index(ids, id);
    vstd::seq_lib::to_multiset_remove(ids, k);
}

/// Where `id` occurs in `ids`, it has a first occurrence.
proof fn lemma_least_index(ids: Seq<Seq<u8>>, id: Seq<u8>, i: int)
    requires
        0 <= i < ids.len(),
        ids[i] == id,
    ensures
        exists|k: int| 0 <= k < ids.len() && ids[k] == id && forall|m: int| 0 <= m < k ==> ids[m] != id,
    decreases i,
{
    if exists|m: int| 0 <= m < i && ids[m] == id {
        let m = choose|m: int| 0 <= m < i && ids[m] == id;
        lemma_least_index(ids, id, m);
    } else {
        assert(0 <= i < ids.len() && ids[i] == id && forall|m: int| 0 <= m < i ==> ids[m] != id);
    }
}

/// A priced product stays: while a price is set for it, deleting a product fails
/// and leaves the products pallet as it was.
pub proof fn law_priced_product_stays(
    s: ProductsState,
    origin: Origin,
    merchant: AccountId,
    id: Seq<u8>,
    priced_for: Map<Seq<u8>, ProductId>,
)
    requires
        has_prices(priced_for, id),
    ensures
        spec_delete_product(s, origin, id, merchant, priced_for).1 is Err,
        spec_delete_product(s, origin, id, merchant, priced_for).0 == s,
{
}

/// Only the owner deletes: a deletion for a merchant who does not own the product
/// fails and leaves the products pallet as it was.
pub proof fn law_only_the_owner_deletes(
    s: ProductsState,
    origin: Origin,
    merchant: AccountId,
    id: Seq<u8>,
    priced_for: Map<Seq<u8>, ProductId>,
)
    requires
        spec_verify_product_owner(s, merchant, id) is Err,
    ensures
        spec_delete_product(s, origin, id, merchant, priced_for).1 is Err,
        spec_delete_product(s, origin, id, merchant, priced_for).0 == s,
{
}

/// A created product keeps the fields it was given: on success the product stored
/// under its new id holds every given field, is a product object, and was created
/// and last updated at the current time (whole minutes).
pub proof fn law_created_product_keeps_its_fields(
    s: ProductsState,
    origin: Origin,
    merchant: AccountId,
    f: FieldsView,
    random: Seq<u8>,
)
    requires
        spec_create_product(s, origin, merchant, f, random).1 is Ok,
    ensures
        ({
            let t = spec_create_product(s, origin, merchant, f, random).0;
            let id = product_id_of(random, s.block_number);
            let p = t.product_list[id];
            &&& p.id == id
            &&& p.object == ObjectType::Product
            &&& p.active == f.active
            &&& p.product_name == f.name
            &&& p.description == f.description
            &&& p.package_dimensions == f.package_dimensions
            &&& p.livemode == f.livemode
            &&& p.ipfs_cid == f.ipfs_cid
            &&& p.shippable == f.shippable
            &&& p.unit_label == f.unit_label
            &&& p.url == f.product_url
            &&& p.created_at == (s.now_secs / 60) * 60
            &&& p.updated_at == p.created_at
        }),
{
}

} // verus!
