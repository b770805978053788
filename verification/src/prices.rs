//! The merchant prices pallet: unit costs, currencies and billing cycles of
//! products, recorded per merchant.
use vstd::prelude::*;
use std::collections::HashMap;
use crate::bytemap::{lemma_map_values_insert, ByteMap};
use crate::origin::{signer_of, AccountId, BlockNumber, Origin};
use crate::products::{
    get_id, product_id_of, spec_get_time, spec_verify_product_owner, Error as ProductError, Pallet as Products, ProductId, ObjectType, ProductsState,
};

verus! {

broadcast use vstd::std_specs::hash::group_hash_axioms;

/// Identifier of a price.
pub type PriceId = [u8; 16];

/// Amounts of a currency.
pub type Balance = u128;

/// Identifier of a currency.
pub type CurrencyId = u32;

/// A billing interval, measured in blocks.
#[derive(Clone, Copy, Debug, PartialEq, Eq, Structural)]
pub enum Interval {
    Month,
    Year,
    Week,
    Day,
}

/// How usage is counted.
#[derive(Clone, Copy, Debug, PartialEq, Eq, Structural)]
pub enum UsageTypes {
    Metered { total_sum_of_usage: Option<Balance>, last_during_period: Option<Balance>, last_ever: Option<Balance> },
    Licensed,
}

/// Tiered pricing.
#[derive(Clone, Copy, Debug, PartialEq, Eq, Structural)]
pub enum TiersMode {
    Graduated { next_first_unit: u32, next_last_unit: u32, per_unit: Balance, flat_fee: Balance },
    Volume { total_first_unit: u32, total_last_unit: u32, per_unit: Balance, flat_fee: Balance },
}

/// How the price per period is computed.
#[allow(non_camel_case_types)]
#[derive(Clone, Copy, Debug, PartialEq, Eq, Structural)]
pub enum BillingScheme {
    /// A fixed amount per unit.
    Per_unit,
    Tiered,
}

/// A one-time or a recurring purchase.
#[derive(Clone, Copy, Debug, PartialEq, Eq, Structural)]
pub enum Type {
    OneTime(Balance),
    Recurring {
        aggregated_usage: UsageTypes,
        interval: Interval,
        interval_as_blocknumber: BlockNumber,
        interval_count: u32,
        usage_type: UsageTypes,
    },
}

/// Who created a record, at which block and time.
#[derive(Clone, Copy, Debug, PartialEq, Eq, Structural)]
pub struct CreatedBy {
    pub account_id: AccountId,
    pub blocknumber: BlockNumber,
    pub time: u64,
}

/// A price.
#[derive(Debug)]
pub struct Price {
    pub id: PriceId,
    pub object: ObjectType,
    pub active: bool,
    pub created_by: CreatedBy,
    pub billing_scheme: BillingScheme,
    pub created_at: u64,
    pub currency: CurrencyId,
    pub livemode: bool,
    pub description: Vec<u8>,
    pub product: ProductId,
    pub tiers_mode: Option<TiersMode>,
    pub purchase_type: Type,
    pub unit_amount: Balance,
    pub unit_amount_decimal: Option<Balance>,
}

/// Mathematical value of a [`Price`].
pub struct PriceView {
    pub id: Seq<u8>,
    pub object: ObjectType,
    pub active: bool,
    pub created_by: CreatedBy,
    pub billing_scheme: BillingScheme,
    pub created_at: u64,
    pub currency: CurrencyId,
    pub livemode: bool,
    pub description: Seq<u8>,
    pub product: Seq<u8>,
    pub tiers_mode: Option<TiersMode>,
    pub purchase_type: Type,
    pub unit_amount: Balance,
    pub unit_amount_decimal: Option<Balance>,
}

impl View for Price {
    type V = PriceView;

    open spec fn view(&self) -> PriceView {
        PriceView {
            id: self.id@,
            object: self.object,
            active: self.active,
            created_by: self.created_by,
            billing_scheme: self.billing_scheme,
            created_at: self.created_at,
            currency: self.currency,
            livemode: self.livemode,
            description: self.description@,
            product: self.product@,
            tiers_mode: self.tiers_mode,
            purchase_type: self.purchase_type,
            unit_amount: self.unit_amount,
            unit_amount_decimal: self.unit_amount_decimal,
        }
    }
}

/// Why a call of the prices pallet failed.
#[derive(Clone, Copy, Debug, PartialEq, Eq, Structural)]
pub enum Error {
    NoneValue,
    StorageOverflow,
    /// A text is longer than the string limit.
    BadMetadata,
    /// The call came from neither root nor a signed account.
    BadOrigin,
    /// The product check failed: the sender does not own the product.
    Product(ProductError),
}

/// Events of the prices pallet.
#[derive(Clone, Copy, Debug)]
pub enum Event {
    PriceCreated {
        price_id: PriceId,
        object: ObjectType,
        active: bool,
        created_by: AccountId,
        billing_scheme: BillingScheme,
        created_at: u64,
        livemode: bool,
        product_id: ProductId,
        tiers_mode: Option<TiersMode>,
        currency: CurrencyId,
        purchase_type: Type,
        unit_amount: Balance,
        unit_amount_decimal: Option<Balance>,
    },
    PriceDeleted,
    PriceUpdated,
}

/// The blocks in each billing interval, as the runtime configures them.
#[derive(Clone, Copy, Debug, PartialEq, Eq, Structural)]
pub struct Config {
    pub string_limit: u32,
    pub month: BlockNumber,
    pub year: BlockNumber,
    pub week: BlockNumber,
    pub day: BlockNumber,
}

/// The prices pallet's storage beside the products pallet it checks against.
pub struct Pallet {
    pub config: Config,
    pub products: Products,
    /// The product each price is for.
    pub priced_for: ByteMap<ProductId>,
    /// The last price each merchant created.
    pub organisation_price: HashMap<AccountId, Option<PriceId>>,
    pub price_list: ByteMap<Price>,
    /// The merchant of each price.
    pub price_id_owner: ByteMap<Option<AccountId>>,
    pub events: Vec<Event>,
}

/// Mathematical value of the prices [`Pallet`].
pub struct PricesState {
    pub config: Config,
    pub products: ProductsState,
    pub priced_for: Map<Seq<u8>, ProductId>,
    pub organisation_price: Map<AccountId, Option<PriceId>>,
    pub price_list: Map<Seq<u8>, PriceView>,
    pub price_id_owner: Map<Seq<u8>, Option<AccountId>>,
    pub events: Seq<Event>,
}

impl View for Pallet {
    type V = PricesState;

    open spec fn view(&self) -> PricesState {
        PricesState {
            config: self.config,
            products: self.products@,
            priced_for: self.priced_for.view(),
            organisation_price: self.organisation_price@,
            price_list: self.price_list.view().map_values(|p: Price| p@),
            price_id_owner: self.price_id_owner.view(),
            events: self.events@,
        }
    }
}

/// The blocks in `interval`.
pub open spec fn interval_blocks(c: Config, interval: Interval) -> BlockNumber {
    match interval {
        Interval::Month => c.month,
        Interval::Week => c.week,
        Interval::Day => c.day,
        Interval::Year => c.year,
    }
}

/// What the origin check of root-or-signed calls yields: the origin itself for
/// root or a signed account, `BadOrigin` otherwise.
pub open spec fn spec_ensure_root_or_signed(o: Origin) -> Result<Origin, Error> {
    match o {
        Origin::Root => Ok(Origin::Root),
        Origin::Signed(a) => Ok(Origin::Signed(a)),
        Origin::Unsigned => Err(Error::BadOrigin),
    }
}

/// Bounding a text by the string limit: `BadMetadata` when it is longer.
pub open spec fn spec_convert_string(c: Config, s: Seq<u8>) -> Result<Seq<u8>, Error> {
    if s.len() <= c.string_limit { Ok(s) } else { Err(Error::BadMetadata) }
}

/// The fields of a price that the merchant chooses.
pub struct PriceTerms {
    pub currency: CurrencyId,
    pub active: bool,
    pub livemode: bool,
    pub product: ProductId,
    pub description: Vec<u8>,
    pub tiers_mode: Option<TiersMode>,
    pub purchase_type: Type,
    pub unit_amount: Balance,
    pub unit_amount_decimal: Option<Balance>,
}

/// Mathematical value of [`PriceTerms`].
pub struct TermsView {
    pub currency: CurrencyId,
    pub active: bool,
    pub livemode: bool,
    pub product: ProductId,
    pub description: Seq<u8>,
    pub tiers_mode: Option<TiersMode>,
    pub purchase_type: Type,
    pub unit_amount: Balance,
    pub unit_amount_decimal: Option<Balance>,
}

impl View for PriceTerms {
    type V = TermsView;

    open spec fn view(&self) -> TermsView {
        TermsView {
            currency: self.currency,
            active: self.active,
            livemode: self.livemode,
            product: self.product,
            description: self.description@,
            tiers_mode: self.tiers_mode,
            purchase_type: self.purchase_type,
            unit_amount: self.unit_amount,
            unit_amount_decimal: self.unit_amount_decimal,
        }
    }
}

/// The price a merchant creates with id `id`, when its description fits: a
/// product's price billed per unit, created by `who` at the current block and time.
pub open spec fn spec_new_price(s: PricesState, id: Seq<u8>, who: AccountId, t: TermsView) -> Result<PriceView, Error> {
    match spec_convert_string(s.config, t.description) {
        Err(e) => Err(e),
        Ok(description) => Ok(PriceView {
            id,
            object: ObjectType::Product,
            active: t.active,
            created_by: CreatedBy { account_id: who, blocknumber: s.products.block_number, time: spec_get_time(s.products) },
            billing_scheme: BillingScheme::Per_unit,
            created_at: spec_get_time(s.products),
            currency: t.currency,
            livemode: t.livemode,
            description,
            product: t.product@,
            tiers_mode: t.tiers_mode,
            purchase_type: t.purchase_type,
            unit_amount: t.unit_amount,
            unit_amount_decimal: t.unit_amount_decimal,
        }),
    }
}

/// Creating a price: refused unless signed, and refused with the products
/// pallet's error unless the sender owns the product; the price gets the id
/// derived from `random` and the current block, and is recorded for its product
/// and merchant.
pub open spec fn spec_create_price(s: PricesState, origin: Origin, t: TermsView, random: Seq<u8>) -> (PricesState, Result<(), Error>) {
    match signer_of(origin) {
        None => (s, Err(Error::BadOrigin)),
        Some(sender) => if spec_verify_product_owner(s.products, sender, t.product@) is Err {
            (s, Err(Error::Product(spec_verify_product_owner(s.products, sender, t.product@)->Err_0)))
        } else {
            let id = product_id_of(random, s.products.block_number);
            match spec_new_price(s, id, sender, t) {
                Err(e) => (s, Err(e)),
                Ok(p) => {
                    let s1 = PricesState {
                        organisation_price: s.organisation_price.insert(sender, Some(id_array(id))),
                        price_list: s.price_list.insert(id, p),
                        priced_for: s.priced_for.insert(id, t.product),
                        price_id_owner: s.price_id_owner.insert(id, Some(sender)),
                        ..s
                    };
                    (PricesState { events: s1.events.push(Event::PriceCreated {
                        price_id: id_array(id),
                        object: p.object,
                        active: t.active,
                        created_by: sender,
                        billing_scheme: p.billing_scheme,
                        created_at: p.created_at,
                        livemode: t.livemode,
                        product_id: t.product,
                        tiers_mode: t.tiers_mode,
                        currency: t.currency,
                        purchase_type: t.purchase_type,
                        unit_amount: t.unit_amount,
                        unit_amount_decimal: t.unit_amount_decimal,
                    }), ..s1 }, Ok(()))
                },
            }
        },
    }
}

/// The 16-byte id whose bytes are `id`.
pub open spec fn id_array(id: Seq<u8>) -> PriceId {
    choose|a: PriceId| a@ == id
}

/// An id is the array of its bytes.
pub proof fn lemma_id_array(a: PriceId)
    ensures
        id_array(a@) == a,
{
    let b = id_array(a@);
    assert(exists|c: PriceId| c@ == a@);
    assert(b@ == a@);
    assert(b =~= a) by {
        assert forall|i: int| 0 <= i < 16 implies b[i] == a[i] by {
            assert(b@[i] == a@[i]);
        }
    }
}

impl CreatedBy {
    /// A record that `acc` created something at the pallet's current block and time.
    pub fn new(pallet: &Pallet, acc: AccountId) -> (r: CreatedBy)
        ensures
            r == (CreatedBy { account_id: acc, blocknumber: pallet@.products.block_number, time: spec_get_time(pallet@.products) }),
    {
        CreatedBy { account_id: acc, blocknumber: pallet.products.block_number, time: pallet.products.get_time() }
    }
}

impl Price {
    /// A price with id `id` for `terms`, created by `created_by`; `BadMetadata`
    /// when the description is over the string limit.
    pub fn new(pallet: &Pallet, id: PriceId, created_by: AccountId, terms: PriceTerms) -> (r: Result<Price, Error>)
        ensures
            match r {
                Ok(p) => spec_new_price(pallet@, id@, created_by, terms@) == Ok::<PriceView, Error>(p@),
                Err(e) => spec_new_price(pallet@, id@, created_by, terms@) == Err::<PriceView, Error>(e),
            },
    {
        let description = match pallet.convert_string(terms.description) {
            Ok(d) => d,
            Err(e) => return Err(e),
        };
        Ok(Price {
            id,
            object: ObjectType::Product,
            active: terms.active,
            created_by: CreatedBy::new(pallet, created_by),
            billing_scheme: BillingScheme::Per_unit,
            created_at: pallet.products.get_time(),
            currency: terms.currency,
            livemode: terms.livemode,
            description,
            product: terms.product,
            tiers_mode: terms.tiers_mode,
            purchase_type: terms.purchase_type,
            unit_amount: terms.unit_amount,
            unit_amount_decimal: terms.unit_amount_decimal,
        })
    }
}

impl Pallet {
    /// A prices pallet with empty storage, beside the given products pallet.
    pub fn new(config: Config, products: Products) -> (r: Pallet)
        ensures
            r@.config == config,
            r@.products == products@,
            r@.priced_for == Map::<Seq<u8>, ProductId>::empty(),
            r@.organisation_price == Map::<AccountId, Option<PriceId>>::empty(),
            r@.price_list == Map::<Seq<u8>, PriceView>::empty(),
            r@.price_id_owner == Map::<Seq<u8>, Option<AccountId>>::empty(),
            r@.events == Seq::<Event>::empty(),
    {
        let r = Pallet {
            config,
            products,
            priced_for: ByteMap::new(),
            organisation_price: HashMap::new(),
            price_list: ByteMap::new(),
            price_id_owner: ByteMap::new(),
            events: Vec::new(),
        };
        assert(r@.price_list =~= Map::<Seq<u8>, PriceView>::empty());
        r
    }

    /// Root or a signed account, given back; `BadOrigin` for anything else.
    pub fn ensure_root_or_signed(origin: Origin) -> (r: Result<Origin, Error>)
        ensures
            r == spec_ensure_root_or_signed(origin),
    {
        match origin {
            Origin::Root => Ok(Origin::Root),
            Origin::Signed(acc) => Ok(Origin::Signed(acc)),
            Origin::Unsigned => Err(Error::BadOrigin),
        }
    }

    /// The blocks in `interval`.
    pub fn convert(&self, interval: Interval) -> (r: BlockNumber)
        ensures
            r == interval_blocks(self@.config, interval),
    {
        match interval {
            Interval::Month => self.config.month,
            Interval::Week => self.config.week,
            Interval::Day => self.config.day,
            Interval::Year => self.config.year,
        }
    }

    /// `string` bounded by the string limit.
    pub fn convert_string(&self, string: Vec<u8>) -> (r: Result<Vec<u8>, Error>)
        ensures
            match r {
                Ok(v) => spec_convert_string(self@.config, string@) == Ok::<Seq<u8>, Error>(v@),
                Err(e) => spec_convert_string(self@.config, string@) == Err::<Seq<u8>, Error>(e),
            },
    {
        if string.len() <= self.config.string_limit as usize { Ok(string) } else { Err(Error::BadMetadata) }
    }

    /// The time as the pallet records it: whole minutes, in seconds.
    pub fn get_time(&self) -> (r: u64)
        ensures
            r == spec_get_time(self@.products),
    {
        self.products.get_time()
    }

    /// Creates a price for a merchant's product; its id derives from `random`,
    /// the runtime's random value for price ids.
    pub fn create_price(&mut self, origin: Origin, terms: PriceTerms, random: &[u8; 32]) -> (r: Result<(), Error>)
        ensures
            (final(self)@, r) == spec_create_price(old(self)@, origin, terms@, random@),
    {
        let sender = match crate::origin::ensure_signed(origin) {
            Some(a) => a,
            None => return Err(Error::BadOrigin),
        };
        if let Err(e) = self.products.verify_product_owner(sender, &terms.product) {
            return Err(Error::Product(e));
        }
        let price_id = get_id(random, self.products.block_number);
        let ghost id = price_id@;
        let ghost t = terms@;
        proof { lemma_id_array(price_id); }
        let active = terms.active;
        let livemode = terms.livemode;
        let product = terms.product;
        let tiers_mode = terms.tiers_mode;
        let currency = terms.currency;
        let purchase_type = terms.purchase_type;
        let unit_amount = terms.unit_amount;
        let unit_amount_decimal = terms.unit_amount_decimal;
        let new_price = match Price::new(self, price_id, sender, terms) {
            Ok(p) => p,
            Err(e) => return Err(e),
        };
        let object = new_price.object;
        let billing_scheme = new_price.billing_scheme;
        let created_at = new_price.created_at;
        self.organisation_price.insert(sender, Some(price_id));
        proof { lemma_map_values_insert(self.price_list.view(), id, new_price, |p: Price| p@); }
        self.price_list.insert(vstd::slice::slice_to_vec(price_id.as_slice()), new_price);
        self.priced_for.insert(vstd::slice::slice_to_vec(price_id.as_slice()), product);
        self.price_id_owner.insert(vstd::slice::slice_to_vec(price_id.as_slice()), Some(sender));
        self.events.push(Event::PriceCreated {
            price_id,
            object,
            active,
            created_by: sender,
            billing_scheme,
            created_at,
            livemode,
            product_id: product,
            tiers_mode,
            currency,
            purchase_type,
            unit_amount,
            unit_amount_decimal,
        });
        Ok(())
    }
}

/// A created price keeps the terms it was given: on success the price stored under
/// its new id is for the given product, with the given amount, currency, flags,
/// description, tiers and purchase type, created by the sender; the price is
/// recorded as set for that product and owned by the sender.
pub proof fn law_created_price_keeps_its_terms(s: PricesState, who: AccountId, t: TermsView, random: Seq<u8>)
    requires
        spec_create_price(s, Origin::Signed(who), t, random).1 is Ok,
    ensures
        ({
            let u = spec_create_price(s, Origin::Signed(who), t, random).0;
            let id = product_id_of(random, s.products.block_number);
            let p = u.price_list[id];
            &&& u.price_list.contains_key(id)
            &&& p.id == id
            &&& p.product == t.product@
            &&& p.unit_amount == t.unit_amount
            &&& p.unit_amount_decimal == t.unit_amount_decimal
            &&& p.currency == t.currency
            &&& p.active == t.active
            &&& p.livemode == t.livemode
            &&& p.description == t.description
            &&& p.tiers_mode == t.tiers_mode
            &&& p.purchase_type == t.purchase_type
            &&& p.created_by.account_id == who
            &&& u.priced_for[id] == t.product
            &&& u.price_id_owner[id] == Some(who)
            &&& spec_verify_product_owner(s.products, who, t.product@) is Ok
        }),
{
}

} // verus!
