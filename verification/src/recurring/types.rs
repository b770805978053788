//! Plans, subscriptions, payment frequencies and collection portions.
use vstd::prelude::*;
use crate::origin::{AccountId, BlockNumber};
use crate::bytemap::copy_bytes;
use sp_arithmetic::Percent;

verus! {

/// Index of a payment plan.
pub type PaymentIndex = u32;
/// Index of a subscription.
pub type SubscriptionIndex = u32;
/// Amount of currency.
pub type Balance = u128;
/// Milliseconds of time.
pub type Moment = u64;

/// Target block time in milliseconds.
pub const MILLISECS_PER_BLOCK: Moment = 6000;

/// How often a subscriber is charged.
#[derive(Clone, Copy, Debug, PartialEq, Eq, Structural)]
pub enum Frequency {
    Never,
    Daily,
    Monthly,
    Weekly,
    Forthnightly,
    Yearly,
}

/// Blocks per period of each frequency, at six seconds per block
/// (ten blocks a minute, 600 an hour, 14_400 a day, a week of seven days,
/// a month of four weeks, a year of twelve months; a fortnight is half a week).
pub open spec fn spec_frequency(f: Frequency) -> BlockNumber {
    match f {
        Frequency::Daily => 14_400,
        Frequency::Monthly => 403_200,
        Frequency::Weekly => 100_800,
        Frequency::Forthnightly => 50_400,
        Frequency::Yearly => 4_838_400,
        Frequency::Never => 0,
    }
}

impl Frequency {
    /// The number of blocks between two payments of this frequency.
    pub fn frequency(&self) -> (r: BlockNumber)
        ensures
            r == spec_frequency(*self),
    {
        let secs: Moment = MILLISECS_PER_BLOCK / 1000;
        assert(secs == 6);
        let secs_in_blocks: BlockNumber = secs as BlockNumber;
        assert(secs_in_blocks == 6);
        let min: BlockNumber = 60 / secs_in_blocks;
        assert(min == 10) by (nonlinear_arith) requires secs_in_blocks == 6, min == 60u32 / secs_in_blocks;
        let hour: BlockNumber = min * 60;
        let days: BlockNumber = hour * 24;
        let week: BlockNumber = days * 7;
        let month: BlockNumber = week * 4;
        let year: BlockNumber = month * 12;
        match self {
            Frequency::Daily => days,
            Frequency::Monthly => month,
            Frequency::Weekly => week,
            Frequency::Forthnightly => week / 2,
            Frequency::Yearly => year,
            Frequency::Never => 0,
        }
    }
}

/// The frequency a missing storage entry reads as.
pub fn default_frequency() -> (r: Frequency)
    ensures
        r == Frequency::Never,
{
    Frequency::Never
}

/// A merchant's payment plan, into whose fund subscribers pay.
#[derive(Debug)]
pub struct PaymentPlan {
    /// The account that receives the collected payments.
    pub merchant: AccountId,
    /// Plan name (also the name of its scheduled tasks).
    pub name: Vec<u8>,
    pub payment_id: PaymentIndex,
    /// The minimum deposit required to subscribe.
    pub required_payment: Balance,
    /// Total deposits paid into the plan.
    pub total_deposits: Balance,
    pub frequency: Frequency,
    pub num_subscribers: u32,
    /// The account allowed to freeze the plan.
    pub freezer: Option<AccountId>,
    /// Whether payments into the plan are blocked.
    pub is_frozen: bool,
    pub schedule_periodic_collection: Option<Frequency>,
}

/// Mathematical value of a [`PaymentPlan`].
pub struct PlanView {
    pub merchant: AccountId,
    pub name: Seq<u8>,
    pub payment_id: PaymentIndex,
    pub required_payment: Balance,
    pub total_deposits: Balance,
    pub frequency: Frequency,
    pub num_subscribers: u32,
    pub freezer: Option<AccountId>,
    pub is_frozen: bool,
    pub schedule_periodic_collection: Option<Frequency>,
}

impl View for PaymentPlan {
    type V = PlanView;

    open spec fn view(&self) -> PlanView {
        PlanView {
            merchant: self.merchant,
            name: self.name@,
            payment_id: self.payment_id,
            required_payment: self.required_payment,
            total_deposits: self.total_deposits,
            frequency: self.frequency,
            num_subscribers: self.num_subscribers,
            freezer: self.freezer,
            is_frozen: self.is_frozen,
            schedule_periodic_collection: self.schedule_periodic_collection,
        }
    }
}

/// The plan a missing storage entry reads as: every field zero, empty or `None`.
pub open spec fn default_plan() -> PlanView {
    PlanView {
        merchant: 0,
        name: Seq::empty(),
        payment_id: 0,
        required_payment: 0,
        total_deposits: 0,
        frequency: Frequency::Never,
        num_subscribers: 0,
        freezer: None,
        is_frozen: false,
        schedule_periodic_collection: None,
    }
}

impl PaymentPlan {
    /// A copy of this plan.
    pub fn duplicate(&self) -> (r: PaymentPlan)
        ensures
            r@ == self@,
    {
        PaymentPlan {
            merchant: self.merchant,
            name: copy_bytes(&self.name),
            payment_id: self.payment_id,
            required_payment: self.required_payment,
            total_deposits: self.total_deposits,
            frequency: self.frequency,
            num_subscribers: self.num_subscribers,
            freezer: self.freezer,
            is_frozen: self.is_frozen,
            schedule_periodic_collection: self.schedule_periodic_collection,
        }
    }

    /// The plan that a missing storage entry reads as.
    pub fn empty() -> (r: PaymentPlan)
        ensures
            r@ == default_plan(),
    {
        PaymentPlan {
            merchant: 0,
            name: Vec::new(),
            payment_id: 0,
            required_payment: 0,
            total_deposits: 0,
            frequency: Frequency::Never,
            num_subscribers: 0,
            freezer: None,
            is_frozen: false,
            schedule_periodic_collection: None,
        }
    }
}

/// A subscriber's record of their subscription.
#[derive(Debug)]
pub struct Subscription {
    pub id: SubscriptionIndex,
    /// The subscriber.
    pub owner: AccountId,
    /// Block at which the subscription started.
    pub start: BlockNumber,
    /// What this subscription costs the subscriber.
    pub required_payment: Balance,
    /// Block at which the next payment is due.
    pub next_payment: BlockNumber,
    pub frequency_of: Frequency,
    /// How many times the subscriber wants to keep paying.
    pub num_frequency: Option<u32>,
    /// The payment plans this subscription pays into.
    pub subscribed_to: Vec<u32>,
}

/// Mathematical value of a [`Subscription`].
pub struct SubscriptionView {
    pub id: SubscriptionIndex,
    pub owner: AccountId,
    pub start: BlockNumber,
    pub required_payment: Balance,
    pub next_payment: BlockNumber,
    pub frequency_of: Frequency,
    pub num_frequency: Option<u32>,
    pub subscribed_to: Seq<u32>,
}

impl View for Subscription {
    type V = SubscriptionView;

    open spec fn view(&self) -> SubscriptionView {
        SubscriptionView {
            id: self.id,
            owner: self.owner,
            start: self.start,
            required_payment: self.required_payment,
            next_payment: self.next_payment,
            frequency_of: self.frequency_of,
            num_frequency: self.num_frequency,
            subscribed_to: self.subscribed_to@,
        }
    }
}

/// The subscription a missing storage entry reads as.
pub open spec fn default_subscription() -> SubscriptionView {
    SubscriptionView {
        id: 0,
        owner: 0,
        start: 0,
        required_payment: 0,
        next_payment: 0,
        frequency_of: Frequency::Never,
        num_frequency: None,
        subscribed_to: Seq::empty(),
    }
}

/// Copies a list of plan indices.
pub fn copy_indices(v: &Vec<u32>) -> (r: Vec<u32>)
    ensures
        r@ == v@,
{
    let mut r: Vec<u32> = Vec::new();
    let mut i: usize = 0;
    while i < v.len()
        invariant
            i <= v.len(),
            r@ == v@.subrange(0, i as int),
        decreases v.len() - i,
    {
        r.push(v[i]);
        i = i + 1;
    }
    r
}

impl Subscription {
    /// A copy of this subscription.
    pub fn duplicate(&self) -> (r: Subscription)
        ensures
            r@ == self@,
    {
        Subscription {
            id: self.id,
            owner: self.owner,
            start: self.start,
            required_payment: self.required_payment,
            next_payment: self.next_payment,
            frequency_of: self.frequency_of,
            num_frequency: self.num_frequency,
            subscribed_to: copy_indices(&self.subscribed_to),
        }
    }

    /// The subscription that a missing storage entry reads as.
    pub fn empty() -> (r: Subscription)
        ensures
            r@ == default_subscription(),
    {
        Subscription {
            id: 0,
            owner: 0,
            start: 0,
            required_payment: 0,
            next_payment: 0,
            frequency_of: Frequency::Never,
            num_frequency: None,
            subscribed_to: Vec::new(),
        }
    }
}

/// A portion of a plan's deposits that a merchant may collect.
#[derive(Clone, Copy, Debug, PartialEq, Eq, Structural)]
pub enum Portion {
    AQuarter,
    Half,
    ThreeQuarters,
    Full,
}

/// The whole percentage of each portion.
pub open spec fn spec_portion(p: Portion) -> u8 {
    match p {
        Portion::AQuarter => 25,
        Portion::Half => 50,
        Portion::ThreeQuarters => 75,
        Portion::Full => 100,
    }
}

/// `Percent::from_percent(x)` of sp-arithmetic, given back as its parts per hundred:
/// the percent is `x` capped at 100.
#[verifier::external_body]
fn percent_from_percent(x: u8) -> (r: u8)
    ensures
        r == if x > 100 { 100 } else { x },
{
    Percent::from_percent(x).deconstruct()
}

impl Portion {
    /// The portion as parts per hundred (a `Percent`).
    pub fn portion(&self) -> (r: u8)
        ensures
            r == spec_portion(*self),
    {
        match self {
            Portion::AQuarter => percent_from_percent(25),
            Portion::Half => percent_from_percent(50),
            Portion::ThreeQuarters => percent_from_percent(75),
            Portion::Full => percent_from_percent(100),
        }
    }
}

} // verus!
