//! The dispatchable calls of the recurring-payments pallet and the internal
//! steps they are made of. Each step's contract gives the resulting state and
//! dispatch result as a function of the state before the call.
use vstd::prelude::*;
use crate::origin::{signer_of, spec_root_or_signed, root_or_signed, AccountId, BlockNumber, Origin};
use super::types::{
    spec_frequency, Balance, Frequency, PaymentIndex, PaymentPlan, PlanView, Subscription,
    SubscriptionView,
};
use super::state::{
    contribution_of, plan_of, record_contribution, spec_cancel_named, spec_credit_account,
    spec_credit_fund, spec_pay_into_fund, spec_pay_out_of_fund, spec_schedule_named,
    spec_withdraw_account, spec_withdraw_fund, state_or, subscription_of, Contribution, Error,
    Event, Pallet, PalletState, ScheduledCall,
};

verus! {

/// The state after depositing `e`.
pub open spec fn with_event(s: PalletState, e: Event) -> PalletState {
    PalletState { events: s.events.push(e), ..s }
}

/// The state after handing out the next payment plan index.
pub open spec fn with_next_payment_id(s: PalletState) -> PalletState {
    PalletState { payment_id: (s.payment_id + 1) as u32, ..s }
}

// ---------------------------------------------------------------------------
// Creating plans.

/// A new plan of a merchant: nothing deposited, no subscribers, not frozen.
pub open spec fn new_plan(
    merchant: AccountId,
    name: Seq<u8>,
    payment_id: PaymentIndex,
    required_payment: Balance,
    frequency: Frequency,
    freezer: Option<AccountId>,
    schedule_periodic_collection: Option<Frequency>,
) -> PlanView {
    PlanView {
        merchant,
        name,
        payment_id,
        required_payment,
        total_deposits: 0,
        frequency,
        num_subscribers: 0,
        freezer,
        is_frozen: false,
        schedule_periodic_collection,
    }
}

/// Creating a plan under `payment_id`: refused when a plan is stored there or the
/// name is longer than the string limit; otherwise the plan is stored, then
/// `deposit` is withdrawn from the merchant (failing when they cannot pay it) and
/// credited to the plan's fund, a collection is put on the agenda for the current
/// block (the scheduler's answer is ignored), and `event` is deposited.
pub open spec fn spec_do_create(
    s: PalletState,
    payment_id: PaymentIndex,
    name: Seq<u8>,
    required_payment: Balance,
    frequency: Frequency,
    merchant: AccountId,
    freezer: Option<AccountId>,
    schedule_periodic_collection: Option<Frequency>,
    deposit: Balance,
    event: Event,
) -> (PalletState, Result<(), Error>) {
    if s.plans.contains_key(payment_id) {
        (s, Err(Error::PaymentPlanAlreadyExist))
    } else if name.len() > s.config.string_limit {
        (s, Err(Error::BadMetadata))
    } else {
        let plan = new_plan(merchant, name, payment_id, required_payment, frequency, freezer, schedule_periodic_collection);
        let s1 = PalletState { plans: s.plans.insert(payment_id, plan), ..s };
        match spec_withdraw_account(s1, merchant, deposit) {
            Err(e) => (s1, Err(e)),
            Ok(s2) => {
                let s3 = spec_credit_fund(s2, payment_id, deposit);
                let call = ScheduledCall::CollectPayments { payment_id, schedule_periodic_collection };
                let s4 = state_or(spec_schedule_named(s3, name, s3.block_number, 63, call), s3);
                (with_event(s4, event), Ok(()))
            },
        }
    }
}

/// `create_payment_system`: a signed merchant creates a plan under the next index.
pub open spec fn spec_create_payment_system(
    s: PalletState,
    origin: Origin,
    required_payment: Balance,
    user_frequency: Frequency,
    name: Seq<u8>,
    freezer: Option<AccountId>,
    schedule_periodic_collection: Option<Frequency>,
) -> (PalletState, Result<(), Error>) {
    match signer_of(origin) {
        None => (s, Err(Error::BadOrigin)),
        Some(merchant) => if s.payment_id == u32::MAX {
            (s, Err(Error::Overflow))
        } else {
            let id = s.payment_id;
            spec_do_create(
                with_next_payment_id(s),
                id,
                name,
                required_payment,
                user_frequency,
                merchant,
                freezer,
                schedule_periodic_collection,
                s.config.submission_deposit,
                Event::PaymentPlanCreated { merchant, id, now: s.block_number },
            )
        },
    }
}

/// `force_create_new`: the root origin creates a plan owned by `owner` under the
/// next index, with no assets in it: its required payment is zero and no deposit
/// is taken (the plan starts unfrozen whatever `set_frozen` says).
pub open spec fn spec_force_create_new(
    s: PalletState,
    origin: Origin,
    owner: AccountId,
    name: Seq<u8>,
    frequency: Frequency,
    required_payment: Balance,
    freezer: Option<AccountId>,
    schedule_periodic_collection: Option<Frequency>,
) -> (PalletState, Result<(), Error>) {
    if origin != Origin::Root {
        (s, Err(Error::BadOrigin))
    } else if s.payment_id == u32::MAX {
        (s, Err(Error::Overflow))
    } else {
        let id = s.payment_id;
        spec_do_create(
            with_next_payment_id(s),
            id,
            name,
            0,
            frequency,
            owner,
            freezer,
            schedule_periodic_collection,
            0,
            Event::PaymentPlanCreated { merchant: owner, id, now: s.block_number },
        )
    }
}

impl Pallet {
    fn do_create(
        &mut self,
        payment_id: PaymentIndex,
        name: Vec<u8>,
        required_payment: Balance,
        frequency: Frequency,
        merchant: AccountId,
        freezer: Option<AccountId>,
        schedule_periodic_collection: Option<Frequency>,
        deposit: Balance,
        event: Event,
    ) -> (r: Result<(), Error>)
        ensures
            (final(self)@, r) == spec_do_create(old(self)@, payment_id, name@, required_payment, frequency,
                merchant, freezer, schedule_periodic_collection, deposit, event),
    {
        if self.plan_exists(payment_id) {
            return Err(Error::PaymentPlanAlreadyExist);
        }
        if name.len() > self.config.string_limit as usize {
            return Err(Error::BadMetadata);
        }
        let name_copy = crate::bytemap::copy_bytes(&name);
        let plan = PaymentPlan {
            merchant,
            name,
            payment_id,
            required_payment,
            total_deposits: 0,
            frequency,
            num_subscribers: 0,
            freezer,
            is_frozen: false,
            schedule_periodic_collection,
        };
        self.put_plan(payment_id, plan);
        let w = self.withdraw_account(merchant, deposit);
        if w.is_err() {
            return w;
        }
        self.credit_fund(payment_id, deposit);
        let now = self.block_number;
        let call = ScheduledCall::CollectPayments { payment_id, schedule_periodic_collection };
        let _ = self.schedule_named(&name_copy, now, 63, call);
        self.deposit_event(event);
        Ok(())
    }

    /// A signed merchant creates a payment plan; its index is the next plan index.
    pub fn create_payment_system(
        &mut self,
        origin: Origin,
        required_payment: Balance,
        user_frequency: Frequency,
        name: Vec<u8>,
        freezer: Option<AccountId>,
        schedule_periodic_collection: Option<Frequency>,
    ) -> (r: Result<(), Error>)
        ensures
            (final(self)@, r) == spec_create_payment_system(old(self)@, origin, required_payment,
                user_frequency, name@, freezer, schedule_periodic_collection),
    {
        let merchant = match crate::origin::ensure_signed(origin) {
            Some(a) => a,
            None => return Err(Error::BadOrigin),
        };
        let payment_id = match self.next_payment_id() {
            Ok(i) => i,
            Err(e) => return Err(e),
        };
        let now = self.block_number;
        let deposit = self.config.submission_deposit;
        self.do_create(
            payment_id,
            name,
            required_payment,
            user_frequency,
            merchant,
            freezer,
            schedule_periodic_collection,
            deposit,
            Event::PaymentPlanCreated { merchant, id: payment_id, now },
        )
    }

    /// The root origin creates a payment plan owned by `owner`.
    pub fn force_create_new(
        &mut self,
        origin: Origin,
        owner: AccountId,
        name: Vec<u8>,
        frequency: Frequency,
        required_payment: Balance,
        freezer: Option<AccountId>,
        set_frozen: bool,
        schedule_periodic_collection: Option<Frequency>,
    ) -> (r: Result<(), Error>)
        ensures
            (final(self)@, r) == spec_force_create_new(old(self)@, origin, owner, name@, frequency,
                required_payment, freezer, schedule_periodic_collection),
    {
        if !crate::origin::ensure_root(origin) {
            return Err(Error::BadOrigin);
        }
        let payment_id = match self.next_payment_id() {
            Ok(i) => i,
            Err(e) => return Err(e),
        };
        let now = self.block_number;
        self.do_create(
            payment_id,
            name,
            0,
            frequency,
            owner,
            freezer,
            schedule_periodic_collection,
            0,
            Event::PaymentPlanCreated { merchant: owner, id: payment_id, now },
        )
    }
}


// ---------------------------------------------------------------------------
// Subscribing.

/// The block a payment falls due: `start` plus the frequency's period
/// (saturating), or the current block plus the period when that lands on the
/// current block.
pub open spec fn spec_next_duedate(start: BlockNumber, now: BlockNumber, frequency: Frequency) -> BlockNumber {
    let due = start.saturating_add(spec_frequency(frequency));
    if due == now { now.saturating_add(spec_frequency(frequency)) } else { due }
}

/// Whether subscribing reaches the point where the plan's deposits are raised,
/// which the call cannot survive if the sum overflows.
pub open spec fn subscribe_reaches_deposit(s: PalletState, payment_id: PaymentIndex, min_payment: Balance, subscriber: AccountId) -> bool {
    &&& s.plans.contains_key(payment_id)
    &&& min_payment >= s.plans[payment_id].required_payment
    &&& !s.plans[payment_id].is_frozen
    &&& spec_pay_into_fund(s, subscriber, payment_id, min_payment) is Ok
}

/// Subscribing `subscriber` to plan `payment_id` with a payment of `min_payment`.
///
/// Refused when the plan does not exist, the payment is below the plan's required
/// payment, or the plan is frozen. Otherwise the payment moves from the subscriber
/// into the plan's fund (failing if the subscriber cannot pay); the call then fails
/// with `Overflow` if the plan's subscriber count is at its maximum; otherwise the
/// count grows by one. The subscriber's recorded contribution grows by the payment
/// (saturating), a subscription starting now and due one period later, for the
/// number of periods the subscriber asked for, is stored under the next
/// subscription index (failing on index overflow), the plan's total
/// deposits grow by the payment and its subscriber count by one, `event_payment_sent` is deposited, a forced payment
/// is put on the agenda for the due block (the scheduler's answer is ignored) and
/// `event_sub_created` is deposited.
pub open spec fn spec_do_subscribed(
    s: PalletState,
    payment_id: PaymentIndex,
    min_payment: Balance,
    num_frequency: Option<u32>,
    subscriber: AccountId,
    event_payment_sent: Event,
    event_sub_created: Event,
) -> (PalletState, Result<(), Error>) {
    if !s.plans.contains_key(payment_id) {
        (s, Err(Error::PaymentPlanDoesNotExist))
    } else {
        let plan = s.plans[payment_id];
        if min_payment < plan.required_payment {
            (s, Err(Error::InsufficientBalance))
        } else if plan.is_frozen {
            (s, Err(Error::Frozen))
        } else {
            match spec_pay_into_fund(s, subscriber, payment_id, min_payment) {
                Err(e) => (s, Err(e)),
                Ok(s1) => if plan.num_subscribers == u32::MAX {
                    (s1, Err(Error::Overflow))
                } else {
                    let paid = contribution_of(s1, payment_id, subscriber).saturating_add(min_payment);
                    let s2 = PalletState {
                        contributions: record_contribution(s1.contributions, payment_id, subscriber, paid),
                        ..s1
                    };
                    let now = s.block_number;
                    let due = spec_next_duedate(now, now, plan.frequency);
                    if s2.subscription_id == u32::MAX {
                        (s2, Err(Error::Overflow))
                    } else {
                        let sub = SubscriptionView {
                            id: s2.subscription_id,
                            owner: subscriber,
                            start: now,
                            required_payment: min_payment,
                            next_payment: due,
                            frequency_of: plan.frequency,
                            num_frequency,
                            subscribed_to: seq![payment_id],
                        };
                        let new_plan = PlanView {
                            total_deposits: (plan.total_deposits + min_payment) as Balance,
                            num_subscribers: (plan.num_subscribers + 1) as u32,
                            ..plan
                        };
                        let s3 = PalletState {
                            subscription_id: (s2.subscription_id + 1) as u32,
                            subscriptions: s2.subscriptions.insert(subscriber, sub),
                            plans: s2.plans.insert(payment_id, new_plan),
                            ..s2
                        };
                        let s4 = with_event(s3, event_payment_sent);
                        let call = ScheduledCall::ForcePayment { subscriber, payment_id, required_payment: min_payment };
                        let s5 = state_or(spec_schedule_named(s4, plan.name, due, 0, call), s4);
                        (with_event(s5, event_sub_created), Ok(()))
                    }
                },
            }
        }
    }
}

/// `subscribe_payment`: a signed subscriber subscribes to a plan.
pub open spec fn spec_subscribe_payment(
    s: PalletState,
    origin: Origin,
    payment_id: PaymentIndex,
    min_payment: Balance,
    num_frequency: Option<u32>,
) -> (PalletState, Result<(), Error>) {
    match signer_of(origin) {
        None => (s, Err(Error::BadOrigin)),
        Some(subscriber) => spec_do_subscribed(
            s,
            payment_id,
            min_payment,
            num_frequency,
            subscriber,
            Event::PaymentSent { from: subscriber, to_fund: payment_id, amount: min_payment, id: payment_id, now: s.block_number },
            Event::SubcriptionCreated { subscriber, id: payment_id, now: s.block_number },
        ),
    }
}

impl Pallet {
    /// The block at which a payment that started at `start` falls due.
    pub fn calculate_next_duedate(&self, start: BlockNumber, frequency: Frequency) -> (r: Result<BlockNumber, Error>)
        ensures
            r == Ok::<BlockNumber, Error>(spec_next_duedate(start, self@.block_number, frequency)),
    {
        let now = self.block_number;
        let freq = frequency.frequency();
        let mut due_date = start.saturating_add(freq);
        if due_date == now {
            due_date = now.saturating_add(freq);
        }
        Ok(due_date)
    }

    fn do_subscribed(
        &mut self,
        payment_id: PaymentIndex,
        min_payment: Balance,
        num_frequency: Option<u32>,
        subscriber: AccountId,
        event_payment_sent: Event,
        event_sub_created: Event,
    ) -> (r: Result<(), Error>)
        requires
            subscribe_reaches_deposit(old(self)@, payment_id, min_payment, subscriber)
                ==> old(self)@.plans[payment_id].total_deposits + min_payment <= u128::MAX,
        ensures
            (final(self)@, r) == spec_do_subscribed(old(self)@, payment_id, min_payment, num_frequency, subscriber,
                event_payment_sent, event_sub_created),
    {
        if !self.plan_exists(payment_id) {
            return Err(Error::PaymentPlanDoesNotExist);
        }
        let mut plan = self.info(payment_id);
        if min_payment < plan.required_payment {
            return Err(Error::InsufficientBalance);
        }
        if plan.is_frozen {
            return Err(Error::Frozen);
        }
        let t = self.pay_into_fund(subscriber, payment_id, min_payment);
        if t.is_err() {
            return t;
        }
        plan.total_deposits = plan.total_deposits + min_payment;
        plan.num_subscribers = match plan.num_subscribers.checked_add(1) {
            Some(n) => n,
            None => return Err(Error::Overflow),
        };
        let payment = self.get_payment_info(payment_id, subscriber);
        let payment = payment.saturating_add(min_payment);
        self.insert_payment(payment_id, subscriber, payment);
        let starting_block = self.block_number;
        let due_date = match self.calculate_next_duedate(starting_block, plan.frequency) {
            Ok(d) => d,
            Err(e) => return Err(e),
        };
        let mut sub_list: Vec<u32> = Vec::new();
        sub_list.push(payment_id);
        let subscriber_id = match self.next_subscriber_id() {
            Ok(i) => i,
            Err(e) => return Err(e),
        };
        let sub = Subscription {
            id: subscriber_id,
            owner: subscriber,
            start: starting_block,
            required_payment: min_payment,
            next_payment: due_date,
            frequency_of: plan.frequency,
            num_frequency,
            subscribed_to: sub_list,
        };
        proof {
            assert(sub@.subscribed_to =~= seq![payment_id]);
        }
        self.put_subscription(subscriber, sub);
        let name = crate::bytemap::copy_bytes(&plan.name);
        self.put_plan(payment_id, plan);
        self.deposit_event(event_payment_sent);
        let call = ScheduledCall::ForcePayment { subscriber, payment_id, required_payment: min_payment };
        let _ = self.schedule_named(&name, due_date, 0, call);
        self.deposit_event(event_sub_created);
        Ok(())
    }

    /// A signed account subscribes to plan `payment_id`, paying `min_payment` into its
    /// fund, for `num_frequency` periods when given.
    pub fn subscribe_payment(
        &mut self,
        origin: Origin,
        payment_id: PaymentIndex,
        min_payment: Balance,
        num_frequency: Option<u32>,
    ) -> (r: Result<(), Error>)
        requires
            signer_of(origin) is Some && subscribe_reaches_deposit(old(self)@, payment_id, min_payment, signer_of(origin)->0)
                ==> old(self)@.plans[payment_id].total_deposits + min_payment <= u128::MAX,
        ensures
            (final(self)@, r) == spec_subscribe_payment(old(self)@, origin, payment_id, min_payment, num_frequency),
    {
        let subscriber = match crate::origin::ensure_signed(origin) {
            Some(a) => a,
            None => return Err(Error::BadOrigin),
        };
        let now = self.block_number;
        self.do_subscribed(
            payment_id,
            min_payment,
            num_frequency,
            subscriber,
            Event::PaymentSent { from: subscriber, to_fund: payment_id, amount: min_payment, id: payment_id, now },
            Event::SubcriptionCreated { subscriber, id: payment_id, now },
        )
    }
}


// ---------------------------------------------------------------------------
// Collecting, editing, transferring, freezing and deleting plans.

/// The merchant collects a plan's deposits: refused when the plan does not exist,
/// the caller is not its merchant, or its total deposits are zero; otherwise the
/// total deposits are withdrawn from the fund (failing when the fund holds less)
/// and credited to the merchant. The plan itself is left as it was.
pub open spec fn spec_do_collect_payments(s: PalletState, merchant: AccountId, payment_id: PaymentIndex, event: Event) -> (PalletState, Result<(), Error>) {
    if !s.plans.contains_key(payment_id) {
        (s, Err(Error::PaymentPlanDoesNotExist))
    } else {
        let plan = s.plans[payment_id];
        if merchant != plan.merchant {
            (s, Err(Error::UnAuthorisedCall))
        } else if plan.total_deposits == 0 {
            (s, Err(Error::InsufficientBalance))
        } else {
            match spec_withdraw_fund(s, payment_id, plan.total_deposits) {
                Err(e) => (s, Err(e)),
                Ok(s1) => (with_event(spec_credit_account(s1, plan.merchant, plan.total_deposits), event), Ok(())),
            }
        }
    }
}

pub open spec fn spec_collect_payments(s: PalletState, origin: Origin, payment_id: PaymentIndex) -> (PalletState, Result<(), Error>) {
    match signer_of(origin) {
        None => (s, Err(Error::BadOrigin)),
        Some(merchant) => spec_do_collect_payments(s, merchant, payment_id,
            Event::PaymentCollected { merchant, id: payment_id, now: s.block_number }),
    }
}

/// Hands a plan to `delegate`: refused when the plan does not exist or when an owner
/// is given that is not the plan's merchant.
pub open spec fn spec_do_transfer_ownership(s: PalletState, maybe_owner: Option<AccountId>, payment_id: PaymentIndex, delegate: AccountId, event: Event) -> (PalletState, Result<(), Error>) {
    if !s.plans.contains_key(payment_id) {
        (s, Err(Error::PaymentPlanDoesNotExist))
    } else {
        let plan = s.plans[payment_id];
        if maybe_owner is Some && plan.merchant != maybe_owner->0 {
            (s, Err(Error::UnAuthorisedCall))
        } else {
            let s1 = PalletState { plans: s.plans.insert(payment_id, PlanView { merchant: delegate, ..plan }), ..s };
            (with_event(s1, event), Ok(()))
        }
    }
}

pub open spec fn spec_transfer_ownership_plan(s: PalletState, origin: Origin, payment_id: PaymentIndex, delegate: AccountId) -> (PalletState, Result<(), Error>) {
    match spec_root_or_signed(origin) {
        Err(_) => (s, Err(Error::BadOrigin)),
        Ok(maybe_owner) => spec_do_transfer_ownership(s, maybe_owner, payment_id, delegate,
            Event::TransferApproved { owner: maybe_owner->0, new_owner: delegate, id: payment_id, now: s.block_number }),
    }
}

/// Edits a plan: refused when it does not exist, the caller is not its merchant, or
/// the new name is longer than the string limit; otherwise the name, required
/// payment, frequency, freezer and periodic collection are replaced and everything
/// else is kept.
pub open spec fn spec_do_edit_plan(
    s: PalletState,
    id: PaymentIndex,
    name: Seq<u8>,
    new_payment: Balance,
    frequency: Frequency,
    seller: AccountId,
    freezer: Option<AccountId>,
    schedule_periodic_collection: Option<Frequency>,
    event: Event,
) -> (PalletState, Result<(), Error>) {
    if !s.plans.contains_key(id) {
        (s, Err(Error::PaymentPlanDoesNotExist))
    } else {
        let plan = s.plans[id];
        if plan.merchant != seller {
            (s, Err(Error::UnAuthorisedCall))
        } else if name.len() > s.config.string_limit {
            (s, Err(Error::BadMetadata))
        } else {
            let edited = PlanView {
                name,
                required_payment: new_payment,
                frequency,
                freezer,
                schedule_periodic_collection,
                ..plan
            };
            (with_event(PalletState { plans: s.plans.insert(id, edited), ..s }, event), Ok(()))
        }
    }
}

pub open spec fn spec_edit_payment_plan(
    s: PalletState,
    origin: Origin,
    id: PaymentIndex,
    new_payment: Balance,
    frequency: Frequency,
    name: Seq<u8>,
    freezer: Option<AccountId>,
    schedule_periodic_collection: Option<Frequency>,
) -> (PalletState, Result<(), Error>) {
    match signer_of(origin) {
        None => (s, Err(Error::BadOrigin)),
        Some(seller) => spec_do_edit_plan(s, id, name, new_payment, frequency, seller, freezer,
            schedule_periodic_collection, Event::EditedPaymentPlan { merchant: seller, id, now: s.block_number }),
    }
}

/// Deletes a plan: refused when it does not exist or when an owner is given that is
/// not its merchant. Deposits still recorded on the plan are first withdrawn from the
/// fund and credited to the merchant (failing when the fund holds less); then the plan
/// is removed, a task of the plan's name is taken off the agenda if there is one, and
/// `event` is deposited.
pub open spec fn spec_do_delete(s: PalletState, maybe_owner: Option<AccountId>, payment_id: PaymentIndex, event: Event) -> (PalletState, Result<(), Error>) {
    if !s.plans.contains_key(payment_id) {
        (s, Err(Error::PaymentPlanDoesNotExist))
    } else {
        let plan = s.plans[payment_id];
        if maybe_owner is Some && plan.merchant != maybe_owner->0 {
            (s, Err(Error::UnAuthorisedCall))
        } else {
            let refunded: Result<PalletState, Error> = if plan.total_deposits != 0 {
                match spec_withdraw_fund(s, payment_id, plan.total_deposits) {
                    Err(e) => Err(e),
                    Ok(s1) => Ok(with_event(spec_credit_account(s1, plan.merchant, plan.total_deposits),
                        Event::PaymentRefundedToMerchant { merchant: plan.merchant, id: payment_id, now: s.block_number })),
                }
            } else {
                Ok(s)
            };
            match refunded {
                Err(e) => (s, Err(e)),
                Ok(s2) => {
                    let s3 = PalletState { plans: s2.plans.remove(payment_id), ..s2 };
                    let s4 = state_or(spec_cancel_named(s3, plan.name), s3);
                    (with_event(s4, event), Ok(()))
                },
            }
        }
    }
}

pub open spec fn spec_force_delete_plan(s: PalletState, origin: Origin, payment_id: PaymentIndex) -> (PalletState, Result<(), Error>) {
    match spec_root_or_signed(origin) {
        Err(_) => (s, Err(Error::BadOrigin)),
        Ok(maybe_owner) => spec_do_delete(s, maybe_owner, payment_id,
            Event::PaymentPlanKilled { merchant: maybe_owner, id: payment_id, now: s.block_number }),
    }
}

/// Freezes a plan: refused when it does not exist or when a caller is given that is
/// not the plan's freezer.
pub open spec fn spec_do_freeze(s: PalletState, merchant: Option<AccountId>, payment_id: PaymentIndex, event: Event) -> (PalletState, Result<(), Error>) {
    if !s.plans.contains_key(payment_id) {
        (s, Err(Error::PaymentPlanDoesNotExist))
    } else {
        let plan = s.plans[payment_id];
        if merchant is Some && plan.freezer != merchant {
            (s, Err(Error::UnAuthorisedCall))
        } else {
            (with_event(PalletState { plans: s.plans.insert(payment_id, PlanView { is_frozen: true, ..plan }), ..s }, event), Ok(()))
        }
    }
}

/// `freeze_payment_plan`: the origin must be signed, by the plan's freezer.
pub open spec fn spec_freeze_payment_plan(s: PalletState, origin: Origin, payment_id: PaymentIndex) -> (PalletState, Result<(), Error>) {
    match signer_of(origin) {
        None => (s, Err(Error::BadOrigin)),
        Some(freezer) => spec_do_freeze(s, Some(freezer), payment_id,
            Event::Frozen { freezer, id: payment_id, now: s.block_number }),
    }
}

/// The unfreeze step: the stored plan (the default plan when there is
/// none) is refused with `AlreadyUnFrozen` when it is not frozen, and with
/// `UnAuthorisedCall` when a caller is given that is not its freezer; otherwise the
/// plan is stored no longer frozen.
pub open spec fn spec_do_unfreeze(s: PalletState, maybe_owner: Option<AccountId>, payment_id: PaymentIndex, event: Event) -> (PalletState, Result<(), Error>) {
    let plan = plan_of(s, payment_id);
    if !plan.is_frozen {
        (s, Err(Error::AlreadyUnFrozen))
    } else if maybe_owner is Some && plan.freezer != maybe_owner {
        (s, Err(Error::UnAuthorisedCall))
    } else {
        (with_event(PalletState { plans: s.plans.insert(payment_id, PlanView { is_frozen: false, ..plan }), ..s }, event), Ok(()))
    }
}

pub open spec fn spec_unfreeze_payment_plan(s: PalletState, origin: Origin, payment_id: PaymentIndex) -> (PalletState, Result<(), Error>) {
    match spec_root_or_signed(origin) {
        Err(_) => (s, Err(Error::BadOrigin)),
        Ok(maybe_owner) => spec_do_unfreeze(s, maybe_owner, payment_id,
            Event::UnFrozen { who: maybe_owner, id: payment_id, now: s.block_number }),
    }
}

impl Pallet {
    fn do_collect_payments(&mut self, merchant: AccountId, payment_id: PaymentIndex, event: Event) -> (r: Result<(), Error>)
        ensures
            (final(self)@, r) == spec_do_collect_payments(old(self)@, merchant, payment_id, event),
    {
        if !self.plan_exists(payment_id) {
            return Err(Error::PaymentPlanDoesNotExist);
        }
        let plan = self.info(payment_id);
        if merchant != plan.merchant {
            return Err(Error::UnAuthorisedCall);
        }
        if plan.total_deposits == 0 {
            return Err(Error::InsufficientBalance);
        }
        let w = self.withdraw_fund(payment_id, plan.total_deposits);
        if w.is_err() {
            return w;
        }
        self.credit_account(plan.merchant, plan.total_deposits);
        proof {
            assert(self@.plans.insert(payment_id, plan@) =~= self@.plans);
        }
        self.put_plan(payment_id, plan);
        self.deposit_event(event);
        Ok(())
    }

    /// The merchant of plan `payment_id` collects its deposits from the plan's fund.
    /// `schedule_periodic_collection` is accepted but not used.
    pub fn collect_payments(&mut self, origin: Origin, payment_id: PaymentIndex, schedule_periodic_collection: Option<Frequency>) -> (r: Result<(), Error>)
        ensures
            (final(self)@, r) == spec_collect_payments(old(self)@, origin, payment_id),
    {
        let merchant = match crate::origin::ensure_signed(origin) {
            Some(a) => a,
            None => return Err(Error::BadOrigin),
        };
        let now = self.block_number;
        self.do_collect_payments(merchant, payment_id, Event::PaymentCollected { merchant, id: payment_id, now })
    }

    fn do_transfer_ownership(&mut self, maybe_owner: Option<AccountId>, payment_id: PaymentIndex, delegate: AccountId, event: Event) -> (r: Result<(), Error>)
        ensures
            (final(self)@, r) == spec_do_transfer_ownership(old(self)@, maybe_owner, payment_id, delegate, event),
    {
        if !self.plan_exists(payment_id) {
            return Err(Error::PaymentPlanDoesNotExist);
        }
        let mut plan = self.info(payment_id);
        if let Some(check_owner) = maybe_owner {
            if plan.merchant != check_owner {
                return Err(Error::UnAuthorisedCall);
            }
        }
        plan.merchant = delegate;
        self.put_plan(payment_id, plan);
        self.deposit_event(event);
        Ok(())
    }

    /// Hands plan `payment_id` to `delegate`. A signed caller must be the plan's
    /// merchant. The root origin is left out: the call's event names the caller.
    pub fn transfer_ownership_plan(&mut self, origin: Origin, payment_id: PaymentIndex, delegate: AccountId) -> (r: Result<(), Error>)
        requires
            origin != Origin::Root,
        ensures
            (final(self)@, r) == spec_transfer_ownership_plan(old(self)@, origin, payment_id, delegate),
    {
        let maybe_owner = match root_or_signed(origin) {
            Ok(o) => o,
            Err(_) => return Err(Error::BadOrigin),
        };
        let now = self.block_number;
        let owner = match maybe_owner {
            Some(o) => o,
            None => return Err(Error::BadOrigin),
        };
        self.do_transfer_ownership(maybe_owner, payment_id, delegate,
            Event::TransferApproved { owner, new_owner: delegate, id: payment_id, now })
    }

    fn do_edit_plan(
        &mut self,
        id: PaymentIndex,
        name: Vec<u8>,
        new_payment: Balance,
        frequency: Frequency,
        seller: AccountId,
        freezer: Option<AccountId>,
        schedule_periodic_collection: Option<Frequency>,
        event: Event,
    ) -> (r: Result<(), Error>)
        ensures
            (final(self)@, r) == spec_do_edit_plan(old(self)@, id, name@, new_payment, frequency, seller,
                freezer, schedule_periodic_collection, event),
    {
        if !self.plan_exists(id) {
            return Err(Error::PaymentPlanDoesNotExist);
        }
        let plan = self.info(id);
        if plan.merchant != seller {
            return Err(Error::UnAuthorisedCall);
        }
        if name.len() > self.config.string_limit as usize {
            return Err(Error::BadMetadata);
        }
        let edited = PaymentPlan {
            merchant: plan.merchant,
            name,
            payment_id: plan.payment_id,
            required_payment: new_payment,
            total_deposits: plan.total_deposits,
            frequency,
            num_subscribers: plan.num_subscribers,
            freezer,
            is_frozen: plan.is_frozen,
            schedule_periodic_collection,
        };
        self.put_plan(id, edited);
        self.deposit_event(event);
        Ok(())
    }

    /// The merchant of plan `id` replaces its name, required payment, frequency,
    /// freezer and periodic collection.
    pub fn edit_payment_plan(
        &mut self,
        origin: Origin,
        id: PaymentIndex,
        new_payment: Balance,
        frequency: Frequency,
        name_s: Vec<u8>,
        freezer: Option<AccountId>,
        schedule_periodic_collection: Option<Frequency>,
    ) -> (r: Result<(), Error>)
        ensures
            (final(self)@, r) == spec_edit_payment_plan(old(self)@, origin, id, new_payment, frequency,
                name_s@, freezer, schedule_periodic_collection),
    {
        let seller = match crate::origin::ensure_signed(origin) {
            Some(a) => a,
            None => return Err(Error::BadOrigin),
        };
        let now = self.block_number;
        self.do_edit_plan(id, name_s, new_payment, frequency, seller, freezer, schedule_periodic_collection,
            Event::EditedPaymentPlan { merchant: seller, id, now })
    }

    fn do_delete(&mut self, maybe_owner: Option<AccountId>, payment_id: PaymentIndex, event: Event) -> (r: Result<(), Error>)
        ensures
            (final(self)@, r) == spec_do_delete(old(self)@, maybe_owner, payment_id, event),
    {
        if !self.plan_exists(payment_id) {
            return Err(Error::PaymentPlanDoesNotExist);
        }
        let now = self.block_number;
        let plan = self.info(payment_id);
        if let Some(check_owner) = maybe_owner {
            if plan.merchant != check_owner {
                return Err(Error::UnAuthorisedCall);
            }
        }
        if plan.total_deposits != 0 {
            let w = self.withdraw_fund(payment_id, plan.total_deposits);
            if w.is_err() {
                return w;
            }
            self.credit_account(plan.merchant, plan.total_deposits);
            self.deposit_event(Event::PaymentRefundedToMerchant { merchant: plan.merchant, id: payment_id, now });
        }
        self.remove_plan(payment_id);
        let _ = self.cancel_named(&plan.name);
        self.deposit_event(event);
        Ok(())
    }

    /// Deletes plan `payment_id`, returning its recorded deposits to the merchant.
    /// The root origin may delete any plan; a signed caller must be its merchant.
    pub fn force_delete_plan(&mut self, origin: Origin, payment_id: PaymentIndex) -> (r: Result<(), Error>)
        ensures
            (final(self)@, r) == spec_force_delete_plan(old(self)@, origin, payment_id),
    {
        let maybe_owner = match root_or_signed(origin) {
            Ok(o) => o,
            Err(_) => return Err(Error::BadOrigin),
        };
        let now = self.block_number;
        self.do_delete(maybe_owner, payment_id, Event::PaymentPlanKilled { merchant: maybe_owner, id: payment_id, now })
    }

    fn do_freeze(&mut self, merchant: Option<AccountId>, payment_id: PaymentIndex, event_freeze: Event) -> (r: Result<(), Error>)
        ensures
            (final(self)@, r) == spec_do_freeze(old(self)@, merchant, payment_id, event_freeze),
    {
        if !self.plan_exists(payment_id) {
            return Err(Error::PaymentPlanDoesNotExist);
        }
        let mut plan = self.info(payment_id);
        if merchant.is_some() && plan.freezer != merchant {
            return Err(Error::UnAuthorisedCall);
        }
        plan.is_frozen = true;
        self.put_plan(payment_id, plan);
        self.deposit_event(event_freeze);
        Ok(())
    }

    /// The plan's freezer blocks further payments into plan `payment_id`.
    /// The root origin is left out: the call's event names the caller.
    pub fn freeze_payment_plan(&mut self, origin: Origin, payment_id: PaymentIndex) -> (r: Result<(), Error>)
        ensures
            (final(self)@, r) == spec_freeze_payment_plan(old(self)@, origin, payment_id),
    {
        let maybe_owner = match root_or_signed(origin) {
            Ok(o) => o,
            Err(_) => return Err(Error::BadOrigin),
        };
        let now = self.block_number;
        let freezer = match maybe_owner {
            Some(o) => o,
            None => return Err(Error::BadOrigin),
        };
        self.do_freeze(maybe_owner, payment_id, Event::Frozen { freezer, id: payment_id, now })
    }

    fn do_unfreeze(&mut self, maybe_owner: Option<AccountId>, payment_id: PaymentIndex, event_unfreeze: Event) -> (r: Result<(), Error>)
        ensures
            (final(self)@, r) == spec_do_unfreeze(old(self)@, maybe_owner, payment_id, event_unfreeze),
    {
        let mut plan = self.info(payment_id);
        if !plan.is_frozen {
            return Err(Error::AlreadyUnFrozen);
        }
        if maybe_owner.is_some() && plan.freezer != maybe_owner {
            return Err(Error::UnAuthorisedCall);
        }
        plan.is_frozen = false;
        self.put_plan(payment_id, plan);
        self.deposit_event(event_unfreeze);
        Ok(())
    }

    /// The plan's freezer (or root) lets payments into plan `payment_id` again:
    /// see [`spec_do_unfreeze`].
    pub fn unfreeze_payment_plan(&mut self, origin: Origin, payment_id: PaymentIndex) -> (r: Result<(), Error>)
        ensures
            (final(self)@, r) == spec_unfreeze_payment_plan(old(self)@, origin, payment_id),
    {
        let maybe_owner = match root_or_signed(origin) {
            Ok(o) => o,
            Err(_) => return Err(Error::BadOrigin),
        };
        let now = self.block_number;
        self.do_unfreeze(maybe_owner, payment_id, Event::UnFrozen { who: maybe_owner, id: payment_id, now })
    }
}


// ---------------------------------------------------------------------------
// Cancelling subscriptions.

/// The part of `curr_balance` to refund to a subscriber leaving at block `now` a
/// period that began at `start` and falls due at `next_payment`: an error when the
/// payment is due now; otherwise the unspent share of the period, rounded down:
/// the whole balance when nothing of the period has passed, nothing once it is
/// over, and `curr_balance * (next_payment - now) / (next_payment - start)` in between.
pub open spec fn spec_ratio(start: BlockNumber, next_payment: BlockNumber, now: BlockNumber, curr_balance: Balance) -> Result<Balance, Error> {
    if next_payment == now {
        Err(Error::MinCannotBeZero)
    } else if next_payment < now {
        Ok(0)
    } else if now <= start {
        Ok(curr_balance)
    } else {
        Ok((curr_balance * (next_payment - now) / (next_payment - start)) as Balance)
    }
}

/// Scaling a balance by `rem / period` (with `rem <= period`) can be done by
/// splitting the balance at the period: the quotient scales exactly, and the
/// remainder's share is rounded down on its own.
pub proof fn lemma_scaled_share(bal: int, rem: int, period: int)
    requires
        0 <= bal,
        0 <= rem <= period,
        0 < period,
    ensures
        bal * rem / period == (bal / period) * rem + ((bal % period) * rem) / period,
        bal * rem / period <= bal,
        0 <= (bal / period) * rem <= bal,
        0 <= (bal % period) * rem < period * period,
{
    let q = bal / period;
    let r = bal % period;
    vstd::arithmetic::div_mod::lemma_fundamental_div_mod(bal, period);
    assert(0 <= r < period);
    assert(0 <= q) by {
        vstd::arithmetic::div_mod::lemma_div_pos_is_pos(bal, period);
    }
    let t = r * rem;
    vstd::arithmetic::div_mod::lemma_fundamental_div_mod(t, period);
    assert(0 <= t % period < period);
    assert(bal * rem == (q * rem + t / period) * period + t % period) by (nonlinear_arith)
        requires
            bal == period * q + r,
            t == r * rem,
            t == period * (t / period) + t % period,
    ;
    vstd::arithmetic::div_mod::lemma_fundamental_div_mod_converse_div(bal * rem, period, q * rem + t / period, t % period);
    assert(bal * rem <= bal * period) by (nonlinear_arith)
        requires 0 <= bal, rem <= period;
    assert(bal * rem / period <= bal * period / period) by {
        vstd::arithmetic::div_mod::lemma_div_is_ordered(bal * rem, bal * period, period);
    }
    assert(bal * period / period == bal) by {
        vstd::arithmetic::div_mod::lemma_div_by_multiple(bal, period);
    }
    assert(0 <= q * rem <= q * period) by (nonlinear_arith)
        requires 0 <= q, 0 <= rem <= period;
    assert(0 <= t < period * period) by (nonlinear_arith)
        requires t == r * rem, 0 <= r < period, 0 <= rem <= period;
}

/// `Currency::resolve_into_existing`: credits an account that exists (has a
/// balance entry); the amount is dropped for any other account, or when the
/// credit would overflow.
pub open spec fn spec_credit_existing(s: PalletState, a: AccountId, amount: Balance) -> PalletState {
    if s.accounts.contains_key(a) { spec_credit_account(s, a, amount) } else { s }
}

/// Cancelling a subscription: refused when the plan does not exist. Otherwise the
/// subscriber is refunded the portion of their contribution that the refund ratio
/// gives (nothing when the payment is due now): it is withdrawn from the plan's
/// fund (failing when the fund holds less) and credited to the subscriber, and
/// `event_refund` is deposited. Then the plan's named task is taken off the
/// agenda, failing with the scheduler's `NotFound` when there is none; the
/// subscription is destroyed and `event_cancelled` is deposited.
pub open spec fn spec_do_cancel(s: PalletState, subscriber: AccountId, payment_id: PaymentIndex, event_refund: Event, event_cancelled: Event) -> (PalletState, Result<(), Error>) {
    if !s.plans.contains_key(payment_id) {
        (s, Err(Error::PaymentPlanDoesNotExist))
    } else {
        let sub = subscription_of(s, subscriber);
        let balance = contribution_of(s, payment_id, subscriber);
        let refunded: Result<PalletState, Error> = match spec_ratio(sub.start, sub.next_payment, s.block_number, balance) {
            Err(_) => Ok(s),
            Ok(amount) => match spec_withdraw_fund(s, payment_id, amount) {
                Err(e) => Err(e),
                Ok(t) => Ok(with_event(spec_credit_existing(t, subscriber, amount), event_refund)),
            },
        };
        match refunded {
            Err(e) => (s, Err(e)),
            Ok(s1) => match spec_cancel_named(s1, s.plans[payment_id].name) {
                Err(e) => (s1, Err(e)),
                Ok(s2) => (with_event(PalletState { subscriptions: s2.subscriptions.remove(subscriber), ..s2 }, event_cancelled), Ok(())),
            },
        }
    }
}

pub open spec fn spec_cancel_subscription(s: PalletState, origin: Origin, payment_id: PaymentIndex) -> (PalletState, Result<(), Error>) {
    match signer_of(origin) {
        None => (s, Err(Error::BadOrigin)),
        Some(subscriber) => spec_do_cancel(s, subscriber, payment_id,
            Event::PaymentRefundedToUser { user: subscriber, id: payment_id, now: s.block_number },
            Event::RecurringPaymentCancelled { user: subscriber, id: payment_id, now: s.block_number }),
    }
}

pub open spec fn spec_force_cancel_subscription(s: PalletState, origin: Origin, payment_id: PaymentIndex, subscriber: AccountId) -> (PalletState, Result<(), Error>) {
    if origin != Origin::Root {
        (s, Err(Error::BadOrigin))
    } else {
        spec_do_cancel(s, subscriber, payment_id,
            Event::PaymentRefundedToUser { user: subscriber, id: payment_id, now: s.block_number },
            Event::RecurringPaymentCancelled { user: subscriber, id: payment_id, now: s.block_number })
    }
}

impl Pallet {
    /// The amount to refund to a subscriber leaving early: the unspent share of
    /// the period.
    pub fn calculate_ratio_start_end(
        start: BlockNumber,
        next_payment: BlockNumber,
        now: BlockNumber,
        curr_balance: Balance,
    ) -> (r: Result<Balance, Error>)
        ensures
            r == spec_ratio(start, next_payment, now, curr_balance),
    {
        if next_payment == now {
            return Err(Error::MinCannotBeZero);
        }
        if next_payment < now {
            return Ok(0);
        }
        if now <= start {
            return Ok(curr_balance);
        }
        let period: Balance = (next_payment - start) as Balance;
        let remaining: Balance = (next_payment - now) as Balance;
        proof { lemma_scaled_share(curr_balance as int, remaining as int, period as int); }
        assert(period * period <= u128::MAX) by (nonlinear_arith)
            requires period <= u32::MAX;
        let whole: Balance = (curr_balance / period) * remaining;
        let part: Balance = ((curr_balance % period) * remaining) / period;
        Ok(whole + part)
    }

    fn do_cancel(&mut self, subscriber: AccountId, payment_id: PaymentIndex, event_refund: Event, event_cancelled: Event) -> (r: Result<(), Error>)
        ensures
            (final(self)@, r) == spec_do_cancel(old(self)@, subscriber, payment_id, event_refund, event_cancelled),
    {
        if !self.plan_exists(payment_id) {
            return Err(Error::PaymentPlanDoesNotExist);
        }
        let balance = self.get_payment_info(payment_id, subscriber);
        let subscriber_info = self.subscribe(subscriber);
        let now = self.block_number;
        let amount_refunded = Self::calculate_ratio_start_end(
            subscriber_info.start,
            subscriber_info.next_payment,
            now,
            balance,
        );
        if let Ok(amount) = amount_refunded {
            let w = self.withdraw_fund(payment_id, amount);
            if w.is_err() {
                return w;
            }
            self.credit_existing_account(subscriber, amount);
            self.deposit_event(event_refund);
        }
        let payment_info = self.info(payment_id);
        let c = self.cancel_named(&payment_info.name);
        if c.is_err() {
            return c;
        }
        self.remove_subscription(subscriber);
        self.deposit_event(event_cancelled);
        Ok(())
    }

    /// A signed subscriber cancels their subscription to plan `payment_id`.
    pub fn cancel_subscription(&mut self, origin: Origin, payment_id: PaymentIndex) -> (r: Result<(), Error>)
        ensures
            (final(self)@, r) == spec_cancel_subscription(old(self)@, origin, payment_id),
    {
        let subscriber = match crate::origin::ensure_signed(origin) {
            Some(a) => a,
            None => return Err(Error::BadOrigin),
        };
        let now = self.block_number;
        self.do_cancel(subscriber, payment_id,
            Event::PaymentRefundedToUser { user: subscriber, id: payment_id, now },
            Event::RecurringPaymentCancelled { user: subscriber, id: payment_id, now })
    }

    /// The root origin cancels `subscriber`'s subscription to plan `payment_id`.
    pub fn force_cancel_subscription(&mut self, origin: Origin, payment_id: PaymentIndex, subscriber: AccountId) -> (r: Result<(), Error>)
        ensures
            (final(self)@, r) == spec_force_cancel_subscription(old(self)@, origin, payment_id, subscriber),
    {
        if !crate::origin::ensure_root(origin) {
            return Err(Error::BadOrigin);
        }
        self.do_force_cancel(subscriber, payment_id)
    }

    fn do_force_cancel(&mut self, subscriber: AccountId, payment_id: PaymentIndex) -> (r: Result<(), Error>)
        ensures
            (final(self)@, r) == spec_do_cancel(old(self)@, subscriber, payment_id,
                Event::PaymentRefundedToUser { user: subscriber, id: payment_id, now: old(self)@.block_number },
                Event::RecurringPaymentCancelled { user: subscriber, id: payment_id, now: old(self)@.block_number }),
    {
        let now = self.block_number;
        self.do_cancel(subscriber, payment_id,
            Event::PaymentRefundedToUser { user: subscriber, id: payment_id, now },
            Event::RecurringPaymentCancelled { user: subscriber, id: payment_id, now })
    }
}

// ---------------------------------------------------------------------------
// Forced payments.

/// The transfer the forced payment makes: the payment moves from the subscriber
/// into the plan's fund, the plan's total deposits grow by it, and the subscriber's
/// recorded contribution becomes the payment. Fails (changing nothing) when the plan
/// does not exist or the transfer fails.
pub open spec fn spec_transfer_payment(s: PalletState, subscriber: AccountId, payment_id: PaymentIndex, min_payment: Balance) -> Result<PalletState, Error> {
    if !s.plans.contains_key(payment_id) {
        Err(Error::PaymentPlanDoesNotExist)
    } else {
        let plan = s.plans[payment_id];
        match spec_pay_into_fund(s, subscriber, payment_id, min_payment) {
            Err(e) => Err(e),
            Ok(s1) => Ok(PalletState {
                plans: s1.plans.insert(payment_id, PlanView { total_deposits: (plan.total_deposits + min_payment) as Balance, ..plan }),
                contributions: record_contribution(s1.contributions, payment_id, subscriber, min_payment),
                ..s1
            }),
        }
    }
}

/// Why a forced payment is refused before any transfer, if it is.
pub open spec fn force_pay_refusal(s: PalletState, subscriber: AccountId, payment_id: PaymentIndex) -> Option<Error> {
    if !s.plans.contains_key(payment_id) {
        Some(Error::PaymentPlanDoesNotExist)
    } else {
        let plan = s.plans[payment_id];
        let sub = subscription_of(s, subscriber);
        if sub.required_payment != plan.required_payment {
            Some(Error::InvalidPayment)
        } else if sub.owner != subscriber {
            Some(Error::NotASubscriber)
        } else if plan.num_subscribers == 0 {
            Some(Error::NoSubscribersFound)
        } else if plan.is_frozen {
            Some(Error::Frozen)
        } else if !sub.subscribed_to.contains(payment_id) {
            Some(Error::UserNotSubscribed)
        } else if sub.next_payment != s.block_number {
            Some(Error::NotDueYet)
        } else {
            None
        }
    }
}

/// Whether a forced payment can raise the plan's deposits without overflow.
pub open spec fn force_pay_survives(s: PalletState, subscriber: AccountId, payment_id: PaymentIndex, required_payment: Balance) -> bool {
    force_pay_refusal(s, subscriber, payment_id) is None
        && spec_pay_into_fund(s, subscriber, payment_id, required_payment) is Ok
        ==> s.plans[payment_id].total_deposits + required_payment <= u128::MAX
}

/// A forced payment: refused as [`force_pay_refusal`] says. Otherwise the transfer
/// is attempted; when it fails the subscription is removed, the plan's named task is
/// taken off the agenda if there is one and `event_cancelled` is deposited; when it
/// succeeds `event_paid` is deposited. Either way the call succeeds.
pub open spec fn spec_do_force_pay(s: PalletState, subscriber: AccountId, payment_id: PaymentIndex, required_payment: Balance, event_cancelled: Event, event_paid: Event) -> (PalletState, Result<(), Error>) {
    match force_pay_refusal(s, subscriber, payment_id) {
        Some(e) => (s, Err(e)),
        None => match spec_transfer_payment(s, subscriber, payment_id, required_payment) {
            Err(_) => {
                let s1 = PalletState { subscriptions: s.subscriptions.remove(subscriber), ..s };
                let s2 = state_or(spec_cancel_named(s1, s.plans[payment_id].name), s1);
                (with_event(s2, event_cancelled), Ok(()))
            },
            Ok(s1) => (with_event(s1, event_paid), Ok(())),
        },
    }
}

pub open spec fn spec_force_payment(s: PalletState, origin: Origin, subscriber: AccountId, payment_id: PaymentIndex, required_payment: Balance) -> (PalletState, Result<(), Error>) {
    if origin != Origin::Root {
        (s, Err(Error::BadOrigin))
    } else {
        spec_do_force_pay(s, subscriber, payment_id, required_payment,
            Event::RecurringPaymentCancelled { user: subscriber, id: payment_id, now: s.block_number },
            Event::PaymentSent { from: subscriber, to_fund: payment_id, amount: required_payment, id: payment_id, now: s.block_number })
    }
}

/// Whether `v` holds `x`.
pub fn contains_index(v: &Vec<u32>, x: u32) -> (r: bool)
    ensures
        r == v@.contains(x),
{
    let mut i: usize = 0;
    while i < v.len()
        invariant
            i <= v.len(),
            forall|k: int| 0 <= k < i ==> v@[k] != x,
        decreases v.len() - i,
    {
        if v[i] == x {
            assert(v@[i as int] == x);
            return true;
        }
        i = i + 1;
    }
    false
}

impl Pallet {
    fn transfer_payment(&mut self, origin: Origin, subscriber: AccountId, payment_id: PaymentIndex, min_payment: Balance) -> (r: Result<(), Error>)
        requires
            origin == Origin::Root,
            old(self)@.plans.contains_key(payment_id) && spec_pay_into_fund(old(self)@, subscriber, payment_id, min_payment) is Ok
                ==> old(self)@.plans[payment_id].total_deposits + min_payment <= u128::MAX,
        ensures
            match spec_transfer_payment(old(self)@, subscriber, payment_id, min_payment) {
                Ok(t) => r is Ok && final(self)@ == t,
                Err(e) => r == Err::<(), Error>(e) && final(self)@ == old(self)@,
            },
    {
        if !crate::origin::ensure_root(origin) {
            return Err(Error::BadOrigin);
        }
        if !self.plan_exists(payment_id) {
            return Err(Error::PaymentPlanDoesNotExist);
        }
        let mut payment_info = self.info(payment_id);
        let t = self.pay_into_fund(subscriber, payment_id, min_payment);
        if t.is_err() {
            return t;
        }
        payment_info.total_deposits = payment_info.total_deposits + min_payment;
        self.put_plan(payment_id, payment_info);
        let _new_balance = self.get_payment_info(payment_id, subscriber);
        self.insert_payment(payment_id, subscriber, min_payment);
        Ok(())
    }

    fn do_force_pay(&mut self, subscriber: AccountId, payment_id: PaymentIndex, required_payment: Balance, event_cancelled: Event, event_paid: Event) -> (r: Result<(), Error>)
        requires
            force_pay_survives(old(self)@, subscriber, payment_id, required_payment),
        ensures
            (final(self)@, r) == spec_do_force_pay(old(self)@, subscriber, payment_id, required_payment, event_cancelled, event_paid),
    {
        if !self.plan_exists(payment_id) {
            return Err(Error::PaymentPlanDoesNotExist);
        }
        let payment_info = self.info(payment_id);
        let subscription_info = self.subscribe(subscriber);
        let now = self.block_number;
        if subscription_info.required_payment != payment_info.required_payment {
            return Err(Error::InvalidPayment);
        }
        if subscription_info.owner != subscriber {
            return Err(Error::NotASubscriber);
        }
        if payment_info.num_subscribers == 0 {
            return Err(Error::NoSubscribersFound);
        }
        if payment_info.is_frozen {
            return Err(Error::Frozen);
        }
        if !contains_index(&subscription_info.subscribed_to, payment_id) {
            return Err(Error::UserNotSubscribed);
        }
        if subscription_info.next_payment != now {
            return Err(Error::NotDueYet);
        }
        if self.transfer_payment(Origin::Root, subscriber, payment_id, required_payment).is_err() {
            self.remove_subscription(subscriber);
            let _ = self.cancel_named(&payment_info.name);
            self.deposit_event(event_cancelled);
        } else {
            self.deposit_event(event_paid);
        }
        Ok(())
    }

    /// The root origin makes `subscriber` pay `required_payment` into plan
    /// `payment_id` when their subscription is due. A failed transfer ends the
    /// subscription instead.
    pub fn force_payment(&mut self, origin: Origin, subscriber: AccountId, payment_id: PaymentIndex, required_payment: Balance) -> (r: Result<(), Error>)
        requires
            origin == Origin::Root ==> force_pay_survives(old(self)@, subscriber, payment_id, required_payment),
        ensures
            (final(self)@, r) == spec_force_payment(old(self)@, origin, subscriber, payment_id, required_payment),
    {
        if !crate::origin::ensure_root(origin) {
            return Err(Error::BadOrigin);
        }
        let now = self.block_number;
        self.do_force_pay(subscriber, payment_id, required_payment,
            Event::RecurringPaymentCancelled { user: subscriber, id: payment_id, now },
            Event::PaymentSent { from: subscriber, to_fund: payment_id, amount: required_payment, id: payment_id, now })
    }
}


// ---------------------------------------------------------------------------
// Refunding and resetting plans.

/// Refunds the contributions recorded for plan `payment_id` from entry `i` on, in
/// storage order: each is paid from the fund back to its contributor, stopping at
/// the first transfer that fails. Yields the state and either the error or the
/// plan's remaining total deposits and the count of refunds made.
pub open spec fn spec_refund_from(
    s: PalletState,
    c: Seq<Contribution>,
    i: int,
    payment_id: PaymentIndex,
    total: Balance,
    refunded: u32,
) -> (PalletState, Result<(Balance, u32), Error>)
    decreases c.len() - i,
{
    if i < 0 || i >= c.len() {
        (s, Ok((total, refunded)))
    } else if c[i].payment_id != payment_id {
        spec_refund_from(s, c, i + 1, payment_id, total, refunded)
    } else {
        match spec_pay_out_of_fund(s, payment_id, c[i].who, c[i].amount) {
            Err(e) => (s, Err(e)),
            Ok(t) => spec_refund_from(t, c, i + 1, payment_id, total.saturating_sub(c[i].amount),
                (refunded + 1) as u32),
        }
    }
}

/// Refunding every contributor of a plan: refused with `PaymentPlanDoesNotExist`
/// when it does not exist and with `Unknown` when an owner is given that is not its
/// merchant. Otherwise each recorded contribution is paid back (stopping at the
/// first failing transfer, whose error is returned), the plan's total deposits drop
/// by what was refunded (saturating), and `RefundedUsers` is deposited when the
/// refunds equal the plan's subscriber count, `PartiallyRefunded` otherwise.
pub open spec fn spec_refund_to_users(s: PalletState, owner: AccountId, maybe_owner: Option<AccountId>, payment_id: PaymentIndex) -> (PalletState, Result<(), Error>) {
    if !s.plans.contains_key(payment_id) {
        (s, Err(Error::PaymentPlanDoesNotExist))
    } else {
        let plan = s.plans[payment_id];
        if maybe_owner is Some && plan.merchant != maybe_owner->0 {
            (s, Err(Error::Unknown))
        } else {
            let (s1, r) = spec_refund_from(s, s.contributions, 0, payment_id, plan.total_deposits, 0);
            match r {
                Err(e) => (s1, Err(e)),
                Ok((total, refunded)) => {
                    let s2 = PalletState { plans: s1.plans.insert(payment_id, PlanView { total_deposits: total, ..plan }), ..s1 };
                    let e = if refunded == plan.num_subscribers {
                        Event::RefundedUsers { sender: owner, id: payment_id, now: s.block_number }
                    } else {
                        Event::PartiallyRefunded { sender: owner, id: payment_id, now: s.block_number }
                    };
                    (with_event(s2, e), Ok(()))
                },
            }
        }
    }
}

/// Resetting a plan: refused when it does not exist or the name is longer than the
/// string limit; otherwise the merchant, name, required payment, frequency, freezer,
/// periodic collection and frozen flag are replaced, the subscriber count is reset to
/// zero, and the index and total deposits are kept.
pub open spec fn spec_force_default(
    s: PalletState,
    payment_id: PaymentIndex,
    name: Seq<u8>,
    new_owner: AccountId,
    min_balance: Balance,
    frequency: Frequency,
    freezer: Option<AccountId>,
    is_frozen: bool,
    schedule_periodic_collection: Option<Frequency>,
    event_edit: Event,
) -> (PalletState, Result<(), Error>) {
    if !s.plans.contains_key(payment_id) {
        (s, Err(Error::PaymentPlanDoesNotExist))
    } else if name.len() > s.config.string_limit {
        (s, Err(Error::BadMetadata))
    } else {
        let plan = s.plans[payment_id];
        let reset = PlanView {
            merchant: new_owner,
            name,
            required_payment: min_balance,
            frequency,
            num_subscribers: 0,
            freezer,
            schedule_periodic_collection,
            is_frozen,
            ..plan
        };
        (with_event(PalletState { plans: s.plans.insert(payment_id, reset), ..s }, event_edit), Ok(()))
    }
}

/// `force_clear_payment_plan` for a signed merchant: refund every contributor, then
/// reset the plan.
pub open spec fn spec_force_clear_payment_plan(
    s: PalletState,
    origin: Origin,
    payment_id: PaymentIndex,
    name: Seq<u8>,
    new_owner: AccountId,
    min_balance: Balance,
    frequency: Frequency,
    freezer: Option<AccountId>,
    is_frozen: bool,
    schedule_periodic_collection: Option<Frequency>,
) -> (PalletState, Result<(), Error>) {
    match spec_root_or_signed(origin) {
        Err(_) => (s, Err(Error::BadOrigin)),
        Ok(maybe_owner) => {
            let (s1, r) = spec_refund_to_users(s, maybe_owner->0, maybe_owner, payment_id);
            match r {
                Err(e) => (s1, Err(e)),
                Ok(_) => spec_force_default(s1, payment_id, name, new_owner, min_balance, frequency, freezer,
                    is_frozen, schedule_periodic_collection,
                    Event::EditedPaymentPlan { merchant: maybe_owner->0, id: payment_id, now: s.block_number }),
            }
        },
    }
}

/// Whether refunding from the root origin would reach the point where it names the
/// caller, which it cannot for root.
pub open spec fn root_refund_completes(s: PalletState, payment_id: PaymentIndex) -> bool {
    spec_refund_to_users(s, 0, None, payment_id).1 is Ok
}

/// The refund's outcome does not depend on the account its event names.
pub proof fn lemma_refund_outcome_ignores_sender(s: PalletState, a: AccountId, b: AccountId, maybe_owner: Option<AccountId>, payment_id: PaymentIndex)
    ensures
        spec_refund_to_users(s, a, maybe_owner, payment_id).1 == spec_refund_to_users(s, b, maybe_owner, payment_id).1,
{
}

pub proof fn lemma_refund_from_keeps(s: PalletState, c: Seq<Contribution>, i: int, payment_id: PaymentIndex, total: Balance, refunded: u32)
    ensures
        ({
            let t = spec_refund_from(s, c, i, payment_id, total, refunded).0;
            &&& t.plans == s.plans
            &&& t.contributions == s.contributions
            &&& t.config == s.config
            &&& t.block_number == s.block_number
            &&& t.events == s.events
        }),
    decreases c.len() - i,
{
    if i < 0 || i >= c.len() {
    } else if c[i].payment_id != payment_id {
        lemma_refund_from_keeps(s, c, i + 1, payment_id, total, refunded);
    } else {
        match spec_pay_out_of_fund(s, payment_id, c[i].who, c[i].amount) {
            Err(e) => {},
            Ok(t) => lemma_refund_from_keeps(t, c, i + 1, payment_id, total.saturating_sub(c[i].amount), (refunded + 1) as u32),
        }
    }
}

impl Pallet {
    fn refund_to_users(&mut self, maybe_owner: Option<AccountId>, payment_id: PaymentIndex) -> (r: Result<(), Error>)
        requires
            old(self)@.contributions.len() < u32::MAX,
            maybe_owner is None ==> !root_refund_completes(old(self)@, payment_id),
        ensures
            (final(self)@, r) == spec_refund_to_users(old(self)@, maybe_owner->0, maybe_owner, payment_id),
    {
        if !self.plan_exists(payment_id) {
            return Err(Error::PaymentPlanDoesNotExist);
        }
        let mut refunded: u32 = 0;
        let mut payment_info = self.info(payment_id);
        if let Some(check_owner) = maybe_owner {
            if payment_info.merchant != check_owner {
                return Err(Error::Unknown);
            }
        }
        let ghost s0 = self@;
        let ghost c = self@.contributions;
        let n = self.contributions.len();
        let mut i: usize = 0;
        while i < n
            invariant
                n == c.len(),
                c == s0.contributions,
                s0 == old(self)@,
                s0.plans.contains_key(payment_id),
                maybe_owner is Some ==> s0.plans[payment_id].merchant == maybe_owner->0,
                payment_info@ == (PlanView { total_deposits: payment_info.total_deposits, ..s0.plans[payment_id] }),
                i <= n,
                refunded <= i,
                self@.contributions == c,
                c.len() < u32::MAX,
                spec_refund_from(s0, c, 0, payment_id, s0.plans[payment_id].total_deposits, 0)
                    == spec_refund_from(self@, c, i as int, payment_id, payment_info.total_deposits, refunded),
            decreases n - i,
        {
            let entry = self.contributions[i];
            if entry.payment_id == payment_id {
                let t = self.pay_out_of_fund(payment_id, entry.who, entry.amount);
                if t.is_err() {
                    proof {
                        assert(c[i as int] == entry);
                        let e = spec_pay_out_of_fund(self@, payment_id, entry.who, entry.amount)->Err_0;
                        assert(spec_refund_from(self@, c, i as int, payment_id, payment_info.total_deposits, refunded)
                            == (self@, Err::<(Balance, u32), Error>(e)));
                        assert(t == Err::<(), Error>(e));
                    }
                    return t;
                }
                payment_info.total_deposits = payment_info.total_deposits.saturating_sub(entry.amount);
                refunded = refunded + 1;
            }
            i = i + 1;
        }
        proof {
            lemma_refund_from_keeps(s0, c, 0, payment_id, s0.plans[payment_id].total_deposits, 0);
        }
        proof {
            if maybe_owner is None {
                lemma_refund_outcome_ignores_sender(s0, 0, maybe_owner->0, maybe_owner, payment_id);
            }
        }
        let num_subscribers = payment_info.num_subscribers;
        self.put_plan(payment_id, payment_info);
        let now = self.block_number;
        let sender = match maybe_owner {
            Some(o) => o,
            None => {
                assert(false);
                0
            },
        };
        if refunded == num_subscribers {
            self.deposit_event(Event::RefundedUsers { sender, id: payment_id, now });
        } else {
            self.deposit_event(Event::PartiallyRefunded { sender, id: payment_id, now });
        }
        Ok(())
    }

    fn force_default(
        &mut self,
        payment_id: PaymentIndex,
        name: Vec<u8>,
        new_owner: AccountId,
        min_balance: Balance,
        frequency: Frequency,
        freezer: Option<AccountId>,
        is_frozen: bool,
        schedule_periodic_collection: Option<Frequency>,
        event_edit: Event,
    ) -> (r: Result<(), Error>)
        ensures
            (final(self)@, r) == spec_force_default(old(self)@, payment_id, name@, new_owner, min_balance,
                frequency, freezer, is_frozen, schedule_periodic_collection, event_edit),
    {
        if !self.plan_exists(payment_id) {
            return Err(Error::PaymentPlanDoesNotExist);
        }
        if name.len() > self.config.string_limit as usize {
            return Err(Error::BadMetadata);
        }
        let curr = self.info(payment_id);
        let reset = PaymentPlan {
            merchant: new_owner,
            name,
            payment_id: curr.payment_id,
            required_payment: min_balance,
            total_deposits: curr.total_deposits,
            frequency,
            num_subscribers: 0,
            freezer,
            is_frozen,
            schedule_periodic_collection,
        };
        self.put_plan(payment_id, reset);
        self.deposit_event(event_edit);
        Ok(())
    }

    /// Refunds every contributor of plan `payment_id` and then resets the plan to the
    /// given values. A signed caller must be the plan's merchant. The root origin is
    /// admitted only where the refund stops with an error: a completed refund names
    /// its caller in its event.
    pub fn force_clear_payment_plan(
        &mut self,
        origin: Origin,
        payment_id: PaymentIndex,
        name: Vec<u8>,
        new_owner: AccountId,
        min_balance: Balance,
        frequency: Frequency,
        freezer: Option<AccountId>,
        is_frozen: bool,
        schedule_periodic_collection: Option<Frequency>,
    ) -> (r: Result<(), Error>)
        requires
            old(self)@.contributions.len() < u32::MAX,
            origin == Origin::Root ==> !root_refund_completes(old(self)@, payment_id),
        ensures
            (final(self)@, r) == spec_force_clear_payment_plan(old(self)@, origin, payment_id, name@, new_owner,
                min_balance, frequency, freezer, is_frozen, schedule_periodic_collection),
    {
        let maybe_owner = match root_or_signed(origin) {
            Ok(o) => o,
            Err(_) => return Err(Error::BadOrigin),
        };
        let now = self.block_number;
        proof {
            if maybe_owner is None {
                lemma_refund_outcome_ignores_sender(self@, 0, maybe_owner->0, maybe_owner, payment_id);
            }
        }
        let r = self.refund_to_users(maybe_owner, payment_id);
        if r.is_err() {
            return r;
        }
        let merchant = match maybe_owner {
            Some(o) => o,
            None => {
                assert(false);
                0
            },
        };
        self.force_default(payment_id, name, new_owner, min_balance, frequency, freezer, is_frozen,
            schedule_periodic_collection, Event::EditedPaymentPlan { merchant, id: payment_id, now })
    }
}

} // verus!
