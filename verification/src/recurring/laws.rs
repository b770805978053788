//! Properties of the recurring-payments pallet that relate its calls.
use vstd::prelude::*;
use crate::origin::{signer_of, AccountId, Origin};
use super::types::{spec_frequency, Balance, Frequency, PaymentIndex};
use super::state::{spec_pay_into_fund, contribution_of, first_entry, free_of, fund_of, is_entry, lemma_first_entry_unique, record_contribution, spec_pay_out_of_fund, Contribution, Error, PalletState};
use super::calls::{
    spec_collect_payments, spec_create_payment_system, spec_edit_payment_plan,
    spec_force_delete_plan, spec_freeze_payment_plan, spec_subscribe_payment,
    spec_transfer_ownership_plan, spec_force_clear_payment_plan, spec_refund_from,
    spec_unfreeze_payment_plan, spec_force_payment, force_pay_refusal,
    };

verus! {

/// A plan that was frozen takes no new subscriptions: once freezing succeeds, a
/// signed subscription paying at least the plan's required payment is refused
/// with `Frozen` and changes nothing.
pub proof fn law_frozen_plan_refuses_subscriptions(
    s: PalletState,
    freezer: Origin,
    payment_id: PaymentIndex,
    subscriber: Origin,
    min_payment: Balance,
    num_frequency: Option<u32>,
)
    requires
        spec_freeze_payment_plan(s, freezer, payment_id).1 is Ok,
        signer_of(subscriber) is Some,
        min_payment >= s.plans[payment_id].required_payment,
    ensures
        ({
            let frozen = spec_freeze_payment_plan(s, freezer, payment_id).0;
            let (after, r) = spec_subscribe_payment(frozen, subscriber, payment_id, min_payment, num_frequency);
            r == Err::<(), Error>(Error::Frozen) && after == frozen
        }),
{
}

/// A deleted plan is gone: once deleting it succeeds, subscribing to it,
/// collecting from it and editing it are refused with `PaymentPlanDoesNotExist`.
pub proof fn law_deleted_plan_is_gone(
    s: PalletState,
    deleter: Origin,
    payment_id: PaymentIndex,
    caller: Origin,
    amount: Balance,
    frequency: Frequency,
    name: Seq<u8>,
    freezer: Option<AccountId>,
    schedule_periodic_collection: Option<Frequency>,
)
    requires
        spec_force_delete_plan(s, deleter, payment_id).1 is Ok,
        signer_of(caller) is Some,
    ensures
        ({
            let t = spec_force_delete_plan(s, deleter, payment_id).0;
            &&& spec_subscribe_payment(t, caller, payment_id, amount, None).1 == Err::<(), Error>(Error::PaymentPlanDoesNotExist)
            &&& spec_collect_payments(t, caller, payment_id).1 == Err::<(), Error>(Error::PaymentPlanDoesNotExist)
            &&& spec_edit_payment_plan(t, caller, payment_id, amount, frequency, name, freezer, schedule_periodic_collection).1
                == Err::<(), Error>(Error::PaymentPlanDoesNotExist)
        }),
{
}

/// Creating a plan takes the next index: on success the plan is stored under
/// the index that was next, owned by the caller and unfrozen, and the next index
/// moves one up.
pub proof fn law_created_plan_takes_next_index(
    s: PalletState,
    origin: Origin,
    required_payment: Balance,
    frequency: Frequency,
    name: Seq<u8>,
    freezer: Option<AccountId>,
    schedule_periodic_collection: Option<Frequency>,
)
    requires
        spec_create_payment_system(s, origin, required_payment, frequency, name, freezer, schedule_periodic_collection).1 is Ok,
    ensures
        ({
            let t = spec_create_payment_system(s, origin, required_payment, frequency, name, freezer, schedule_periodic_collection).0;
            &&& !s.plans.contains_key(s.payment_id)
            &&& t.payment_id == s.payment_id + 1
            &&& t.plans.contains_key(s.payment_id)
            &&& t.plans[s.payment_id].merchant == signer_of(origin)->0
            &&& t.plans[s.payment_id].payment_id == s.payment_id
            &&& t.plans[s.payment_id].required_payment == required_payment
            &&& !t.plans[s.payment_id].is_frozen
        }),
{
}

/// Editing a plan keeps what it has collected: on success the plan's merchant,
/// total deposits, subscriber count and freezing state are as before.
pub proof fn law_edit_keeps_deposits(
    s: PalletState,
    origin: Origin,
    id: PaymentIndex,
    new_payment: Balance,
    frequency: Frequency,
    name: Seq<u8>,
    freezer: Option<AccountId>,
    schedule_periodic_collection: Option<Frequency>,
)
    requires
        spec_edit_payment_plan(s, origin, id, new_payment, frequency, name, freezer, schedule_periodic_collection).1 is Ok,
    ensures
        ({
            let t = spec_edit_payment_plan(s, origin, id, new_payment, frequency, name, freezer, schedule_periodic_collection).0;
            &&& t.plans[id].merchant == s.plans[id].merchant
            &&& t.plans[id].total_deposits == s.plans[id].total_deposits
            &&& t.plans[id].num_subscribers == s.plans[id].num_subscribers
            &&& t.plans[id].is_frozen == s.plans[id].is_frozen
            &&& t.plans[id].required_payment == new_payment
            &&& t.accounts == s.accounts
            &&& t.funds == s.funds
        }),
{
}

/// Handing a plan over takes it from its merchant: once a signed merchant hands
/// it to another account, that merchant's collection is refused with
/// `UnAuthorisedCall`, and the new owner is the plan's merchant.
pub proof fn law_transfer_moves_ownership(
    s: PalletState,
    merchant: AccountId,
    payment_id: PaymentIndex,
    delegate: AccountId,
)
    requires
        spec_transfer_ownership_plan(s, Origin::Signed(merchant), payment_id, delegate).1 is Ok,
        delegate != merchant,
    ensures
        ({
            let t = spec_transfer_ownership_plan(s, Origin::Signed(merchant), payment_id, delegate).0;
            &&& t.plans[payment_id].merchant == delegate
            &&& spec_collect_payments(t, Origin::Signed(merchant), payment_id).1 == Err::<(), Error>(Error::UnAuthorisedCall)
        }),
{
}

/// Subscribing moves the payment and nothing else: on success the subscriber's
/// free balance falls by the payment, the plan's fund rises by it, and the plan
/// records it in its total deposits.
pub proof fn law_subscription_moves_payment(
    s: PalletState,
    subscriber: AccountId,
    payment_id: PaymentIndex,
    min_payment: Balance,
    num_frequency: Option<u32>,
)
    requires
        spec_subscribe_payment(s, Origin::Signed(subscriber), payment_id, min_payment, num_frequency).1 is Ok,
        s.plans[payment_id].total_deposits + min_payment <= u128::MAX,
    ensures
        ({
            let t = spec_subscribe_payment(s, Origin::Signed(subscriber), payment_id, min_payment, num_frequency).0;
            &&& free_of(t, subscriber) == free_of(s, subscriber) - min_payment
            &&& fund_of(t, payment_id) == fund_of(s, payment_id) + min_payment
            &&& free_of(t, subscriber) + fund_of(t, payment_id) == free_of(s, subscriber) + fund_of(s, payment_id)
            &&& t.plans[payment_id].total_deposits == s.plans[payment_id].total_deposits + min_payment
        }),
{
}

/// Collecting hands the plan's deposits to its merchant: on success the fund
/// falls and the merchant's free balance rises by the plan's total deposits
/// (credit that would overflow the merchant's balance is dropped).
pub proof fn law_collection_pays_merchant(s: PalletState, merchant: AccountId, payment_id: PaymentIndex)
    requires
        spec_collect_payments(s, Origin::Signed(merchant), payment_id).1 is Ok,
        free_of(s, merchant) + s.plans[payment_id].total_deposits <= u128::MAX,
    ensures
        ({
            let t = spec_collect_payments(s, Origin::Signed(merchant), payment_id).0;
            let total = s.plans[payment_id].total_deposits;
            &&& fund_of(t, payment_id) == fund_of(s, payment_id) - total
            &&& free_of(t, merchant) == free_of(s, merchant) + total
        }),
{
}

/// An unsigned call changes nothing: plan creation, subscription, collection,
/// editing, handing over, freezing and deletion are refused with `BadOrigin`.
pub proof fn law_unsigned_calls_change_nothing(
    s: PalletState,
    payment_id: PaymentIndex,
    amount: Balance,
    frequency: Frequency,
    name: Seq<u8>,
    freezer: Option<AccountId>,
    schedule_periodic_collection: Option<Frequency>,
    delegate: AccountId,
)
    ensures
        spec_create_payment_system(s, Origin::Unsigned, amount, frequency, name, freezer, schedule_periodic_collection)
            == (s, Err::<(), Error>(Error::BadOrigin)),
        spec_subscribe_payment(s, Origin::Unsigned, payment_id, amount, None) == (s, Err::<(), Error>(Error::BadOrigin)),
        spec_collect_payments(s, Origin::Unsigned, payment_id) == (s, Err::<(), Error>(Error::BadOrigin)),
        spec_edit_payment_plan(s, Origin::Unsigned, payment_id, amount, frequency, name, freezer, schedule_periodic_collection)
            == (s, Err::<(), Error>(Error::BadOrigin)),
        spec_transfer_ownership_plan(s, Origin::Unsigned, payment_id, delegate) == (s, Err::<(), Error>(Error::BadOrigin)),
        spec_freeze_payment_plan(s, Origin::Unsigned, payment_id) == (s, Err::<(), Error>(Error::BadOrigin)),
        spec_force_delete_plan(s, Origin::Unsigned, payment_id) == (s, Err::<(), Error>(Error::BadOrigin)),
{
}

/// The amounts recorded in `c` from entry `i` on as paid into plan `id`.
pub open spec fn contributed(c: Seq<Contribution>, i: int, id: PaymentIndex) -> int
    decreases c.len() - i,
{
    if i < 0 || i >= c.len() {
        0
    } else if c[i].payment_id != id {
        contributed(c, i + 1, id)
    } else {
        c[i].amount + contributed(c, i + 1, id)
    }
}

proof fn lemma_refund_from_pays(s: PalletState, c: Seq<Contribution>, i: int, id: PaymentIndex, total: Balance, refunded: u32)
    ensures
        spec_refund_from(s, c, i, id, total, refunded).1 is Ok ==>
            fund_of(spec_refund_from(s, c, i, id, total, refunded).0, id) + contributed(c, i, id) == fund_of(s, id),
    decreases c.len() - i,
{
    if i < 0 || i >= c.len() {
    } else if c[i].payment_id != id {
        lemma_refund_from_pays(s, c, i + 1, id, total, refunded);
    } else {
        match spec_pay_out_of_fund(s, id, c[i].who, c[i].amount) {
            Err(_) => {},
            Ok(t) => lemma_refund_from_pays(t, c, i + 1, id, total.saturating_sub(c[i].amount), (refunded + 1) as u32),
        }
    }
}

/// Clearing a plan pays its contributors back out of its fund: on success the
/// fund has given up exactly what the contributions recorded for the plan add up to.
pub proof fn law_clearing_refunds_contributions(
    s: PalletState,
    origin: Origin,
    payment_id: PaymentIndex,
    name: Seq<u8>,
    new_owner: AccountId,
    min_balance: Balance,
    frequency: Frequency,
    freezer: Option<AccountId>,
    is_frozen: bool,
    schedule_periodic_collection: Option<Frequency>,
)
    requires
        spec_force_clear_payment_plan(s, origin, payment_id, name, new_owner, min_balance, frequency, freezer,
            is_frozen, schedule_periodic_collection).1 is Ok,
    ensures
        fund_of(spec_force_clear_payment_plan(s, origin, payment_id, name, new_owner, min_balance, frequency, freezer,
            is_frozen, schedule_periodic_collection).0, payment_id) + contributed(s.contributions, 0, payment_id)
            == fund_of(s, payment_id),
{
    let plan = s.plans[payment_id];
    lemma_refund_from_pays(s, s.contributions, 0, payment_id, plan.total_deposits, 0);
}

/// Unfreezing undoes freezing: a plan its freezer froze is unfrozen by the same
/// freezer, after which the plan is stored as it was before freezing, and a second
/// unfreeze is refused with `AlreadyUnFrozen`.
pub proof fn law_unfreeze_undoes_freeze(s: PalletState, freezer: AccountId, payment_id: PaymentIndex)
    requires
        spec_freeze_payment_plan(s, Origin::Signed(freezer), payment_id).1 is Ok,
        !s.plans[payment_id].is_frozen,
    ensures
        ({
            let frozen = spec_freeze_payment_plan(s, Origin::Signed(freezer), payment_id).0;
            let (thawed, r) = spec_unfreeze_payment_plan(frozen, Origin::Signed(freezer), payment_id);
            &&& r is Ok
            &&& thawed.plans == s.plans
            &&& spec_unfreeze_payment_plan(thawed, Origin::Signed(freezer), payment_id).1
                == Err::<(), Error>(Error::AlreadyUnFrozen)
        }),
{
    let frozen = spec_freeze_payment_plan(s, Origin::Signed(freezer), payment_id).0;
    let thawed = spec_unfreeze_payment_plan(frozen, Origin::Signed(freezer), payment_id).0;
    assert(thawed.plans =~= s.plans);
}

/// A forced payment moves the payment into the plan: when the forced payment is
/// due and allowed, and the subscriber can pay it, the root's call succeeds, the
/// subscriber's free balance falls by the payment, the plan's fund grows by it, and
/// the plan's total deposits grow by it (so a later collection pays it to the
/// merchant); the subscription stays.
pub proof fn law_forced_payment_moves_payment(
    s: PalletState,
    subscriber: AccountId,
    payment_id: PaymentIndex,
    amount: Balance,
)
    requires
        force_pay_refusal(s, subscriber, payment_id) is None,
        free_of(s, subscriber) >= amount,
        fund_of(s, payment_id) + amount <= u128::MAX,
        s.plans[payment_id].total_deposits + amount <= u128::MAX,
    ensures
        ({
            let (t, r) = spec_force_payment(s, Origin::Root, subscriber, payment_id, amount);
            &&& r is Ok
            &&& free_of(t, subscriber) == free_of(s, subscriber) - amount
            &&& fund_of(t, payment_id) == fund_of(s, payment_id) + amount
            &&& t.plans.contains_key(payment_id)
            &&& t.plans[payment_id].total_deposits == s.plans[payment_id].total_deposits + amount
            &&& t.plans[payment_id].merchant == s.plans[payment_id].merchant
            &&& t.subscriptions == s.subscriptions
        }),
{
}

/// Subscribing records the subscriber: on success the subscriber's subscription
/// starts at the current block, is owned by the subscriber, asks for the payment
/// made, follows the plan's frequency and is for that plan alone, and falls due
/// one period later (for a plan with a period that does not run past the last
/// block); the plan counts one more subscriber and the subscriber's recorded
/// contribution grows by the payment.
pub proof fn law_subscription_records_the_subscriber(
    s: PalletState,
    subscriber: AccountId,
    payment_id: PaymentIndex,
    min_payment: Balance,
    num_frequency: Option<u32>,
)
    requires
        spec_subscribe_payment(s, Origin::Signed(subscriber), payment_id, min_payment, num_frequency).1 is Ok,
        s.plans[payment_id].total_deposits + min_payment <= u128::MAX,
        s.plans[payment_id].frequency != Frequency::Never,
        s.block_number + spec_frequency(s.plans[payment_id].frequency) <= u32::MAX,
        contribution_of(s, payment_id, subscriber) + min_payment <= u128::MAX,
    ensures
        ({
            let t = spec_subscribe_payment(s, Origin::Signed(subscriber), payment_id, min_payment, num_frequency).0;
            let sub = t.subscriptions[subscriber];
            let plan = s.plans[payment_id];
            &&& t.subscriptions.contains_key(subscriber)
            &&& sub.owner == subscriber
            &&& sub.start == s.block_number
            &&& sub.required_payment == min_payment
            &&& sub.frequency_of == plan.frequency
            &&& sub.num_frequency == num_frequency
            &&& sub.subscribed_to == seq![payment_id]
            &&& sub.next_payment == s.block_number + spec_frequency(plan.frequency)
            &&& t.plans[payment_id].num_subscribers == plan.num_subscribers + 1
            &&& t.plans[payment_id].merchant == plan.merchant
            &&& contribution_of(t, payment_id, subscriber) == contribution_of(s, payment_id, subscriber) + min_payment
        }),
{
    let s1 = spec_pay_into_fund(s, subscriber, payment_id, min_payment)->Ok_0;
    assert(contribution_of(s1, payment_id, subscriber) == contribution_of(s, payment_id, subscriber));
    let paid = contribution_of(s1, payment_id, subscriber).saturating_add(min_payment);
    law_recorded_contribution_reads_back(s1, payment_id, subscriber, paid);
    let s2 = PalletState { contributions: record_contribution(s1.contributions, payment_id, subscriber, paid), ..s1 };
    let t = spec_subscribe_payment(s, Origin::Signed(subscriber), payment_id, min_payment, num_frequency).0;
    assert(t.contributions == s2.contributions);
}

/// Recording a contribution is read back: after recording `amount` for `who` in
/// plan `id`, the contribution of `who` to `id` is `amount`.
pub proof fn law_recorded_contribution_reads_back(s: PalletState, id: PaymentIndex, who: AccountId, amount: Balance)
    ensures
        contribution_of(PalletState { contributions: record_contribution(s.contributions, id, who, amount), ..s }, id, who) == amount,
{
    let c = s.contributions;
    let t = PalletState { contributions: record_contribution(c, id, who, amount), ..s };
    let d = t.contributions;
    if exists|i: int| #[trigger] first_entry(c, i, id, who) {
        let i = choose|i: int| #[trigger] first_entry(c, i, id, who);
        assert forall|k: int| 0 <= k < i implies !is_entry(d, k, id, who) by {
            assert(d[k] == c[k]);
            assert(!is_entry(c, k, id, who));
        }
        assert(first_entry(d, i, id, who));
        let j = choose|j: int| #[trigger] first_entry(d, j, id, who);
        lemma_first_entry_unique(d, i, j, id, who);
    } else {
        let n = c.len() as int;
        assert forall|k: int| 0 <= k < n implies !is_entry(d, k, id, who) by {
            assert(d[k] == c[k]);
            if is_entry(c, k, id, who) {
                // the least such k would be a first entry of `c`
                lemma_entry_has_first(c, k, id, who);
            }
        }
        assert(first_entry(d, n, id, who));
        let j = choose|j: int| #[trigger] first_entry(d, j, id, who);
        lemma_first_entry_unique(d, n, j, id, who);
    }
}

/// Where `who` has an entry for `id`, it has a first one.
proof fn lemma_entry_has_first(c: Seq<Contribution>, k: int, id: PaymentIndex, who: AccountId)
    requires
        is_entry(c, k, id, who),
    ensures
        exists|i: int| #[trigger] first_entry(c, i, id, who),
    decreases k,
{
    if exists|m: int| 0 <= m < k && is_entry(c, m, id, who) {
        let m = choose|m: int| 0 <= m < k && is_entry(c, m, id, who);
        lemma_entry_has_first(c, m, id, who);
    } else {
        assert(first_entry(c, k, id, who));
    }
}

} // verus!
