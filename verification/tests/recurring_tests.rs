use gamma_pallets::origin::Origin;
use gamma_pallets::recurring::state::{
    id_from_index, BalancesError, Config, Error, Event, Pallet, SchedulerError,
};
use gamma_pallets::recurring::types::{Frequency, Portion};

const MERCHANT: u64 = 1;
const SUBSCRIBER: u64 = 2;
const OTHER: u64 = 3;

fn setup() -> Pallet {
    let mut p = Pallet::new(Config { string_limit: 8, submission_deposit: 10 });
    p.set_block_number(5);
    p.set_free_balance(MERCHANT, 100);
    p.set_free_balance(SUBSCRIBER, 500);
    p.set_free_balance(OTHER, 500);
    p
}

fn with_plan() -> Pallet {
    let mut p = setup();
    p.create_payment_system(Origin::Signed(MERCHANT), 50, Frequency::Monthly, b"gym".to_vec(), Some(MERCHANT), None)
        .unwrap();
    p
}

#[test]
fn frequencies_in_blocks() {
    assert_eq!(Frequency::Daily.frequency(), 14_400);
    assert_eq!(Frequency::Weekly.frequency(), 100_800);
    assert_eq!(Frequency::Forthnightly.frequency(), 50_400);
    assert_eq!(Frequency::Monthly.frequency(), 403_200);
    assert_eq!(Frequency::Yearly.frequency(), 4_838_400);
    assert_eq!(Frequency::Never.frequency(), 0);
}

#[test]
fn portions_in_percent() {
    assert_eq!(Portion::Full.portion(), 100);
    assert_eq!(Portion::Half.portion(), 50);
    assert_eq!(Portion::AQuarter.portion(), 25);
    assert_eq!(Portion::ThreeQuarters.portion(), 75);
}

#[test]
fn creating_a_plan_takes_the_deposit_and_next_index() {
    let p = with_plan();
    assert_eq!(p.paymentid(), 1);
    assert!(p.plan_exists(0));
    let plan = p.info(0);
    assert_eq!(plan.merchant, MERCHANT);
    assert_eq!(plan.required_payment, 50);
    assert!(!plan.is_frozen);
    assert_eq!(p.free_balance(MERCHANT), 90);
    assert_eq!(p.fund_balance(0), 10);
    assert_eq!(p.events().last(), Some(&Event::PaymentPlanCreated { merchant: MERCHANT, id: 0, now: 5 }));
}

#[test]
fn creating_a_plan_refuses_long_names_and_poor_merchants() {
    let mut p = setup();
    assert_eq!(
        p.create_payment_system(Origin::Signed(MERCHANT), 50, Frequency::Monthly, b"much too long".to_vec(), None, None),
        Err(Error::BadMetadata)
    );
    p.set_free_balance(MERCHANT, 3);
    assert_eq!(
        p.create_payment_system(Origin::Signed(MERCHANT), 50, Frequency::Monthly, b"gym".to_vec(), None, None),
        Err(Error::Balances(BalancesError::InsufficientBalance))
    );
}

#[test]
fn unsigned_calls_are_refused() {
    let mut p = with_plan();
    assert_eq!(p.subscribe_payment(Origin::Unsigned, 0, 50, None), Err(Error::BadOrigin));
    assert_eq!(p.collect_payments(Origin::Unsigned, 0, None), Err(Error::BadOrigin));
    assert_eq!(p.freeze_payment_plan(Origin::Unsigned, 0), Err(Error::BadOrigin));
    assert_eq!(
        p.create_payment_system(Origin::Unsigned, 50, Frequency::Daily, b"x".to_vec(), None, None),
        Err(Error::BadOrigin)
    );
    assert_eq!(p.paymentid(), 1);
}

#[test]
fn subscribing_moves_the_payment_into_the_fund() {
    let mut p = with_plan();
    assert_eq!(p.subscribe_payment(Origin::Signed(SUBSCRIBER), 0, 60, None), Ok(()));
    assert_eq!(p.free_balance(SUBSCRIBER), 440);
    assert_eq!(p.fund_balance(0), 70);
    assert_eq!(p.info(0).total_deposits, 60);
    assert_eq!(p.get_payment_info(0, SUBSCRIBER), 60);
    let sub = p.subscribe(SUBSCRIBER);
    assert_eq!(sub.start, 5);
    assert_eq!(sub.next_payment, 5 + 403_200);
    assert_eq!(sub.subscribed_to, vec![0]);
    assert_eq!(p.agenda_len(), 1);
}

#[test]
fn subscribing_refuses_small_payments_and_missing_plans() {
    let mut p = with_plan();
    assert_eq!(p.subscribe_payment(Origin::Signed(SUBSCRIBER), 0, 49, None), Err(Error::InsufficientBalance));
    assert_eq!(p.subscribe_payment(Origin::Signed(SUBSCRIBER), 7, 60, None), Err(Error::PaymentPlanDoesNotExist));
    assert_eq!(p.free_balance(SUBSCRIBER), 500);
}

#[test]
fn frozen_plans_refuse_subscriptions() {
    let mut p = with_plan();
    assert_eq!(p.freeze_payment_plan(Origin::Signed(OTHER), 0), Err(Error::UnAuthorisedCall));
    assert_eq!(p.freeze_payment_plan(Origin::Signed(MERCHANT), 0), Ok(()));
    assert_eq!(p.subscribe_payment(Origin::Signed(SUBSCRIBER), 0, 60, None), Err(Error::Frozen));
    assert_eq!(p.free_balance(SUBSCRIBER), 500);
    // Unfreezing lets subscriptions in again; a second unfreeze is refused.
    assert_eq!(p.unfreeze_payment_plan(Origin::Signed(OTHER), 0), Err(Error::UnAuthorisedCall));
    assert_eq!(p.unfreeze_payment_plan(Origin::Signed(MERCHANT), 0), Ok(()));
    assert!(!p.info(0).is_frozen);
    assert_eq!(p.unfreeze_payment_plan(Origin::Signed(MERCHANT), 0), Err(Error::AlreadyUnFrozen));
    assert_eq!(p.subscribe_payment(Origin::Signed(SUBSCRIBER), 0, 60, None), Ok(()));
}

#[test]
fn collecting_pays_the_merchant() {
    let mut p = with_plan();
    p.subscribe_payment(Origin::Signed(SUBSCRIBER), 0, 60, None).unwrap();
    assert_eq!(p.collect_payments(Origin::Signed(OTHER), 0, None), Err(Error::UnAuthorisedCall));
    assert_eq!(p.collect_payments(Origin::Signed(MERCHANT), 0, None), Ok(()));
    assert_eq!(p.free_balance(MERCHANT), 150);
    assert_eq!(p.fund_balance(0), 10);
}

#[test]
fn collecting_nothing_is_refused() {
    let mut p = with_plan();
    assert_eq!(p.collect_payments(Origin::Signed(MERCHANT), 0, None), Err(Error::InsufficientBalance));
}

#[test]
fn handing_over_a_plan_takes_it_from_its_merchant() {
    let mut p = with_plan();
    p.subscribe_payment(Origin::Signed(SUBSCRIBER), 0, 60, None).unwrap();
    assert_eq!(p.transfer_ownership_plan(Origin::Signed(MERCHANT), 0, OTHER), Ok(()));
    assert_eq!(p.info(0).merchant, OTHER);
    assert_eq!(p.collect_payments(Origin::Signed(MERCHANT), 0, None), Err(Error::UnAuthorisedCall));
    assert_eq!(p.collect_payments(Origin::Signed(OTHER), 0, None), Ok(()));
}

#[test]
fn editing_keeps_the_deposits() {
    let mut p = with_plan();
    p.subscribe_payment(Origin::Signed(SUBSCRIBER), 0, 60, None).unwrap();
    assert_eq!(
        p.edit_payment_plan(Origin::Signed(MERCHANT), 0, 80, Frequency::Weekly, b"pool".to_vec(), None, None),
        Ok(())
    );
    let plan = p.info(0);
    assert_eq!(plan.required_payment, 80);
    assert_eq!(plan.frequency, Frequency::Weekly);
    assert_eq!(plan.name, b"pool".to_vec());
    assert_eq!(plan.total_deposits, 60);
    assert_eq!(plan.merchant, MERCHANT);
}

#[test]
fn deleted_plans_are_gone() {
    let mut p = with_plan();
    p.subscribe_payment(Origin::Signed(SUBSCRIBER), 0, 60, None).unwrap();
    assert_eq!(p.force_delete_plan(Origin::Signed(OTHER), 0), Err(Error::UnAuthorisedCall));
    assert_eq!(p.force_delete_plan(Origin::Root, 0), Ok(()));
    assert!(!p.plan_exists(0));
    assert_eq!(p.free_balance(MERCHANT), 150);
    assert_eq!(p.subscribe_payment(Origin::Signed(OTHER), 0, 60, None), Err(Error::PaymentPlanDoesNotExist));
    assert_eq!(p.collect_payments(Origin::Signed(MERCHANT), 0, None), Err(Error::PaymentPlanDoesNotExist));
}

#[test]
fn due_dates_skip_the_current_block() {
    let p = with_plan();
    assert_eq!(p.calculate_next_duedate(5, Frequency::Daily), Ok(5 + 14_400));
    assert_eq!(p.calculate_next_duedate(5, Frequency::Never), Ok(5));
    assert_eq!(p.calculate_next_duedate(u32::MAX - 1, Frequency::Daily), Ok(u32::MAX));
}

#[test]
fn refund_ratio() {
    assert_eq!(Pallet::calculate_ratio_start_end(3, 5, 5, 70), Err(Error::MinCannotBeZero));
    // Nothing of the period has passed: the whole balance.
    assert_eq!(Pallet::calculate_ratio_start_end(0, 1, 0, 70), Ok(70));
    assert_eq!(Pallet::calculate_ratio_start_end(10, 11, 5, 70), Ok(70));
    // The unspent share, rounded down.
    assert_eq!(Pallet::calculate_ratio_start_end(0, 10, 4, 100), Ok(60));
    assert_eq!(Pallet::calculate_ratio_start_end(0, 3, 1, 100), Ok(66));
    assert_eq!(Pallet::calculate_ratio_start_end(5, 14_405, 3_605, 60), Ok(45));
    assert_eq!(Pallet::calculate_ratio_start_end(0, u32::MAX, 1, u128::MAX), Ok(u128::MAX / 4_294_967_295 * 4_294_967_294 + (u128::MAX % 4_294_967_295) * 4_294_967_294 / 4_294_967_295));
    // The period is over: nothing.
    assert_eq!(Pallet::calculate_ratio_start_end(0, 10, 11, 100), Ok(0));
}

#[test]
fn clearing_a_plan_refunds_its_contributors() {
    let mut p = with_plan();
    p.subscribe_payment(Origin::Signed(SUBSCRIBER), 0, 60, None).unwrap();
    p.subscribe_payment(Origin::Signed(OTHER), 0, 70, None).unwrap();
    assert_eq!(p.fund_balance(0), 140);
    let r = p.force_clear_payment_plan(Origin::Signed(MERCHANT), 0, b"new".to_vec(), MERCHANT, 5, Frequency::Daily, None, false, None);
    assert_eq!(r, Ok(()));
    assert_eq!(p.fund_balance(0), 10);
    assert_eq!(p.free_balance(SUBSCRIBER), 500);
    assert_eq!(p.free_balance(OTHER), 500);
    assert_eq!(p.info(0).total_deposits, 0);
    assert_eq!(p.info(0).required_payment, 5);
}

#[test]
fn killing_a_payment_system_forgets_its_contributions() {
    let mut p = with_plan();
    p.subscribe_payment(Origin::Signed(SUBSCRIBER), 0, 60, None).unwrap();
    p.kill_paymentsystem(0);
    assert_eq!(p.get_payment_info(0, SUBSCRIBER), 0);
}

#[test]
fn child_trie_id_hashes_the_index() {
    let mut seed = b"payment".to_vec();
    seed.extend_from_slice(&7u32.to_le_bytes());
    assert_eq!(id_from_index(7), sp_crypto_hashing::blake2_256(&seed));
    assert_ne!(id_from_index(7), id_from_index(8));
}

#[test]
fn forced_plans_hold_no_assets() {
    let mut p = setup();
    assert_eq!(
        p.force_create_new(Origin::Signed(MERCHANT), MERCHANT, b"vip".to_vec(), Frequency::Daily, 70, None, true, None),
        Err(Error::BadOrigin)
    );
    assert_eq!(p.force_create_new(Origin::Root, OTHER, b"vip".to_vec(), Frequency::Daily, 70, None, true, None), Ok(()));
    let plan = p.info(0);
    assert_eq!(plan.merchant, OTHER);
    assert_eq!(plan.required_payment, 0);
    assert!(!plan.is_frozen);
    assert_eq!(p.free_balance(OTHER), 500);
    assert_eq!(p.fund_balance(0), 0);
}

#[test]
fn only_signed_freezers_freeze() {
    let mut p = with_plan();
    assert_eq!(p.freeze_payment_plan(Origin::Root, 0), Err(Error::BadOrigin));
    assert!(!p.info(0).is_frozen);
}

#[test]
fn subscriptions_record_their_number_of_periods() {
    let mut p = with_plan();
    assert_eq!(p.info(0).num_subscribers, 0);
    p.subscribe_payment(Origin::Signed(SUBSCRIBER), 0, 60, Some(3)).unwrap();
    assert_eq!(p.subscribe(SUBSCRIBER).num_frequency, Some(3));
    assert_eq!(p.info(0).num_subscribers, 1);
    p.subscribe_payment(Origin::Signed(OTHER), 0, 60, None).unwrap();
    assert_eq!(p.info(0).num_subscribers, 2);
}

fn cancellable() -> Pallet {
    let mut p = setup();
    p.create_payment_system(Origin::Signed(MERCHANT), 50, Frequency::Daily, b"gym".to_vec(), None, None).unwrap();
    p.subscribe_payment(Origin::Signed(SUBSCRIBER), 0, 60, None).unwrap();
    assert_eq!(p.subscribe(SUBSCRIBER).start, 5);
    assert_eq!(p.subscribe(SUBSCRIBER).next_payment, 5 + 14_400);
    // A quarter of the day has passed.
    p.set_block_number(5 + 3_600);
    p
}

#[test]
fn cancelling_refunds_and_destroys_the_subscription() {
    let mut p = cancellable();
    // Subscribing put the forced payment of the period on the agenda.
    assert_eq!(p.agenda_len(), 1);
    let fund = p.fund_balance(0);
    assert_eq!(p.cancel_subscription(Origin::Signed(SUBSCRIBER), 0), Ok(()));
    // Three quarters of the 60 paid come back.
    assert_eq!(p.free_balance(SUBSCRIBER), 440 + 45);
    assert_eq!(p.fund_balance(0), fund - 45);
    assert!(!p.has_subscription(SUBSCRIBER));
    assert_eq!(p.agenda_len(), 0);
    let events = p.events();
    assert_eq!(events[events.len() - 2], Event::PaymentRefundedToUser { user: SUBSCRIBER, id: 0, now: 3_605 });
    assert_eq!(events[events.len() - 1], Event::RecurringPaymentCancelled { user: SUBSCRIBER, id: 0, now: 3_605 });
}

#[test]
fn cancelling_without_a_scheduled_task_keeps_the_refund() {
    let mut p = cancellable();
    p.agenda.clear();
    assert_eq!(p.cancel_subscription(Origin::Signed(SUBSCRIBER), 0), Err(Error::Scheduler(SchedulerError::NotFound)));
    assert_eq!(p.free_balance(SUBSCRIBER), 485);
    assert!(p.has_subscription(SUBSCRIBER));
    assert_eq!(p.force_cancel_subscription(Origin::Signed(MERCHANT), 0, SUBSCRIBER), Err(Error::BadOrigin));
    assert_eq!(p.cancel_subscription(Origin::Signed(SUBSCRIBER), 9), Err(Error::PaymentPlanDoesNotExist));
}
