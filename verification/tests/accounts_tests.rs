use gamma_pallets::compound_interest::{
    AccountData, Error as InterestError, Event as InterestEvent, Pallet as Interest, CONTINUOUS_RATE_BITS,
    I32F32_ONE_BITS,
};
use gamma_pallets::fixed_points::{
    Error as FixedError, Event as FixedEvent, ManualAccumulatorDefaultValue, Pallet as Fixed, FIXED_ONE,
    PERMILL_ONE,
};
use gamma_pallets::origin::Origin;
use substrate_fixed::types::{I32F32, U16F16};

#[test]
fn accumulators_start_at_one() {
    let p = Fixed::new();
    assert_eq!(p.permill_value, PERMILL_ONE);
    assert_eq!(p.fixed_value, FIXED_ONE);
    assert_eq!(p.manual_value, 1 << 16);
    assert_eq!(ManualAccumulatorDefaultValue(), 65_536);
}

#[test]
fn permill_accumulator_multiplies() {
    let mut p = Fixed::new();
    assert_eq!(p.update_permill(Origin::Unsigned, 500_000), Err(FixedError::BadOrigin));
    assert_eq!(p.update_permill(Origin::Signed(1), 500_000), Ok(()));
    assert_eq!(p.permill_value, 500_000);
    assert_eq!(p.update_permill(Origin::Signed(1), 500_000), Ok(()));
    assert_eq!(p.permill_value, 250_000);
    assert_eq!(p.update_permill(Origin::Signed(1), PERMILL_ONE), Ok(()));
    assert_eq!(p.permill_value, 250_000);
    assert_eq!(p.events.last(), Some(&FixedEvent::PermillUpdated(250_000, PERMILL_ONE)));
}

#[test]
fn fixed_accumulator_multiplies_with_overflow_check() {
    let mut p = Fixed::new();
    // One times two is two.
    assert_eq!(p.updated_fixed(Origin::Signed(1), 2 << 16), Ok(()));
    assert_eq!(p.fixed_value, 2 << 16);
    assert_eq!(p.events.last(), Some(&FixedEvent::FixedUpdated(2 << 16, 2 << 16)));
    // Two times 1.5 is three.
    assert_eq!(p.updated_fixed(Origin::Signed(1), (1 << 16) + (1 << 15)), Ok(()));
    assert_eq!(p.fixed_value, 3 << 16);
    assert_eq!(p.updated_fixed(Origin::Signed(1), FIXED_ONE), Ok(()));
    assert_eq!(p.fixed_value, 3 << 16);
    assert_eq!(p.updated_fixed(Origin::Signed(1), u32::MAX), Err(FixedError::StorageOverflow));
    assert_eq!(p.fixed_value, 3 << 16);
    // Agrees with substrate-fixed's own product.
    let a = U16F16::from_bits(3 << 16);
    let b = U16F16::from_bits(12_345);
    assert_eq!(p.updated_fixed(Origin::Signed(1), 12_345), Ok(()));
    assert_eq!(p.fixed_value, (a * b).to_bits());
}

#[test]
fn manual_accumulator_multiplies_in_sixteen_sixteen() {
    let mut p = Fixed::new();
    // 1.5 times one is 1.5.
    assert_eq!(p.update_manual(Origin::Signed(1), 98_304), Ok(()));
    assert_eq!(p.manual_value, 98_304);
    assert_eq!(p.update_manual(Origin::Signed(1), FIXED_ONE), Ok(()));
    assert_eq!(p.manual_value, 98_304);
    assert_eq!(p.events.last(), Some(&FixedEvent::ManualUpdated(FIXED_ONE, 98_304)));
    p.manual_value = u32::MAX;
    assert_eq!(p.update_manual(Origin::Signed(1), 1 << 17), Err(FixedError::StorageOverflow));
}

#[test]
fn interest_rates() {
    assert_eq!(Interest::discrete_interest_rate(), 6);
    assert_eq!(Interest::continuous_interest_rate(), CONTINUOUS_RATE_BITS);
    assert_eq!(CONTINUOUS_RATE_BITS, (I32F32::from_num(3) / 50).to_bits());
    assert_eq!(I32F32_ONE_BITS, I32F32::from_num(1).to_bits());
}

#[test]
fn discrete_account_earns_every_tenth_block() {
    let mut p = Interest::new(0);
    assert_eq!(p.deposit_discrete(Origin::Unsigned, 5), Err(InterestError::BadOrigin));
    assert_eq!(p.deposit_discrete(Origin::Signed(1), 1_000), Ok(()));
    p.on_finalize(7);
    assert_eq!(p.discrete_account, 1_000);
    p.on_finalize(10);
    // Six percent a block, over ten blocks.
    assert_eq!(p.discrete_account, 1_600);
    assert_eq!(p.events.last(), Some(&InterestEvent::DiscreteInterestApplied(600)));
}

#[test]
fn discrete_withdrawal_takes_from_the_balance() {
    let mut p = Interest::new(0);
    p.deposit_discrete(Origin::Signed(1), 100).unwrap();
    assert_eq!(p.withdraw_discrete(Origin::Signed(1), 40), Ok(()));
    assert_eq!(p.discrete_account, 60);
    assert_eq!(p.events.last(), Some(&InterestEvent::WithdrewDiscrete(40)));
}

#[test]
fn discrete_deposit_then_withdrawal_restores_the_balance() {
    let mut p = Interest::new(0);
    p.deposit_discrete(Origin::Signed(1), 25).unwrap();
    p.deposit_discrete(Origin::Signed(1), 70).unwrap();
    p.withdraw_discrete(Origin::Signed(1), 70).unwrap();
    assert_eq!(p.discrete_account, 25);
}

#[test]
fn discrete_withdrawal_over_the_balance_is_refused() {
    let mut p = Interest::new(0);
    p.deposit_discrete(Origin::Signed(1), 10).unwrap();
    assert_eq!(p.withdraw_discrete(Origin::Signed(1), 11), Err(InterestError::InsufficientBalance));
    assert_eq!(p.discrete_account, 10);
}

#[test]
fn continuous_account_compounds() {
    let mut p = Interest::new(0);
    assert_eq!(p.deposit_continuous(Origin::Signed(1), 100), Ok(()));
    assert_eq!(p.accounts, AccountData { principal: I32F32::from_num(100).to_bits(), deposit_date: 0 });
    p.block_number = 10;
    let expected = I32F32::from_num(100)
        * substrate_fixed::transcendental::exp::<I32F32, I32F32>(I32F32::from_bits(CONTINUOUS_RATE_BITS) * I32F32::from_num(10))
            .unwrap();
    assert_eq!(p.checked_value_continuous(10), Some(expected.to_bits()));
    assert_eq!(p.withdraw_continuous(Origin::Signed(1), 50), Ok(()));
    assert_eq!(p.accounts.principal, (expected - I32F32::from_num(50)).to_bits());
    assert_eq!(p.accounts.deposit_date, 10);
    assert_eq!(p.checked_value_continuous(5), None);
}
