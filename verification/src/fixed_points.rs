//! Three multiplicative accumulators in fixed-point arithmetic: one in
//! `Permill`, one in `U16F16`, and one in hand-rolled 16.16 fixed point on `u32`.
use vstd::prelude::*;
use crate::origin::{signer_of, Origin};
use sp_arithmetic::Permill;
use sp_arithmetic::traits::Saturating;
use substrate_fixed::types::U16F16;

verus! {

/// Parts per million of `Permill::one()`.
pub const PERMILL_ONE: u32 = 1_000_000;

/// The raw bits of `U16F16` one (and of the hand-rolled 16.16 one).
pub const FIXED_ONE: u32 = 65_536;

/// `Permill::saturating_mul` of sp-arithmetic on two values given by their parts
/// per million: the product of the parts divided by one million, rounded down.
#[verifier::external_body]
fn permill_saturating_mul(a: u32, b: u32) -> (r: u32)
    requires
        a <= PERMILL_ONE,
        b <= PERMILL_ONE,
    ensures
        r == a * b / 1_000_000,
{
    Saturating::saturating_mul(Permill::from_parts(a), Permill::from_parts(b)).deconstruct()
}

/// The product of two `U16F16` values given by their raw bits, as raw bits: the
/// product of the bits shifted right by sixteen, when the product of the bits is
/// below 2^48 (so the result fits in 32 bits).
pub open spec fn spec_u16f16_product(a: u32, b: u32) -> Option<u32> {
    if a * b < 0x1_0000_0000_0000 { Some((a * b / 65_536) as u32) } else { None }
}

/// `U16F16::checked_mul` of substrate-fixed on two values given by their raw bits:
/// the source widens both to 64 bits, multiplies the first by the second shifted
/// left by sixteen, reports overflow when that 64-bit product overflows, and keeps
/// the upper 32 bits. So the answer is the product of the bits shifted right by
/// sixteen, or `None` when the product of the bits reaches 2^48.
#[verifier::external_body]
fn u16f16_checked_mul(a: u32, b: u32) -> (r: Option<u32>)
    ensures
        r == spec_u16f16_product(a, b),
{
    U16F16::from_bits(a).checked_mul(U16F16::from_bits(b)).map(|x| x.to_bits())
}

/// Why a call of the fixed-point pallet failed.
#[derive(Clone, Copy, Debug, PartialEq, Eq, Structural)]
pub enum Error {
    /// The new accumulated value does not fit its type.
    StorageOverflow,
    /// The call was not signed.
    BadOrigin,
}

/// Events of the fixed-point pallet.
#[derive(Clone, Copy, Debug, PartialEq, Eq, Structural)]
pub enum Event {
    /// New accumulated value and the factor, in parts per million.
    PermillUpdated(u32, u32),
    /// The factor and the new accumulated value, as `U16F16` bits.
    FixedUpdated(u32, u32),
    /// The factor and the new accumulated value, in 16.16 fixed point.
    ManualUpdated(u32, u32),
}

/// The pallet's three accumulators and its deposited events.
pub struct Pallet {
    /// Accumulated `Permill`, in parts per million.
    pub permill_value: u32,
    /// Accumulated `U16F16`, as raw bits.
    pub fixed_value: u32,
    /// Accumulated hand-rolled 16.16 fixed-point value.
    pub manual_value: u32,
    pub events: Vec<Event>,
}

/// The hand-rolled accumulator's value after multiplying by `factor`: the 48.16
/// product shifted back to 16 fractional bits, when it fits in 32 bits.
pub open spec fn spec_manual_product(old: u32, factor: u32) -> Option<u32> {
    let p = (old as int * factor as int) / 65_536;
    if p <= u32::MAX { Some(p as u32) } else { None }
}

/// The default value of the hand-rolled accumulator: one in 16.16 fixed point.
#[allow(non_snake_case)]
pub fn ManualAccumulatorDefaultValue() -> (r: u32)
    ensures
        r == FIXED_ONE,
{
    let one: u32 = 1u32 << 16u32;
    assert(one == 65_536) by (bit_vector)
        requires one == 1u32 << 16u32;
    one
}

impl Pallet {
    /// A pallet whose accumulators all hold one.
    pub fn new() -> (r: Pallet)
        ensures
            r.permill_value == PERMILL_ONE,
            r.fixed_value == FIXED_ONE,
            r.manual_value == FIXED_ONE,
            r.events@ == Seq::<Event>::empty(),
    {
        Pallet {
            permill_value: PERMILL_ONE,
            fixed_value: FIXED_ONE,
            manual_value: ManualAccumulatorDefaultValue(),
            events: Vec::new(),
        }
    }

    /// A signed caller multiplies the `Permill` accumulator by `new_factor` (parts
    /// per million); the product cannot overflow.
    pub fn update_permill(&mut self, origin: Origin, new_factor: u32) -> (r: Result<(), Error>)
        requires
            old(self).permill_value <= PERMILL_ONE,
            new_factor <= PERMILL_ONE,
        ensures
            signer_of(origin) is None ==> r == Err::<(), Error>(Error::BadOrigin) && *final(self) == *old(self),
            signer_of(origin) is Some ==> {
                let v = (old(self).permill_value * new_factor / 1_000_000) as u32;
                &&& r is Ok
                &&& final(self).permill_value == v
                &&& final(self).permill_value <= PERMILL_ONE
                &&& final(self).fixed_value == old(self).fixed_value
                &&& final(self).manual_value == old(self).manual_value
                &&& final(self).events@ == old(self).events@.push(Event::PermillUpdated(v, new_factor))
            },
            signer_of(origin) is Some && new_factor == PERMILL_ONE ==> final(self).permill_value == old(self).permill_value,
    {
        if crate::origin::ensure_signed(origin).is_none() {
            return Err(Error::BadOrigin);
        }
        let old_accumulated = self.permill_value;
        let new_value = permill_saturating_mul(old_accumulated, new_factor);
        assert(old_accumulated * new_factor <= 1_000_000 * 1_000_000) by (nonlinear_arith)
            requires old_accumulated <= 1_000_000, new_factor <= 1_000_000;
        assert(old_accumulated * new_factor / 1_000_000 <= 1_000_000) by (nonlinear_arith)
            requires old_accumulated * new_factor <= 1_000_000 * 1_000_000;
        if new_factor == PERMILL_ONE {
            assert(old_accumulated * new_factor / 1_000_000 == old_accumulated) by (nonlinear_arith)
                requires new_factor == 1_000_000;
        }
        self.permill_value = new_value;
        self.events.push(Event::PermillUpdated(new_value, new_factor));
        Ok(())
    }

    /// A signed caller multiplies the `U16F16` accumulator by `new_factor` (both
    /// as raw bits), refused with `StorageOverflow` when the product does not fit.
    pub fn updated_fixed(&mut self, origin: Origin, new_factor: u32) -> (r: Result<(), Error>)
        ensures
            signer_of(origin) is None ==> r == Err::<(), Error>(Error::BadOrigin) && *final(self) == *old(self),
            signer_of(origin) is Some && spec_u16f16_product(old(self).fixed_value, new_factor) is None ==>
                r == Err::<(), Error>(Error::StorageOverflow) && *final(self) == *old(self),
            signer_of(origin) is Some && spec_u16f16_product(old(self).fixed_value, new_factor) is Some ==> {
                let v = spec_u16f16_product(old(self).fixed_value, new_factor)->0;
                &&& r is Ok
                &&& final(self).fixed_value == v
                &&& final(self).permill_value == old(self).permill_value
                &&& final(self).manual_value == old(self).manual_value
                &&& final(self).events@ == old(self).events@.push(Event::FixedUpdated(new_factor, v))
            },
            signer_of(origin) is Some && new_factor == FIXED_ONE ==> r is Ok && final(self).fixed_value == old(self).fixed_value,
    {
        if crate::origin::ensure_signed(origin).is_none() {
            return Err(Error::BadOrigin);
        }
        let old_accumulated = self.fixed_value;
        if new_factor == FIXED_ONE {
            assert(old_accumulated * new_factor < 0x1_0000_0000_0000 && old_accumulated * new_factor / 65_536 == old_accumulated)
                by (nonlinear_arith)
                requires new_factor == 65_536, old_accumulated <= u32::MAX;
        }
        let new_value = match u16f16_checked_mul(old_accumulated, new_factor) {
            Some(v) => v,
            None => return Err(Error::StorageOverflow),
        };
        self.fixed_value = new_value;
        self.events.push(Event::FixedUpdated(new_factor, new_value));
        Ok(())
    }

    /// A signed caller multiplies the hand-rolled 16.16 accumulator by `new_factor`
    /// (also 16.16): the product is formed in 64 bits and shifted back, refused with
    /// `StorageOverflow` when it does not fit in 32 bits.
    pub fn update_manual(&mut self, origin: Origin, new_factor: u32) -> (r: Result<(), Error>)
        ensures
            signer_of(origin) is None ==> r == Err::<(), Error>(Error::BadOrigin) && *final(self) == *old(self),
            signer_of(origin) is Some && spec_manual_product(old(self).manual_value, new_factor) is None ==>
                r == Err::<(), Error>(Error::StorageOverflow) && *final(self) == *old(self),
            signer_of(origin) is Some && spec_manual_product(old(self).manual_value, new_factor) is Some ==> {
                let v = spec_manual_product(old(self).manual_value, new_factor)->0;
                &&& r is Ok
                &&& final(self).manual_value == v
                &&& final(self).permill_value == old(self).permill_value
                &&& final(self).fixed_value == old(self).fixed_value
                &&& final(self).events@ == old(self).events@.push(Event::ManualUpdated(new_factor, v))
            },
            signer_of(origin) is Some && new_factor == FIXED_ONE ==> r is Ok && final(self).manual_value == old(self).manual_value,
    {
        if crate::origin::ensure_signed(origin).is_none() {
            return Err(Error::BadOrigin);
        }
        let old_accumulated: u64 = self.manual_value as u64;
        let new_factor_u64: u64 = new_factor as u64;
        assert(old_accumulated * new_factor_u64 <= u32::MAX * u32::MAX) by (nonlinear_arith)
            requires old_accumulated <= u32::MAX, new_factor_u64 <= u32::MAX;
        let raw_product: u64 = old_accumulated * new_factor_u64;
        if new_factor == FIXED_ONE {
            assert(old_accumulated * new_factor_u64 / 65_536 == old_accumulated) by (nonlinear_arith)
                requires new_factor_u64 == 65_536;
        }
        let shifted_product: u64 = raw_product >> 16;
        assert(shifted_product == raw_product / 65_536) by (bit_vector)
            requires shifted_product == raw_product >> 16;
        if shifted_product > (u32::MAX as u64) {
            return Err(Error::StorageOverflow);
        }
        let final_product = shifted_product as u32;
        self.manual_value = final_product;
        self.events.push(Event::ManualUpdated(new_factor, final_product));
        Ok(())
    }
}

} // verus!
