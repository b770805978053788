//! Two interest-bearing accounts: one compounding continuously in `I32F32`
//! fixed point, one accruing discrete interest every ten blocks.
use vstd::prelude::*;
use crate::origin::{signer_of, BlockNumber, Origin};
use sp_arithmetic::Percent;
use substrate_fixed::types::I32F32;
use substrate_fixed::transcendental::exp;

verus! {

/// Bits of `I32F32` one.
pub const I32F32_ONE_BITS: i64 = 4_294_967_296;

/// Bits of the continuous interest rate `I32F32::from_num(3) / 50` (six percent).
pub const CONTINUOUS_RATE_BITS: i64 = 257_698_037;

/// What `substrate_fixed::transcendental::exp` gives for an `I32F32` operand, as raw
/// bits (`None` when the series overflows).
pub uninterp spec fn fixed_exp(operand_bits: i64) -> Option<i64>;

/// `I32F32::from_num` of substrate-fixed on an unsigned integer: the integer shifted
/// by 32 fractional bits. It does not fit (and panics) from 2^31 on.
#[verifier::external_body]
fn i32f32_from_u64(val: u64) -> (r: i64)
    requires
        val <= i32::MAX,
    ensures
        r == val * I32F32_ONE_BITS,
{
    I32F32::from_num(val).to_bits()
}

/// `I32F32::from_num` of substrate-fixed on a `u32`.
#[verifier::external_body]
fn i32f32_from_u32(val: u32) -> (r: i64)
    requires
        val <= i32::MAX,
    ensures
        r == val * I32F32_ONE_BITS,
{
    I32F32::from_num(val).to_bits()
}

/// `I32F32` division by an integer (`Div<i64>` of substrate-fixed): the bits divided
/// by the integer, truncated towards zero.
#[verifier::external_body]
fn i32f32_div_int(a: i64, b: i64) -> (r: i64)
    requires
        a >= 0,
        b > 0,
    ensures
        r == a / b,
{
    (I32F32::from_bits(a) / b).to_bits()
}

/// `I32F32` multiplication of substrate-fixed: the product of the bits shifted right
/// by 32 (rounding down), truncated to 64 bits. It panics when the 128-bit
/// intermediate `a * b * 2^32` overflows.
#[verifier::external_body]
fn i32f32_mul(a: i64, b: i64) -> (r: i64)
    requires
        -0x8000_0000_0000_0000_0000_0000 <= a * b < 0x8000_0000_0000_0000_0000_0000,
    ensures
        r == ((a * b) / (I32F32_ONE_BITS as int)) as i64,
{
    (I32F32::from_bits(a) * I32F32::from_bits(b)).to_bits()
}

/// `I32F32` addition of substrate-fixed (panics on overflow).
#[verifier::external_body]
fn i32f32_add(a: i64, b: i64) -> (r: i64)
    requires
        i64::MIN <= a + b <= i64::MAX,
    ensures
        r == a + b,
{
    (I32F32::from_bits(a) + I32F32::from_bits(b)).to_bits()
}

/// `I32F32` subtraction of substrate-fixed (panics on overflow).
#[verifier::external_body]
fn i32f32_sub(a: i64, b: i64) -> (r: i64)
    requires
        i64::MIN <= a - b <= i64::MAX,
    ensures
        r == a - b,
{
    (I32F32::from_bits(a) - I32F32::from_bits(b)).to_bits()
}

/// `substrate_fixed::transcendental::exp` on an `I32F32`, as raw bits.
#[verifier::external_body]
fn i32f32_exp(operand: i64) -> (r: Option<i64>)
    ensures
        r == fixed_exp(operand),
{
    exp::<I32F32, I32F32>(I32F32::from_bits(operand)).ok().map(|x: I32F32| x.to_bits())
}

/// `Percent * u64` of sp-arithmetic: `x` scaled by `p` percent, rounding to the
/// nearest and halves down.
#[verifier::external_body]
fn percent_mul_u64(p: u8, x: u64) -> (r: u64)
    requires
        p <= 100,
    ensures
        r == spec_percent_mul(p, x),
{
    Percent::from_percent(p) * x
}

/// `x` times `p` percent: `(x / 100) * p` plus the remainder's share, rounded to
/// the nearest with halves rounding down.
pub open spec fn spec_percent_mul(p: u8, x: u64) -> u64 {
    let rem_mul = (x % 100) * p;
    let correction = rem_mul / 100 + (if rem_mul % 100 > 50 { 1int } else { 0int });
    ((x / 100) * p + correction) as u64
}

/// The continuous account: its balance after the last adjustment and when that was.
#[derive(Clone, Copy, Debug, PartialEq, Eq, Structural)]
pub struct AccountData {
    /// `I32F32` bits of the principal.
    pub principal: i64,
    pub deposit_date: BlockNumber,
}

/// Why a call of the interest pallet failed.
#[derive(Clone, Copy, Debug, PartialEq, Eq, Structural)]
pub enum Error {
    NoneValue,
    StorageOverflow,
    U32ConversionError,
    /// The call was not signed.
    BadOrigin,
    /// A withdrawal asked for more than the account holds.
    InsufficientBalance,
}

/// Events of the interest pallet.
#[derive(Clone, Copy, Debug, PartialEq, Eq, Structural)]
pub enum Event {
    DepositedContinuous(u64),
    WithdrewContinuous(u64),
    DepositedDiscrete(u64),
    WithdrewDiscrete(u64),
    /// The interest amount applied (not the new or old balance).
    DiscreteInterestApplied(u64),
}

/// The pallet's accounts, the current block and its deposited events.
pub struct Pallet {
    pub accounts: AccountData,
    pub discrete_account: u64,
    pub block_number: BlockNumber,
    pub events: Vec<Event>,
}

/// `I32F32` bits of the continuous exponent after `elapsed` blocks: the rate times
/// the elapsed time.
pub open spec fn spec_exponent(elapsed: u32) -> i64 {
    (CONTINUOUS_RATE_BITS * elapsed) as i64
}

/// Whether the continuous account can be valued at block `now` without a panic:
/// the block is not before the last deposit, the elapsed time fits an `I32F32`, the
/// exponential is defined and the product with the principal stays in range.
pub open spec fn valuable(acc: AccountData, now: BlockNumber) -> bool {
    let elapsed = now - acc.deposit_date;
    &&& acc.deposit_date <= now
    &&& elapsed <= i32::MAX
    &&& fixed_exp(spec_exponent(elapsed as u32)) is Some
    &&& -0x8000_0000_0000_0000_0000_0000 <= acc.principal * fixed_exp(spec_exponent(elapsed as u32))->0
        < 0x8000_0000_0000_0000_0000_0000
}

/// The continuous account's value at `now`: principal times e^(rate * elapsed), in
/// `I32F32` bits.
pub open spec fn spec_value_continuous(acc: AccountData, now: BlockNumber) -> i64 {
    let e = fixed_exp(spec_exponent((now - acc.deposit_date) as u32))->0;
    ((acc.principal * e) / (I32F32_ONE_BITS as int)) as i64
}

impl Pallet {
    /// The interest pallet at block `block_number` with empty accounts.
    pub fn new(block_number: BlockNumber) -> (r: Pallet)
        ensures
            r.accounts == (AccountData { principal: 0, deposit_date: 0 }),
            r.discrete_account == 0,
            r.block_number == block_number,
            r.events@ == Seq::<Event>::empty(),
    {
        Pallet { accounts: AccountData { principal: 0, deposit_date: 0 }, discrete_account: 0, block_number, events: Vec::new() }
    }

    /// The hard-coded discrete interest rate, in percent.
    pub fn discrete_interest_rate() -> (r: u8)
        ensures
            r == 6,
    {
        6
    }

    /// The continuous interest rate, `I32F32::from_num(3) / 50`, in bits.
    pub fn continuous_interest_rate() -> (r: i64)
        ensures
            r == CONTINUOUS_RATE_BITS,
    {
        let three = i32f32_from_u64(3);
        i32f32_div_int(three, 50)
    }

    /// The value of the continuous account at block `now`.
    fn value_continuous(&self, now: BlockNumber) -> (r: i64)
        requires
            valuable(self.accounts, now),
        ensures
            r == spec_value_continuous(self.accounts, now),
    {
        let acc = self.accounts;
        let elapsed: u32 = now - acc.deposit_date;
        let elapsed_fixed = i32f32_from_u32(elapsed);
        let rate = Self::continuous_interest_rate();
        assert(rate * elapsed_fixed == CONTINUOUS_RATE_BITS * elapsed * I32F32_ONE_BITS) by (nonlinear_arith)
            requires rate == CONTINUOUS_RATE_BITS, elapsed_fixed == elapsed * I32F32_ONE_BITS;
        assert(0 <= CONTINUOUS_RATE_BITS * elapsed <= CONTINUOUS_RATE_BITS * i32::MAX) by (nonlinear_arith)
            requires elapsed <= i32::MAX;
        assert((CONTINUOUS_RATE_BITS * elapsed * I32F32_ONE_BITS) / (I32F32_ONE_BITS as int) == CONTINUOUS_RATE_BITS * elapsed)
            by (nonlinear_arith);
        assert(CONTINUOUS_RATE_BITS * elapsed * I32F32_ONE_BITS < 0x8000_0000_0000_0000_0000_0000) by (nonlinear_arith)
            requires 0 <= CONTINUOUS_RATE_BITS * elapsed <= CONTINUOUS_RATE_BITS * i32::MAX;
        let exponent = i32f32_mul(rate, elapsed_fixed);
        let exp_result = match i32f32_exp(exponent) {
            Some(e) => e,
            None => {
                assert(false);
                0
            },
        };
        i32f32_mul(acc.principal, exp_result)
    }

    /// A signed caller deposits `val` into the continuous account: its current value
    /// plus `val` becomes the principal, dated now.
    pub fn deposit_continuous(&mut self, origin: Origin, val: u64) -> (r: Result<(), Error>)
        requires
            signer_of(origin) is Some ==> {
                &&& valuable(old(self).accounts, old(self).block_number)
                &&& val <= i32::MAX
                &&& i64::MIN <= spec_value_continuous(old(self).accounts, old(self).block_number) + val * I32F32_ONE_BITS <= i64::MAX
            },
        ensures
            signer_of(origin) is None ==> r == Err::<(), Error>(Error::BadOrigin) && *final(self) == *old(self),
            signer_of(origin) is Some ==> r is Ok && *final(self) == (Pallet {
                accounts: AccountData {
                    principal: (spec_value_continuous(old(self).accounts, old(self).block_number) + val * I32F32_ONE_BITS) as i64,
                    deposit_date: old(self).block_number,
                },
                events: final(self).events,
                ..*old(self)
            }) && final(self).events@ == old(self).events@.push(Event::DepositedContinuous(val)),
    {
        if crate::origin::ensure_signed(origin).is_none() {
            return Err(Error::BadOrigin);
        }
        let now = self.block_number;
        let old_value = self.value_continuous(now);
        let add = i32f32_from_u64(val);
        self.accounts = AccountData { principal: i32f32_add(old_value, add), deposit_date: now };
        self.events.push(Event::DepositedContinuous(val));
        Ok(())
    }

    /// A signed caller withdraws `val` from the continuous account: its current value
    /// less `val` becomes the principal, dated now.
    pub fn withdraw_continuous(&mut self, origin: Origin, val: u64) -> (r: Result<(), Error>)
        requires
            signer_of(origin) is Some ==> {
                &&& valuable(old(self).accounts, old(self).block_number)
                &&& val <= i32::MAX
                &&& i64::MIN <= spec_value_continuous(old(self).accounts, old(self).block_number) - val * I32F32_ONE_BITS <= i64::MAX
            },
        ensures
            signer_of(origin) is None ==> r == Err::<(), Error>(Error::BadOrigin) && *final(self) == *old(self),
            signer_of(origin) is Some ==> r is Ok && *final(self) == (Pallet {
                accounts: AccountData {
                    principal: (spec_value_continuous(old(self).accounts, old(self).block_number) - val * I32F32_ONE_BITS) as i64,
                    deposit_date: old(self).block_number,
                },
                events: final(self).events,
                ..*old(self)
            }) && final(self).events@ == old(self).events@.push(Event::WithdrewContinuous(val)),
    {
        if crate::origin::ensure_signed(origin).is_none() {
            return Err(Error::BadOrigin);
        }
        let now = self.block_number;
        let old_value = self.value_continuous(now);
        let sub = i32f32_from_u64(val);
        self.accounts = AccountData { principal: i32f32_sub(old_value, sub), deposit_date: now };
        self.events.push(Event::WithdrewContinuous(val));
        Ok(())
    }

    /// A signed caller deposits `val` into the discrete account.
    pub fn deposit_discrete(&mut self, origin: Origin, val: u64) -> (r: Result<(), Error>)
        requires
            signer_of(origin) is Some ==> old(self).discrete_account + val <= u64::MAX,
        ensures
            signer_of(origin) is None ==> r == Err::<(), Error>(Error::BadOrigin) && *final(self) == *old(self),
            signer_of(origin) is Some ==> r is Ok
                && final(self).discrete_account == old(self).discrete_account + val
                && final(self).accounts == old(self).accounts
                && final(self).block_number == old(self).block_number
                && final(self).events@ == old(self).events@.push(Event::DepositedDiscrete(val)),
    {
        if crate::origin::ensure_signed(origin).is_none() {
            return Err(Error::BadOrigin);
        }
        let old_val = self.discrete_account;
        self.discrete_account = val + old_val;
        self.events.push(Event::DepositedDiscrete(val));
        Ok(())
    }

    /// A signed caller withdraws `val` from the discrete account; refused with
    /// `InsufficientBalance` when the account holds less.
    pub fn withdraw_discrete(&mut self, origin: Origin, val: u64) -> (r: Result<(), Error>)
        ensures
            signer_of(origin) is None ==> r == Err::<(), Error>(Error::BadOrigin) && *final(self) == *old(self),
            signer_of(origin) is Some && val > old(self).discrete_account ==>
                r == Err::<(), Error>(Error::InsufficientBalance) && *final(self) == *old(self),
            signer_of(origin) is Some && val <= old(self).discrete_account ==> r is Ok
                && final(self).discrete_account == old(self).discrete_account - val
                && final(self).accounts == old(self).accounts
                && final(self).block_number == old(self).block_number
                && final(self).events@ == old(self).events@.push(Event::WithdrewDiscrete(val)),
    {
        if crate::origin::ensure_signed(origin).is_none() {
            return Err(Error::BadOrigin);
        }
        let old_val = self.discrete_account;
        if val > old_val {
            return Err(Error::InsufficientBalance);
        }
        self.discrete_account = old_val - val;
        self.events.push(Event::WithdrewDiscrete(val));
        Ok(())
    }

    /// End of block `n`: every tenth block the discrete account earns ten blocks of
    /// six percent interest.
    pub fn on_finalize(&mut self, n: BlockNumber)
        requires
            n % 10 == 0 ==> spec_percent_mul(6, old(self).discrete_account) * 10 <= u64::MAX,
            n % 10 == 0 ==> old(self).discrete_account + spec_percent_mul(6, old(self).discrete_account) * 10 <= u64::MAX,
        ensures
            n % 10 != 0 ==> *final(self) == *old(self),
            n % 10 == 0 ==> {
                let interest = spec_percent_mul(6, old(self).discrete_account) * 10;
                &&& final(self).discrete_account == old(self).discrete_account + interest
                &&& final(self).accounts == old(self).accounts
                &&& final(self).block_number == old(self).block_number
                &&& final(self).events@ == old(self).events@.push(Event::DiscreteInterestApplied(interest as u64))
            },
    {
        if n % 10 == 0 {
            let interest = percent_mul_u64(Self::discrete_interest_rate(), self.discrete_account) * 10;
            let old_balance = self.discrete_account;
            self.discrete_account = old_balance + interest;
            self.events.push(Event::DiscreteInterestApplied(interest));
        }
    }
}


impl Pallet {
    /// The continuous account's value at `now` when it can be computed without a
    /// panic, `None` otherwise.
    pub fn checked_value_continuous(&self, now: BlockNumber) -> (r: Option<i64>)
        ensures
            r is Some <==> valuable(self.accounts, now),
            r is Some ==> r->0 == spec_value_continuous(self.accounts, now),
    {
        let acc = self.accounts;
        if now < acc.deposit_date {
            return None;
        }
        let elapsed: u32 = now - acc.deposit_date;
        if elapsed > i32::MAX as u32 {
            return None;
        }
        let exponent: i64 = CONTINUOUS_RATE_BITS * (elapsed as i64);
        assert(exponent == spec_exponent(elapsed));
        let e = match i32f32_exp(exponent) {
            Some(e) => e,
            None => return None,
        };
        let p128 = acc.principal as i128;
        let e128 = e as i128;
        assert(-0x4000_0000_0000_0000_0000_0000_0000_0000 <= p128 * e128 <= 0x4000_0000_0000_0000_0000_0000_0000_0000) by (nonlinear_arith)
            requires i64::MIN <= p128 <= i64::MAX, i64::MIN <= e128 <= i64::MAX;
        let product: i128 = p128 * e128;
        if product < -0x8000_0000_0000_0000_0000_0000i128 || product >= 0x8000_0000_0000_0000_0000_0000i128 {
            return None;
        }
        Some(self.value_continuous(now))
    }

    /// Deposits into the continuous account when doing so cannot panic: `None`
    /// (changing nothing) when the account cannot be valued now, `val` does not fit
    /// an `I32F32`, or the new principal would overflow; otherwise the result of
    /// [`Pallet::deposit_continuous`].
    pub fn checked_deposit_continuous(&mut self, origin: Origin, val: u64) -> (r: Option<Result<(), Error>>)
        ensures
            r is None ==> *final(self) == *old(self),
            r is None <==> signer_of(origin) is Some && !({
                &&& valuable(old(self).accounts, old(self).block_number)
                &&& val <= i32::MAX
                &&& i64::MIN <= spec_value_continuous(old(self).accounts, old(self).block_number) + val * I32F32_ONE_BITS <= i64::MAX
            }),
            r is Some && signer_of(origin) is Some ==> r->0 is Ok,
            r is Some && signer_of(origin) is None ==> r->0 == Err::<(), Error>(Error::BadOrigin),
            signer_of(origin) is Some && r is Some ==> final(self).accounts == (AccountData {
                principal: (spec_value_continuous(old(self).accounts, old(self).block_number) + val * I32F32_ONE_BITS) as i64,
                deposit_date: old(self).block_number,
            }),
    {
        if crate::origin::ensure_signed(origin).is_some() {
            let value = match self.checked_value_continuous(self.block_number) {
                Some(v) => v,
                None => return None,
            };
            if val > i32::MAX as u64 {
                return None;
            }
            let sum: i128 = (value as i128) + (val as i128) * (I32F32_ONE_BITS as i128);
            if sum < i64::MIN as i128 || sum > i64::MAX as i128 {
                return None;
            }
        }
        Some(self.deposit_continuous(origin, val))
    }

    /// Withdraws from the continuous account when doing so cannot panic: `None`
    /// (changing nothing) when the account cannot be valued now, `val` does not fit
    /// an `I32F32`, or the new principal would overflow; otherwise the result of
    /// [`Pallet::withdraw_continuous`].
    pub fn checked_withdraw_continuous(&mut self, origin: Origin, val: u64) -> (r: Option<Result<(), Error>>)
        ensures
            r is None ==> *final(self) == *old(self),
            r is None <==> signer_of(origin) is Some && !({
                &&& valuable(old(self).accounts, old(self).block_number)
                &&& val <= i32::MAX
                &&& i64::MIN <= spec_value_continuous(old(self).accounts, old(self).block_number) - val * I32F32_ONE_BITS <= i64::MAX
            }),
            r is Some && signer_of(origin) is Some ==> r->0 is Ok,
            r is Some && signer_of(origin) is None ==> r->0 == Err::<(), Error>(Error::BadOrigin),
            signer_of(origin) is Some && r is Some ==> final(self).accounts == (AccountData {
                principal: (spec_value_continuous(old(self).accounts, old(self).block_number) - val * I32F32_ONE_BITS) as i64,
                deposit_date: old(self).block_number,
            }),
    {
        if crate::origin::ensure_signed(origin).is_some() {
            let value = match self.checked_value_continuous(self.block_number) {
                Some(v) => v,
                None => return None,
            };
            if val > i32::MAX as u64 {
                return None;
            }
            let diff: i128 = (value as i128) - (val as i128) * (I32F32_ONE_BITS as i128);
            if diff < i64::MIN as i128 || diff > i64::MAX as i128 {
                return None;
            }
        }
        Some(self.withdraw_continuous(origin, val))
    }
}

} // verus!
