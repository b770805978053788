//! Storage of the recurring-payments pallet, the account ledger and the
//! named agenda of scheduled calls it relies on, and their primitive operations.
use vstd::prelude::*;
use std::collections::HashMap;
use crate::origin::{AccountId, BlockNumber};
use crate::hashing::{blake2_256, blake2_256_of};
use crate::scale::{le_bytes, push_le};
use crate::bytemap::{
    bytes_equal, copy_bytes, lemma_map_values_insert, lemma_map_values_remove, lemma_seq_map_values_push,
    lemma_seq_map_values_remove,
};
use super::types::{
    default_plan, default_subscription, Balance, Frequency, PaymentIndex, PaymentPlan, PlanView,
    Subscription, SubscriptionIndex, SubscriptionView,
};

verus! {

broadcast use vstd::std_specs::hash::group_hash_axioms;

/// Errors of the balances ledger.
#[derive(Clone, Copy, Debug, PartialEq, Eq, Structural)]
pub enum BalancesError {
    /// The payer's free balance is below the amount.
    InsufficientBalance,
    /// The payee's free balance would exceed the largest balance.
    Overflow,
}

/// Errors of the named scheduler.
#[derive(Clone, Copy, Debug, PartialEq, Eq, Structural)]
pub enum SchedulerError {
    /// A task of that name is already scheduled.
    FailedToSchedule,
    /// The target block is not in the future.
    TargetBlockNumberInPast,
    /// No task of that name is scheduled.
    NotFound,
}

/// Why a call of the recurring-payments pallet failed.
#[derive(Clone, Copy, Debug, PartialEq, Eq, Structural)]
pub enum Error {
    PaymentPlanAlreadyExist,
    PaymentPlanDoesNotExist,
    InsufficientBalance,
    UnAuthorisedCall,
    BadMetadata,
    Unknown,
    Frozen,
    AlreadyUnFrozen,
    UserDoesNotExist,
    NotASubscriber,
    NoSubscribersFound,
    UserNotSubscribed,
    NotDueYet,
    MinCannotBeZero,
    InvalidPayment,
    FailedToCalculateRatio,
    /// The origin may not make this call.
    BadOrigin,
    /// An index counter would overflow.
    Overflow,
    /// A ledger transfer or withdrawal failed.
    Balances(BalancesError),
    /// A scheduler request failed.
    Scheduler(SchedulerError),
}

/// Events deposited by the recurring-payments pallet. `to_fund` names the
/// payment plan whose fund account received a payment.
#[derive(Clone, Copy, Debug, PartialEq, Eq, Structural)]
#[allow(inconsistent_fields)]
pub enum Event {
    PaymentPlanCreated { merchant: AccountId, id: PaymentIndex, now: BlockNumber },
    SubcriptionCreated { subscriber: AccountId, id: PaymentIndex, now: BlockNumber },
    SubcriptionCancelled { subcriber: AccountId, id: PaymentIndex, now: BlockNumber },
    PaymentSent {
        from: AccountId,
        to_fund: PaymentIndex,
        amount: Balance,
        id: PaymentIndex,
        now: BlockNumber,
    },
    PaymentCollected { merchant: AccountId, id: PaymentIndex, now: BlockNumber },
    PaymentPlanKilled { merchant: Option<AccountId>, id: PaymentIndex, now: BlockNumber },
    PaymentRefundedToUser { user: AccountId, id: PaymentIndex, now: BlockNumber },
    RecurringPaymentCancelled { user: AccountId, id: PaymentIndex, now: BlockNumber },
    PaymentPlanDestroyed { merchant: AccountId, id: PaymentIndex, now: BlockNumber },
    EditedPaymentPlan { merchant: AccountId, id: PaymentIndex, now: BlockNumber },
    PaymentRefundedToMerchant { merchant: AccountId, id: PaymentIndex, now: BlockNumber },
    TransferApproved {
        owner: AccountId,
        new_owner: AccountId,
        id: PaymentIndex,
        now: BlockNumber,
    },
    Frozen { freezer: AccountId, id: PaymentIndex, now: BlockNumber },
    UnFrozen { who: Option<AccountId>, id: PaymentIndex, now: BlockNumber },
    RefundedUsers { sender: AccountId, id: PaymentIndex, now: BlockNumber },
    PartiallyRefunded { sender: AccountId, id: PaymentIndex, now: BlockNumber },
}

/// A call the pallet asks the scheduler to dispatch later.
#[derive(Clone, Copy, Debug, PartialEq, Eq, Structural)]
pub enum ScheduledCall {
    CollectPayments { payment_id: PaymentIndex, schedule_periodic_collection: Option<Frequency> },
    ForcePayment { subscriber: AccountId, payment_id: PaymentIndex, required_payment: Balance },
}

/// A named task on the scheduler's agenda.
#[derive(Debug)]
pub struct ScheduledTask {
    pub name: Vec<u8>,
    pub when: BlockNumber,
    pub priority: u8,
    pub call: ScheduledCall,
}

/// Mathematical value of a [`ScheduledTask`].
pub struct TaskView {
    pub name: Seq<u8>,
    pub when: BlockNumber,
    pub priority: u8,
    pub call: ScheduledCall,
}

impl View for ScheduledTask {
    type V = TaskView;

    open spec fn view(&self) -> TaskView {
        TaskView { name: self.name@, when: self.when, priority: self.priority, call: self.call }
    }
}

/// What a subscriber has paid into a plan's fund (the plan's child trie entry).
#[derive(Clone, Copy, Debug, PartialEq, Eq, Structural)]
pub struct Contribution {
    pub payment_id: PaymentIndex,
    pub who: AccountId,
    pub amount: Balance,
}

/// Runtime constants of the pallet.
#[derive(Clone, Copy, Debug, PartialEq, Eq, Structural)]
pub struct Config {
    /// Longest plan name, in bytes.
    pub string_limit: u32,
    /// Deposit withdrawn from a merchant when a plan is created.
    pub submission_deposit: Balance,
}

/// The pallet's storage, the ledger of free balances (accounts and plan funds),
/// the scheduler's agenda and the deposited events.
pub struct Pallet {
    pub config: Config,
    pub block_number: BlockNumber,
    pub payment_id: PaymentIndex,
    pub subscription_id: SubscriptionIndex,
    pub plans: HashMap<PaymentIndex, PaymentPlan>,
    pub subscriptions: HashMap<AccountId, Subscription>,
    pub contributions: Vec<Contribution>,
    pub accounts: HashMap<AccountId, Balance>,
    pub funds: HashMap<PaymentIndex, Balance>,
    pub agenda: Vec<ScheduledTask>,
    pub events: Vec<Event>,
}

/// Mathematical value of the [`Pallet`].
pub struct PalletState {
    pub config: Config,
    pub block_number: BlockNumber,
    pub payment_id: PaymentIndex,
    pub subscription_id: SubscriptionIndex,
    pub plans: Map<PaymentIndex, PlanView>,
    pub subscriptions: Map<AccountId, SubscriptionView>,
    pub contributions: Seq<Contribution>,
    pub accounts: Map<AccountId, Balance>,
    pub funds: Map<PaymentIndex, Balance>,
    pub agenda: Seq<TaskView>,
    pub events: Seq<Event>,
}

impl View for Pallet {
    type V = PalletState;

    open spec fn view(&self) -> PalletState {
        PalletState {
            config: self.config,
            block_number: self.block_number,
            payment_id: self.payment_id,
            subscription_id: self.subscription_id,
            plans: self.plans@.map_values(|p: PaymentPlan| p@),
            subscriptions: self.subscriptions@.map_values(|s: Subscription| s@),
            contributions: self.contributions@,
            accounts: self.accounts@,
            funds: self.funds@,
            agenda: self.agenda@.map_values(|t: ScheduledTask| t@),
            events: self.events@,
        }
    }
}

// ---------------------------------------------------------------------------
// Reading storage.

/// Free balance of an account (zero when it has none).
pub open spec fn free_of(s: PalletState, a: AccountId) -> Balance {
    if s.accounts.contains_key(a) { s.accounts[a] } else { 0 }
}

/// Balance of a plan's fund account.
pub open spec fn fund_of(s: PalletState, id: PaymentIndex) -> Balance {
    if s.funds.contains_key(id) { s.funds[id] } else { 0 }
}

/// The stored plan, or the default plan when there is none.
pub open spec fn plan_of(s: PalletState, id: PaymentIndex) -> PlanView {
    if s.plans.contains_key(id) { s.plans[id] } else { default_plan() }
}

/// The stored subscription, or the default one when there is none.
pub open spec fn subscription_of(s: PalletState, a: AccountId) -> SubscriptionView {
    if s.subscriptions.contains_key(a) { s.subscriptions[a] } else { default_subscription() }
}

/// Whether entry `i` of `c` is the contribution of `who` to plan `id`.
pub open spec fn is_entry(c: Seq<Contribution>, i: int, id: PaymentIndex, who: AccountId) -> bool {
    0 <= i < c.len() && c[i].payment_id == id && c[i].who == who
}

/// Whether `i` is the first entry of `c` for (`id`, `who`).
pub open spec fn first_entry(c: Seq<Contribution>, i: int, id: PaymentIndex, who: AccountId) -> bool {
    is_entry(c, i, id, who) && forall|k: int| 0 <= k < i ==> !is_entry(c, k, id, who)
}

/// What `who` has recorded as paid into plan `id` (zero when nothing).
pub open spec fn contribution_of(s: PalletState, id: PaymentIndex, who: AccountId) -> Balance {
    let c = s.contributions;
    if exists|i: int| #[trigger] first_entry(c, i, id, who) {
        c[choose|i: int| #[trigger] first_entry(c, i, id, who)].amount
    } else {
        0
    }
}

/// The contributions after recording `amount` as what `who` has paid into plan `id`.
pub open spec fn record_contribution(
    c: Seq<Contribution>,
    id: PaymentIndex,
    who: AccountId,
    amount: Balance,
) -> Seq<Contribution> {
    let e = Contribution { payment_id: id, who, amount };
    if exists|i: int| #[trigger] first_entry(c, i, id, who) {
        c.update(choose|i: int| #[trigger] first_entry(c, i, id, who), e)
    } else {
        c.push(e)
    }
}

/// The bytes that name plan `index`'s child trie before hashing: `payment`,
/// then the index's little-endian bytes.
pub open spec fn child_trie_seed(index: PaymentIndex) -> Seq<u8> {
    seq![112u8, 97, 121, 109, 101, 110, 116] + le_bytes(index as nat, 4)
}

/// The id of plan `index`'s child trie: the Blake2-256 hash of its seed.
pub fn id_from_index(index: PaymentIndex) -> (r: [u8; 32])
    ensures
        r@ == blake2_256_of(child_trie_seed(index)),
{
    let mut buf: Vec<u8> = Vec::new();
    buf.push(112u8);
    buf.push(97u8);
    buf.push(121u8);
    buf.push(109u8);
    buf.push(101u8);
    buf.push(110u8);
    buf.push(116u8);
    let ghost prefix = buf@;
    push_le(&mut buf, index as u64, 4);
    proof { assert(prefix =~= seq![112u8, 97, 121, 109, 101, 110, 116]); }
    blake2_256(buf.as_slice())
}

/// Whether a task named `name` is on the agenda.
pub open spec fn is_scheduled(s: PalletState, name: Seq<u8>) -> bool {
    exists|i: int| 0 <= i < s.agenda.len() && s.agenda[i].name == name
}

pub proof fn lemma_first_entry_unique(c: Seq<Contribution>, i: int, j: int, id: PaymentIndex, who: AccountId)
    requires
        first_entry(c, i, id, who),
        first_entry(c, j, id, who),
    ensures
        i == j,
{
    if i < j {
        assert(!is_entry(c, i, id, who));
    } else if j < i {
        assert(!is_entry(c, j, id, who));
    }
}

// ---------------------------------------------------------------------------
// Ledger operations (the configured currency: free balances, no existential deposit).

/// `Currency::withdraw` from an account: fails when its free balance is below `amount`.
pub open spec fn spec_withdraw_account(s: PalletState, a: AccountId, amount: Balance) -> Result<PalletState, Error> {
    if free_of(s, a) < amount {
        Err(Error::Balances(BalancesError::InsufficientBalance))
    } else {
        Ok(PalletState { accounts: s.accounts.insert(a, (free_of(s, a) - amount) as Balance), ..s })
    }
}

/// `Currency::withdraw` from a plan's fund account.
pub open spec fn spec_withdraw_fund(s: PalletState, id: PaymentIndex, amount: Balance) -> Result<PalletState, Error> {
    if fund_of(s, id) < amount {
        Err(Error::Balances(BalancesError::InsufficientBalance))
    } else {
        Ok(PalletState { funds: s.funds.insert(id, (fund_of(s, id) - amount) as Balance), ..s })
    }
}

/// `Currency::resolve_creating` into an account: the amount is credited unless
/// that would overflow, in which case it is dropped.
pub open spec fn spec_credit_account(s: PalletState, a: AccountId, amount: Balance) -> PalletState {
    if free_of(s, a) + amount <= u128::MAX {
        PalletState { accounts: s.accounts.insert(a, (free_of(s, a) + amount) as Balance), ..s }
    } else {
        s
    }
}

/// `Currency::resolve_creating` into a plan's fund account.
pub open spec fn spec_credit_fund(s: PalletState, id: PaymentIndex, amount: Balance) -> PalletState {
    if fund_of(s, id) + amount <= u128::MAX {
        PalletState { funds: s.funds.insert(id, (fund_of(s, id) + amount) as Balance), ..s }
    } else {
        s
    }
}

/// `Currency::transfer` from an account to a plan's fund account.
pub open spec fn spec_pay_into_fund(s: PalletState, from: AccountId, id: PaymentIndex, amount: Balance) -> Result<PalletState, Error> {
    if free_of(s, from) < amount {
        Err(Error::Balances(BalancesError::InsufficientBalance))
    } else if fund_of(s, id) + amount > u128::MAX {
        Err(Error::Balances(BalancesError::Overflow))
    } else {
        Ok(PalletState {
            accounts: s.accounts.insert(from, (free_of(s, from) - amount) as Balance),
            funds: s.funds.insert(id, (fund_of(s, id) + amount) as Balance),
            ..s
        })
    }
}

/// `Currency::transfer` from a plan's fund account to an account.
pub open spec fn spec_pay_out_of_fund(s: PalletState, id: PaymentIndex, to: AccountId, amount: Balance) -> Result<PalletState, Error> {
    if fund_of(s, id) < amount {
        Err(Error::Balances(BalancesError::InsufficientBalance))
    } else if free_of(s, to) + amount > u128::MAX {
        Err(Error::Balances(BalancesError::Overflow))
    } else {
        Ok(PalletState {
            funds: s.funds.insert(id, (fund_of(s, id) - amount) as Balance),
            accounts: s.accounts.insert(to, (free_of(s, to) + amount) as Balance),
            ..s
        })
    }
}

// ---------------------------------------------------------------------------
// Scheduler operations.

/// `schedule_named`: fails when the target block is not after the current block
/// or a task of that name exists; otherwise appends the task.
pub open spec fn spec_schedule_named(s: PalletState, name: Seq<u8>, when: BlockNumber, priority: u8, call: ScheduledCall) -> Result<PalletState, Error> {
    if when <= s.block_number {
        Err(Error::Scheduler(SchedulerError::TargetBlockNumberInPast))
    } else if is_scheduled(s, name) {
        Err(Error::Scheduler(SchedulerError::FailedToSchedule))
    } else {
        Ok(PalletState { agenda: s.agenda.push(TaskView { name, when, priority, call }), ..s })
    }
}

/// `cancel_named`: removes the first task of that name, or fails when there is none.
pub open spec fn spec_cancel_named(s: PalletState, name: Seq<u8>) -> Result<PalletState, Error> {
    if is_scheduled(s, name) {
        let i = choose|i: int| 0 <= i < s.agenda.len() && s.agenda[i].name == name && forall|k: int| 0 <= k < i ==> s.agenda[k].name != name;
        Ok(PalletState { agenda: s.agenda.remove(i), ..s })
    } else {
        Err(Error::Scheduler(SchedulerError::NotFound))
    }
}

/// State after a step that may fail, keeping the state unchanged on failure.
pub open spec fn state_or(r: Result<PalletState, Error>, s: PalletState) -> PalletState {
    match r {
        Ok(t) => t,
        Err(_) => s,
    }
}

} // verus!

verus! {

impl Pallet {
    /// An empty pallet at block zero.
    pub fn new(config: Config) -> (r: Pallet)
        ensures
            r@.config == config,
            r@.block_number == 0,
            r@.payment_id == 0,
            r@.subscription_id == 0,
            r@.plans == Map::<PaymentIndex, PlanView>::empty(),
            r@.subscriptions == Map::<AccountId, SubscriptionView>::empty(),
            r@.contributions == Seq::<Contribution>::empty(),
            r@.accounts == Map::<AccountId, Balance>::empty(),
            r@.funds == Map::<PaymentIndex, Balance>::empty(),
            r@.agenda == Seq::<TaskView>::empty(),
            r@.events == Seq::<Event>::empty(),
    {
        let r = Pallet {
            config,
            block_number: 0,
            payment_id: 0,
            subscription_id: 0,
            plans: HashMap::new(),
            subscriptions: HashMap::new(),
            contributions: Vec::new(),
            accounts: HashMap::new(),
            funds: HashMap::new(),
            agenda: Vec::new(),
            events: Vec::new(),
        };
        assert(r@.plans =~= Map::<PaymentIndex, PlanView>::empty());
        assert(r@.subscriptions =~= Map::<AccountId, SubscriptionView>::empty());
        assert(r@.agenda =~= Seq::<TaskView>::empty());
        r
    }

    /// Moves the chain to block `n`.
    pub fn set_block_number(&mut self, n: BlockNumber)
        ensures
            final(self)@ == (PalletState { block_number: n, ..old(self)@ }),
    {
        self.block_number = n;
    }

    /// Sets the free balance of an account (genesis endowment).
    pub fn set_free_balance(&mut self, a: AccountId, amount: Balance)
        ensures
            final(self)@ == (PalletState { accounts: old(self)@.accounts.insert(a, amount), ..old(self)@ }),
    {
        self.accounts.insert(a, amount);
    }

    /// Free balance of an account.
    pub fn free_balance(&self, a: AccountId) -> (r: Balance)
        ensures
            r == free_of(self@, a),
    {
        match self.accounts.get(&a) {
            Some(v) => *v,
            None => 0,
        }
    }

    /// Balance of a plan's fund account.
    pub fn fund_balance(&self, id: PaymentIndex) -> (r: Balance)
        ensures
            r == fund_of(self@, id),
    {
        match self.funds.get(&id) {
            Some(v) => *v,
            None => 0,
        }
    }

    /// The current block.
    pub fn block_number(&self) -> (r: BlockNumber)
        ensures
            r == self@.block_number,
    {
        self.block_number
    }

    /// The next payment plan index to be handed out.
    pub fn paymentid(&self) -> (r: PaymentIndex)
        ensures
            r == self@.payment_id,
    {
        self.payment_id
    }

    /// The next subscription index to be handed out.
    pub fn subscription_id(&self) -> (r: SubscriptionIndex)
        ensures
            r == self@.subscription_id,
    {
        self.subscription_id
    }

    /// The events deposited so far.
    pub fn events(&self) -> (r: &Vec<Event>)
        ensures
            r@ == self@.events,
    {
        &self.events
    }

    /// Whether a plan is stored under `id`.
    pub fn plan_exists(&self, id: PaymentIndex) -> (r: bool)
        ensures
            r == self@.plans.contains_key(id),
    {
        self.plans.contains_key(&id)
    }

    /// The plan stored under `id` (the default plan when there is none).
    pub fn info(&self, id: PaymentIndex) -> (r: PaymentPlan)
        ensures
            r@ == plan_of(self@, id),
    {
        match self.plans.get(&id) {
            Some(p) => p.duplicate(),
            None => PaymentPlan::empty(),
        }
    }

    /// The subscription stored for `a` (the default subscription when there is none).
    pub fn subscribe(&self, a: AccountId) -> (r: Subscription)
        ensures
            r@ == subscription_of(self@, a),
    {
        match self.subscriptions.get(&a) {
            Some(s) => s.duplicate(),
            None => Subscription::empty(),
        }
    }

    /// Whether a subscription is stored for `a`.
    pub fn has_subscription(&self, a: AccountId) -> (r: bool)
        ensures
            r == self@.subscriptions.contains_key(a),
    {
        self.subscriptions.contains_key(&a)
    }

    /// Number of tasks on the scheduler's agenda.
    pub fn agenda_len(&self) -> (r: usize)
        ensures
            r == self@.agenda.len(),
    {
        self.agenda.len()
    }

    pub(crate) fn put_plan(&mut self, id: PaymentIndex, p: PaymentPlan)
        ensures
            final(self)@ == (PalletState { plans: old(self)@.plans.insert(id, p@), ..old(self)@ }),
    {
        proof {
            lemma_map_values_insert(self.plans@, id, p, |p: PaymentPlan| p@);
        }
        self.plans.insert(id, p);
    }

    pub(crate) fn remove_plan(&mut self, id: PaymentIndex)
        ensures
            final(self)@ == (PalletState { plans: old(self)@.plans.remove(id), ..old(self)@ }),
    {
        proof {
            lemma_map_values_remove(self.plans@, id, |p: PaymentPlan| p@);
        }
        self.plans.remove(&id);
    }

    pub(crate) fn put_subscription(&mut self, a: AccountId, sub: Subscription)
        ensures
            final(self)@ == (PalletState { subscriptions: old(self)@.subscriptions.insert(a, sub@), ..old(self)@ }),
    {
        proof {
            lemma_map_values_insert(self.subscriptions@, a, sub, |s: Subscription| s@);
        }
        self.subscriptions.insert(a, sub);
    }

    pub(crate) fn remove_subscription(&mut self, a: AccountId)
        ensures
            final(self)@ == (PalletState { subscriptions: old(self)@.subscriptions.remove(a), ..old(self)@ }),
    {
        proof {
            lemma_map_values_remove(self.subscriptions@, a, |s: Subscription| s@);
        }
        self.subscriptions.remove(&a);
    }

    pub(crate) fn deposit_event(&mut self, e: Event)
        ensures
            final(self)@ == (PalletState { events: old(self)@.events.push(e), ..old(self)@ }),
    {
        self.events.push(e);
    }

    /// What `who` has recorded as paid into plan `id` (the plan's child-trie entry).
    pub fn get_payment_info(&self, id: PaymentIndex, who: AccountId) -> (r: Balance)
        ensures
            r == contribution_of(self@, id, who),
    {
        let mut i: usize = 0;
        while i < self.contributions.len()
            invariant
                i <= self.contributions@.len(),
                forall|k: int| 0 <= k < i ==> !is_entry(self.contributions@, k, id, who),
            decreases self.contributions.len() - i,
        {
            let e = self.contributions[i];
            if e.payment_id == id && e.who == who {
                proof {
                    let c = self.contributions@;
                    assert(first_entry(c, i as int, id, who));
                    assert(exists|k: int| #[trigger] first_entry(c, k, id, who));
                    let j = choose|k: int| #[trigger] first_entry(c, k, id, who);
                    lemma_first_entry_unique(c, i as int, j, id, who);
                    assert(c[j].amount == e.amount);
                    assert(self@.contributions == c);
                    assert(contribution_of(self@, id, who) == e.amount);
                }
                return e.amount;
            }
            i = i + 1;
        }
        0
    }

    /// Records `amount` as what `who` has paid into plan `id`.
    pub fn insert_payment(&mut self, id: PaymentIndex, who: AccountId, amount: Balance)
        ensures
            final(self)@ == (PalletState {
                contributions: record_contribution(old(self)@.contributions, id, who, amount),
                ..old(self)@
            }),
    {
        let e = Contribution { payment_id: id, who, amount };
        let mut i: usize = 0;
        while i < self.contributions.len()
            invariant
                i <= self.contributions@.len(),
                self@ == old(self)@,
                e == (Contribution { payment_id: id, who, amount }),
                forall|k: int| 0 <= k < i ==> !is_entry(self.contributions@, k, id, who),
            decreases self.contributions.len() - i,
        {
            let cur = self.contributions[i];
            if cur.payment_id == id && cur.who == who {
                proof {
                    let c = self.contributions@;
                    assert(first_entry(c, i as int, id, who));
                    assert(exists|k: int| #[trigger] first_entry(c, k, id, who));
                    let j = choose|k: int| #[trigger] first_entry(c, k, id, who);
                    lemma_first_entry_unique(c, i as int, j, id, who);
                    assert(j == i);
                    assert(self@.contributions == c);
                    assert(record_contribution(c, id, who, amount) == c.update(i as int, e));
                }
                self.contributions.set(i, e);
                return;
            }
            i = i + 1;
        }
        self.contributions.push(e);
    }

    /// Forgets every contribution recorded for plan `index` (clears its child trie).
    pub fn kill_paymentsystem(&mut self, index: PaymentIndex)
        ensures
            final(self)@ == (PalletState {
                contributions: old(self)@.contributions.filter(|c: Contribution| c.payment_id != index),
                ..old(self)@
            }),
    {
        let ghost keep = |c: Contribution| c.payment_id != index;
        let mut kept: Vec<Contribution> = Vec::new();
        let mut i: usize = 0;
        while i < self.contributions.len()
            invariant
                i <= self.contributions@.len(),
                kept@ == self.contributions@.subrange(0, i as int).filter(keep),
                keep == (|c: Contribution| c.payment_id != index),
            decreases self.contributions.len() - i,
        {
            let c = self.contributions[i];
            proof {
                reveal(Seq::filter);
                assert(self.contributions@.subrange(0, i + 1).drop_last() =~= self.contributions@.subrange(0, i as int));
            }
            if c.payment_id != index {
                kept.push(c);
            }
            i = i + 1;
        }
        proof {
            assert(self.contributions@.subrange(0, self.contributions@.len() as int) =~= self.contributions@);
        }
        self.contributions = kept;
    }

    pub(crate) fn withdraw_account(&mut self, a: AccountId, amount: Balance) -> (r: Result<(), Error>)
        ensures
            match spec_withdraw_account(old(self)@, a, amount) {
                Ok(t) => r is Ok && final(self)@ == t,
                Err(e) => r == Err::<(), Error>(e) && final(self)@ == old(self)@,
            },
    {
        let free = self.free_balance(a);
        if free < amount {
            return Err(Error::Balances(BalancesError::InsufficientBalance));
        }
        self.accounts.insert(a, free - amount);
        Ok(())
    }

    pub(crate) fn withdraw_fund(&mut self, id: PaymentIndex, amount: Balance) -> (r: Result<(), Error>)
        ensures
            match spec_withdraw_fund(old(self)@, id, amount) {
                Ok(t) => r is Ok && final(self)@ == t,
                Err(e) => r == Err::<(), Error>(e) && final(self)@ == old(self)@,
            },
    {
        let fund = self.fund_balance(id);
        if fund < amount {
            return Err(Error::Balances(BalancesError::InsufficientBalance));
        }
        self.funds.insert(id, fund - amount);
        Ok(())
    }

    pub(crate) fn credit_account(&mut self, a: AccountId, amount: Balance)
        ensures
            final(self)@ == spec_credit_account(old(self)@, a, amount),
    {
        let free = self.free_balance(a);
        if free <= u128::MAX - amount {
            self.accounts.insert(a, free + amount);
        }
    }

    pub(crate) fn credit_existing_account(&mut self, a: AccountId, amount: Balance)
        ensures
            final(self)@ == (if old(self)@.accounts.contains_key(a) { spec_credit_account(old(self)@, a, amount) } else { old(self)@ }),
    {
        if self.accounts.contains_key(&a) {
            self.credit_account(a, amount);
        }
    }

    pub(crate) fn credit_fund(&mut self, id: PaymentIndex, amount: Balance)
        ensures
            final(self)@ == spec_credit_fund(old(self)@, id, amount),
    {
        let fund = self.fund_balance(id);
        if fund <= u128::MAX - amount {
            self.funds.insert(id, fund + amount);
        }
    }

    pub(crate) fn pay_into_fund(&mut self, from: AccountId, id: PaymentIndex, amount: Balance) -> (r: Result<(), Error>)
        ensures
            match spec_pay_into_fund(old(self)@, from, id, amount) {
                Ok(t) => r is Ok && final(self)@ == t,
                Err(e) => r == Err::<(), Error>(e) && final(self)@ == old(self)@,
            },
    {
        let free = self.free_balance(from);
        if free < amount {
            return Err(Error::Balances(BalancesError::InsufficientBalance));
        }
        let fund = self.fund_balance(id);
        if fund > u128::MAX - amount {
            return Err(Error::Balances(BalancesError::Overflow));
        }
        self.accounts.insert(from, free - amount);
        self.funds.insert(id, fund + amount);
        Ok(())
    }

    pub(crate) fn pay_out_of_fund(&mut self, id: PaymentIndex, to: AccountId, amount: Balance) -> (r: Result<(), Error>)
        ensures
            match spec_pay_out_of_fund(old(self)@, id, to, amount) {
                Ok(t) => r is Ok && final(self)@ == t,
                Err(e) => r == Err::<(), Error>(e) && final(self)@ == old(self)@,
            },
    {
        let fund = self.fund_balance(id);
        if fund < amount {
            return Err(Error::Balances(BalancesError::InsufficientBalance));
        }
        let free = self.free_balance(to);
        if free > u128::MAX - amount {
            return Err(Error::Balances(BalancesError::Overflow));
        }
        self.funds.insert(id, fund - amount);
        self.accounts.insert(to, free + amount);
        Ok(())
    }

    /// Index of the first agenda task named `name`.
    fn find_task(&self, name: &Vec<u8>) -> (r: Option<usize>)
        ensures
            match r {
                Some(i) => i < self@.agenda.len() && self@.agenda[i as int].name == name@
                    && forall|k: int| 0 <= k < i ==> self@.agenda[k].name != name@,
                None => !is_scheduled(self@, name@),
            },
    {
        let mut i: usize = 0;
        while i < self.agenda.len()
            invariant
                i <= self.agenda@.len(),
                forall|k: int| 0 <= k < i ==> self@.agenda[k].name != name@,
            decreases self.agenda.len() - i,
        {
            if bytes_equal(self.agenda[i].name.as_slice(), name.as_slice()) {
                return Some(i);
            }
            i = i + 1;
        }
        None
    }

    pub(crate) fn schedule_named(&mut self, name: &Vec<u8>, when: BlockNumber, priority: u8, call: ScheduledCall) -> (r: Result<(), Error>)
        ensures
            match spec_schedule_named(old(self)@, name@, when, priority, call) {
                Ok(t) => r is Ok && final(self)@ == t,
                Err(e) => r == Err::<(), Error>(e) && final(self)@ == old(self)@,
            },
    {
        if when <= self.block_number {
            return Err(Error::Scheduler(SchedulerError::TargetBlockNumberInPast));
        }
        match self.find_task(name) {
            Some(_) => Err(Error::Scheduler(SchedulerError::FailedToSchedule)),
            None => {
                let t = ScheduledTask { name: copy_bytes(name), when, priority, call };
                proof {
                    lemma_seq_map_values_push(self.agenda@, t, |t: ScheduledTask| t@);
                }
                self.agenda.push(t);
                Ok(())
            },
        }
    }

    pub(crate) fn cancel_named(&mut self, name: &Vec<u8>) -> (r: Result<(), Error>)
        ensures
            match spec_cancel_named(old(self)@, name@) {
                Ok(t) => r is Ok && final(self)@ == t,
                Err(e) => r == Err::<(), Error>(e) && final(self)@ == old(self)@,
            },
    {
        match self.find_task(name) {
            Some(i) => {
                proof {
                    let s = self@;
                    let j = choose|j: int| 0 <= j < s.agenda.len() && s.agenda[j].name == name@ && forall|k: int| 0 <= k < j ==> s.agenda[k].name != name@;
                    if j < i {
                    } else if i < j {
                        assert(s.agenda[i as int].name == name@);
                    }
                    assert(i == j);
                    lemma_seq_map_values_remove(self.agenda@, i as int, |t: ScheduledTask| t@);
                }
                self.agenda.remove(i);
                Ok(())
            },
            None => Err(Error::Scheduler(SchedulerError::NotFound)),
        }
    }

    /// Hands out the next payment plan index, failing when the counter would overflow.
    pub fn next_payment_id(&mut self) -> (r: Result<PaymentIndex, Error>)
        ensures
            old(self)@.payment_id == u32::MAX ==> r == Err::<PaymentIndex, Error>(Error::Overflow)
                && final(self)@ == old(self)@,
            old(self)@.payment_id < u32::MAX ==> r == Ok::<PaymentIndex, Error>(old(self)@.payment_id)
                && final(self)@ == (PalletState { payment_id: (old(self)@.payment_id + 1) as u32, ..old(self)@ }),
    {
        let current = self.payment_id;
        match current.checked_add(1) {
            Some(n) => {
                self.payment_id = n;
                Ok(current)
            },
            None => Err(Error::Overflow),
        }
    }

    /// Hands out the next subscription index, failing when the counter would overflow.
    pub fn next_subscriber_id(&mut self) -> (r: Result<SubscriptionIndex, Error>)
        ensures
            old(self)@.subscription_id == u32::MAX ==> r == Err::<SubscriptionIndex, Error>(Error::Overflow)
                && final(self)@ == old(self)@,
            old(self)@.subscription_id < u32::MAX ==> r == Ok::<SubscriptionIndex, Error>(old(self)@.subscription_id)
                && final(self)@ == (PalletState { subscription_id: (old(self)@.subscription_id + 1) as u32, ..old(self)@ }),
    {
        let current = self.subscription_id;
        match current.checked_add(1) {
            Some(n) => {
                self.subscription_id = n;
                Ok(current)
            },
            None => Err(Error::Overflow),
        }
    }
}


} // verus!
