//! The marketplace reputation pallet: members' scores, rated out of five by
//! their trading partners.
use vstd::prelude::*;
use std::collections::HashMap;
use crate::origin::AccountId;
use crate::ratings::{entry_in_range, lemma_mean_bound, rate_entry, rated, rating_of, Feedback, ReputationScore};

verus! {

broadcast use vstd::std_specs::hash::group_hash_axioms;

/// Why a call of the marketplace pallet failed.
#[derive(Clone, Copy, Debug, PartialEq, Eq, Structural)]
pub enum Error {
    NotFoundSeller,
    NotFound,
    NotFoundBuyer,
}

/// Events of the marketplace pallet.
#[derive(Clone, Copy, Debug, PartialEq, Eq, Structural)]
pub enum Event {
    AddedRating { rater: AccountId, owner: AccountId },
}

/// The marketplace pallet's storage: members and their score entries.
pub struct Pallet {
    pub members: Vec<AccountId>,
    pub member_score: HashMap<AccountId, (ReputationScore, u32)>,
    pub events: Vec<Event>,
}

/// Mathematical value of the marketplace [`Pallet`].
pub struct MarketState {
    pub members: Seq<AccountId>,
    pub member_score: Map<AccountId, (ReputationScore, u32)>,
    pub events: Seq<Event>,
}

impl View for Pallet {
    type V = MarketState;

    open spec fn view(&self) -> MarketState {
        MarketState { members: self.members@, member_score: self.member_score@, events: self.events@ }
    }
}

/// An account's score entry (zero when absent).
pub open spec fn entry_of(s: MarketState, a: AccountId) -> (ReputationScore, u32) {
    if s.member_score.contains_key(a) { s.member_score[a] } else { (0, 0) }
}

/// Rating `rated_account`: refused with `missing` unless it is a member;
/// otherwise its score entry takes the rating.
pub open spec fn spec_rate(s: MarketState, rated_account: AccountId, review: Feedback, missing: Error) -> (MarketState, Result<(), Error>) {
    if !s.members.contains(rated_account) {
        (s, Err(missing))
    } else {
        (MarketState {
            member_score: s.member_score.insert(rated_account, rated(entry_of(s, rated_account), rating_of(review))),
            ..s
        }, Ok(()))
    }
}

/// A member's score; `NotFound` for an account that is not a member.
pub open spec fn spec_reputation(s: MarketState, sender: AccountId) -> Result<ReputationScore, Error> {
    if s.members.contains(sender) { Ok(entry_of(s, sender).0) } else { Err(Error::NotFound) }
}

impl Pallet {
    /// A marketplace with the given members and no scores.
    pub fn new(members: Vec<AccountId>) -> (r: Pallet)
        ensures
            r@.members == members@,
            r@.member_score == Map::<AccountId, (ReputationScore, u32)>::empty(),
            r@.events == Seq::<Event>::empty(),
    {
        Pallet { members, member_score: HashMap::new(), events: Vec::new() }
    }

    fn is_member(&self, a: AccountId) -> (r: bool)
        ensures
            r == self@.members.contains(a),
    {
        let mut i: usize = 0;
        while i < self.members.len()
            invariant
                i <= self.members@.len(),
                forall|j: int| 0 <= j < i ==> self.members@[j] != a,
            decreases self.members.len() - i,
        {
            if self.members[i] == a {
                proof { assert(self.members@[i as int] == a); }
                return true;
            }
            i = i + 1;
        }
        false
    }

    fn rate(&mut self, rated_account: AccountId, review: Feedback, missing: Error) -> (r: Result<(), Error>)
        ensures
            (final(self)@, r) == spec_rate(old(self)@, rated_account, review, missing),
    {
        let rating = review.rating();
        if !self.is_member(rated_account) {
            return Err(missing);
        }
        let entry = match self.member_score.get(&rated_account) {
            Some(e) => *e,
            None => (0, 0),
        };
        self.member_score.insert(rated_account, rate_entry(entry, rating));
        Ok(())
    }

    /// `buyer` rates `seller`, who must be a member.
    pub fn rate_seller(&mut self, buyer: AccountId, seller: AccountId, review: Feedback, now: u64) -> (r: Result<(), Error>)
        ensures
            (final(self)@, r) == spec_rate(old(self)@, seller, review, Error::NotFoundSeller),
    {
        self.rate(seller, review, Error::NotFoundSeller)
    }

    /// `seller` rates `buyer`, who must be a member.
    pub fn rate_buyer(&mut self, buyer: AccountId, seller: AccountId, review: Feedback, now: u64) -> (r: Result<(), Error>)
        ensures
            (final(self)@, r) == spec_rate(old(self)@, buyer, review, Error::NotFoundBuyer),
    {
        self.rate(buyer, review, Error::NotFoundBuyer)
    }

    /// A member's current score.
    pub fn reputation(&self, sender: AccountId) -> (r: Result<ReputationScore, Error>)
        ensures
            r == spec_reputation(self@, sender),
    {
        if !self.is_member(sender) {
            return Err(Error::NotFound);
        }
        match self.member_score.get(&sender) {
            Some(e) => Ok(e.0),
            None => Ok(0),
        }
    }
}

/// Scores stay out of five: rating a member whose entry is in range keeps it in
/// range.
pub proof fn law_scores_stay_out_of_five(s: MarketState, rated_account: AccountId, review: Feedback, missing: Error)
    requires
        entry_in_range(entry_of(s, rated_account)),
    ensures
        entry_in_range(entry_of(spec_rate(s, rated_account, review, missing).0, rated_account)),
{
    let (score, count) = entry_of(s, rated_account);
    let r = rating_of(review);
    if count < u32::MAX {
        lemma_mean_bound(score as int, count as int, r as int, 5);
    }
}

/// A rating moves a member's score to the mean of all its ratings: a member whose
/// entry is `(score, count)` (below the maximum count) and who is rated `r` then
/// holds `((score * count + r) / (count + 1), count + 1)`, and its reputation is
/// that mean.
pub proof fn law_rating_takes_the_mean(s: MarketState, rated_account: AccountId, review: Feedback, missing: Error)
    requires
        s.members.contains(rated_account),
        entry_of(s, rated_account).1 < u32::MAX,
    ensures
        ({
            let (score, count) = entry_of(s, rated_account);
            let mean = ((score * count + rating_of(review)) / (count + 1)) as u32;
            let (t, r) = spec_rate(s, rated_account, review, missing);
            &&& r is Ok
            &&& entry_of(t, rated_account) == (mean, (count + 1) as u32)
            &&& spec_reputation(t, rated_account) == Ok::<ReputationScore, Error>(mean)
        }),
{
}

/// Two ratings of an unrated member average: after ratings `r1` and `r2` the
/// member's reputation is their mean, rounded down, over two ratings.
pub proof fn law_two_ratings_average(s: MarketState, a: AccountId, first: Feedback, second: Feedback, missing: Error)
    requires
        s.members.contains(a),
        entry_of(s, a) == (0u32, 0u32),
    ensures
        ({
            let t = spec_rate(spec_rate(s, a, first, missing).0, a, second, missing).0;
            &&& entry_of(t, a) == (((rating_of(first) + rating_of(second)) / 2) as u32, 2u32)
            &&& spec_reputation(t, a) == Ok::<ReputationScore, Error>(((rating_of(first) + rating_of(second)) / 2) as u32)
        }),
{
    law_rating_takes_the_mean(s, a, first, missing);
    let t1 = spec_rate(s, a, first, missing).0;
    let r1 = rating_of(first);
    let r2 = rating_of(second);
    assert((0u32 * 0u32 + r1) / 1 == r1) by (nonlinear_arith);
    assert(entry_of(t1, a) == (r1, 1u32));
    assert(t1.members == s.members);
    law_rating_takes_the_mean(t1, a, second, missing);
    assert((r1 * 1u32 + r2) / 2 == (r1 + r2) / 2) by (nonlinear_arith);
}

} // verus!
