//! A reusable membership pallet with a rating system: members join and leave
//! themselves, and sellers and buyers among them are rated out of five.
use vstd::prelude::*;
use std::collections::HashMap;
use crate::origin::{ensure_signed, signer_of, AccountId, Origin};
use crate::sorted::{insert_sorted, law_insert_keeps_strict_order, sorted, split_point, strictly_sorted, SortedAccounts};

verus! {

broadcast use vstd::std_specs::hash::group_hash_axioms;

/// A reputation score, out of five.
pub type ReputationScore = u32;

/// A review.
#[derive(Clone, Copy, Debug, PartialEq, Eq, Structural)]
pub enum Feedback {
    Terrible,
    Bad,
    Okay,
    Good,
    Great,
}

/// The rating a review gives, from one to five.
pub open spec fn rating_of(f: Feedback) -> u32 {
    match f {
        Feedback::Terrible => 1,
        Feedback::Bad => 2,
        Feedback::Okay => 3,
        Feedback::Good => 4,
        Feedback::Great => 5,
    }
}

impl Feedback {
    /// The rating this review gives, from one to five.
    pub fn rating(&self) -> (r: u32)
        ensures
            r == rating_of(*self),
            1 <= r <= 5,
    {
        match self {
            Feedback::Terrible => 1,
            Feedback::Bad => 2,
            Feedback::Okay => 3,
            Feedback::Good => 4,
            Feedback::Great => 5,
        }
    }
}

/// A score and the number of ratings it was made from, after adding `rating`:
/// the score becomes the integer mean of all ratings, the old mean weighted by
/// the old count plus the new rating, over the new count. An entry whose count is
/// at its maximum takes no more ratings.
pub open spec fn rated(entry: (ReputationScore, u32), rating: u32) -> (ReputationScore, u32) {
    let (score, count) = entry;
    if count == u32::MAX {
        (score, count)
    } else {
        (((score * count + rating) / (count + 1)) as u32, (count + 1) as u32)
    }
}

/// The mean of `count` ratings averaging `score` and one more rating fits where
/// both do.
pub proof fn lemma_mean_bound(score: int, count: int, rating: int, bound: int)
    requires
        0 <= score <= bound,
        0 <= rating <= bound,
        0 <= count,
    ensures
        0 <= (score * count + rating) / (count + 1) <= bound,
{
    assert(0 <= score * count + rating <= bound * (count + 1)) by (nonlinear_arith)
        requires 0 <= score <= bound, 0 <= rating <= bound, 0 <= count;
    vstd::arithmetic::div_mod::lemma_div_is_ordered(score * count + rating, bound * (count + 1), count + 1);
    vstd::arithmetic::div_mod::lemma_div_by_multiple(bound, count + 1);
    vstd::arithmetic::div_mod::lemma_div_pos_is_pos(score * count + rating, count + 1);
}

/// Adds `rating` to a score entry.
pub fn rate_entry(entry: (ReputationScore, u32), rating: u32) -> (r: (ReputationScore, u32))
    ensures
        r == rated(entry, rating),
{
    let (score, count) = entry;
    let next = match count.checked_add(1) {
        Some(c) => c,
        None => return (score, count),
    };
    proof { lemma_mean_bound(score as int, count as int, rating as int, u32::MAX as int); }
    assert((score as u64) * (count as u64) <= (u32::MAX as u64) * (u32::MAX as u64)) by (nonlinear_arith)
        requires score <= u32::MAX, count <= u32::MAX;
    let total: u64 = (score as u64) * (count as u64) + (rating as u64);
    let mean: u64 = total / (next as u64);
    (mean as u32, next)
}

/// Why a call of the rating pallet failed.
#[derive(Clone, Copy, Debug, PartialEq, Eq, Structural)]
pub enum Error {
    NotFoundSeller,
    NotFound,
    NotFoundBuyer,
    NotMember,
    AlreadyMember,
    /// The call was not signed.
    BadOrigin,
}

/// Events of the rating pallet.
#[derive(Clone, Copy, Debug, PartialEq, Eq, Structural)]
pub enum Event {
    AddedRating { rater: AccountId, owner: AccountId },
    AddedMember { new_member: AccountId },
    RemovedMember { member: AccountId },
}

/// The rating pallet's storage: the sorted members, each account's score and
/// number of ratings, and the deposited events.
pub struct Pallet {
    pub members: SortedAccounts,
    pub member_score: HashMap<AccountId, (ReputationScore, u32)>,
    pub events: Vec<Event>,
}

/// Mathematical value of the rating [`Pallet`].
pub struct RatingState {
    pub members: Seq<AccountId>,
    pub member_score: Map<AccountId, (ReputationScore, u32)>,
    pub events: Seq<Event>,
}

impl View for Pallet {
    type V = RatingState;

    open spec fn view(&self) -> RatingState {
        RatingState { members: self.members.view(), member_score: self.member_score@, events: self.events@ }
    }
}

/// An account's score entry (zero when absent).
pub open spec fn score_of(s: RatingState, a: AccountId) -> (ReputationScore, u32) {
    if s.member_score.contains_key(a) { s.member_score[a] } else { (0, 0) }
}

/// The signer joins the members.
pub open spec fn spec_add_member(s: RatingState, origin: Origin) -> (RatingState, Result<(), Error>) {
    match signer_of(origin) {
        None => (s, Err(Error::BadOrigin)),
        Some(who) => if s.members.contains(who) {
            (s, Err(Error::AlreadyMember))
        } else {
            (RatingState {
                members: insert_sorted(s.members, who),
                events: s.events.push(Event::AddedMember { new_member: who }),
                ..s
            }, Ok(()))
        },
    }
}

/// The signer leaves the members.
pub open spec fn spec_remove_member(s: RatingState, origin: Origin) -> (RatingState, Result<(), Error>) {
    match signer_of(origin) {
        None => (s, Err(Error::BadOrigin)),
        Some(who) => if !s.members.contains(who) {
            (s, Err(Error::NotFound))
        } else {
            (RatingState {
                members: s.members.remove(split_point(s.members, who)),
                events: s.events.push(Event::RemovedMember { member: who }),
                ..s
            }, Ok(()))
        },
    }
}

/// Rating `rated_account`: refused with `missing` unless it is a member; its
/// score entry is updated and the rating returned.
pub open spec fn spec_rate(s: RatingState, rated_account: AccountId, review: Feedback, missing: Error) -> (RatingState, Result<u32, Error>) {
    if !s.members.contains(rated_account) {
        (s, Err(missing))
    } else {
        (RatingState {
            member_score: s.member_score.insert(rated_account, rated(score_of(s, rated_account), rating_of(review))),
            ..s
        }, Ok(rating_of(review)))
    }
}

impl Pallet {
    /// A rating pallet with no members.
    pub fn new() -> (r: Pallet)
        ensures
            r@.members == Seq::<AccountId>::empty(),
            r@.member_score == Map::<AccountId, (ReputationScore, u32)>::empty(),
            r@.events == Seq::<Event>::empty(),
    {
        Pallet { members: SortedAccounts::new(), member_score: HashMap::new(), events: Vec::new() }
    }

    /// The signer becomes a member.
    pub fn add_member(&mut self, origin: Origin, new_member: AccountId) -> (r: Result<(), Error>)
        ensures
            (final(self)@, r) == spec_add_member(old(self)@, origin),
            sorted(old(self)@.members) ==> sorted(final(self)@.members),
    {
        let new_member = match ensure_signed(origin) {
            Some(a) => a,
            None => return Err(Error::BadOrigin),
        };
        if !self.members.insert(new_member) {
            return Err(Error::AlreadyMember);
        }
        self.events.push(Event::AddedMember { new_member });
        Ok(())
    }

    /// The signer stops being a member.
    pub fn remove_member(&mut self, origin: Origin, curr_member: AccountId) -> (r: Result<(), Error>)
        ensures
            (final(self)@, r) == spec_remove_member(old(self)@, origin),
            sorted(old(self)@.members) ==> sorted(final(self)@.members),
    {
        let curr_member = match ensure_signed(origin) {
            Some(a) => a,
            None => return Err(Error::BadOrigin),
        };
        if !self.members.remove(curr_member) {
            return Err(Error::NotFound);
        }
        self.events.push(Event::RemovedMember { member: curr_member });
        Ok(())
    }

    fn rate(&mut self, rated_account: AccountId, review: Feedback, missing: Error) -> (r: Result<u32, Error>)
        ensures
            (final(self)@, r) == spec_rate(old(self)@, rated_account, review, missing),
    {
        let rating = review.rating();
        if !self.members.contains(rated_account) {
            return Err(missing);
        }
        let entry = match self.member_score.get(&rated_account) {
            Some(e) => *e,
            None => (0, 0),
        };
        self.member_score.insert(rated_account, rate_entry(entry, rating));
        Ok(rating)
    }

    /// `buyer` rates `seller`; the seller must be a member. `now` is the time
    /// of the review.
    pub fn rate_seller(&mut self, buyer: AccountId, seller: AccountId, review: Feedback, now: u64) -> (r: Result<u32, Error>)
        ensures
            (final(self)@, r) == spec_rate(old(self)@, seller, review, Error::NotFoundSeller),
    {
        self.rate(seller, review, Error::NotFoundSeller)
    }

    /// `seller` rates `buyer`; the buyer must be a member. `now` is the time of
    /// the review.
    pub fn rate_buyer(&mut self, buyer: AccountId, seller: AccountId, review: Feedback, now: u64) -> (r: Result<u32, Error>)
        ensures
            (final(self)@, r) == spec_rate(old(self)@, buyer, review, Error::NotFoundBuyer),
    {
        self.rate(buyer, review, Error::NotFoundBuyer)
    }

    /// An account's current score (zero when it has none).
    pub fn reputation(&self, sender: AccountId) -> (r: ReputationScore)
        ensures
            r == score_of(self@, sender).0,
    {
        match self.member_score.get(&sender) {
            Some(e) => e.0,
            None => 0,
        }
    }
}

/// Whether a score entry is out of five, with no score before any rating.
pub open spec fn entry_in_range(entry: (ReputationScore, u32)) -> bool {
    entry.0 <= 5 && (entry.1 == 0 ==> entry.0 == 0)
}

/// Scores stay out of five: rating a member whose entry is in range keeps it in
/// range.
pub proof fn law_scores_stay_out_of_five(s: RatingState, rated_account: AccountId, review: Feedback, missing: Error)
    requires
        entry_in_range(score_of(s, rated_account)),
    ensures
        entry_in_range(score_of(spec_rate(s, rated_account, review, missing).0, rated_account)),
{
    let (score, count) = score_of(s, rated_account);
    let r = rating_of(review);
    if count < u32::MAX {
        lemma_mean_bound(score as int, count as int, r as int, 5);
    }
}

/// The score is the mean of the ratings: if an entry's score times its count is
/// the sum of its ratings, then after one more rating (below the maximum count)
/// the score is the new sum divided by the new count, rounded down.
pub proof fn law_score_is_the_mean(s: RatingState, rated_account: AccountId, review: Feedback, missing: Error, sum: int)
    requires
        s.members.contains(rated_account),
        score_of(s, rated_account).1 < u32::MAX,
        sum == score_of(s, rated_account).0 * score_of(s, rated_account).1,
    ensures
        score_of(spec_rate(s, rated_account, review, missing).0, rated_account)
            == (((sum + rating_of(review)) / (score_of(s, rated_account).1 + 1)) as u32, (score_of(s, rated_account).1 + 1) as u32),
{
}

/// Joining keeps the members strictly increasing: on a member list with no
/// account twice, a signer who joins ends up in it exactly once, beside all the
/// old members.
pub proof fn law_join_keeps_members_strictly_sorted(s: RatingState, who: AccountId)
    requires
        strictly_sorted(s.members),
        spec_add_member(s, Origin::Signed(who)).1 is Ok,
    ensures
        strictly_sorted(spec_add_member(s, Origin::Signed(who)).0.members),
        spec_add_member(s, Origin::Signed(who)).0.members.to_multiset() == s.members.to_multiset().insert(who),
{
    law_insert_keeps_strict_order(s.members, who);
}

/// Leaving undoes joining: on a sorted member list, a signer who joins and then
/// leaves gives the list back.
pub proof fn law_leave_undoes_join(s: RatingState, who: AccountId)
    requires
        sorted(s.members),
        spec_add_member(s, Origin::Signed(who)).1 is Ok,
    ensures
        spec_remove_member(spec_add_member(s, Origin::Signed(who)).0, Origin::Signed(who)).0.members == s.members,
        spec_remove_member(spec_add_member(s, Origin::Signed(who)).0, Origin::Signed(who)).1 is Ok,
{
    crate::sorted::lemma_remove_undoes_insert(s.members, who);
}

} // verus!
