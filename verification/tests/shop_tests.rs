use gamma_pallets::marketplace::{Error as MarketError, Pallet as Market};
use gamma_pallets::origin::Origin;
use gamma_pallets::ratings::{rate_entry, Error, Event, Feedback, Pallet};

#[test]
fn ratings_out_of_five() {
    assert_eq!(Feedback::Terrible.rating(), 1);
    assert_eq!(Feedback::Bad.rating(), 2);
    assert_eq!(Feedback::Okay.rating(), 3);
    assert_eq!(Feedback::Good.rating(), 4);
    assert_eq!(Feedback::Great.rating(), 5);
}

#[test]
fn score_entries_hold_the_mean_rating() {
    assert_eq!(rate_entry((0, 0), 5), (5, 1));
    assert_eq!(rate_entry((5, 1), 3), (4, 2));
    assert_eq!(rate_entry((4, 2), 1), (3, 3));
    // A score of 3 from two ratings and one more 3 stays 3.
    assert_eq!(rate_entry((3, 2), 3), (3, 3));
    assert_eq!(rate_entry((u32::MAX, 7), 1), (3_758_096_383, 8));
    assert_eq!(rate_entry((3, u32::MAX), 2), (3, u32::MAX));
}

#[test]
fn members_join_and_leave_themselves() {
    let mut p = Pallet::new();
    assert_eq!(p.add_member(Origin::Unsigned, 9), Err(Error::BadOrigin));
    assert_eq!(p.add_member(Origin::Signed(7), 9), Ok(()));
    assert_eq!(p.add_member(Origin::Signed(3), 9), Ok(()));
    assert_eq!(p.add_member(Origin::Signed(7), 9), Err(Error::AlreadyMember));
    assert_eq!(p.members.as_vec(), &vec![3, 7]);
    assert_eq!(p.events.last(), Some(&Event::AddedMember { new_member: 3 }));
    assert_eq!(p.remove_member(Origin::Signed(7), 3), Ok(()));
    assert_eq!(p.members.as_vec(), &vec![3]);
    assert_eq!(p.remove_member(Origin::Signed(7), 3), Err(Error::NotFound));
    assert_eq!(p.events.last(), Some(&Event::RemovedMember { member: 7 }));
}

#[test]
fn rating_members() {
    let mut p = Pallet::new();
    p.add_member(Origin::Signed(5), 5).unwrap();
    assert_eq!(p.rate_seller(1, 6, Feedback::Great, 0), Err(Error::NotFoundSeller));
    assert_eq!(p.rate_buyer(6, 1, Feedback::Great, 0), Err(Error::NotFoundBuyer));
    assert_eq!(p.reputation(5), 0);
    assert_eq!(p.rate_seller(1, 5, Feedback::Great, 0), Ok(5));
    assert_eq!(p.reputation(5), 5);
    assert_eq!(p.rate_buyer(5, 1, Feedback::Okay, 0), Ok(3));
    assert_eq!(p.reputation(5), 4);
    assert!(p.reputation(5) <= 5);
}

#[test]
fn marketplace_reputation() {
    let mut m = Market::new(vec![5, 8]);
    assert_eq!(m.reputation(9), Err(MarketError::NotFound));
    assert_eq!(m.reputation(5), Ok(0));
    assert_eq!(m.rate_seller(1, 9, Feedback::Good, 0), Err(MarketError::NotFoundSeller));
    assert_eq!(m.rate_buyer(9, 1, Feedback::Good, 0), Err(MarketError::NotFoundBuyer));
    assert_eq!(m.rate_seller(1, 8, Feedback::Good, 0), Ok(()));
    assert_eq!(m.reputation(8), Ok(4));
    assert_eq!(m.rate_buyer(5, 1, Feedback::Bad, 0), Ok(()));
    assert_eq!(m.reputation(5), Ok(2));
}
