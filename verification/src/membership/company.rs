//! Companies and their members, recorded as identity attributes and delegates.
use vstd::prelude::*;
use std::collections::HashMap;
use crate::identity::pallet::{
    spec_create_attribute, spec_create_delegate, spec_valid_delegate, Error as IdentityError,
    IdentityState, Pallet as Identity,
};
use crate::origin::{ensure_signed, signer_of, AccountId, Origin};

verus! {

/// Why a call of the company pallet failed.
#[derive(Clone, Copy, Debug, PartialEq, Eq, Structural)]
pub enum Error {
    CompanyDoesNotExist,
    AlreadyAMember,
    InvalidOrganisation,
    /// The identity pallet refused the attribute or delegate.
    Identity(IdentityError),
    /// The call was not signed.
    BadOrigin,
}

/// The company pallet's storage beside the identity pallet it records into.
pub struct Pallet {
    /// Accounts registered as companies.
    pub company: Vec<AccountId>,
    /// Members of each company.
    pub members: HashMap<AccountId, Vec<AccountId>>,
    pub did: Identity,
}

/// Mathematical value of the company [`Pallet`].
pub struct CompanyState {
    pub company: Seq<AccountId>,
    pub members: Map<AccountId, Seq<AccountId>>,
    pub did: IdentityState,
}

impl View for Pallet {
    type V = CompanyState;

    open spec fn view(&self) -> CompanyState {
        CompanyState {
            company: self.company@,
            members: self.members@.map_values(|v: Vec<AccountId>| v@),
            did: self.did@,
        }
    }
}

/// The attribute name under which a company records its name.
pub open spec fn org_attribute() -> Seq<u8> {
    seq![79u8, 114, 103]
}

/// The delegate type of company members.
pub open spec fn member_delegate_type() -> Seq<u8> {
    seq![77u8, 101, 109, 98, 101, 114]
}

/// Registering a company: refused with `CompanyDoesNotExist` unless the sender
/// is already listed; the sender is then listed again and its `Org` attribute
/// set to the company name, whose failure is returned but keeps the listing.
pub open spec fn spec_create_company(s: CompanyState, origin: Origin, company_name: Seq<u8>) -> (CompanyState, Result<(), Error>) {
    match signer_of(origin) {
        None => (s, Err(Error::BadOrigin)),
        Some(sender) => if !s.company.contains(sender) {
            (s, Err(Error::CompanyDoesNotExist))
        } else {
            let (d, r) = spec_create_attribute(s.did, sender, sender, org_attribute(), company_name, None);
            let s1 = CompanyState { company: s.company.push(sender), did: d, ..s };
            match r {
                Ok(_) => (s1, Ok(())),
                Err(e) => (s1, Err(Error::Identity(e))),
            }
        },
    }
}

/// The members recorded for a company (none when absent).
pub open spec fn members_of(s: CompanyState, company: AccountId) -> Seq<AccountId> {
    if s.members.contains_key(company) { s.members[company] } else { Seq::empty() }
}

/// Adding a member to the sender's company: refused unless the sender is a
/// company and `acc` is not yet recorded as its member; then `acc` is listed as
/// the company's `Member` delegate. The member list itself is not written back.
pub open spec fn spec_add_to_company(s: CompanyState, origin: Origin, acc: AccountId) -> (CompanyState, Result<(), Error>) {
    match signer_of(origin) {
        None => (s, Err(Error::BadOrigin)),
        Some(company) => if !s.company.contains(company) {
            (s, Err(Error::InvalidOrganisation))
        } else if members_of(s, company).contains(acc) {
            (s, Err(Error::AlreadyAMember))
        } else {
            let (d, r) = spec_create_delegate(s.did, company, company, acc, member_delegate_type(), None);
            match r {
                Ok(_) => (CompanyState { did: d, ..s }, Ok(())),
                Err(e) => (CompanyState { did: d, ..s }, Err(Error::Identity(e))),
            }
        },
    }
}

/// Whether some company among the first `n` vouches for `acc` as a member.
pub open spec fn member_of_first(s: CompanyState, acc: AccountId, n: int) -> bool {
    exists|i: int| 0 <= i < n && i < s.company.len()
        && #[trigger] spec_valid_delegate(s.did, s.company[i], member_delegate_type(), acc) is Ok
}

/// Whether `acc` is a valid `Member` delegate of some company.
pub open spec fn spec_verify_member(s: CompanyState, acc: AccountId) -> bool {
    member_of_first(s, acc, s.company.len() as int)
}

/// The account an origin acts as when it is a company member, or the origin back.
pub open spec fn spec_try_origin(s: CompanyState, o: Origin) -> Result<AccountId, Origin> {
    match o {
        Origin::Signed(who) => if spec_verify_member(s, who) { Ok(who) } else { Err(o) },
        _ => Err(o),
    }
}

impl Pallet {
    /// A company pallet with no companies, over the given identity pallet.
    pub fn new(did: Identity) -> (r: Pallet)
        ensures
            r@.company == Seq::<AccountId>::empty(),
            r@.members == Map::<AccountId, Seq<AccountId>>::empty(),
            r@.did == did@,
    {
        let r = Pallet { company: Vec::new(), members: HashMap::new(), did };
        assert(r@.members =~= Map::<AccountId, Seq<AccountId>>::empty());
        r
    }

    fn is_company(&self, acc: AccountId) -> (r: bool)
        ensures
            r == self@.company.contains(acc),
    {
        let mut i: usize = 0;
        while i < self.company.len()
            invariant
                i <= self.company@.len(),
                forall|j: int| 0 <= j < i ==> self.company@[j] != acc,
            decreases self.company.len() - i,
        {
            if self.company[i] == acc {
                proof { assert(self.company@[i as int] == acc); }
                return true;
            }
            i = i + 1;
        }
        false
    }

    fn is_recorded_member(&self, company: AccountId, acc: AccountId) -> (r: bool)
        ensures
            r == members_of(self@, company).contains(acc),
    {
        match self.members.get(&company) {
            None => {
                proof { assert(members_of(self@, company) =~= Seq::<AccountId>::empty()); }
                false
            },
            Some(list) => {
                proof { assert(members_of(self@, company) == list@); }
                let mut i: usize = 0;
                while i < list.len()
                    invariant
                        i <= list@.len(),
                        members_of(self@, company) == list@,
                        forall|j: int| 0 <= j < i ==> list@[j] != acc,
                    decreases list.len() - i,
                {
                    if list[i] == acc {
                        proof { assert(list@[i as int] == acc); }
                        return true;
                    }
                    i = i + 1;
                }
                false
            },
        }
    }

    /// Registers the sender's company under `company_name`.
    pub fn create_company(&mut self, origin: Origin, company_name: Vec<u8>) -> (r: Result<(), Error>)
        ensures
            (final(self)@, r) == spec_create_company(old(self)@, origin, company_name@),
    {
        let sender = match ensure_signed(origin) {
            Some(a) => a,
            None => return Err(Error::BadOrigin),
        };
        if !self.is_company(sender) {
            return Err(Error::CompanyDoesNotExist);
        }
        self.company.push(sender);
        let org: [u8; 3] = [79u8, 114, 103];
        proof { assert(org@ =~= org_attribute()); }
        match self.did.create_attribute(sender, sender, org.as_slice(), company_name.as_slice(), None) {
            Ok(_) => Ok(()),
            Err(e) => Err(Error::Identity(e)),
        }
    }

    /// Makes `acc` a member of the sender's company.
    pub fn add_to_company(&mut self, origin: Origin, acc: AccountId) -> (r: Result<(), Error>)
        ensures
            (final(self)@, r) == spec_add_to_company(old(self)@, origin, acc),
    {
        let company = match ensure_signed(origin) {
            Some(a) => a,
            None => return Err(Error::BadOrigin),
        };
        if !self.is_company(company) {
            return Err(Error::InvalidOrganisation);
        }
        if self.is_recorded_member(company, acc) {
            return Err(Error::AlreadyAMember);
        }
        let member: [u8; 6] = [77u8, 101, 109, 98, 101, 114];
        proof { assert(member@ =~= member_delegate_type()); }
        match self.did.create_delegate(company, company, acc, member.as_slice(), None) {
            Ok(_) => Ok(()),
            Err(e) => Err(Error::Identity(e)),
        }
    }

    /// Whether `acc` is a valid member delegate of some company.
    pub fn verify_member(&self, acc: AccountId) -> (r: bool)
        ensures
            r == spec_verify_member(self@, acc),
    {
        let member: [u8; 6] = [77u8, 101, 109, 98, 101, 114];
        proof { assert(member@ =~= member_delegate_type()); }
        let mut i: usize = 0;
        while i < self.company.len()
            invariant
                i <= self.company@.len(),
                member@ == member_delegate_type(),
                !member_of_first(self@, acc, i as int),
            decreases self.company.len() - i,
        {
            if self.did.valid_delegate(self.company[i], member.as_slice(), acc).is_ok() {
                proof {
                    assert(spec_valid_delegate(self@.did, self@.company[i as int], member_delegate_type(), acc) is Ok);
                }
                return true;
            }
            proof {
                assert forall|j: int| 0 <= j < i + 1 && j < self@.company.len()
                    implies !(#[trigger] spec_valid_delegate(self@.did, self@.company[j], member_delegate_type(), acc) is Ok) by {
                    if j < i {
                        assert(!member_of_first(self@, acc, i as int));
                    }
                }
            }
            i = i + 1;
        }
        false
    }
}

/// The origin check that admits company members.
pub struct EnsureOrg;

impl EnsureOrg {
    /// Admits a signed origin whose signer is a company member, as that account;
    /// gives any other origin back.
    pub fn try_origin(pallet: &Pallet, o: Origin) -> (r: Result<AccountId, Origin>)
        ensures
            r == spec_try_origin(pallet@, o),
    {
        match o {
            Origin::Signed(who) => if pallet.verify_member(who) { Ok(who) } else { Err(o) },
            _ => Err(o),
        }
    }
}

} // verus!
