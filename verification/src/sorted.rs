//! Account lists kept in ascending order, searched by bisection.
use vstd::prelude::*;
use crate::origin::AccountId;

verus! {

broadcast use vstd::seq_lib::group_to_multiset_ensures;

/// Whether `s` is in ascending order (repeats allowed).
pub open spec fn sorted(s: Seq<AccountId>) -> bool {
    forall|i: int, j: int| 0 <= i <= j < s.len() ==> s[i] <= s[j]
}

/// Whether `k` splits `s` into the elements below `x` and the rest.
pub open spec fn is_split(s: Seq<AccountId>, x: AccountId, k: int) -> bool {
    &&& 0 <= k <= s.len()
    &&& forall|j: int| 0 <= j < k ==> s[j] < x
    &&& forall|j: int| k <= j < s.len() ==> s[j] >= x
}

/// The position in `s` before which every element is below `x` and from which
/// none is (for a sorted `s`, the number of elements below `x`).
pub open spec fn split_point(s: Seq<AccountId>, x: AccountId) -> int {
    choose|k: int| is_split(s, x, k)
}

/// Bisection of a sorted list: `Ok(i)` when `x` is found at `i` (its first
/// occurrence), `Err(i)` with `i` the place where `x` would be inserted.
pub open spec fn search_result(s: Seq<AccountId>, x: AccountId) -> Result<usize, usize> {
    let k = split_point(s, x);
    if k < s.len() && s[k] == x { Ok(k as usize) } else { Err(k as usize) }
}

/// `s` with `x` inserted where it keeps the order.
pub open spec fn insert_sorted(s: Seq<AccountId>, x: AccountId) -> Seq<AccountId> {
    s.insert(split_point(s, x), x)
}

/// At most one position splits a sequence around a value.
pub proof fn lemma_split_unique(s: Seq<AccountId>, x: AccountId, k1: int, k2: int)
    requires
        is_split(s, x, k1),
        is_split(s, x, k2),
    ensures
        k1 == k2,
{
    if k1 < k2 {
        assert(s[k1] < x);
    } else if k2 < k1 {
        assert(s[k2] < x);
    }
}

/// A sorted sequence has a split point around every value, and it is the one
/// that [`split_point`] picks.
pub proof fn lemma_split_point(s: Seq<AccountId>, x: AccountId, k: int)
    requires
        is_split(s, x, k),
    ensures
        split_point(s, x) == k,
{
    lemma_split_unique(s, x, split_point(s, x), k);
}

/// Inserting a value at its split point keeps a sequence sorted.
pub proof fn lemma_insert_sorted(s: Seq<AccountId>, x: AccountId, k: int)
    requires
        sorted(s),
        is_split(s, x, k),
    ensures
        sorted(s.insert(k, x)),
{
    let t = s.insert(k, x);
    assert forall|i: int, j: int| 0 <= i <= j < t.len() implies t[i] <= t[j] by {
        if i < k && j < k {
        } else if i < k && j == k {
        } else if i < k && j > k {
            assert(t[j] == s[j - 1]);
        } else if i == k && j > k {
            assert(t[j] == s[j - 1]);
        } else if i > k {
            assert(t[i] == s[i - 1] && t[j] == s[j - 1]);
        }
    }
}

/// Removing an element keeps a sequence sorted.
pub proof fn lemma_remove_sorted(s: Seq<AccountId>, k: int)
    requires
        sorted(s),
        0 <= k < s.len(),
    ensures
        sorted(s.remove(k)),
{
    let t = s.remove(k);
    assert forall|i: int, j: int| 0 <= i <= j < t.len() implies t[i] <= t[j] by {
        if j < k {
        } else if i < k {
            assert(t[j] == s[j + 1]);
        } else {
            assert(t[i] == s[i + 1] && t[j] == s[j + 1]);
        }
    }
}

/// A list of accounts in ascending order.
pub struct SortedAccounts {
    items: Vec<AccountId>,
}

impl SortedAccounts {
    #[verifier::type_invariant]
    closed spec fn ordered(self) -> bool {
        sorted(self.items@)
    }

    /// The accounts, in order.
    pub closed spec fn view(self) -> Seq<AccountId> {
        self.items@
    }

    /// An empty list.
    pub fn new() -> (r: SortedAccounts)
        ensures
            r.view() == Seq::<AccountId>::empty(),
    {
        SortedAccounts { items: Vec::new() }
    }

    /// The accounts of `v`, sorted.
    pub fn from_unsorted(v: &Vec<AccountId>) -> (r: SortedAccounts)
        ensures
            sorted(r.view()),
            r.view().to_multiset() == v@.to_multiset(),
    {
        let mut out = SortedAccounts::new();
        let mut i: usize = 0;
        while i < v.len()
            invariant
                i <= v.len(),
                out.view().to_multiset() == v@.subrange(0, i as int).to_multiset(),
            decreases v.len() - i,
        {
            let ghost before = out.view();
            proof {
                use_type_invariant(&out);
                lemma_split_exists(before, v@[i as int]);
            }
            out.insert_at_place(v[i]);
            proof {
                assert(v@.subrange(0, i + 1) =~= v@.subrange(0, i as int).push(v@[i as int]));
                vstd::seq_lib::to_multiset_insert(before, split_point(before, v@[i as int]), v@[i as int]);
            }
            i = i + 1;
        }
        proof {
            assert(v@.subrange(0, v.len() as int) =~= v@);
            use_type_invariant(&out);
        }
        out
    }

    /// The number of accounts.
    pub fn len(&self) -> (r: usize)
        ensures
            r == self.view().len(),
    {
        self.items.len()
    }

    /// The account at position `i`.
    pub fn get(&self, i: usize) -> (r: AccountId)
        requires
            i < self.view().len(),
        ensures
            r == self.view()[i as int],
    {
        self.items[i]
    }

    /// The accounts as a vector.
    pub fn as_vec(&self) -> (r: &Vec<AccountId>)
        ensures
            r@ == self.view(),
    {
        &self.items
    }

    /// Bisection for `x`: where it is, or where it would go.
    pub fn search(&self, x: AccountId) -> (r: Result<usize, usize>)
        ensures
            r == search_result(self.view(), x),
            match r {
                Ok(k) => k == split_point(self.view(), x),
                Err(k) => k == split_point(self.view(), x),
            },
    {
        proof { use_type_invariant(self); }
        let mut lo: usize = 0;
        let mut hi: usize = self.items.len();
        while lo < hi
            invariant
                lo <= hi <= self.items@.len(),
                sorted(self.items@),
                forall|j: int| 0 <= j < lo ==> self.items@[j] < x,
                forall|j: int| hi <= j < self.items@.len() ==> self.items@[j] >= x,
            decreases hi - lo,
        {
            let mid = lo + (hi - lo) / 2;
            if self.items[mid] < x {
                lo = mid + 1;
            } else {
                hi = mid;
            }
        }
        proof {
            assert(is_split(self.items@, x, lo as int));
            lemma_split_point(self.items@, x, lo as int);
        }
        if lo < self.items.len() && self.items[lo] == x { Ok(lo) } else { Err(lo) }
    }

    /// Whether `x` is in the list.
    pub fn contains(&self, x: AccountId) -> (r: bool)
        ensures
            r == self.view().contains(x),
    {
        proof {
            use_type_invariant(self);
            lemma_split_exists(self.items@, x);
            lemma_found_iff_contains(self.items@, x);
        }
        match self.search(x) {
            Ok(_) => true,
            Err(_) => false,
        }
    }

    /// Inserts `x` before the first element that is not below it.
    fn insert_at_place(&mut self, x: AccountId)
        ensures
            final(self).view() == insert_sorted(old(self).view(), x),
    {
        proof {
            use_type_invariant(&*self);
            lemma_split_exists(self.items@, x);
        }
        let k = match self.search(x) {
            Ok(k) => k,
            Err(k) => k,
        };
        let ghost old_items = self.items@;
        proof {
            assert(k as int == split_point(old_items, x));
            lemma_insert_sorted(old_items, x, k as int);
        }
        let mut items: Vec<AccountId> = Vec::new();
        std::mem::swap(&mut items, &mut self.items);
        items.insert(k, x);
        self.items = items;
    }

    /// Inserts `x` at its place; `false` (and no change) when it is already there.
    pub fn insert(&mut self, x: AccountId) -> (r: bool)
        ensures
            r == !old(self).view().contains(x),
            sorted(final(self).view()),
            final(self).view() == if r { insert_sorted(old(self).view(), x) } else { old(self).view() },
    {
        proof { use_type_invariant(&*self); }
        match self.search(x) {
            Ok(_) => {
                proof {
                    lemma_split_exists(self.items@, x);
                    lemma_found_iff_contains(self.items@, x);
                }
                false
            },
            Err(_) => {
                proof {
                    lemma_split_exists(self.items@, x);
                    lemma_found_iff_contains(self.items@, x);
                }
                self.insert_at_place(x);
                proof { use_type_invariant(&*self); }
                true
            },
        }
    }

    /// Removes the first occurrence of `x`; `false` (and no change) when it is absent.
    pub fn remove(&mut self, x: AccountId) -> (r: bool)
        ensures
            r == old(self).view().contains(x),
            sorted(final(self).view()),
            final(self).view() == if r { old(self).view().remove(split_point(old(self).view(), x)) } else { old(self).view() },
    {
        proof {
            use_type_invariant(&*self);
            lemma_split_exists(self.items@, x);
            lemma_found_iff_contains(self.items@, x);
        }
        match self.search(x) {
            Ok(k) => {
                let ghost old_items = self.items@;
                proof {
                    assert(k as int == split_point(old_items, x));
                    lemma_remove_sorted(old_items, k as int);
                }
                let mut items: Vec<AccountId> = Vec::new();
                std::mem::swap(&mut items, &mut self.items);
                items.remove(k);
                self.items = items;
                true
            },
            Err(_) => false,
        }
    }
}

/// The number of leading elements of `s` below `x`, looking no further than `n`.
spec fn split_first(s: Seq<AccountId>, x: AccountId, n: int) -> int
    decreases n,
{
    if n <= 0 { 0 } else if s[n - 1] < x { n } else { split_first(s, x, n - 1) }
}

proof fn lemma_split_first(s: Seq<AccountId>, x: AccountId, n: int)
    requires
        sorted(s),
        0 <= n <= s.len(),
        forall|j: int| n <= j < s.len() ==> s[j] >= x,
    ensures
        is_split(s, x, split_first(s, x, n)),
    decreases n,
{
    if n > 0 && s[n - 1] >= x {
        lemma_split_first(s, x, n - 1);
    }
}

/// A sorted sequence splits around every value, at [`split_point`].
pub proof fn lemma_split_exists(s: Seq<AccountId>, x: AccountId)
    requires
        sorted(s),
    ensures
        is_split(s, x, split_point(s, x)),
{
    lemma_split_first(s, x, s.len() as int);
    lemma_split_point(s, x, split_first(s, x, s.len() as int));
}

/// At the split point of a sorted sequence stands `x` exactly when `x` occurs in it.
pub proof fn lemma_found_iff_contains(s: Seq<AccountId>, x: AccountId)
    requires
        sorted(s),
        is_split(s, x, split_point(s, x)),
    ensures
        (split_point(s, x) < s.len() && s[split_point(s, x)] == x) == s.contains(x),
{
    let k = split_point(s, x);
    if s.contains(x) {
        let j = choose|j: int| 0 <= j < s.len() && s[j] == x;
        assert(s[k] <= s[j]);
    }
    if k < s.len() && s[k] == x {
        assert(s.contains(x));
    }
}

/// Removing a value that was just inserted gives back the sequence: the value
/// lands at its split point, which is where removal looks for it.
pub proof fn lemma_remove_undoes_insert(s: Seq<AccountId>, x: AccountId)
    requires
        sorted(s),
    ensures
        insert_sorted(s, x).remove(split_point(insert_sorted(s, x), x)) == s,
        insert_sorted(s, x).contains(x),
{
    lemma_split_exists(s, x);
    let k = split_point(s, x);
    let t = insert_sorted(s, x);
    assert(t[k] == x);
    assert(is_split(t, x, k)) by {
        assert forall|j: int| k <= j < t.len() implies t[j] >= x by {
            if j > k {
                assert(t[j] == s[j - 1]);
            }
        }
    }
    lemma_split_point(t, x, k);
    assert(t.remove(k) =~= s);
}

/// Whether `s` is strictly increasing: sorted, with no account twice.
pub open spec fn strictly_sorted(s: Seq<AccountId>) -> bool {
    forall|i: int, j: int| 0 <= i < j < s.len() ==> s[i] < s[j]
}

/// Adding a new account to a strictly increasing list keeps it strictly
/// increasing, and the result holds exactly the old accounts and the new one.
pub proof fn law_insert_keeps_strict_order(s: Seq<AccountId>, x: AccountId)
    requires
        strictly_sorted(s),
        !s.contains(x),
    ensures
        strictly_sorted(insert_sorted(s, x)),
        insert_sorted(s, x).to_multiset() == s.to_multiset().insert(x),
        insert_sorted(s, x).len() == s.len() + 1,
{
    assert(sorted(s)) by {
        assert forall|i: int, j: int| 0 <= i <= j < s.len() implies s[i] <= s[j] by {
            if i < j { assert(s[i] < s[j]); }
        }
    }
    lemma_split_exists(s, x);
    let k = split_point(s, x);
    let t = insert_sorted(s, x);
    assert forall|j: int| k <= j < s.len() implies s[j] > x by {
        assert(s[j] >= x);
        if s[j] == x { assert(s.contains(x)); }
    }
    assert forall|i: int, j: int| 0 <= i < j < t.len() implies t[i] < t[j] by {
        if j < k {
            assert(t[i] == s[i] && t[j] == s[j]);
        } else if j == k {
            assert(t[i] == s[i] && t[j] == x);
        } else if i < k {
            assert(t[i] == s[i] && t[j] == s[j - 1]);
        } else if i == k {
            assert(t[i] == x && t[j] == s[j - 1]);
        } else {
            assert(t[i] == s[i - 1] && t[j] == s[j - 1]);
        }
    }
    vstd::seq_lib::to_multiset_insert(s, k, x);
}

} // verus!
