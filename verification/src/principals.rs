//! Ordered sets of principals.
//!
//! A principal is an opaque account identifier, held as a `String` and
//! reasoned about through its character-sequence view.  Each set keeps its
//! members in insertion order and never holds a member twice; removing and
//! re-adding a principal therefore places it at the end of the order.

use vstd::prelude::*;

verus! {

/// The character-sequence views of a sequence of strings.
pub open spec fn views_of(ss: Seq<String>) -> Seq<Seq<char>> {
    ss.map_values(|s: String| s@)
}

/// The page of `s` obtained by skipping the first `skip` elements and keeping
/// at most `limit` of the rest.  Out-of-range arguments degrade to shorter or
/// empty pages; they never fault.
pub open spec fn page_of(s: Seq<Seq<char>>, skip: int, limit: int) -> Seq<Seq<char>>
    recommends
        0 <= skip,
        0 <= limit,
{
    let lo = if skip < s.len() as int { skip } else { s.len() as int };
    let hi = if skip + limit < s.len() as int { skip + limit } else { s.len() as int };
    s.subrange(lo, hi)
}

/// An insertion-ordered set of principals: a vector of account identifiers
/// without duplicates.
pub struct PrincipalSet {
    members: Vec<String>,
}

impl View for PrincipalSet {
    type V = Seq<Seq<char>>;

    closed spec fn view(&self) -> Seq<Seq<char>> {
        views_of(self.members@)
    }
}

proof fn lemma_views_of_push(ss: Seq<String>, s: String)
    ensures
        views_of(ss.push(s)) == views_of(ss).push(s@),
{
    assert(views_of(ss.push(s)) =~= views_of(ss).push(s@));
}

proof fn lemma_views_of_remove(ss: Seq<String>, i: int)
    requires
        0 <= i < ss.len(),
    ensures
        views_of(ss.remove(i)) == views_of(ss).remove(i),
{
    ss.remove_ensures(i);
    views_of(ss).remove_ensures(i);
    assert(views_of(ss.remove(i)) =~= views_of(ss).remove(i));
}

proof fn lemma_remove_no_duplicates(s: Seq<Seq<char>>, i: int)
    requires
        s.no_duplicates(),
        0 <= i < s.len(),
    ensures
        s.remove(i).no_duplicates(),
{
    s.remove_ensures(i);
    assert forall|a: int, b: int|
        0 <= a < s.remove(i).len() && 0 <= b < s.remove(i).len() && a != b implies s.remove(i)[a]
        != s.remove(i)[b] by {
        let a0 = if a < i { a } else { a + 1 };
        let b0 = if b < i { b } else { b + 1 };
        assert(s.remove(i)[a] == s[a0]);
        assert(s.remove(i)[b] == s[b0]);
    }
}

/// Removing a value from a duplicate-free sequence removes exactly that
/// value: the value is gone, every other value's membership is untouched, and
/// the result is duplicate-free again.
pub proof fn lemma_remove_value_props(s: Seq<Seq<char>>, x: Seq<char>)
    requires
        s.no_duplicates(),
    ensures
        !s.remove_value(x).contains(x),
        forall|y: Seq<char>| y != x ==> s.remove_value(x).contains(y) == s.contains(y),
        s.remove_value(x).no_duplicates(),
        s.contains(x) ==> s.remove_value(x).len() == s.len() - 1,
        !s.contains(x) ==> s.remove_value(x) == s,
{
    s.index_of_first_ensures(x);
    if s.contains(x) {
        let i = s.index_of_first(x)->Some_0;
        s.remove_ensures(i);
        lemma_remove_no_duplicates(s, i);
        let r = s.remove(i);
        assert forall|a: int| 0 <= a < r.len() implies r[a] != x by {
            let a0 = if a < i { a } else { a + 1 };
            assert(r[a] == s[a0]);
        }
        assert forall|y: Seq<char>| y != x && s.contains(y) implies r.contains(y) by {
            let k = choose|k: int| 0 <= k < s.len() && s[k] == y;
            let a = if k < i { k } else { k - 1 };
            assert(r[a] == s[k]);
        }
        assert forall|y: Seq<char>| y != x && r.contains(y) implies s.contains(y) by {
            let a = choose|a: int| 0 <= a < r.len() && r[a] == y;
            let a0 = if a < i { a } else { a + 1 };
            assert(s[a0] == r[a]);
        }
    }
}

impl PrincipalSet {
    /// Well-formed: no principal occurs twice.
    pub open spec fn wf(self) -> bool {
        self@.no_duplicates()
    }

    /// The empty set.
    pub fn new() -> (s: Self)
        ensures
            s@ == Seq::<Seq<char>>::empty(),
            s.wf(),
    {
        let s = PrincipalSet { members: Vec::new() };
        proof {
            assert(s@ =~= Seq::<Seq<char>>::empty());
        }
        s
    }

    /// How many members the set has.
    pub fn len(&self) -> (n: usize)
        ensures
            n == self@.len(),
    {
        self.members.len()
    }

    /// The index of `p`'s single occurrence, if it is a member.
    fn index_of(&self, p: &String) -> (r: Option<usize>)
        ensures
            match r {
                Some(i) => i < self@.len() && self@[i as int] == p@ && (forall|j: int|
                    0 <= j < i ==> self@[j] != p@),
                None => !self@.contains(p@),
            },
    {
        let n: usize = self.members.len();
        let mut i: usize = 0;
        while i < n
            invariant
                n == self.members@.len(),
                i <= n,
                forall|j: int| 0 <= j < i ==> self@[j] != p@,
            decreases n - i,
        {
            if self.members[i] == *p {
                return Some(i);
            }
            i = i + 1;
        }
        None
    }

    /// Membership test.
    pub fn contains(&self, p: &String) -> (r: bool)
        ensures
            r == self@.contains(p@),
    {
        match self.index_of(p) {
            Some(i) => {
                proof {
                    assert(0 <= i < self@.len() && self@[i as int] == p@);
                }
                true
            },
            None => false,
        }
    }

    /// Inserts `p` at the end of the order unless it is already a member.
    /// Returns whether it was newly added.
    pub fn insert(&mut self, p: &String) -> (r: bool)
        requires
            old(self).wf(),
        ensures
            final(self).wf(),
            r == !old(self)@.contains(p@),
            r ==> final(self)@ == old(self)@.push(p@),
            !r ==> final(self)@ == old(self)@,
    {
        if self.contains(p) {
            false
        } else {
            let ghost pre = self.members@;
            self.members.push(p.clone());
            proof {
                lemma_views_of_push(pre, self.members@.last());
                assert(self@ == old(self)@.push(p@));
                assert forall|a: int, b: int|
                    0 <= a < self@.len() && 0 <= b < self@.len() && a != b implies self@[a]
                    != self@[b] by {
                    if b == self@.len() - 1 {
                        assert(self@[a] == old(self)@[a]);
                    } else if a == self@.len() - 1 {
                        assert(self@[b] == old(self)@[b]);
                    } else {
                        assert(self@[a] == old(self)@[a]);
                        assert(self@[b] == old(self)@[b]);
                    }
                }
            }
            true
        }
    }

    /// Removes `p` if it is a member, keeping the order of the others.
    /// Returns whether it was a member.
    pub fn remove(&mut self, p: &String) -> (r: bool)
        requires
            old(self).wf(),
        ensures
            final(self).wf(),
            r == old(self)@.contains(p@),
            final(self)@ == old(self)@.remove_value(p@),
    {
        proof {
            old(self)@.index_of_first_ensures(p@);
        }
        match self.index_of(p) {
            Some(i) => {
                proof {
                    assert(0 <= i < self@.len() && self@[i as int] == p@);
                    assert(old(self)@.index_of_first(p@) == Some(i as int));
                }
                let ghost pre = self.members@;
                self.members.remove(i);
                proof {
                    lemma_views_of_remove(pre, i as int);
                    lemma_remove_no_duplicates(old(self)@, i as int);
                }
                true
            },
            None => false,
        }
    }

    /// The page of members that skips the first `skip` and holds at most
    /// `limit` of the rest, in insertion order.
    pub fn page(&self, skip: u64, limit: u64) -> (r: Vec<String>)
        ensures
            views_of(r@) == page_of(self@, skip as int, limit as int),
    {
        let n: usize = self.members.len();
        let mut out: Vec<String> = Vec::new();
        if skip >= n as u64 {
            proof {
                assert(views_of(out@) =~= page_of(self@, skip as int, limit as int));
            }
            return out;
        }
        let start: usize = skip as usize;
        let mut i: usize = start;
        while i < n && (out.len() as u64) < limit
            invariant
                n == self.members@.len(),
                start == skip as int,
                start <= i <= n,
                out@.len() == i - start,
                out@.len() <= limit,
                views_of(out@) == self@.subrange(start as int, i as int),
            decreases n - i,
        {
            let ghost pre = out@;
            out.push(self.members[i].clone());
            proof {
                lemma_views_of_push(pre, out@.last());
                assert(views_of(out@) =~= self@.subrange(start as int, i + 1));
            }
            i = i + 1;
        }
        proof {
            assert(views_of(out@) =~= page_of(self@, skip as int, limit as int));
        }
        out
    }
}

} // verus!
