//! Role-keyed membership relations.
//!
//! A `RoleMap` takes a role — an opaque string key — to its ordered set of
//! principals.  A role that has never been touched simply has the empty set;
//! looking it up is not an error.  Roles are stored in the order they were
//! first touched, each at most once.

use vstd::prelude::*;
use crate::principals::PrincipalSet;
use crate::principals::views_of;
use crate::principals::page_of;

verus! {

struct RoleEntry {
    role: String,
    members: PrincipalSet,
}

/// The members of `role` among `es`: the member set of the first entry keyed
/// by `role`, or the empty sequence when no entry is.
spec fn members_of_entries(es: Seq<RoleEntry>, role: Seq<char>) -> Seq<Seq<char>>
    decreases es.len(),
{
    if es.len() == 0 {
        Seq::<Seq<char>>::empty()
    } else if es[0].role@ == role {
        es[0].members@
    } else {
        members_of_entries(es.drop_first(), role)
    }
}

spec fn entries_wf(es: Seq<RoleEntry>) -> bool {
    &&& (forall|i: int, j: int| 0 <= i < j < es.len() ==> es[i].role@ != es[j].role@)
    &&& (forall|i: int| 0 <= i < es.len() ==> (#[trigger] es[i].members).wf())
}

proof fn lemma_members_first_match(es: Seq<RoleEntry>, i: int, role: Seq<char>)
    requires
        0 <= i < es.len(),
        es[i].role@ == role,
        forall|j: int| 0 <= j < i ==> es[j].role@ != role,
    ensures
        members_of_entries(es, role) == es[i].members@,
    decreases i,
{
    if i > 0 {
        lemma_members_first_match(es.drop_first(), i - 1, role);
        assert(es.drop_first()[i - 1] == es[i]);
    }
}

proof fn lemma_members_absent(es: Seq<RoleEntry>, role: Seq<char>)
    requires
        forall|j: int| 0 <= j < es.len() ==> es[j].role@ != role,
    ensures
        members_of_entries(es, role) == Seq::<Seq<char>>::empty(),
    decreases es.len(),
{
    if es.len() > 0 {
        lemma_members_absent(es.drop_first(), role);
    }
}

/// Two entry sequences with the same role keys, and the same member sets
/// wherever the key is `q`, agree on the members of `q`.
proof fn lemma_members_agree(es1: Seq<RoleEntry>, es2: Seq<RoleEntry>, q: Seq<char>)
    requires
        es1.len() == es2.len(),
        forall|k: int| 0 <= k < es1.len() ==> es1[k].role@ == es2[k].role@,
        forall|k: int| 0 <= k < es1.len() && es1[k].role@ == q ==> es1[k].members@
            == es2[k].members@,
    ensures
        members_of_entries(es1, q) == members_of_entries(es2, q),
    decreases es1.len(),
{
    if es1.len() > 0 && es1[0].role@ != q {
        assert forall|k: int| 0 <= k < es1.drop_first().len() implies es1.drop_first()[k].role@
            == es2.drop_first()[k].role@ by {
            assert(es1.drop_first()[k] == es1[k + 1]);
            assert(es2.drop_first()[k] == es2[k + 1]);
        }
        assert forall|k: int|
            0 <= k < es1.drop_first().len() && es1.drop_first()[k].role@
                == q implies es1.drop_first()[k].members@ == es2.drop_first()[k].members@ by {
            assert(es1.drop_first()[k] == es1[k + 1]);
            assert(es2.drop_first()[k] == es2[k + 1]);
        }
        lemma_members_agree(es1.drop_first(), es2.drop_first(), q);
    }
}

proof fn lemma_members_push(es: Seq<RoleEntry>, e: RoleEntry, q: Seq<char>)
    requires
        forall|j: int| 0 <= j < es.len() ==> es[j].role@ != e.role@,
    ensures
        members_of_entries(es.push(e), e.role@) == e.members@,
        q != e.role@ ==> members_of_entries(es.push(e), q) == members_of_entries(es, q),
    decreases es.len(),
{
    let s1 = es.push(e);
    if es.len() == 0 {
        assert(s1[0] == e);
        assert(s1.drop_first() =~= Seq::<RoleEntry>::empty());
        assert(members_of_entries(s1.drop_first(), q) == Seq::<Seq<char>>::empty());
        assert(members_of_entries(es, q) == Seq::<Seq<char>>::empty());
    } else {
        assert(s1[0] == es[0]);
        assert(es[0].role@ != e.role@);
        assert(s1.drop_first() =~= es.drop_first().push(e));
        assert forall|j: int| 0 <= j < es.drop_first().len() implies es.drop_first()[j].role@
            != e.role@ by {
            assert(es.drop_first()[j] == es[j + 1]);
        }
        lemma_members_push(es.drop_first(), e, q);
        assert(members_of_entries(s1, e.role@) == members_of_entries(
            es.drop_first().push(e),
            e.role@,
        ));
        if q != e.role@ {
            if es[0].role@ == q {
                assert(members_of_entries(s1, q) == es[0].members@);
                assert(members_of_entries(es, q) == es[0].members@);
            } else {
                assert(members_of_entries(s1, q) == members_of_entries(
                    es.drop_first().push(e),
                    q,
                ));
                assert(members_of_entries(es, q) == members_of_entries(es.drop_first(), q));
            }
        }
    }
}

proof fn lemma_members_no_dup(es: Seq<RoleEntry>, role: Seq<char>)
    requires
        forall|i: int| 0 <= i < es.len() ==> (#[trigger] es[i].members).wf(),
    ensures
        members_of_entries(es, role).no_duplicates(),
    decreases es.len(),
{
    if es.len() > 0 && es[0].role@ != role {
        assert forall|i: int| 0 <= i < es.drop_first().len() implies (#[trigger] es.drop_first()[i].members).wf() by {
            assert(es.drop_first()[i] == es[i + 1]);
        }
        lemma_members_no_dup(es.drop_first(), role);
    }
}

/// A mapping from roles to insertion-ordered sets of principals.
pub struct RoleMap {
    entries: Vec<RoleEntry>,
}

impl RoleMap {
    /// The members of `role`; the empty sequence for a role never touched.
    pub closed spec fn members_of(self, role: Seq<char>) -> Seq<Seq<char>> {
        members_of_entries(self.entries@, role)
    }

    /// Well-formed: each role keys at most one entry, and no member set holds
    /// a principal twice.
    pub closed spec fn wf(self) -> bool {
        entries_wf(self.entries@)
    }

    /// In a well-formed map no role's member set holds a principal twice.
    pub proof fn lemma_wf_no_dup(self, role: Seq<char>)
        requires
            self.wf(),
        ensures
            self.members_of(role).no_duplicates(),
    {
        lemma_members_no_dup(self.entries@, role);
    }

    /// The empty mapping.
    pub fn new() -> (m: Self)
        ensures
            m.wf(),
            forall|r: Seq<char>| m.members_of(r) == Seq::<Seq<char>>::empty(),
    {
        let m = RoleMap { entries: Vec::new() };
        m
    }

    /// The index of the entry keyed by `role`, if one exists.
    fn index_of_role(&self, role: &String) -> (r: Option<usize>)
        ensures
            match r {
                Some(i) => i < self.entries@.len() && self.entries@[i as int].role@ == role@
                    && (forall|j: int| 0 <= j < i ==> self.entries@[j].role@ != role@),
                None => forall|j: int|
                    0 <= j < self.entries@.len() ==> self.entries@[j].role@ != role@,
            },
    {
        let n: usize = self.entries.len();
        let mut i: usize = 0;
        while i < n
            invariant
                n == self.entries@.len(),
                i <= n,
                forall|j: int| 0 <= j < i ==> self.entries@[j].role@ != role@,
            decreases n - i,
        {
            if self.entries[i].role == *role {
                return Some(i);
            }
            i = i + 1;
        }
        None
    }

    /// Whether `p` is a member of `role`.
    pub fn contains(&self, role: &String, p: &String) -> (r: bool)
        ensures
            r == self.members_of(role@).contains(p@),
    {
        match self.index_of_role(role) {
            Some(i) => {
                proof {
                    lemma_members_first_match(self.entries@, i as int, role@);
                }
                self.entries[i].members.contains(p)
            },
            None => {
                proof {
                    lemma_members_absent(self.entries@, role@);
                }
                false
            },
        }
    }

    /// Inserts `p` at the end of `role`'s order unless already a member.
    /// Returns whether it was newly added.  No other role is touched.
    pub fn insert(&mut self, role: &String, p: &String) -> (r: bool)
        requires
            old(self).wf(),
        ensures
            final(self).wf(),
            r == !old(self).members_of(role@).contains(p@),
            r ==> final(self).members_of(role@) == old(self).members_of(role@).push(p@),
            !r ==> final(self).members_of(role@) == old(self).members_of(role@),
            forall|q: Seq<char>|
                q != role@ ==> #[trigger] final(self).members_of(q) == old(self).members_of(q),
    {
        match self.index_of_role(role) {
            Some(i) => {
                let ghost pre = self.entries@;
                let mut entry = self.entries.remove(i);
                let newly = entry.members.insert(p);
                self.entries.insert(i, entry);
                proof {
                    let post = self.entries@;
                    assert(post =~= pre.update(i as int, post[i as int]));
                    lemma_members_first_match(pre, i as int, role@);
                    lemma_members_first_match(post, i as int, role@);
                    assert forall|q: Seq<char>| q != role@ implies members_of_entries(post, q)
                        == members_of_entries(pre, q) by {
                        lemma_members_agree(pre, post, q);
                    }
                }
                newly
            },
            None => {
                let mut members = PrincipalSet::new();
                let newly = members.insert(p);
                let ghost pre = self.entries@;
                self.entries.push(RoleEntry { role: role.clone(), members });
                proof {
                    let e = self.entries@.last();
                    lemma_members_absent(pre, role@);
                    assert forall|q: Seq<char>| q != role@ implies members_of_entries(
                        self.entries@,
                        q,
                    ) == members_of_entries(pre, q) by {
                        lemma_members_push(pre, e, q);
                    }
                    lemma_members_push(pre, e, role@);
                    assert(final(self).members_of(role@) =~= old(self).members_of(role@).push(p@));
                }
                newly
            },
        }
    }

    /// Removes `p` from `role`'s member set if present, keeping the order of
    /// the others.  Returns whether it was a member.  No other role is
    /// touched.
    pub fn remove(&mut self, role: &String, p: &String) -> (r: bool)
        requires
            old(self).wf(),
        ensures
            final(self).wf(),
            r == old(self).members_of(role@).contains(p@),
            final(self).members_of(role@) == old(self).members_of(role@).remove_value(p@),
            forall|q: Seq<char>|
                q != role@ ==> #[trigger] final(self).members_of(q) == old(self).members_of(q),
    {
        match self.index_of_role(role) {
            Some(i) => {
                let ghost pre = self.entries@;
                let mut entry = self.entries.remove(i);
                let was = entry.members.remove(p);
                self.entries.insert(i, entry);
                proof {
                    let post = self.entries@;
                    assert(post =~= pre.update(i as int, post[i as int]));
                    lemma_members_first_match(pre, i as int, role@);
                    lemma_members_first_match(post, i as int, role@);
                    assert forall|q: Seq<char>| q != role@ implies members_of_entries(post, q)
                        == members_of_entries(pre, q) by {
                        lemma_members_agree(pre, post, q);
                    }
                }
                was
            },
            None => {
                proof {
                    lemma_members_absent(self.entries@, role@);
                    Seq::<Seq<char>>::empty().index_of_first_ensures(p@);
                }
                false
            },
        }
    }

    /// The page of `role`'s members that skips the first `skip` and holds at
    /// most `limit` of the rest, in insertion order.
    pub fn page(&self, role: &String, skip: u64, limit: u64) -> (r: Vec<String>)
        ensures
            views_of(r@) == page_of(self.members_of(role@), skip as int, limit as int),
    {
        match self.index_of_role(role) {
            Some(i) => {
                proof {
                    lemma_members_first_match(self.entries@, i as int, role@);
                }
                self.entries[i].members.page(skip, limit)
            },
            None => {
                let r: Vec<String> = Vec::new();
                proof {
                    lemma_members_absent(self.entries@, role@);
                    assert(views_of(r@) =~= page_of(
                        Seq::<Seq<char>>::empty(),
                        skip as int,
                        limit as int,
                    ));
                }
                r
            },
        }
    }
}

} // verus!
