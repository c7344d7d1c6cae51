//! Laws of the engine.
//!
//! Each proof function here states a property that holds of every state and
//! every choice of roles and accounts, derived purely from the transition
//! predicates and spec functions of [`crate::engine`].

use vstd::prelude::*;
use crate::engine::AccessControllable;
use crate::events::AclEvent;
use crate::events::RoleGranted;
use crate::principals::page_of;
use crate::principals::lemma_remove_value_props;

verus! {

/// After a permitted grant of `role` to `target`, `target` holds `role` —
/// whether or not it already did.
pub proof fn lemma_grant_then_has_role(
    pre: AccessControllable,
    post: AccessControllable,
    role: String,
    actor: String,
    target: String,
    r: Option<bool>,
)
    requires
        pre.spec_is_admin(role@, actor@),
        AccessControllable::grant_role_post(pre, post, role, actor, target, r),
    ensures
        post.spec_has_role(role@, target@),
{
    if pre.spec_has_role(role@, target@) {
        assert(post.spec_grantees(role@) == pre.spec_grantees(role@));
    } else {
        let s = pre.spec_grantees(role@).push(target@);
        assert(s[s.len() - 1] == target@);
    }
}

/// After a permitted revocation of `role` from `target`, `target` no longer
/// holds `role`.
pub proof fn lemma_revoke_then_not_has_role(
    pre: AccessControllable,
    post: AccessControllable,
    role: String,
    actor: String,
    target: String,
    r: Option<bool>,
)
    requires
        pre.wf(),
        pre.spec_is_admin(role@, actor@),
        AccessControllable::revoke_role_post(pre, post, role, actor, target, r),
    ensures
        !post.spec_has_role(role@, target@),
{
    pre.lemma_wf_no_dup(role@);
    lemma_remove_value_props(pre.spec_grantees(role@), target@);
    if !pre.spec_has_role(role@, target@) {
        assert(post.spec_grantees(role@) == pre.spec_grantees(role@));
    }
}

/// Granting twice in a row with the same admin actor reports a change
/// exactly once, and emits exactly one event for the pair of calls.
pub proof fn lemma_grant_role_idempotent(
    s0: AccessControllable,
    s1: AccessControllable,
    s2: AccessControllable,
    role: String,
    actor: String,
    target: String,
    r1: Option<bool>,
    r2: Option<bool>,
)
    requires
        s0.spec_is_admin(role@, actor@),
        !s0.spec_has_role(role@, target@),
        AccessControllable::grant_role_post(s0, s1, role, actor, target, r1),
        AccessControllable::grant_role_post(s1, s2, role, actor, target, r2),
    ensures
        r1 == Some(true),
        r2 == Some(false),
        s2.spec_events() == s0.spec_events().push(
            AclEvent::RoleGranted(RoleGranted { role: role, to: target, by: actor }),
        ),
{
    let s = s0.spec_grantees(role@).push(target@);
    assert(s[s.len() - 1] == target@);
    assert(s1.spec_has_role(role@, target@));
    assert(s1.spec_admins(role@) == s0.spec_admins(role@));
    assert(s1.spec_is_admin(role@, actor@));
}

/// Super-admin universality: a super-admin is an admin for every role,
/// including roles never explicitly touched.
pub proof fn lemma_super_admin_is_admin_for_every_role(s: AccessControllable, p: Seq<char>)
    requires
        s.spec_is_super_admin(p),
    ensures
        forall|role: Seq<char>| s.spec_is_admin(role, p),
{
}

/// Permission gating: an actor without admin standing for `role` is denied,
/// and nothing — permissions or events — changes.
pub proof fn lemma_grant_role_denied(
    pre: AccessControllable,
    post: AccessControllable,
    role: String,
    actor: String,
    target: String,
    r: Option<bool>,
)
    requires
        !pre.spec_is_admin(role@, actor@),
        AccessControllable::grant_role_post(pre, post, role, actor, target, r),
    ensures
        r == None::<bool>,
        AccessControllable::no_change(pre, post),
        post.spec_has_role(role@, target@) == pre.spec_has_role(role@, target@),
{
    assert(post.spec_grantees(role@) == pre.spec_grantees(role@));
}

/// Self-service symmetry: renouncing `role` needs no admin standing and
/// removes exactly the actor's own grant — every other account's grant of
/// every role, and every other role's grantees, are untouched.
pub proof fn lemma_renounce_role_self_service(
    pre: AccessControllable,
    post: AccessControllable,
    role: String,
    actor: String,
    r: bool,
)
    requires
        pre.wf(),
        AccessControllable::renounce_role_post(pre, post, role, actor, r),
    ensures
        r == pre.spec_has_role(role@, actor@),
        !post.spec_has_role(role@, actor@),
        forall|p: Seq<char>|
            p != actor@ ==> post.spec_has_role(role@, p) == pre.spec_has_role(role@, p),
        forall|q: Seq<char>| q != role@ ==> post.spec_grantees(q) == pre.spec_grantees(q),
{
    pre.lemma_wf_no_dup(role@);
    lemma_remove_value_props(pre.spec_grantees(role@), actor@);
    if !r {
        assert(post.spec_grantees(role@) == pre.spec_grantees(role@));
        assert forall|q: Seq<char>| q != role@ implies post.spec_grantees(q) == pre.spec_grantees(
            q,
        ) by {
            assert(post.spec_grantees(q) == pre.spec_grantees(q));
        }
    }
}

/// An empty acceptable-role sequence admits nobody.
pub proof fn lemma_has_any_role_empty(s: AccessControllable, p: Seq<char>)
    ensures
        !s.spec_has_any_role(Seq::<Seq<char>>::empty(), p),
{
}

/// Against a two-role sequence, `has_any_role` holds exactly when one of
/// the two roles is held.
pub proof fn lemma_has_any_role_pair(
    s: AccessControllable,
    a: Seq<char>,
    b: Seq<char>,
    p: Seq<char>,
)
    ensures
        s.spec_has_any_role(seq![a, b], p) == (s.spec_has_role(a, p) || s.spec_has_role(b, p)),
{
    let rs = seq![a, b];
    assert(rs[0] == a);
    assert(rs[1] == b);
    if s.spec_has_role(a, p) {
        assert(s.spec_has_any_role(rs, p));
    } else if s.spec_has_role(b, p) {
        assert(s.spec_has_any_role(rs, p));
    } else {
        assert forall|i: int| 0 <= i < rs.len() implies !s.spec_has_role(rs[i], p) by {
            if i == 0 {
                assert(rs[i] == a);
            } else {
                assert(rs[i] == b);
            }
        }
    }
}

/// Pagination is a window onto the insertion order: the page holds at most
/// `limit` elements, and its `k`-th element is the `(skip + k)`-th member.
pub proof fn lemma_page_of_window(s: Seq<Seq<char>>, skip: int, limit: int)
    requires
        0 <= skip,
        0 <= limit,
    ensures
        page_of(s, skip, limit).len() <= limit,
        skip + limit <= s.len() ==> page_of(s, skip, limit).len() == limit,
        s.len() <= skip ==> page_of(s, skip, limit).len() == 0,
        forall|k: int|
            0 <= k < page_of(s, skip, limit).len() ==> page_of(s, skip, limit)[k] == s[skip + k],
{
}

} // verus!
