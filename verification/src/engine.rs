//! The access-control engine.
//!
//! An `AccessControllable` value owns the three membership relations —
//! super-admins, per-role admins, per-role grantees — together with the audit
//! log of emitted events and the host-supplied storage prefix.  Every
//! mutating operation takes the acting account explicitly, checks its
//! permissions before touching any state, applies an idempotent transition,
//! and records one event per actual change.  Read-only queries have no
//! preconditions and never mutate.
//!
//! Each operation's observable behaviour is captured by a transition
//! predicate (`grant_role_post` and friends) relating the state before the
//! call, the state after it, the arguments and the result.

use vstd::prelude::*;
use crate::principals::PrincipalSet;
use crate::principals::views_of;
use crate::principals::page_of;
use crate::roles::RoleMap;
use crate::events::AclEvent;
use crate::events::SuperAdminAdded;
use crate::events::SuperAdminRevoked;
use crate::events::AdminAdded;
use crate::events::AdminRevoked;
use crate::events::RoleGranted;
use crate::events::RoleRevoked;

verus! {

/// The role-based access-control engine.
pub struct AccessControllable {
    super_admins: PrincipalSet,
    admins: RoleMap,
    grantees: RoleMap,
    events: Vec<AclEvent>,
    storage_prefix: Vec<u8>,
}

impl AccessControllable {
    /// The super-admin accounts, in insertion order.
    pub closed spec fn spec_super_admins(self) -> Seq<Seq<char>> {
        self.super_admins@
    }

    /// The admins of `role`, in insertion order; empty for an untouched role.
    pub closed spec fn spec_admins(self, role: Seq<char>) -> Seq<Seq<char>> {
        self.admins.members_of(role)
    }

    /// The grantees of `role`, in insertion order; empty for an untouched
    /// role.
    pub closed spec fn spec_grantees(self, role: Seq<char>) -> Seq<Seq<char>> {
        self.grantees.members_of(role)
    }

    /// The audit events emitted so far, oldest first.
    pub closed spec fn spec_events(self) -> Seq<AclEvent> {
        self.events@
    }

    /// The host-supplied storage prefix.
    pub closed spec fn spec_storage_prefix(self) -> Seq<u8> {
        self.storage_prefix@
    }

    /// Well-formed: no relation holds an account twice under one role.
    pub closed spec fn wf(self) -> bool {
        &&& self.super_admins.wf()
        &&& self.admins.wf()
        &&& self.grantees.wf()
    }

    /// In a well-formed engine no membership sequence holds an account twice.
    pub proof fn lemma_wf_no_dup(self, role: Seq<char>)
        requires
            self.wf(),
        ensures
            self.spec_super_admins().no_duplicates(),
            self.spec_admins(role).no_duplicates(),
            self.spec_grantees(role).no_duplicates(),
    {
        self.admins.lemma_wf_no_dup(role);
        self.grantees.lemma_wf_no_dup(role);
    }

    /// Whether `p` is a super-admin.
    pub open spec fn spec_is_super_admin(self, p: Seq<char>) -> bool {
        self.spec_super_admins().contains(p)
    }

    /// Whether `p` administers `role`: super-admins administer every role,
    /// including roles never touched.
    pub open spec fn spec_is_admin(self, role: Seq<char>, p: Seq<char>) -> bool {
        self.spec_is_super_admin(p) || self.spec_admins(role).contains(p)
    }

    /// Whether `p` has been granted `role`.
    pub open spec fn spec_has_role(self, role: Seq<char>, p: Seq<char>) -> bool {
        self.spec_grantees(role).contains(p)
    }

    /// Whether `p` has been granted at least one of `roles`.
    pub open spec fn spec_has_any_role(self, roles: Seq<Seq<char>>, p: Seq<char>) -> bool {
        exists|i: int| 0 <= i < roles.len() && self.spec_has_role(roles[i], p)
    }

    /// The three membership relations agree between `pre` and `post`.
    pub open spec fn same_permissions(pre: Self, post: Self) -> bool {
        &&& post.spec_super_admins() == pre.spec_super_admins()
        &&& (forall|q: Seq<char>| #[trigger] post.spec_admins(q) == pre.spec_admins(q))
        &&& (forall|q: Seq<char>| #[trigger] post.spec_grantees(q) == pre.spec_grantees(q))
    }

    /// `pre` and `post` agree entirely: permissions and events.
    pub open spec fn no_change(pre: Self, post: Self) -> bool {
        &&& Self::same_permissions(pre, post)
        &&& post.spec_events() == pre.spec_events()
    }

    /// An empty engine: nobody is a super-admin, admin or grantee, and no
    /// event has been emitted.
    pub fn new(storage_prefix: Vec<u8>) -> (acl: Self)
        ensures
            acl.wf(),
            acl.spec_storage_prefix() == storage_prefix@,
            acl.spec_super_admins() == Seq::<Seq<char>>::empty(),
            forall|r: Seq<char>| #[trigger] acl.spec_admins(r) == Seq::<Seq<char>>::empty(),
            forall|r: Seq<char>| #[trigger] acl.spec_grantees(r) == Seq::<Seq<char>>::empty(),
            acl.spec_events() == Seq::<AclEvent>::empty(),
    {
        let acl = AccessControllable {
            super_admins: PrincipalSet::new(),
            admins: RoleMap::new(),
            grantees: RoleMap::new(),
            events: Vec::new(),
            storage_prefix,
        };
        acl
    }

    /// The storage prefix the engine was configured with.
    pub fn acl_storage_prefix(&self) -> (r: &Vec<u8>)
        ensures
            r@ == self.spec_storage_prefix(),
    {
        &self.storage_prefix
    }

    /// The audit events emitted so far, oldest first.
    pub fn acl_events(&self) -> (r: &Vec<AclEvent>)
        ensures
            r@ == self.spec_events(),
    {
        &self.events
    }

    /// Returns whether `account_id` is a super-admin.
    pub fn acl_is_super_admin(&self, account_id: &String) -> (r: bool)
        ensures
            r == self.spec_is_super_admin(account_id@),
    {
        self.super_admins.contains(account_id)
    }

    /// Returns whether `account_id` is an admin for `role`.  Super-admins
    /// are admins for every role.
    pub fn acl_is_admin(&self, role: &String, account_id: &String) -> (r: bool)
        ensures
            r == self.spec_is_admin(role@, account_id@),
    {
        if self.super_admins.contains(account_id) {
            true
        } else {
            self.admins.contains(role, account_id)
        }
    }

    /// Returns whether `account_id` has been granted `role`.
    pub fn acl_has_role(&self, role: &String, account_id: &String) -> (r: bool)
        ensures
            r == self.spec_has_role(role@, account_id@),
    {
        self.grantees.contains(role, account_id)
    }

    /// Returns whether `account_id` has been granted any of `roles`; an
    /// empty `roles` always yields `false`.
    pub fn acl_has_any_role(&self, roles: &Vec<String>, account_id: &String) -> (r: bool)
        ensures
            r == self.spec_has_any_role(views_of(roles@), account_id@),
    {
        let n: usize = roles.len();
        let mut i: usize = 0;
        while i < n
            invariant
                n == roles@.len(),
                i <= n,
                forall|j: int| 0 <= j < i ==> !self.spec_has_role(views_of(roles@)[j], account_id@),
            decreases n - i,
        {
            if self.acl_has_role(&roles[i], account_id) {
                proof {
                    assert(views_of(roles@)[i as int] == roles@[i as int]@);
                }
                return true;
            }
            i = i + 1;
        }
        false
    }

    /// Paginated enumeration of the admins of `role`: skips the first `skip`
    /// and returns at most `limit`, in insertion order.
    pub fn acl_get_admins(&self, role: &String, skip: u64, limit: u64) -> (r: Vec<String>)
        ensures
            views_of(r@) == page_of(self.spec_admins(role@), skip as int, limit as int),
    {
        self.admins.page(role, skip, limit)
    }

    /// Paginated enumeration of the grantees of `role`: skips the first
    /// `skip` and returns at most `limit`, in insertion order.
    pub fn acl_get_grantees(&self, role: &String, skip: u64, limit: u64) -> (r: Vec<String>)
        ensures
            views_of(r@) == page_of(self.spec_grantees(role@), skip as int, limit as int),
    {
        self.grantees.page(role, skip, limit)
    }

    /// Behaviour of [`Self::acl_init_super_admin`]: bootstrap succeeds only
    /// while no super-admin exists at all.
    pub open spec fn init_super_admin_post(pre: Self, post: Self, target: String, r: bool) -> bool {
        &&& post.spec_storage_prefix() == pre.spec_storage_prefix()
        &&& if pre.spec_super_admins().len() == 0 {
            &&& r == true
            &&& post.spec_super_admins() == pre.spec_super_admins().push(target@)
            &&& (forall|q: Seq<char>| #[trigger] post.spec_admins(q) == pre.spec_admins(q))
            &&& (forall|q: Seq<char>| #[trigger] post.spec_grantees(q) == pre.spec_grantees(q))
            &&& post.spec_events() == pre.spec_events().push(
                AclEvent::SuperAdminAdded(SuperAdminAdded { account: target, by: target }),
            )
        } else {
            r == false && Self::no_change(pre, post)
        }
    }

    /// Makes `account_id` the first super-admin, provided no account is a
    /// super-admin yet.  Returns whether it was added.  Once any super-admin
    /// exists, further super-admins come only through
    /// [`Self::acl_add_super_admin`].
    pub fn acl_init_super_admin(&mut self, account_id: &String) -> (r: bool)
        requires
            old(self).wf(),
        ensures
            final(self).wf(),
            Self::init_super_admin_post(*old(self), *final(self), *account_id, r),
    {
        if self.super_admins.len() == 0 {
            let newly = self.super_admins.insert(account_id);
            self.events.push(
                AclEvent::SuperAdminAdded(
                    SuperAdminAdded { account: account_id.clone(), by: account_id.clone() },
                ),
            );
            true
        } else {
            false
        }
    }

    /// Behaviour of [`Self::acl_add_super_admin`].
    pub open spec fn add_super_admin_post(
        pre: Self,
        post: Self,
        actor: String,
        target: String,
        r: Option<bool>,
    ) -> bool {
        &&& post.spec_storage_prefix() == pre.spec_storage_prefix()
        &&& if !pre.spec_is_super_admin(actor@) {
            r == None::<bool> && Self::no_change(pre, post)
        } else if pre.spec_is_super_admin(target@) {
            r == Some(false) && Self::no_change(pre, post)
        } else {
            &&& r == Some(true)
            &&& post.spec_super_admins() == pre.spec_super_admins().push(target@)
            &&& (forall|q: Seq<char>| #[trigger] post.spec_admins(q) == pre.spec_admins(q))
            &&& (forall|q: Seq<char>| #[trigger] post.spec_grantees(q) == pre.spec_grantees(q))
            &&& post.spec_events() == pre.spec_events().push(
                AclEvent::SuperAdminAdded(SuperAdminAdded { account: target, by: actor }),
            )
        }
    }

    /// Makes `account_id` a super-admin, provided `actor` is one.  With
    /// permission, the returned `Some(bool)` says whether `account_id` is
    /// newly a super-admin; without, `None` is returned and nothing changes.
    pub fn acl_add_super_admin(&mut self, actor: &String, account_id: &String) -> (r: Option<
        bool,
    >)
        requires
            old(self).wf(),
        ensures
            final(self).wf(),
            Self::add_super_admin_post(*old(self), *final(self), *actor, *account_id, r),
    {
        if !self.acl_is_super_admin(actor) {
            return None;
        }
        let newly = self.super_admins.insert(account_id);
        if newly {
            self.events.push(
                AclEvent::SuperAdminAdded(
                    SuperAdminAdded { account: account_id.clone(), by: actor.clone() },
                ),
            );
            Some(true)
        } else {
            Some(false)
        }
    }

    /// Behaviour of [`Self::acl_revoke_super_admin`].
    pub open spec fn revoke_super_admin_post(
        pre: Self,
        post: Self,
        actor: String,
        target: String,
        r: Option<bool>,
    ) -> bool {
        &&& post.spec_storage_prefix() == pre.spec_storage_prefix()
        &&& if !pre.spec_is_super_admin(actor@) {
            r == None::<bool> && Self::no_change(pre, post)
        } else if !pre.spec_is_super_admin(target@) {
            r == Some(false) && Self::no_change(pre, post)
        } else {
            &&& r == Some(true)
            &&& post.spec_super_admins() == pre.spec_super_admins().remove_value(target@)
            &&& (forall|q: Seq<char>| #[trigger] post.spec_admins(q) == pre.spec_admins(q))
            &&& (forall|q: Seq<char>| #[trigger] post.spec_grantees(q) == pre.spec_grantees(q))
            &&& post.spec_events() == pre.spec_events().push(
                AclEvent::SuperAdminRevoked(SuperAdminRevoked { account: target, by: actor }),
            )
        }
    }

    /// Revokes super-admin permissions from `account_id`, provided `actor`
    /// is a super-admin.  With permission, the returned `Some(bool)` says
    /// whether `account_id` was a super-admin; without, `None` is returned
    /// and nothing changes.
    pub fn acl_revoke_super_admin(&mut self, actor: &String, account_id: &String) -> (r: Option<
        bool,
    >)
        requires
            old(self).wf(),
        ensures
            final(self).wf(),
            Self::revoke_super_admin_post(*old(self), *final(self), *actor, *account_id, r),
    {
        if !self.acl_is_super_admin(actor) {
            return None;
        }
        proof {
            old(self).spec_super_admins().index_of_first_ensures(account_id@);
        }
        let was = self.super_admins.remove(account_id);
        if was {
            self.events.push(
                AclEvent::SuperAdminRevoked(
                    SuperAdminRevoked { account: account_id.clone(), by: actor.clone() },
                ),
            );
            Some(true)
        } else {
            Some(false)
        }
    }

    /// Behaviour of [`Self::acl_add_admin`].
    pub open spec fn add_admin_post(
        pre: Self,
        post: Self,
        role: String,
        actor: String,
        target: String,
        r: Option<bool>,
    ) -> bool {
        &&& post.spec_storage_prefix() == pre.spec_storage_prefix()
        &&& if !pre.spec_is_admin(role@, actor@) {
            r == None::<bool> && Self::no_change(pre, post)
        } else if pre.spec_admins(role@).contains(target@) {
            r == Some(false) && Self::no_change(pre, post)
        } else {
            &&& r == Some(true)
            &&& post.spec_admins(role@) == pre.spec_admins(role@).push(target@)
            &&& (forall|q: Seq<char>|
                q != role@ ==> #[trigger] post.spec_admins(q) == pre.spec_admins(q))
            &&& post.spec_super_admins() == pre.spec_super_admins()
            &&& (forall|q: Seq<char>| #[trigger] post.spec_grantees(q) == pre.spec_grantees(q))
            &&& post.spec_events() == pre.spec_events().push(
                AclEvent::AdminAdded(AdminAdded { role: role, account: target, by: actor }),
            )
        }
    }

    /// Makes `account_id` an admin for `role`, provided `actor` is an admin
    /// for `role` (or a super-admin).  With permission, the returned
    /// `Some(bool)` says whether `account_id` is newly an admin; without,
    /// `None` is returned and nothing changes.
    pub fn acl_add_admin(&mut self, role: &String, actor: &String, account_id: &String) -> (r:
        Option<bool>)
        requires
            old(self).wf(),
        ensures
            final(self).wf(),
            Self::add_admin_post(*old(self), *final(self), *role, *actor, *account_id, r),
    {
        if !self.acl_is_admin(role, actor) {
            return None;
        }
        let newly = self.admins.insert(role, account_id);
        if newly {
            self.events.push(
                AclEvent::AdminAdded(
                    AdminAdded {
                        role: role.clone(),
                        account: account_id.clone(),
                        by: actor.clone(),
                    },
                ),
            );
            Some(true)
        } else {
            Some(false)
        }
    }

    /// Behaviour of [`Self::acl_revoke_admin`].
    pub open spec fn revoke_admin_post(
        pre: Self,
        post: Self,
        role: String,
        actor: String,
        target: String,
        r: Option<bool>,
    ) -> bool {
        &&& post.spec_storage_prefix() == pre.spec_storage_prefix()
        &&& if !pre.spec_is_admin(role@, actor@) {
            r == None::<bool> && Self::no_change(pre, post)
        } else if !pre.spec_admins(role@).contains(target@) {
            r == Some(false) && Self::no_change(pre, post)
        } else {
            &&& r == Some(true)
            &&& post.spec_admins(role@) == pre.spec_admins(role@).remove_value(target@)
            &&& (forall|q: Seq<char>|
                q != role@ ==> #[trigger] post.spec_admins(q) == pre.spec_admins(q))
            &&& post.spec_super_admins() == pre.spec_super_admins()
            &&& (forall|q: Seq<char>| #[trigger] post.spec_grantees(q) == pre.spec_grantees(q))
            &&& post.spec_events() == pre.spec_events().push(
                AclEvent::AdminRevoked(AdminRevoked { role: role, account: target, by: actor }),
            )
        }
    }

    /// Revokes admin permissions for `role` from `account_id`, provided
    /// `actor` is an admin for `role` (or a super-admin).  With permission,
    /// the returned `Some(bool)` says whether `account_id` was an admin;
    /// without, `None` is returned and nothing changes.
    pub fn acl_revoke_admin(&mut self, role: &String, actor: &String, account_id: &String) -> (r:
        Option<bool>)
        requires
            old(self).wf(),
        ensures
            final(self).wf(),
            Self::revoke_admin_post(*old(self), *final(self), *role, *actor, *account_id, r),
    {
        if !self.acl_is_admin(role, actor) {
            return None;
        }
        proof {
            old(self).spec_admins(role@).index_of_first_ensures(account_id@);
        }
        let was = self.admins.remove(role, account_id);
        if was {
            self.events.push(
                AclEvent::AdminRevoked(
                    AdminRevoked {
                        role: role.clone(),
                        account: account_id.clone(),
                        by: actor.clone(),
                    },
                ),
            );
            Some(true)
        } else {
            Some(false)
        }
    }

    /// Behaviour of [`Self::acl_renounce_admin`]: self-service, so no
    /// permission is required.
    pub open spec fn renounce_admin_post(
        pre: Self,
        post: Self,
        role: String,
        actor: String,
        r: bool,
    ) -> bool {
        &&& post.spec_storage_prefix() == pre.spec_storage_prefix()
        &&& r == pre.spec_admins(role@).contains(actor@)
        &&& if r {
            &&& post.spec_admins(role@) == pre.spec_admins(role@).remove_value(actor@)
            &&& (forall|q: Seq<char>|
                q != role@ ==> #[trigger] post.spec_admins(q) == pre.spec_admins(q))
            &&& post.spec_super_admins() == pre.spec_super_admins()
            &&& (forall|q: Seq<char>| #[trigger] post.spec_grantees(q) == pre.spec_grantees(q))
            &&& post.spec_events() == pre.spec_events().push(
                AclEvent::AdminRevoked(AdminRevoked { role: role, account: actor, by: actor }),
            )
        } else {
            Self::no_change(pre, post)
        }
    }

    /// Revokes admin permissions for `role` from `actor` itself.  Needs no
    /// permission.  Returns whether `actor` was an admin for `role`.
    pub fn acl_renounce_admin(&mut self, role: &String, actor: &String) -> (r: bool)
        requires
            old(self).wf(),
        ensures
            final(self).wf(),
            Self::renounce_admin_post(*old(self), *final(self), *role, *actor, r),
    {
        proof {
            old(self).spec_admins(role@).index_of_first_ensures(actor@);
        }
        let was = self.admins.remove(role, actor);
        if was {
            self.events.push(
                AclEvent::AdminRevoked(
                    AdminRevoked { role: role.clone(), account: actor.clone(), by: actor.clone() },
                ),
            );
        }
        was
    }

    /// Behaviour of [`Self::acl_grant_role`].
    pub open spec fn grant_role_post(
        pre: Self,
        post: Self,
        role: String,
        actor: String,
        target: String,
        r: Option<bool>,
    ) -> bool {
        &&& post.spec_storage_prefix() == pre.spec_storage_prefix()
        &&& if !pre.spec_is_admin(role@, actor@) {
            r == None::<bool> && Self::no_change(pre, post)
        } else if pre.spec_has_role(role@, target@) {
            r == Some(false) && Self::no_change(pre, post)
        } else {
            &&& r == Some(true)
            &&& post.spec_grantees(role@) == pre.spec_grantees(role@).push(target@)
            &&& (forall|q: Seq<char>|
                q != role@ ==> #[trigger] post.spec_grantees(q) == pre.spec_grantees(q))
            &&& post.spec_super_admins() == pre.spec_super_admins()
            &&& (forall|q: Seq<char>| #[trigger] post.spec_admins(q) == pre.spec_admins(q))
            &&& post.spec_events() == pre.spec_events().push(
                AclEvent::RoleGranted(RoleGranted { role: role, to: target, by: actor }),
            )
        }
    }

    /// Grants `role` to `account_id`, provided `actor` is an admin for
    /// `role` (or a super-admin).  With permission, the returned
    /// `Some(bool)` says whether `account_id` is a new grantee; without,
    /// `None` is returned and nothing changes.
    pub fn acl_grant_role(&mut self, role: &String, actor: &String, account_id: &String) -> (r:
        Option<bool>)
        requires
            old(self).wf(),
        ensures
            final(self).wf(),
            Self::grant_role_post(*old(self), *final(self), *role, *actor, *account_id, r),
    {
        if !self.acl_is_admin(role, actor) {
            return None;
        }
        let newly = self.grantees.insert(role, account_id);
        if newly {
            self.events.push(
                AclEvent::RoleGranted(
                    RoleGranted { role: role.clone(), to: account_id.clone(), by: actor.clone() },
                ),
            );
            Some(true)
        } else {
            Some(false)
        }
    }

    /// Behaviour of [`Self::acl_revoke_role`].
    pub open spec fn revoke_role_post(
        pre: Self,
        post: Self,
        role: String,
        actor: String,
        target: String,
        r: Option<bool>,
    ) -> bool {
        &&& post.spec_storage_prefix() == pre.spec_storage_prefix()
        &&& if !pre.spec_is_admin(role@, actor@) {
            r == None::<bool> && Self::no_change(pre, post)
        } else if !pre.spec_has_role(role@, target@) {
            r == Some(false) && Self::no_change(pre, post)
        } else {
            &&& r == Some(true)
            &&& post.spec_grantees(role@) == pre.spec_grantees(role@).remove_value(target@)
            &&& (forall|q: Seq<char>|
                q != role@ ==> #[trigger] post.spec_grantees(q) == pre.spec_grantees(q))
            &&& post.spec_super_admins() == pre.spec_super_admins()
            &&& (forall|q: Seq<char>| #[trigger] post.spec_admins(q) == pre.spec_admins(q))
            &&& post.spec_events() == pre.spec_events().push(
                AclEvent::RoleRevoked(RoleRevoked { role: role, from: target, by: actor }),
            )
        }
    }

    /// Revokes `role` from `account_id`, provided `actor` is an admin for
    /// `role` (or a super-admin).  With permission, the returned
    /// `Some(bool)` says whether `account_id` was a grantee; without, `None`
    /// is returned and nothing changes.
    pub fn acl_revoke_role(&mut self, role: &String, actor: &String, account_id: &String) -> (r:
        Option<bool>)
        requires
            old(self).wf(),
        ensures
            final(self).wf(),
            Self::revoke_role_post(*old(self), *final(self), *role, *actor, *account_id, r),
    {
        if !self.acl_is_admin(role, actor) {
            return None;
        }
        proof {
            old(self).spec_grantees(role@).index_of_first_ensures(account_id@);
        }
        let was = self.grantees.remove(role, account_id);
        if was {
            self.events.push(
                AclEvent::RoleRevoked(
                    RoleRevoked { role: role.clone(), from: account_id.clone(), by: actor.clone() },
                ),
            );
            Some(true)
        } else {
            Some(false)
        }
    }

    /// Behaviour of [`Self::acl_renounce_role`]: self-service, so no
    /// permission is required.
    pub open spec fn renounce_role_post(
        pre: Self,
        post: Self,
        role: String,
        actor: String,
        r: bool,
    ) -> bool {
        &&& post.spec_storage_prefix() == pre.spec_storage_prefix()
        &&& r == pre.spec_has_role(role@, actor@)
        &&& if r {
            &&& post.spec_grantees(role@) == pre.spec_grantees(role@).remove_value(actor@)
            &&& (forall|q: Seq<char>|
                q != role@ ==> #[trigger] post.spec_grantees(q) == pre.spec_grantees(q))
            &&& post.spec_super_admins() == pre.spec_super_admins()
            &&& (forall|q: Seq<char>| #[trigger] post.spec_admins(q) == pre.spec_admins(q))
            &&& post.spec_events() == pre.spec_events().push(
                AclEvent::RoleRevoked(RoleRevoked { role: role, from: actor, by: actor }),
            )
        } else {
            Self::no_change(pre, post)
        }
    }

    /// Revokes `role` from `actor` itself.  Needs no permission.  Returns
    /// whether `actor` was a grantee of `role`.
    pub fn acl_renounce_role(&mut self, role: &String, actor: &String) -> (r: bool)
        requires
            old(self).wf(),
        ensures
            final(self).wf(),
            Self::renounce_role_post(*old(self), *final(self), *role, *actor, r),
    {
        proof {
            old(self).spec_grantees(role@).index_of_first_ensures(actor@);
        }
        let was = self.grantees.remove(role, actor);
        if was {
            self.events.push(
                AclEvent::RoleRevoked(
                    RoleRevoked { role: role.clone(), from: actor.clone(), by: actor.clone() },
                ),
            );
        }
        was
    }
}

} // verus!
