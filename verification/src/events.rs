//! Audit events.
//!
//! Every successful permission change produces exactly one event.  An event
//! carries the affected account, the acting account, and, for role-scoped
//! changes, the role.  `metadata` wraps an event in the standard envelope
//! (standard name, version, event-kind tag, payload); how the envelope
//! reaches an observer is the host's concern.

use vstd::prelude::*;

verus! {

/// The envelope every emitted event is wrapped in: a standard name, a
/// version, an event-kind tag, and the payload itself.
#[derive(Clone, Debug, PartialEq, Eq)]
pub struct EventMetadata<T> {
    pub standard: String,
    pub version: String,
    pub event: String,
    pub data: Option<T>,
}

/// An account was made super-admin.
#[derive(Clone, Debug, PartialEq, Eq)]
pub struct SuperAdminAdded {
    /// Account that was added as super-admin.
    pub account: String,
    /// Account that added the super-admin.
    pub by: String,
}

impl SuperAdminAdded {
    pub fn metadata(&self) -> (m: EventMetadata<SuperAdminAdded>)
        ensures
            m.standard@ == "AccessControllable"@,
            m.version@ == "1.0.0"@,
            m.event@ == "super_admin_added"@,
            m.data == Some(*self),
    {
        EventMetadata {
            standard: "AccessControllable".to_owned(),
            version: "1.0.0".to_owned(),
            event: "super_admin_added".to_owned(),
            data: Some(SuperAdminAdded { account: self.account.clone(), by: self.by.clone() }),
        }
    }
}

/// Super-admin permissions were revoked from an account.
#[derive(Clone, Debug, PartialEq, Eq)]
pub struct SuperAdminRevoked {
    /// Account from whom permissions were revoked.
    pub account: String,
    /// Account that revoked the permissions.
    pub by: String,
}

impl SuperAdminRevoked {
    pub fn metadata(&self) -> (m: EventMetadata<SuperAdminRevoked>)
        ensures
            m.standard@ == "AccessControllable"@,
            m.version@ == "1.0.0"@,
            m.event@ == "super_admin_revoked"@,
            m.data == Some(*self),
    {
        EventMetadata {
            standard: "AccessControllable".to_owned(),
            version: "1.0.0".to_owned(),
            event: "super_admin_revoked".to_owned(),
            data: Some(SuperAdminRevoked { account: self.account.clone(), by: self.by.clone() }),
        }
    }
}

/// An account was made admin of a role.
#[derive(Clone, Debug, PartialEq, Eq)]
pub struct AdminAdded {
    /// The role for which an admin was added.
    pub role: String,
    /// Account that was added as admin.
    pub account: String,
    /// Account that added the admin.
    pub by: String,
}

impl AdminAdded {
    pub fn metadata(&self) -> (m: EventMetadata<AdminAdded>)
        ensures
            m.standard@ == "AccessControllable"@,
            m.version@ == "1.0.0"@,
            m.event@ == "admin_added"@,
            m.data == Some(*self),
    {
        EventMetadata {
            standard: "AccessControllable".to_owned(),
            version: "1.0.0".to_owned(),
            event: "admin_added".to_owned(),
            data: Some(
                AdminAdded {
                    role: self.role.clone(),
                    account: self.account.clone(),
                    by: self.by.clone(),
                },
            ),
        }
    }
}

/// Admin permissions for a role were revoked from an account.
#[derive(Clone, Debug, PartialEq, Eq)]
pub struct AdminRevoked {
    /// The role for which an admin was revoked.
    pub role: String,
    /// Account from whom permissions were revoked.
    pub account: String,
    /// Account that revoked the admin.
    pub by: String,
}

impl AdminRevoked {
    pub fn metadata(&self) -> (m: EventMetadata<AdminRevoked>)
        ensures
            m.standard@ == "AccessControllable"@,
            m.version@ == "1.0.0"@,
            m.event@ == "admin_revoked"@,
            m.data == Some(*self),
    {
        EventMetadata {
            standard: "AccessControllable".to_owned(),
            version: "1.0.0".to_owned(),
            event: "admin_revoked".to_owned(),
            data: Some(
                AdminRevoked {
                    role: self.role.clone(),
                    account: self.account.clone(),
                    by: self.by.clone(),
                },
            ),
        }
    }
}

/// A role was granted to an account.
#[derive(Clone, Debug, PartialEq, Eq)]
pub struct RoleGranted {
    /// Role that was granted.
    pub role: String,
    /// Account that was granted the role.
    pub to: String,
    /// Account that granted the role.
    pub by: String,
}

impl RoleGranted {
    pub fn metadata(&self) -> (m: EventMetadata<RoleGranted>)
        ensures
            m.standard@ == "AccessControllable"@,
            m.version@ == "1.0.0"@,
            m.event@ == "role_granted"@,
            m.data == Some(*self),
    {
        EventMetadata {
            standard: "AccessControllable".to_owned(),
            version: "1.0.0".to_owned(),
            event: "role_granted".to_owned(),
            data: Some(
                RoleGranted { role: self.role.clone(), to: self.to.clone(), by: self.by.clone() },
            ),
        }
    }
}

/// A role was revoked from an account.
#[derive(Clone, Debug, PartialEq, Eq)]
pub struct RoleRevoked {
    /// Role that was revoked.
    pub role: String,
    /// Account from whom the role was revoked.
    pub from: String,
    /// Account that revoked the role.
    pub by: String,
}

impl RoleRevoked {
    pub fn metadata(&self) -> (m: EventMetadata<RoleRevoked>)
        ensures
            m.standard@ == "AccessControllable"@,
            m.version@ == "1.0.0"@,
            m.event@ == "role_revoked"@,
            m.data == Some(*self),
    {
        EventMetadata {
            standard: "AccessControllable".to_owned(),
            version: "1.0.0".to_owned(),
            event: "role_revoked".to_owned(),
            data: Some(
                RoleRevoked { role: self.role.clone(), from: self.from.clone(), by: self.by.clone() },
            ),
        }
    }
}

/// One audit event, of any kind.
#[derive(Clone, Debug, PartialEq, Eq)]
pub enum AclEvent {
    SuperAdminAdded(SuperAdminAdded),
    SuperAdminRevoked(SuperAdminRevoked),
    AdminAdded(AdminAdded),
    AdminRevoked(AdminRevoked),
    RoleGranted(RoleGranted),
    RoleRevoked(RoleRevoked),
}

} // verus!
