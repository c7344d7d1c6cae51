//! The audit trail: one event per actual change, none otherwise, and the
//! standard envelope around each payload.

use access_control::engine::AccessControllable;
use access_control::events::AclEvent;
use access_control::events::AdminAdded;
use access_control::events::AdminRevoked;
use access_control::events::RoleGranted;
use access_control::events::RoleRevoked;
use access_control::events::SuperAdminAdded;
use access_control::events::SuperAdminRevoked;

fn s(x: &str) -> String {
    x.to_string()
}

#[test]
fn test_event_log_records_each_change_once() {
    let mut acl = AccessControllable::new(Vec::new());
    assert!(acl.acl_init_super_admin(&s("root")));
    assert_eq!(acl.acl_add_super_admin(&s("root"), &s("two")), Some(true));
    assert_eq!(acl.acl_add_admin(&s("R"), &s("root"), &s("adm")), Some(true));
    assert_eq!(acl.acl_grant_role(&s("R"), &s("adm"), &s("x")), Some(true));
    // No-ops and denials leave the log alone.
    assert_eq!(acl.acl_grant_role(&s("R"), &s("adm"), &s("x")), Some(false));
    assert_eq!(acl.acl_grant_role(&s("R"), &s("mallory"), &s("z")), None);
    assert_eq!(acl.acl_revoke_role(&s("R"), &s("adm"), &s("x")), Some(true));
    assert_eq!(acl.acl_revoke_admin(&s("R"), &s("root"), &s("adm")), Some(true));
    assert_eq!(acl.acl_revoke_super_admin(&s("root"), &s("two")), Some(true));
    let expected = vec![
        AclEvent::SuperAdminAdded(SuperAdminAdded { account: s("root"), by: s("root") }),
        AclEvent::SuperAdminAdded(SuperAdminAdded { account: s("two"), by: s("root") }),
        AclEvent::AdminAdded(AdminAdded { role: s("R"), account: s("adm"), by: s("root") }),
        AclEvent::RoleGranted(RoleGranted { role: s("R"), to: s("x"), by: s("adm") }),
        AclEvent::RoleRevoked(RoleRevoked { role: s("R"), from: s("x"), by: s("adm") }),
        AclEvent::AdminRevoked(AdminRevoked { role: s("R"), account: s("adm"), by: s("root") }),
        AclEvent::SuperAdminRevoked(SuperAdminRevoked { account: s("two"), by: s("root") }),
    ];
    assert_eq!(acl.acl_events(), &expected);
}

#[test]
fn test_renounce_events_name_the_actor_twice() {
    let mut acl = AccessControllable::new(Vec::new());
    assert!(acl.acl_init_super_admin(&s("root")));
    assert_eq!(acl.acl_add_admin(&s("R"), &s("root"), &s("p")), Some(true));
    assert_eq!(acl.acl_grant_role(&s("R"), &s("root"), &s("p")), Some(true));
    let before = acl.acl_events().len();
    assert!(acl.acl_renounce_role(&s("R"), &s("p")));
    assert!(acl.acl_renounce_admin(&s("R"), &s("p")));
    // Renouncing what one does not hold emits nothing.
    assert!(!acl.acl_renounce_role(&s("R"), &s("p")));
    let events = acl.acl_events();
    assert_eq!(events.len(), before + 2);
    assert_eq!(
        events[before],
        AclEvent::RoleRevoked(RoleRevoked { role: s("R"), from: s("p"), by: s("p") })
    );
    assert_eq!(
        events[before + 1],
        AclEvent::AdminRevoked(AdminRevoked { role: s("R"), account: s("p"), by: s("p") })
    );
}

#[test]
fn test_metadata_envelopes() {
    let e1 = SuperAdminAdded { account: s("a"), by: s("b") };
    let m1 = e1.metadata();
    assert_eq!(m1.standard, s("AccessControllable"));
    assert_eq!(m1.version, s("1.0.0"));
    assert_eq!(m1.event, s("super_admin_added"));
    assert_eq!(m1.data, Some(e1));

    let e2 = SuperAdminRevoked { account: s("a"), by: s("b") };
    let m2 = e2.metadata();
    assert_eq!(m2.event, s("super_admin_revoked"));
    assert_eq!(m2.data, Some(e2));

    let e3 = AdminAdded { role: s("R"), account: s("a"), by: s("b") };
    let m3 = e3.metadata();
    assert_eq!(m3.event, s("admin_added"));
    assert_eq!(m3.data, Some(e3));

    let e4 = AdminRevoked { role: s("R"), account: s("a"), by: s("b") };
    let m4 = e4.metadata();
    assert_eq!(m4.event, s("admin_revoked"));
    assert_eq!(m4.data, Some(e4));

    let e5 = RoleGranted { role: s("R"), to: s("a"), by: s("b") };
    let m5 = e5.metadata();
    assert_eq!(m5.standard, s("AccessControllable"));
    assert_eq!(m5.version, s("1.0.0"));
    assert_eq!(m5.event, s("role_granted"));
    assert_eq!(m5.data, Some(e5));

    let e6 = RoleRevoked { role: s("R"), from: s("a"), by: s("b") };
    let m6 = e6.metadata();
    assert_eq!(m6.event, s("role_revoked"));
    assert_eq!(m6.data, Some(e6));
}
