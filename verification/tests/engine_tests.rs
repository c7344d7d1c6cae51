//! Behaviour of the engine: membership, permissions, idempotence,
//! self-service, pagination.

use access_control::engine::AccessControllable;
use access_control::events::AclEvent;
use access_control::events::RoleGranted;

fn s(x: &str) -> String {
    x.to_string()
}

/// An engine whose only super-admin is "root".
fn engine_with_root() -> AccessControllable {
    let mut acl = AccessControllable::new(vec![0x41, 0x43, 0x4c]);
    assert!(acl.acl_init_super_admin(&s("root")));
    acl
}

#[test]
fn test_new_engine_is_empty() {
    let acl = AccessControllable::new(Vec::new());
    assert!(!acl.acl_is_super_admin(&s("anyone")));
    assert!(!acl.acl_is_admin(&s("LevelA"), &s("anyone")));
    assert!(!acl.acl_has_role(&s("LevelA"), &s("anyone")));
    assert_eq!(acl.acl_get_grantees(&s("LevelA"), 0, 10), Vec::<String>::new());
    assert_eq!(acl.acl_get_admins(&s("LevelA"), 0, 10), Vec::<String>::new());
    assert_eq!(acl.acl_events().len(), 0);
}

#[test]
fn test_storage_prefix() {
    let acl = AccessControllable::new(vec![1, 2, 3]);
    assert_eq!(acl.acl_storage_prefix(), &vec![1u8, 2, 3]);
}

#[test]
fn test_init_super_admin_only_once() {
    let mut acl = AccessControllable::new(Vec::new());
    assert!(acl.acl_init_super_admin(&s("root")));
    assert!(acl.acl_is_super_admin(&s("root")));
    assert!(!acl.acl_init_super_admin(&s("root")));
    assert!(!acl.acl_init_super_admin(&s("intruder")));
    assert!(!acl.acl_is_super_admin(&s("intruder")));
}

#[test]
fn test_grant_then_has_role_and_revoke() {
    let mut acl = engine_with_root();
    assert_eq!(acl.acl_grant_role(&s("LevelA"), &s("root"), &s("x")), Some(true));
    assert!(acl.acl_has_role(&s("LevelA"), &s("x")));
    assert_eq!(acl.acl_revoke_role(&s("LevelA"), &s("root"), &s("x")), Some(true));
    assert!(!acl.acl_has_role(&s("LevelA"), &s("x")));
}

#[test]
fn test_grant_role_idempotent() {
    let mut acl = engine_with_root();
    let before = acl.acl_events().len();
    assert_eq!(acl.acl_grant_role(&s("LevelA"), &s("root"), &s("x")), Some(true));
    assert_eq!(acl.acl_grant_role(&s("LevelA"), &s("root"), &s("x")), Some(false));
    let events = acl.acl_events();
    assert_eq!(events.len(), before + 1);
    assert_eq!(
        events[before],
        AclEvent::RoleGranted(RoleGranted { role: s("LevelA"), to: s("x"), by: s("root") })
    );
}

#[test]
fn test_super_admin_universality() {
    let acl = engine_with_root();
    assert!(acl.acl_is_admin(&s("NeverTouched"), &s("root")));
    assert!(acl.acl_is_admin(&s("LevelA"), &s("root")));
    assert!(!acl.acl_is_admin(&s("LevelA"), &s("x")));
}

#[test]
fn test_grant_role_denied_changes_nothing() {
    let mut acl = engine_with_root();
    let before = acl.acl_events().len();
    assert_eq!(acl.acl_grant_role(&s("LevelA"), &s("mallory"), &s("x")), None);
    assert!(!acl.acl_has_role(&s("LevelA"), &s("x")));
    assert_eq!(acl.acl_events().len(), before);
}

#[test]
fn test_revoke_role_requires_standing() {
    let mut acl = engine_with_root();
    assert_eq!(acl.acl_grant_role(&s("LevelA"), &s("root"), &s("x")), Some(true));
    assert_eq!(acl.acl_revoke_role(&s("LevelA"), &s("mallory"), &s("x")), None);
    assert!(acl.acl_has_role(&s("LevelA"), &s("x")));
    assert_eq!(acl.acl_revoke_role(&s("LevelA"), &s("root"), &s("y")), Some(false));
}

#[test]
fn test_renounce_role_self_service() {
    let mut acl = engine_with_root();
    assert_eq!(acl.acl_grant_role(&s("LevelA"), &s("root"), &s("p")), Some(true));
    assert_eq!(acl.acl_grant_role(&s("LevelA"), &s("root"), &s("q")), Some(true));
    // "p" holds no admin standing at all, yet may renounce its own grant.
    assert!(acl.acl_renounce_role(&s("LevelA"), &s("p")));
    assert!(!acl.acl_has_role(&s("LevelA"), &s("p")));
    // Exactly p's grant went away.
    assert!(acl.acl_has_role(&s("LevelA"), &s("q")));
    // A second renounce reports that nothing was held.
    assert!(!acl.acl_renounce_role(&s("LevelA"), &s("p")));
}

#[test]
fn test_has_any_role() {
    let mut acl = engine_with_root();
    assert!(!acl.acl_has_any_role(&Vec::new(), &s("p")));
    assert_eq!(acl.acl_grant_role(&s("A"), &s("root"), &s("p")), Some(true));
    assert!(acl.acl_has_any_role(&vec![s("A"), s("B")], &s("p")));
    assert!(!acl.acl_has_any_role(&vec![s("B"), s("C")], &s("p")));
    assert_eq!(acl.acl_grant_role(&s("B"), &s("root"), &s("q")), Some(true));
    assert!(acl.acl_has_any_role(&vec![s("A"), s("B")], &s("q")));
    assert!(!acl.acl_has_any_role(&Vec::new(), &s("q")));
}

#[test]
fn test_pagination() {
    let mut acl = engine_with_root();
    assert_eq!(acl.acl_grant_role(&s("R"), &s("root"), &s("p1")), Some(true));
    assert_eq!(acl.acl_grant_role(&s("R"), &s("root"), &s("p2")), Some(true));
    assert_eq!(acl.acl_grant_role(&s("R"), &s("root"), &s("p3")), Some(true));
    assert_eq!(acl.acl_get_grantees(&s("R"), 1, 1), vec![s("p2")]);
    assert_eq!(acl.acl_get_grantees(&s("R"), 5, 5), Vec::<String>::new());
    assert_eq!(acl.acl_get_grantees(&s("R"), 0, 2), vec![s("p1"), s("p2")]);
    assert_eq!(acl.acl_get_grantees(&s("R"), 0, 0), Vec::<String>::new());
    assert_eq!(acl.acl_get_grantees(&s("R"), 0, 10), vec![s("p1"), s("p2"), s("p3")]);
    assert_eq!(acl.acl_get_grantees(&s("R"), 2, 10), vec![s("p3")]);
}

#[test]
fn test_removed_then_readded_goes_to_the_end() {
    let mut acl = engine_with_root();
    assert_eq!(acl.acl_grant_role(&s("R"), &s("root"), &s("p1")), Some(true));
    assert_eq!(acl.acl_grant_role(&s("R"), &s("root"), &s("p2")), Some(true));
    assert_eq!(acl.acl_revoke_role(&s("R"), &s("root"), &s("p1")), Some(true));
    assert_eq!(acl.acl_grant_role(&s("R"), &s("root"), &s("p1")), Some(true));
    assert_eq!(acl.acl_get_grantees(&s("R"), 0, 10), vec![s("p2"), s("p1")]);
}

#[test]
fn test_admin_lifecycle() {
    let mut acl = engine_with_root();
    assert_eq!(acl.acl_add_admin(&s("R"), &s("root"), &s("adm")), Some(true));
    assert!(acl.acl_is_admin(&s("R"), &s("adm")));
    assert!(!acl.acl_is_admin(&s("Other"), &s("adm")));
    // An admin for R may appoint further admins of R.
    assert_eq!(acl.acl_add_admin(&s("R"), &s("adm"), &s("adm2")), Some(true));
    assert_eq!(acl.acl_add_admin(&s("R"), &s("adm"), &s("adm2")), Some(false));
    // Without standing for R nothing happens.
    assert_eq!(acl.acl_add_admin(&s("R"), &s("mallory"), &s("m")), None);
    assert_eq!(acl.acl_get_admins(&s("R"), 0, 10), vec![s("adm"), s("adm2")]);
    assert_eq!(acl.acl_revoke_admin(&s("R"), &s("root"), &s("adm2")), Some(true));
    assert!(!acl.acl_is_admin(&s("R"), &s("adm2")));
    assert_eq!(acl.acl_revoke_admin(&s("R"), &s("root"), &s("adm2")), Some(false));
    assert!(acl.acl_renounce_admin(&s("R"), &s("adm")));
    assert!(!acl.acl_is_admin(&s("R"), &s("adm")));
    assert!(!acl.acl_renounce_admin(&s("R"), &s("adm")));
}

#[test]
fn test_super_admin_lifecycle() {
    let mut acl = engine_with_root();
    assert_eq!(acl.acl_add_super_admin(&s("mallory"), &s("mallory")), None);
    assert_eq!(acl.acl_add_super_admin(&s("root"), &s("two")), Some(true));
    assert!(acl.acl_is_super_admin(&s("two")));
    assert_eq!(acl.acl_add_super_admin(&s("root"), &s("two")), Some(false));
    assert_eq!(acl.acl_revoke_super_admin(&s("mallory"), &s("two")), None);
    assert_eq!(acl.acl_revoke_super_admin(&s("root"), &s("two")), Some(true));
    assert!(!acl.acl_is_super_admin(&s("two")));
    assert_eq!(acl.acl_revoke_super_admin(&s("root"), &s("two")), Some(false));
}

#[test]
fn test_admin_grants_role() {
    let mut acl = engine_with_root();
    assert_eq!(acl.acl_add_admin(&s("R"), &s("root"), &s("adm")), Some(true));
    assert_eq!(acl.acl_grant_role(&s("R"), &s("adm"), &s("x")), Some(true));
    assert!(acl.acl_has_role(&s("R"), &s("x")));
    // Admin standing for R gives no standing for other roles.
    assert_eq!(acl.acl_grant_role(&s("Other"), &s("adm"), &s("x")), None);
}
