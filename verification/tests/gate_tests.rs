//! The method gate end to end: a protected operation accepting
//! {"LevelA", "LevelC"}.

use access_control::engine::AccessControllable;
use access_control::gate::MethodGate;

fn s(x: &str) -> String {
    x.to_string()
}

fn setup() -> (AccessControllable, MethodGate) {
    let mut acl = AccessControllable::new(Vec::new());
    assert!(acl.acl_init_super_admin(&s("root")));
    let gate = MethodGate::new(s("set_status"), vec![s("LevelA"), s("LevelC")]);
    (acl, gate)
}

#[test]
fn test_gate_grant_then_revoke() {
    let (mut acl, gate) = setup();
    assert_eq!(acl.acl_grant_role(&s("LevelA"), &s("root"), &s("x")), Some(true));
    assert!(gate.check(&acl, &s("x")).is_ok());
    assert_eq!(acl.acl_revoke_role(&s("LevelA"), &s("root"), &s("x")), Some(true));
    let rejection = gate.check(&acl, &s("x")).unwrap_err();
    assert_eq!(rejection.method, s("set_status"));
    assert_eq!(rejection.allowed_roles, vec![s("LevelA"), s("LevelC")]);
}

#[test]
fn test_gate_role_outside_accepted_set() {
    let (mut acl, gate) = setup();
    // No role at all: rejected.
    let rejection = gate.check(&acl, &s("y")).unwrap_err();
    assert_eq!(rejection.method, s("set_status"));
    assert_eq!(rejection.allowed_roles, vec![s("LevelA"), s("LevelC")]);
    // A role outside the accepted set does not help.
    assert_eq!(acl.acl_grant_role(&s("LevelB"), &s("root"), &s("y")), Some(true));
    assert!(gate.check(&acl, &s("y")).is_err());
    // A role inside the accepted set admits.
    assert_eq!(acl.acl_grant_role(&s("LevelC"), &s("root"), &s("y")), Some(true));
    assert!(gate.check(&acl, &s("y")).is_ok());
}

#[test]
fn test_gate_never_mutates() {
    let (mut acl, gate) = setup();
    assert_eq!(acl.acl_grant_role(&s("LevelB"), &s("root"), &s("y")), Some(true));
    let events_before = acl.acl_events().clone();
    assert!(gate.check(&acl, &s("y")).is_err());
    assert!(gate.check(&acl, &s("root")).is_err());
    assert_eq!(acl.acl_events(), &events_before);
    assert!(acl.acl_has_role(&s("LevelB"), &s("y")));
}
