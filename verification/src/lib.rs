//! A role-based access-control engine.
//!
//! Three membership tiers govern an open-ended collection of roles, each role
//! identified by an opaque string key: super-admins hold admin rights over
//! every role, each role has its own ordered set of admins, and each role has
//! an ordered set of grantees.  Mutations are idempotent, check permissions
//! before touching any state, and emit one audit event per actual state
//! change.  Membership is enumerable in insertion order, page by page.

pub mod engine;
pub mod events;
pub mod gate;
pub mod laws;
pub mod principals;
pub mod roles;
