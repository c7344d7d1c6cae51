//! The method gate.
//!
//! A `MethodGate` guards one host operation: it names the operation and
//! declares the set of roles any one of which admits a caller.  Before the
//! operation's own logic runs, the host asks this guard whether the acting
//! account holds any of the declared roles; a rejection names the operation
//! and the declared roles, so the caller can see what would have been
//! needed, and the operation's body never runs.  A guard holds no other
//! state and never mutates the engine.

use vstd::prelude::*;
use crate::engine::AccessControllable;
use crate::principals::views_of;

verus! {

/// The structured "insufficient permissions" failure a gate rejects with.
#[derive(Clone, Debug, PartialEq, Eq)]
pub struct GateRejection {
    /// The operation that was attempted.
    pub method: String,
    /// The roles any one of which would have admitted the caller.
    pub allowed_roles: Vec<String>,
}

/// A guard for one host operation: the operation's name and the declared
/// set of acceptable roles.
pub struct MethodGate {
    /// The operation this gate protects.
    pub method: String,
    /// The roles any one of which admits a caller.
    pub allowed_roles: Vec<String>,
}

fn clone_principals(v: &Vec<String>) -> (r: Vec<String>)
    ensures
        r@ == v@,
{
    let n: usize = v.len();
    let mut out: Vec<String> = Vec::new();
    let mut i: usize = 0;
    while i < n
        invariant
            n == v@.len(),
            i <= n,
            out@ == v@.subrange(0, i as int),
        decreases n - i,
    {
        out.push(v[i].clone());
        proof {
            assert(out@ =~= v@.subrange(0, i + 1));
        }
        i = i + 1;
    }
    proof {
        assert(out@ =~= v@);
    }
    out
}

impl MethodGate {
    /// A gate for the operation `method`, admitting exactly the holders of
    /// some role in `allowed_roles`.
    pub fn new(method: String, allowed_roles: Vec<String>) -> (g: Self)
        ensures
            g.method == method,
            g.allowed_roles == allowed_roles,
    {
        MethodGate { method, allowed_roles }
    }

    /// Whether this guard lets `actor` through under the permissions of
    /// `acl`: `actor` must hold at least one of the declared roles.
    pub open spec fn spec_permits(self, acl: AccessControllable, actor: Seq<char>) -> bool {
        acl.spec_has_any_role(views_of(self.allowed_roles@), actor)
    }

    /// Decides whether `actor` may run the guarded operation.  `Ok` lets the
    /// call proceed; `Err` carries the operation's name and the declared
    /// roles, and the host must not run the operation.
    pub fn check(&self, acl: &AccessControllable, actor: &String) -> (r: Result<(), GateRejection>)
        ensures
            r is Ok <==> self.spec_permits(*acl, actor@),
            r matches Err(e) ==> e.method == self.method && e.allowed_roles@
                == self.allowed_roles@,
    {
        if acl.acl_has_any_role(&self.allowed_roles, actor) {
            Ok(())
        } else {
            Err(
                GateRejection {
                    method: self.method.clone(),
                    allowed_roles: clone_principals(&self.allowed_roles),
                },
            )
        }
    }
}

} // verus!
