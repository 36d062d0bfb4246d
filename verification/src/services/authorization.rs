use vstd::prelude::*;

use crate::domain::{Plan, TenantId};

verus! {

/// The policy that says which tenant may subscribe to which plan.
///
/// A policy is a pure predicate over the tenant and the resolved plan: the
/// same pair always gets the same answer.
pub trait TenantPlanAuthorizer {
    /// The policy as a predicate.
    spec fn permits(&self, tenant_id: &TenantId, plan: &Plan) -> bool;

    /// Evaluates the policy.
    fn is_allowed(&self, tenant_id: &TenantId, plan: &Plan) -> (allowed: bool)
        ensures
            allowed == self.permits(tenant_id, plan),
    ;
}

/// The default policy: every tenant may subscribe to every plan.
#[derive(Debug, Clone, Copy)]
pub struct AllowAll;

impl TenantPlanAuthorizer for AllowAll {
    open spec fn permits(&self, tenant_id: &TenantId, plan: &Plan) -> bool {
        true
    }

    fn is_allowed(&self, tenant_id: &TenantId, plan: &Plan) -> (allowed: bool) {
        true
    }
}

} // verus!
