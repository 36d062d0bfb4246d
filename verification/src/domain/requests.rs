use vstd::prelude::*;

use super::value_objects::{PlanId, TenantId};

verus! {

/// The validated input of the workflow: which tenant asks for which plan.
#[derive(Debug)]
pub struct CreateSubscriptionRequest {
    pub tenant_id: TenantId,
    pub plan_id: PlanId,
}

impl Clone for CreateSubscriptionRequest {
    fn clone(&self) -> (copy: CreateSubscriptionRequest)
        ensures
            copy == *self,
    {
        CreateSubscriptionRequest {
            tenant_id: self.tenant_id.clone(),
            plan_id: self.plan_id.clone(),
        }
    }
}

} // verus!
