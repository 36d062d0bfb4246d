use vstd::prelude::*;

use crate::domain::{InfrastructureError, PlanId, Subscription, TenantId};

verus! {

/// Write access to the subscription records.
pub trait SubscriptionRepository {
    /// Records a new subscription of the tenant to the plan and hands the
    /// record back. The store picks the id and the creation time.
    ///
    /// An implementation owes its callers a record for the pair it was given,
    /// under an id that is not empty. Nothing checks an implementation against
    /// this; what is proved of the workflow's successes rests on it.
    fn insert_subscription(&self, tenant_id: &TenantId, plan_id: &PlanId) -> (inserted: Result<
        Subscription,
        InfrastructureError,
    >)
        ensures
            inserted matches Ok(record) ==> record.binds(tenant_id, plan_id),
    ;
}

} // verus!
