use vstd::prelude::*;

use crate::domain::{InfrastructureError, Plan, PlanId};

verus! {

/// Read access to the plan catalog.
pub trait PlanRepository {
    /// Looks the plan up. A catalog without the plan answers `Ok(None)`:
    /// absence is an ordinary answer, an error is a fault of the store.
    fn find_plan(&self, plan_id: &PlanId) -> (found: Result<Option<Plan>, InfrastructureError>);
}

} // verus!
