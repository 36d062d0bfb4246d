use vstd::prelude::*;

use crate::domain::{PlanId, Subscription, SubscriptionId, TenantId};

verus! {

/// Calls `uuid::Uuid::new_v4` and writes the id out with its `Display`, the
/// hyphenated form. The id is random, so only its length is claimed: 36
/// characters, whatever was drawn.
#[verifier::external_body]
fn random_uuid() -> (text: String)
    ensures
        text@.len() == 36,
{
    uuid::Uuid::new_v4().to_string()
}

/// The values of a row that is about to go into the `subscriptions` table.
#[derive(Debug)]
pub struct NewSubscriptionRow {
    pub id: String,
    pub tenant_id: String,
    pub plan_id: String,
}

impl NewSubscriptionRow {
    /// A row for a subscription of `tenant_id` to `plan_id` under a freshly
    /// drawn id.
    pub fn new(tenant_id: &TenantId, plan_id: &PlanId) -> (row: NewSubscriptionRow)
        ensures
            row.id@.len() == 36,
            row.tenant_id == tenant_id.0,
            row.plan_id == plan_id.0,
    {
        NewSubscriptionRow {
            id: random_uuid(),
            tenant_id: tenant_id.to_string(),
            plan_id: plan_id.to_string(),
        }
    }

    /// The record of the row once it is stored, stamped with the moment of
    /// the call. A row with an id that is not empty gives a record that keeps
    /// the word of the subscription store for the row's tenant and plan.
    pub fn into_subscription(self) -> (record: Subscription)
        ensures
            record.id.0 == self.id,
            record.tenant_id.0 == self.tenant_id,
            record.plan_id.0 == self.plan_id,
            self.id@.len() > 0 ==> record.binds(&TenantId(self.tenant_id), &PlanId(self.plan_id)),
    {
        Subscription::new(
            SubscriptionId::new(self.id),
            TenantId::new(self.tenant_id),
            PlanId::new(self.plan_id),
        )
    }
}

} // verus!
