use vstd::prelude::*;
use vstd::std_specs::convert::FromSpecImpl;

use crate::domain::{CreateSubscriptionRequest, PlanId, Subscription, TenantId};

verus! {

/// The body of a request to create a subscription, as it arrives.
#[derive(Debug)]
pub struct CreateSubscriptionHttpBody {
    pub tenant_id: String,
    pub plan_id: String,
}

impl From<CreateSubscriptionHttpBody> for CreateSubscriptionRequest {
    fn from(body: CreateSubscriptionHttpBody) -> (request: CreateSubscriptionRequest) {
        CreateSubscriptionRequest {
            tenant_id: TenantId::new(body.tenant_id),
            plan_id: PlanId::new(body.plan_id),
        }
    }
}

impl FromSpecImpl<CreateSubscriptionHttpBody> for CreateSubscriptionRequest {
    open spec fn obeys_from_spec() -> bool {
        true
    }

    open spec fn from_spec(body: CreateSubscriptionHttpBody) -> CreateSubscriptionRequest {
        CreateSubscriptionRequest {
            tenant_id: TenantId(body.tenant_id),
            plan_id: PlanId(body.plan_id),
        }
    }
}

/// A subscription as it is shown to the caller: every field as text, the
/// creation time in RFC 3339.
#[derive(Debug)]
pub struct SubscriptionResponse {
    pub id: String,
    pub tenant_id: String,
    pub plan_id: String,
    pub created_at: String,
}

/// The four texts of a `SubscriptionResponse`.
pub struct SubscriptionResponseView {
    pub id: Seq<char>,
    pub tenant_id: Seq<char>,
    pub plan_id: Seq<char>,
    pub created_at: Seq<char>,
}

impl View for SubscriptionResponse {
    type V = SubscriptionResponseView;

    open spec fn view(&self) -> SubscriptionResponseView {
        SubscriptionResponseView {
            id: self.id@,
            tenant_id: self.tenant_id@,
            plan_id: self.plan_id@,
            created_at: self.created_at@,
        }
    }
}

impl SubscriptionResponse {
    /// The texts under which `subscription` is shown.
    pub open spec fn shown(subscription: Subscription) -> SubscriptionResponseView {
        SubscriptionResponseView {
            id: subscription.id@,
            tenant_id: subscription.tenant_id@,
            plan_id: subscription.plan_id@,
            created_at: subscription.created_at.text(),
        }
    }
}

impl From<Subscription> for SubscriptionResponse {
    fn from(subscription: Subscription) -> (response: SubscriptionResponse)
        ensures
            response@ == SubscriptionResponse::shown(subscription),
    {
        SubscriptionResponse {
            id: subscription.id.to_string(),
            tenant_id: subscription.tenant_id.to_string(),
            plan_id: subscription.plan_id.to_string(),
            created_at: subscription.created_at.to_rfc3339(),
        }
    }
}

impl FromSpecImpl<Subscription> for SubscriptionResponse {
    /// The response is fixed by its texts, which `from` states itself; no
    /// value of the response type is singled out.
    open spec fn obeys_from_spec() -> bool {
        false
    }

    open spec fn from_spec(subscription: Subscription) -> SubscriptionResponse {
        arbitrary()
    }
}

} // verus!
