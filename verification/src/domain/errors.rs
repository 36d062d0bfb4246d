use vstd::prelude::*;
use vstd::std_specs::convert::FromSpecImpl;

use super::value_objects::{PlanId, TenantId};

verus! {

/// A fault of a data provider: storage or network, never a business
/// rejection. It carries the cause as text, for the log and for nothing else.
#[derive(Debug)]
pub struct InfrastructureError {
    pub message: String,
}

impl InfrastructureError {
    pub fn new(message: String) -> (error: InfrastructureError)
        ensures
            error.message == message,
    {
        InfrastructureError { message }
    }
}

impl Clone for InfrastructureError {
    fn clone(&self) -> (copy: InfrastructureError)
        ensures
            copy == *self,
    {
        InfrastructureError { message: self.message.clone() }
    }
}

/// Why a subscription was not created.
#[derive(Debug)]
pub enum CreateSubscriptionError {
    /// The requested plan does not exist.
    PlanNotFound(PlanId),
    /// The authorization policy rejected the tenant for the plan.
    PlanNotAllowed(TenantId, PlanId),
    /// The plan asks for a card on file and the tenant has none.
    MissingPaymentMethod(TenantId),
    /// A data provider failed; the cause is kept for the log.
    Unexpected(InfrastructureError),
}

impl CreateSubscriptionError {
    /// The text of the message for each kind of rejection.
    pub open spec fn message_text(&self) -> Seq<char> {
        match self {
            CreateSubscriptionError::PlanNotFound(plan_id) => "plan "@ + plan_id@
                + " does not exist"@,
            CreateSubscriptionError::PlanNotAllowed(tenant_id, plan_id) => "tenant "@ + tenant_id@
                + " is not allowed on plan "@ + plan_id@,
            CreateSubscriptionError::MissingPaymentMethod(tenant_id) => "tenant "@ + tenant_id@
                + " has no active payment method"@,
            CreateSubscriptionError::Unexpected(_) => "an unexpected error occurred"@,
        }
    }

    /// The message shown for this rejection. The cause of an unexpected
    /// failure is never part of it.
    pub fn to_string(&self) -> (text: String)
        ensures
            text@ == self.message_text(),
    {
        match self {
            CreateSubscriptionError::PlanNotFound(plan_id) => {
                let mut text = String::from_str("plan ");
                text.append(plan_id.as_str());
                text.append(" does not exist");
                text
            },
            CreateSubscriptionError::PlanNotAllowed(tenant_id, plan_id) => {
                let mut text = String::from_str("tenant ");
                text.append(tenant_id.as_str());
                text.append(" is not allowed on plan ");
                text.append(plan_id.as_str());
                text
            },
            CreateSubscriptionError::MissingPaymentMethod(tenant_id) => {
                let mut text = String::from_str("tenant ");
                text.append(tenant_id.as_str());
                text.append(" has no active payment method");
                text
            },
            CreateSubscriptionError::Unexpected(_) => String::from_str(
                "an unexpected error occurred",
            ),
        }
    }
}

impl From<InfrastructureError> for CreateSubscriptionError {
    fn from(cause: InfrastructureError) -> (error: CreateSubscriptionError) {
        CreateSubscriptionError::Unexpected(cause)
    }
}

impl FromSpecImpl<InfrastructureError> for CreateSubscriptionError {
    open spec fn obeys_from_spec() -> bool {
        true
    }

    open spec fn from_spec(cause: InfrastructureError) -> CreateSubscriptionError {
        CreateSubscriptionError::Unexpected(cause)
    }
}

} // verus!
