use vstd::prelude::*;

use crate::domain::{InfrastructureError, TenantId};

verus! {

/// Read access to the payment status of tenants.
pub trait BillingProfileRepository {
    /// Whether the tenant has a payment method that can be charged. A tenant
    /// without a billing profile has none: the answer is `Ok(false)`.
    fn has_active_payment_method(&self, tenant_id: &TenantId) -> (active: Result<
        bool,
        InfrastructureError,
    >);
}

} // verus!
