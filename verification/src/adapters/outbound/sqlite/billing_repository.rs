use vstd::prelude::*;

verus! {

/// A row of the `billing_profiles` table, as far as it is read.
#[derive(Debug, Clone, Copy)]
pub struct BillingProfileRow {
    pub has_active_payment_method: bool,
}

/// The payment status of a tenant whose billing profile is `row`. A tenant
/// without a profile has no active payment method.
pub fn has_active_payment_method(row: Option<BillingProfileRow>) -> (active: bool)
    ensures
        active == (row matches Some(profile) && profile.has_active_payment_method),
{
    match row {
        Some(profile) => profile.has_active_payment_method,
        None => false,
    }
}

} // verus!
