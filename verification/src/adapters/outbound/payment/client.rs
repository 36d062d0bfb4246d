use vstd::prelude::*;

use crate::domain::InfrastructureError;

verus! {

/// The address under which customers are created at the payment provider
/// that is reached at `base_url`.
pub fn customers_url(base_url: &str) -> (url: String)
    ensures
        url@ == base_url@ + "/customers"@,
{
    let mut url = String::from_str(base_url);
    url.append("/customers");
    url
}

/// The address under which payment methods are added at the payment provider
/// that is reached at `base_url`.
pub fn payment_methods_url(base_url: &str) -> (url: String)
    ensures
        url@ == base_url@ + "/payment_methods"@,
{
    let mut url = String::from_str(base_url);
    url.append("/payment_methods");
    url
}

/// The id that the payment provider gave to what it created, given the text
/// under `id` in its answer, if there was one. An answer without such a text
/// is a fault of the provider.
pub fn created_id(id: Option<String>) -> (created: Result<String, InfrastructureError>)
    ensures
        match id {
            Some(text) => created == Ok::<String, InfrastructureError>(text),
            None => created matches Err(fault) && fault.message@
                == "payment provider response missing `id` field"@,
        },
{
    match id {
        Some(text) => Ok(text),
        None => Err(
            InfrastructureError::new(
                String::from_str("payment provider response missing `id` field"),
            ),
        ),
    }
}

} // verus!
