use vstd::prelude::*;

use super::dtos::SubscriptionResponse;
use super::errors::ApiError;
use crate::domain::{CreateSubscriptionError, Subscription};

verus! {

/// The status under which a new subscription is reported.
pub const CREATED: u16 = 201;

/// What the caller of the HTTP interface gets for the result of the
/// workflow: the new subscription under 201, or the rejection as it is
/// shown.
pub fn subscription_created(result: Result<Subscription, CreateSubscriptionError>) -> (answer:
    Result<(u16, SubscriptionResponse), ApiError>)
    ensures
        match result {
            Ok(subscription) => answer matches Ok(created) && created.0 == 201 && created.1@
                == SubscriptionResponse::shown(subscription),
            Err(error) => answer matches Err(shown) && shown@ == ApiError::shown(error)
                && shown@.names_are_distinct(),
        },
{
    match result {
        Ok(subscription) => Ok((CREATED, SubscriptionResponse::from(subscription))),
        Err(error) => Err(ApiError::from(error)),
    }
}

} // verus!
