pub mod dtos;
pub mod errors;
pub mod handlers;

pub use dtos::{CreateSubscriptionHttpBody, SubscriptionResponse};
pub use errors::ApiError;
pub use handlers::subscription_created;
