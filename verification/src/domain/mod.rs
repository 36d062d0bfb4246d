pub mod entities;
pub mod errors;
pub mod requests;
pub mod value_objects;

pub use entities::{BillingProfile, Plan, Subscription, Timestamp};
pub use errors::{CreateSubscriptionError, InfrastructureError};
pub use requests::CreateSubscriptionRequest;
pub use value_objects::{PlanId, SubscriptionId, TenantId};
