pub mod billing_repository;
pub mod plan_repository;
pub mod subscription_repository;

pub use billing_repository::{has_active_payment_method, BillingProfileRow};
pub use plan_repository::PlanRow;
pub use subscription_repository::NewSubscriptionRow;
