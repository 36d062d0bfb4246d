pub mod billing_profile_repository;
pub mod plan_repository;
pub mod subscription_repository;

pub use billing_profile_repository::BillingProfileRepository;
pub use plan_repository::PlanRepository;
pub use subscription_repository::SubscriptionRepository;
