pub mod authorization;
pub mod subscription_service;
pub mod workflow;

pub use authorization::{AllowAll, TenantPlanAuthorizer};
pub use subscription_service::SubscriptionService;
pub use workflow::{PortAnswers, PortCall, PortReply, Stage, Step, Workflow};
