//! Provisioning of tenant subscriptions to billing plans.
//!
//! The heart of the crate is [`services::Workflow`]: the sequence of checks
//! that comes before a subscription is recorded, written as a machine that is
//! told what the data providers answered and says what to ask next. Its
//! rules are stated as specification functions and proved of the code;
//! [`services::SubscriptionService`] runs it against providers that answer
//! at once. Around it stand the domain types, the provider interfaces, and
//! the parts of the HTTP, database, payment and observability adapters that
//! decide or compute something.

pub mod adapters;
pub mod domain;
pub mod observability;
pub mod ports;
pub mod services;
pub mod text;
