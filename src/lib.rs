//! A recurring-payment state machine: subscriptions keyed by payer and
//! product, their lifecycle (start, charge, pause, resume, cancel), the rule
//! that either party may suspend or end one, and billing periods that advance
//! only with a successful transfer.

pub mod auth;
pub mod engine;
pub mod laws;
pub mod subscription;

pub use auth::Principal;
pub use engine::SubscriptionEngine;
pub use subscription::{Status, Subscription, SubscriptionError};
