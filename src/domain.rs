//! Validated values about newsletter subscribers.
pub mod subscriber_email;
pub mod subscriber_name;
