//! A status relay: a deduplicating notification manager, a queued webhook
//! dispatcher, the mapping from a monitored service's health report to
//! notifications, and the registry of named recurring jobs that drives them.

pub mod config;
pub mod dispatchers;
pub mod notifications;
pub mod jobs;
pub mod modules;
