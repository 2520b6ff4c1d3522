//! Verified core of the user-profile service: identifier handling, the
//! replies of the profile RPCs, list pagination, the internal-token gate,
//! the start-up retry policy and the lifecycle-event consumer's decisions.

pub mod ids;
pub mod status;
pub mod profile;
pub mod listing;
pub mod service;
pub mod consumer;
pub mod startup;
