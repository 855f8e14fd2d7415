//! Decision logic of a synchronizer that captures a federated account's
//! settings and relations into a local profile and replays them elsewhere.

pub mod bliss;
pub mod clock;
pub mod lemmy;
pub mod profile;
pub mod user;
