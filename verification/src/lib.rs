//! Reconciliation policy and credential caching for an operator that drives
//! an SFTP gateway's administrative API.

pub mod admin_token;
pub mod contention;
pub mod crds;
pub mod filesystem;
pub mod reconciler;
pub mod time;
pub mod token;
pub mod users;
