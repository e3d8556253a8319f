//! The values that travel between the client and the service.

pub mod auth;
pub mod car;
pub mod results;
pub mod season_results;
pub mod timestamp;
