//! Tools that the agent can call, as far as they decide and compute.

pub mod json;
pub mod traits;
pub mod weather_api;
