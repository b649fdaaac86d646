//! Request handling for a vehicle horn service: the horn request model, the
//! actions that carry a request out, the relay that feeds requests to the
//! actuator one at a time, and the small decisions around the actuator
//! connections and service URIs.

pub mod request;
pub mod plan;
pub mod kuksa_relay;
pub mod horn_service;
pub mod actuator;
pub mod server;
pub mod uri;
pub mod config;
