//! The SMS Activate backend: its error taxonomy, response classification,
//! verification targets, payload types and country mapping.

pub mod countries;
pub mod errors;
pub mod response;
pub mod services;
pub mod types;
