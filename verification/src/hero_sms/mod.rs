//! The Hero SMS backend: its error taxonomy, response classification and
//! country mapping. It speaks the same text dialect as the SMS Activate
//! backend, with its own error type and country override table.

pub mod countries;
pub mod errors;
pub mod response;
