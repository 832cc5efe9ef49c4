//! Validation and request-handling rules of a newsletter subscription service.

pub mod configuration;
pub mod domain;
pub mod routes;
pub mod text;
