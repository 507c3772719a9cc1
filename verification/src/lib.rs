//! The verified core of a small subscription service: form validation,
//! routing, and the mapping of outcomes to HTTP responses.

pub mod form;
pub mod response;
pub mod routes;
pub mod startup;
pub mod store;
pub mod subscription;
pub mod text;
