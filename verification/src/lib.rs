//! Core logic of a small user-registration HTTP service: request
//! validation, response shaping for its four endpoints, and the mapping
//! from (method, path) pairs to those endpoints.

pub mod text;
pub mod validate;
pub mod handlers;
pub mod routes;
