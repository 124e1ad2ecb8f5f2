//! Checks that run before a pipeline.

pub mod auth;

pub use auth::{create_auth_middleware, AuthMiddleware};
