//! Interceptors that the crate brings along.

pub mod auth_middleware;
