//! The decision logic of a small wish-list web service.

pub mod models;
pub mod schema;
pub mod filter;
pub mod policy;
pub mod queries;
pub mod protocol;
pub mod auth;
pub mod services;
pub mod laws;
