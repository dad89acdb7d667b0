//! The decisions behind the HTTP routes.

pub mod admin;
pub mod agent;
pub mod client;
pub mod discovery;
pub mod files;
pub mod services;
