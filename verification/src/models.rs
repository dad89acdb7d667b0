//! Data models.

pub mod file;
pub mod service;
pub mod task;
pub mod user;
