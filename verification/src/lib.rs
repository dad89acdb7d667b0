//! Verified core of the OpenAaaS server: task and service state machines,
//! access rules, request validation and the small text formats that the
//! server produces.

pub mod audit;
pub mod auth;
pub mod bg_tasks;
pub mod clock;
pub mod error;
pub mod handlers;
pub mod ids;
pub mod main_support;
pub mod json;
pub mod laws;
pub mod models;
pub mod paths;
pub mod rate_limit;
pub mod stop;
pub mod text;
