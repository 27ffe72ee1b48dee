//! Decision logic of a desktop companion that mirrors direct messages as
//! notifications and keeps a status presence in step with running processes.

pub mod avatar;
pub mod cache;
pub mod config;
pub mod json;
pub mod notify;
pub mod presence;
pub mod rpc;
pub mod utils;
