//! A single-shot client for a hierarchical coordination service: the command
//! model, the connection retry policy, payload generation, the translation of
//! service outcomes into one result envelope, and that envelope's JSON form.

pub mod output;
pub mod cmd;
pub mod payload;
pub mod exec;
pub mod connect;
pub mod json;
