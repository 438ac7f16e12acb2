//! Session authentication and job provisioning for a multi-tenant backend
//! in which registered users record deployable images and launch them as
//! remote compute jobs.
//!
//! The crate is organised in three layers. The first holds the values of
//! the domain and the pure rules on them. The second holds the handlers as
//! state machines: each step takes what a store or the provisioning
//! service answered and says what to ask next. The third holds in-memory
//! stores, against which the handlers run to completion and of which the
//! system-level guarantees are proved.

pub mod authentication;
pub mod backend;
pub mod config;
pub mod credentials;
pub mod errors;
pub mod handlers;
pub mod ids;
pub mod images;
pub mod jobs;
pub mod laws;
pub mod middleware;
pub mod models;
pub mod ownership;
pub mod passwords;
pub mod protocol;
pub mod provisioning;
pub mod records;
pub mod session;
pub mod text;
pub mod users;
pub mod workflow;
