//! The OAuth implicit-grant login flow.

pub mod login_flow;
