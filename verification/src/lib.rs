//! Remote build sessions: which endpoint a build goes to, the lifecycle of
//! rented cloud servers, and the upload / run / download protocol, as pure
//! functions from state and events to decisions.

pub mod cmds;
pub mod config;
pub mod error;
pub mod provider;
pub mod remote;
pub mod session;
pub mod state;
pub mod status;
pub mod text;
