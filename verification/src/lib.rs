//! A fork session manager and call dispatcher for simulating contract-level
//! transactions against snapshots of remote chain state.
//!
//! The session keeps a registry of forks, each named by its source endpoint
//! and pinned block height, and tracks which fork is currently active. Calls
//! are dispatched as execution environments — validated here — and carried
//! out by an external execution engine; typed calls are the same dispatch
//! wrapped in an encode/decode step whose outcome is classified here.

pub mod env;
pub mod identity;
pub mod laws;
pub mod registry;
pub mod result;
pub mod session;
pub mod typed;
pub mod value;
