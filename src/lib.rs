//! Host for sandboxed recorder plugins: discovery, loading, per-call
//! instances and URL dispatch, with the decisions verified.
pub mod browser;
pub mod contract;
pub mod engine;
pub mod manager;
pub mod plugin;
