//! Control-plane library for a pool of microVMs: identifiers and derived
//! names, persistent status codes, table and statement text, the kernel
//! catalog, boot configuration, and the per-VM operation protocol.

pub mod ids;
pub mod error;
pub mod model;
pub mod status;
pub mod layout;
pub mod tables;
pub mod kernel;
pub mod network;
pub mod boot;
pub mod session;
