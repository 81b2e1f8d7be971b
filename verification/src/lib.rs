//! A local sidecar process supervisor: the verified core of a host
//! application that launches a backend executable on a loopback port,
//! waits for it to accept TCP connections, announces readiness, drains
//! its output, and kills it on shutdown.
//!
//! All network and process I/O lives with the caller; this crate holds
//! the decision logic, proved against the contracts below: the shared
//! supervisor state, the health-probe retry machine, the output drain
//! loop, and the lifecycle orchestrator that sequences startup,
//! readiness notification, and shutdown.

pub mod orchestrator;
pub mod output;
pub mod probe;
pub mod state;
