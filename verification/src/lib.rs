//! Verified core of a small, self-contained static-site HTTP server.
//!
//! The library captures the logic of a diskless server that exposes a fixed
//! set of immutable, pre-compressed assets over TCP port 80: deterministic
//! clock bring-up, static network configuration, a bounded packet queue, an
//! exact-match route table with a root fallback, just enough HTTP parsing to
//! extract a request path, response framing, a per-connection state machine
//! with explicit timeout handling, and the startup ordering that gates the
//! server tasks on the network stack being up.

pub mod assets;
pub mod clock;
pub mod http;
pub mod netcfg;
pub mod queue;
pub mod response;
pub mod server;
pub mod startup;
