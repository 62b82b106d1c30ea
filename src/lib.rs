//! A tunnel that exposes a remote Unix socket on a local TCP port through one
//! authenticated SSH session: the session lifecycle and its server-key trust
//! policy, the table of accepted connections and their forwarded channels,
//! and the per-connection relay state machine.

pub mod client;
pub mod listener;
pub mod relay;
pub mod session;

pub use client::ForwardClient;
