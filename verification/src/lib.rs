//! A minimal non-blocking TCP reactor core.
//!
//! The reactor is split in two: this library holds the readiness-driven state
//! machine — the connection registry, per-connection interest, and the FIFO
//! outgoing queues — as pure, verified transitions from state and event to
//! next state and poller effect. An embedding driver owns the sockets and the
//! polling facility, performs the I/O each [`Effect`](events::Effect) asks
//! for, and feeds every outcome back into these transitions.

pub mod client;
pub mod events;
pub mod registry;
pub mod server;

pub use client::Client;
pub use events::Effect;
pub use events::Interest;
pub use events::ReadEnd;
pub use server::Server;
