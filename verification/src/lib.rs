//! A SIP-over-WebSocket signalling engine: transaction keys, message
//! builders, the transaction registry, the multiplexer's decisions and the
//! digest-authenticated registration procedure.
//!
//! The engine decides and never waits: whatever happens to the transport
//! is handed to it as a value, and what has to be done comes back as a
//! value. The task that owns the socket, the channels between tasks and the
//! files on disk belong to the program around it.

pub mod agent;
pub mod codec;
pub mod connection;
pub mod dialog;
pub mod key;
pub mod locator;
pub mod message;
pub mod multiplexer;
pub mod random;
pub mod registration;
pub mod registry;
pub mod sip;
pub mod sipsocket;
pub mod text;
pub mod token;
pub mod transaction;
pub mod ucware;
