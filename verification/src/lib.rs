//! Protocol engine of a Hayes-compatible modem gateway: it impersonates an
//! AT-command modem toward an emulated client and bridges the negotiated data
//! session into a PPP backend. This crate holds the verified per-connection
//! logic — result-code encoding, the AT command-line interpreter and its
//! session flags, connection negotiation for two client firmware families,
//! the in-band escape detector of the relay, and backend-target resolution.
//! The sockets, process pipes and timers around it live in the host program.

pub mod backend;
pub mod bytes;
pub mod codes;
pub mod emitter;
pub mod line;
pub mod relay;
pub mod session;
