//! A durable recorder for an agent control-plane event bus: the wire
//! protocol, the event translator, the append-only ledger and the
//! reconnection supervisor, each as a verified state machine or function.
pub mod client;
pub mod json;
pub mod ledger;
pub mod message;
pub mod record;
pub mod size;
pub mod supervisor;
pub mod translate;
