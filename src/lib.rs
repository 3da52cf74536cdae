//! Transaction construction, signing and key handling for a Kaspa sidecar.
//!
//! The library turns validated request parameters into a signed transaction
//! ready for broadcast, and holds the decision logic of the node-connection
//! task. Network I/O stays with the caller.

pub mod address;
pub mod backoff;
pub mod keys;
pub mod pipeline;
pub mod request;
pub mod script;
pub mod signer;
pub mod state;
pub mod tx;
pub mod wallet;
