//! Synchronizes a text clipboard value across machines.
//!
//! The server side keeps a registry of clipboard entries, one per client
//! identifier, with passphrase-gated access. The client side runs a pipeline
//! of watcher, sender and receiver around one persistent connection; the
//! decisions of that pipeline (the session state machine, frame handling and
//! text normalization) live here as verified functions, while the transport
//! itself stays outside the library.

pub mod config;
pub mod endpoint;
pub mod errors;
pub mod protocol;
pub mod registry;
pub mod service;
pub mod strmap;
pub mod text;
