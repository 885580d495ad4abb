//! Per-handshake TLS certificate resolution for a dynamically growing set
//! of hostnames: an authority-issued tier is consulted first where enabled,
//! then a self-signed tier, and on a double miss material is loaded from a
//! per-hostname on-disk record or freshly generated, cached, and returned.

pub mod bundle;
pub mod cache;
pub mod codec;
pub mod errors;
pub mod generate;
pub mod laws;
pub mod resolver;
pub mod store;
