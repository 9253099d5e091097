//! What the HTTP endpoints do, free of the transport that carries them.

pub mod api;
pub mod consistency;
