//! Verified core of a tunnelling service that exposes local TCP listeners
//! through a central server: authentication, the tunnel message model,
//! websocket framing of those messages and the PEM loading of TLS material.

pub mod error;
pub mod auth;
pub mod protocol;
pub mod message;
pub mod tls;
pub mod tcp;
