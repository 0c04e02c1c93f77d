//! Core of a voice-communication protocol: authenticated control framing,
//! compact authenticated audio packets, session key derivation, TLS
//! configuration from PEM material, and channel permission resolution.

pub mod permissions;
pub mod permission;
pub mod error;
pub mod role;
pub mod channel;
pub mod codec;
pub mod hmac;
pub mod key_manager;
pub mod packet;
pub mod session;
pub mod user;
pub mod types;
pub mod message;
pub mod frame;
pub mod tls;
pub mod version;
