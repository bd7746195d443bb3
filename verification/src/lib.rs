//! Core of an EPP (Extensible Provisioning Protocol, RFC 5730) client.
//!
//! The crate covers the connection and transport layer of the protocol: the
//! length-prefixed binary framing codec, the connection lifecycle state
//! machine, the single-connection request-multiplexing session logic with its
//! keepalive, reconnect, shutdown and cancellation rules, and the EPP XML
//! documents that commands and responses travel in. Network I/O itself is left
//! to a thin asynchronous shell around this library; everything that decides
//! or computes lives here, with its behaviour stated in contracts.

pub mod client;
pub mod connection;
pub mod contact;
pub mod domain;
pub mod error;
pub mod extensions;
pub mod frame;
pub mod hello;
pub mod host;
pub mod message;
pub mod poll;
pub mod response;
pub mod session;
pub mod text;
pub mod xml;
