//! EPP message-queue commands.

pub mod ack;
