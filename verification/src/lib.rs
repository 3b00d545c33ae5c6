//! Protocol layer of a command/response gateway in front of a hardware
//! attestation module: command vocabulary and argument validation, the
//! response/error envelope, base64url coding, the fixed-layout description
//! record, and the socket server's per-event decisions.

pub mod args;
pub mod codec;
pub mod description;
pub mod dispatch;
pub mod error;
pub mod gateway;
pub mod server;
