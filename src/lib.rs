//! Wire protocol engine for Instax cameras: the opcode registry, the frame
//! codec, the payload decoders, the request builders and the transfer
//! sequences built on them.

pub mod bytes;
pub mod commands;
pub mod frame;
pub mod payload;
pub mod registry;
pub mod transfer;
