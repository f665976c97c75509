//! Core logic of a chat bot that turns uploaded videos into circular video
//! notes: classification of inbound updates, the ordered validation chain for
//! video payloads, reply and log texts, and local-path construction for the
//! media transfer round trip. All I/O (the chat transport, the filesystem)
//! lives outside this crate; these functions decide, and the surrounding
//! program performs.

pub mod command;
pub mod messages;
pub mod numfmt;
pub mod routing;
pub mod transfer;
pub mod video;
