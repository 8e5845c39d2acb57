//! A small file-transfer protocol: one initiator offers a batch of files (or a
//! halt signal) over a sequential byte stream, and one listener receives them.
//!
//! This crate holds the verified core: the one-byte status-code protocol, the
//! framing codec for batch and file headers, the per-connection state machines
//! of both peers, and the policy that decides how many connections the
//! listener serves.  Reading and writing sockets and files is left to the
//! caller, which drives the state machines with the bytes and filesystem
//! answers they ask for.

pub mod client;
pub mod codec;
pub mod file_utils;
pub mod server;
pub mod status;
