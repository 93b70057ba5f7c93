//! A minimal peer-to-peer line chat: one process listens for a single
//! inbound connection, the other dials it, and both exchange raw text
//! chunks until one side disconnects or the operator types the quit
//! command.
//!
//! This crate holds the decision logic of that tool: startup argument
//! parsing, the send-loop step (trim the operator's line, detect the quit
//! command, produce the bytes to transmit) and the receive-loop step
//! (classify a read as data, peer close or transport error, and decode
//! data losslessly where the bytes are valid UTF-8). The surrounding
//! process — sockets, threads, standard input and output — lives outside
//! the verified library and drives these steps.

pub mod args;
pub mod session;
pub mod text;
