//! A small remote-login server core: authentication decisions, the channel
//! state of one connection, and the stateful file-transfer handler.
//!
//! Everything here is plain logic over plain values; sockets, pseudo
//! terminals, child processes and the file system are driven by the caller,
//! which hands the outcomes of that work back to these functions.

pub mod attrs;
pub mod auth;
pub mod cli;
pub mod connection;
pub mod delegate;
pub mod keys;
pub mod sftp;
pub mod token;
