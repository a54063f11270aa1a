//! The request/response bridge of a client for a Subsonic-style music server.
//!
//! The crate performs no I/O. Every remote operation is a step function: given
//! what the server has answered so far, it says either which request to send
//! next or what the operation's result is.

pub mod album;
pub mod artist;
pub mod cover;
pub mod decimal;
pub mod decode;
pub mod dispatch;
pub mod error;
pub mod json;
pub mod query;
pub mod song;
