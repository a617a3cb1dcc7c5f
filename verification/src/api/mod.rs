//! Types exchanged with the remote catalogue and the client-side rules on
//! requests and replies.

pub mod client;
pub mod models;
