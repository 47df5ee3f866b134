//! Core of a mailing-list daemon that is driven through a local control
//! socket: the shared types of the wire protocol, the error catalogue, the
//! address extractor, the server-state cell, the request dispatcher and the
//! transactional enrollment of subscriptions.
//!
//! Everything here computes on plain values. Sockets, files and the database
//! are reached by the program around this library, which performs the actions
//! that the functions here decide on.

pub mod client;
pub mod database;
pub mod error;
pub mod file;
pub mod parse_mail;
pub mod request;
pub mod state;
pub mod text;
pub mod types;
