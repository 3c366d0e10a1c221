//! The rules of a small chat service, for the server and for the client.
//!
//! The server registers users under their names, passes on what a user says to all others, and
//! takes users off when they leave or when their streams are gone. The client sends what its user
//! types as commands, and shows what the server sends.
//!
//! Each task of the service (the listener, the user map, a user's session, the client's connection
//! and the client's terminal) waits for events and acts on them. A function of this library decides
//! what an event leads to; the program around it waits for the events and does what was decided.
//! When each decision comes about stands in [`decisions`], and what holds of the tasks together in
//! [`laws`].

pub mod address;
pub mod channel;
pub mod command;
pub mod connection;
pub mod decisions;
pub mod errors;
pub mod laws;
pub mod meaning;
pub mod messages;
pub mod push;
pub mod registration;
pub mod session;
pub mod terminal;
pub mod trace;
pub mod updates;
pub mod user_map;
