//! A small interactive chat client, factored so that every decision the
//! program makes is a verified function: which model name goes on the wire,
//! how a line of input is dispatched, how the conversation transcript grows,
//! and how the service's reply (or lack of one) is absorbed.
//!
//! The surrounding binary only moves bytes: it reads lines, performs the
//! network round trip, and prints. Everything it decides, it asks this crate.

pub mod command;
pub mod conversation;
pub mod error;
pub mod message;
pub mod model;
