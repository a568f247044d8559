//! Accord is a bridge between Discord and an HTTP server, its target.
//!
//! What happens on Discord is told to the target in requests, and what the target responds is done
//! on Discord. This library is the logic of the bridge:
//!
//! - [`forward`] turns an event into a payload, and a response into acts;
//! - [`raccord`] writes payloads, with their paths and header fields, into requests;
//! - [`command`] tells which messages are commands, and takes them apart;
//! - [`act`] finds the call of Discord's API that carries out an act;
//! - [`stream`] takes a response that brings several acts apart;
//! - [`reverse`] summons ghosts, messages that Discord never sent;
//! - [`tester`] is for trying a target out, and [`outcome`] settles how the bridge ends;
//! - [`plain`] is a flavour of the bridge with plain header fields and no acts;
//! - [`discord`] and [`wire`] hold what the two sides are made of, [`text`] what texts are;
//! - [`laws`] states what holds of all this together; [`promises`], [`tellings`], [`requests`],
//!   [`wording`] and [`plain_laws`] state, function by function, what comes of every input.

pub mod act;
pub mod command;
pub mod discord;
pub mod error;
pub mod forward;
pub mod laws;
pub mod outcome;
pub mod plain;
pub mod plain_laws;
pub mod promises;
pub mod raccord;
pub mod requests;
pub mod reverse;
pub mod stream;
pub mod tellings;
pub mod tester;
pub mod text;
pub mod wire;
pub mod wording;

pub use crate::act::handle_act;
pub use crate::forward::handle_response;
pub use crate::forward::try_event as handle_event;
