//! Acts: what the target asks the bridge to do on Discord.

use vstd::prelude::*;

use crate::error::{MissingChannel, MissingServer};

verus! {

/// Something to be done on Discord.
#[derive(Clone, Debug)]
pub enum Act {
    CreateMessage { content: String, channel_id: Option<u64> },
    AssignRole { role_id: u64, user_id: u64, server_id: Option<u64>, reason: Option<String> },
    RemoveRole { role_id: u64, user_id: u64, server_id: Option<u64>, reason: Option<String> },
}

/// An act, with the server and the channel that it is about where it names none itself.
#[derive(Clone, Debug)]
pub struct Stage {
    pub act: Act,
    pub default_server_id: Option<u64>,
    pub default_channel_id: Option<u64>,
}

/// A call of Discord's API that carries out an act.
#[derive(Clone, Debug)]
pub enum Call {
    CreateMessage { channel_id: u64, content: String },
    AddRole { server_id: u64, user_id: u64, role_id: u64, reason: Option<String> },
    RemoveRole { server_id: u64, user_id: u64, role_id: u64, reason: Option<String> },
}

/// Why an act cannot be carried out.
#[derive(Clone, Copy, Debug, PartialEq, Eq, Structural)]
pub enum ActError {
    Server(MissingServer),
    Channel(MissingChannel),
}

/// An id, or else its default.
pub open spec fn id_or(id: Option<u64>, default_id: Option<u64>) -> Option<u64> {
    match id {
        Some(i) => Some(i),
        None => default_id,
    }
}

/// Takes an id, or else its default.
pub(crate) fn pick_id(id: Option<u64>, default_id: Option<u64>) -> (r: Option<u64>)
    ensures
        r == id_or(id, default_id),
{
    match id {
        Some(i) => Some(i),
        None => default_id,
    }
}

/// The call that carries out an act: in the act's own channel or server where it names one, else
/// in the default.
pub open spec fn call_of(
    act: Act,
    default_server_id: Option<u64>,
    default_channel_id: Option<u64>,
) -> Result<Call, ActError> {
    match act {
        Act::CreateMessage { content, channel_id } => match id_or(channel_id, default_channel_id) {
            Some(channel_id) => Ok(Call::CreateMessage { channel_id, content }),
            None => Err(ActError::Channel(MissingChannel)),
        },
        Act::AssignRole { role_id, user_id, server_id, reason } => match id_or(
            server_id,
            default_server_id,
        ) {
            Some(server_id) => Ok(Call::AddRole { server_id, user_id, role_id, reason }),
            None => Err(ActError::Server(MissingServer)),
        },
        Act::RemoveRole { role_id, user_id, server_id, reason } => match id_or(
            server_id,
            default_server_id,
        ) {
            Some(server_id) => Ok(Call::RemoveRole { server_id, user_id, role_id, reason }),
            None => Err(ActError::Server(MissingServer)),
        },
    }
}

/// Finds the call that carries out an act.
pub fn handle_act(
    act: Act,
    default_server_id: Option<u64>,
    default_channel_id: Option<u64>,
) -> (r: Result<Call, ActError>)
    ensures
        r == call_of(act, default_server_id, default_channel_id),
{
    match act {
        Act::CreateMessage { content, channel_id } => match pick_id(
            channel_id,
            default_channel_id,
        ) {
            Some(channel_id) => Ok(Call::CreateMessage { channel_id, content }),
            None => Err(ActError::Channel(MissingChannel)),
        },
        Act::AssignRole { role_id, user_id, server_id, reason } => match pick_id(
            server_id,
            default_server_id,
        ) {
            Some(server_id) => Ok(Call::AddRole { server_id, user_id, role_id, reason }),
            None => Err(ActError::Server(MissingServer)),
        },
        Act::RemoveRole { role_id, user_id, server_id, reason } => match pick_id(
            server_id,
            default_server_id,
        ) {
            Some(server_id) => Ok(Call::RemoveRole { server_id, user_id, role_id, reason }),
            None => Err(ActError::Server(MissingServer)),
        },
    }
}

/// The call that carries out a staged act.
pub open spec fn stage_call(stage: Stage) -> Result<Call, ActError> {
    call_of(stage.act, stage.default_server_id, stage.default_channel_id)
}

/// Finds the call that carries out a staged act.
pub fn send_to_discord(stage: Stage) -> (r: Result<Call, ActError>)
    ensures
        r == stage_call(stage),
{
    handle_act(stage.act, stage.default_server_id, stage.default_channel_id)
}

} // verus!
