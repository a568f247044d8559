//! The reverse interface: ghosts, which are messages that someone hands to the bridge to be
//! forwarded as if Discord had sent them.

use vstd::prelude::*;

use crate::discord::{Event, Message};
use crate::raccord::{direct_ghost, server_ghost, DirectMessage, ServerMessage};

verus! {

/// Summons the ghost of a message in a server: the event of its creation, on shard 0.
pub fn summon_server(message: &ServerMessage) -> (r: (u64, Event))
    ensures
        r.0 == 0,
        r.1 matches Event::MessageCreate(ghost_message) && ghost_message@ == server_ghost(
            message@,
        ),
{
    (0, Event::MessageCreate(Message::from(message)))
}

/// Summons the ghost of a direct message: the event of its creation, on shard 0.
pub fn summon_direct(message: &DirectMessage) -> (r: (u64, Event))
    ensures
        r.0 == 0,
        r.1 matches Event::MessageCreate(ghost_message) && ghost_message@ == direct_ghost(
            message@,
        ),
{
    (0, Event::MessageCreate(Message::from(message)))
}

} // verus!
