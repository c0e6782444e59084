//! Decision logic of a Minecraft AFK bot: the connection state machine,
//! the packet replies it owes the server, the anti-AFK cooldowns, and the
//! framing of outgoing packets.

pub mod args;
mod chance;
pub mod identity;
pub mod client;
pub mod dashboard;
pub mod laws;
pub mod wire;
