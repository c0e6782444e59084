//! The bot's run settings, as the command line gives them.

use vstd::prelude::*;

verus! {

/// Run settings. `enable_rotation` and `enable_swing` decide which of the
/// anti-AFK motions a tick may perform; the other fields configure the
/// connection and are read by the program around the library.
pub struct Args {
    pub ip: String,
    pub count: u32,
    pub delay: u64,
    pub timeout: u64,
    pub spam_message: Option<String>,
    pub spam_message_delay_min: u32,
    pub spam_message_delay_max: u32,
    pub enable_rotation: bool,
    pub enable_swing: bool,
}

} // verus!
