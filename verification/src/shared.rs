//! What the process scanner and the gateway have in common.
use vstd::prelude::*;

verus! {

/// How often the running processes are scanned, and how long the gateway pauses before it
/// tries again what has failed, in seconds.
pub const SCAN_INTERVAL: u64 = 5;

/// What the process scanner tells the gateway.
#[derive(Debug)]
pub enum DiscoveryEvent {
    /// A game's process was found.
    GameDetected { app_id: String, app_name: String, pid: u32 },
    /// The process of the game that was found has ended.
    GameExited { app_id: String },
}

} // verus!
