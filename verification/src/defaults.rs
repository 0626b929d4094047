//! Default limits and values shared across the launcher.

use vstd::prelude::*;

verus! {

/// Largest number of game instances (players) the launcher will run.
pub const MAX_INSTANCES: usize = 8;

/// Number of instances used when nothing else is configured.
pub const DEFAULT_INSTANCES: usize = 2;

/// Seconds the window manager waits for all game windows to appear.
pub const WINDOW_SEARCH_TIMEOUT_SECS: u64 = 30;

/// Milliseconds the network relay waits for socket readiness per poll.
pub const NETWORK_TIMEOUT_MS: u64 = 100;

/// Milliseconds an input capture thread waits per poll.
pub const INPUT_POLL_TIMEOUT_MS: u64 = 100;

/// Returns whether `n` is an acceptable number of instances.
pub fn instance_count_in_range(n: usize) -> (ok: bool)
    ensures
        ok == (1 <= n && n <= MAX_INSTANCES),
{
    n >= 1 && n <= MAX_INSTANCES
}

} // verus!
