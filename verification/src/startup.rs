//! Start-up policy for reaching the database: a bounded number of connection
//! attempts with a fixed pause after each failure.
use vstd::prelude::*;

verus! {

/// Connection attempts made before start-up gives up.
pub const MAX_CONNECT_ATTEMPTS: u32 = 15;

/// Pause after each failed connection attempt.
pub const CONNECT_PAUSE_SECS: u64 = 2;

/// Connections the database pool may open.
pub const POOL_MAX_CONNECTIONS: u32 = 10;

/// What start-up does after a connection attempt.
#[derive(Debug, Clone, Copy, PartialEq, Eq, Structural)]
pub enum ConnectStep {
    /// The pool is connected: use it.
    Ready,
    /// Pause for `pause_secs`, then make the next attempt.
    Retry { pause_secs: u64 },
    /// Pause for `pause_secs`, then give up with the last failure.
    GiveUp { pause_secs: u64 },
}

/// Decides what follows the `attempt`-th connection attempt (counting from one),
/// given whether it connected. Every failure is followed by the pause; the
/// attempts stop after the maximum number.
pub fn after_connect_attempt(attempt: u32, connected: bool) -> (step: ConnectStep)
    requires
        1 <= attempt <= MAX_CONNECT_ATTEMPTS,
    ensures
        connected ==> step == ConnectStep::Ready,
        !connected && attempt < MAX_CONNECT_ATTEMPTS ==> step == (ConnectStep::Retry {
            pause_secs: CONNECT_PAUSE_SECS,
        }),
        !connected && attempt == MAX_CONNECT_ATTEMPTS ==> step == (ConnectStep::GiveUp {
            pause_secs: CONNECT_PAUSE_SECS,
        }),
{
    if connected {
        ConnectStep::Ready
    } else if attempt < MAX_CONNECT_ATTEMPTS {
        ConnectStep::Retry { pause_secs: CONNECT_PAUSE_SECS }
    } else {
        ConnectStep::GiveUp { pause_secs: CONNECT_PAUSE_SECS }
    }
}

/// The attempt that follows a retry is again a valid attempt: start-up never
/// makes more than the maximum number of connection attempts.
pub proof fn retries_stay_within_budget(attempt: u32)
    requires
        1 <= attempt < MAX_CONNECT_ATTEMPTS,
    ensures
        1 <= attempt + 1 <= MAX_CONNECT_ATTEMPTS,
{
}

} // verus!
