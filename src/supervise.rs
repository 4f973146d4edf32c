//! Policies around the long-running parts: which change-feed errors end a
//! connection, how often a lost connection is retried, and how many pooled
//! database connections stay idle.

use vstd::prelude::*;

verus! {

/// A change-feed stream error, by what the reconnect policy needs to know.
#[derive(Debug, PartialEq, Eq, Clone, Copy, Structural)]
pub enum StreamError {
    ConnectionClosed,
    AlreadyClosed,
    Io,
    /// Anything else: protocol warnings and malformed frames.
    Protocol,
}

/// Closed connections and I/O errors end the connection; the rest do not.
pub open spec fn is_fatal(e: StreamError) -> bool {
    e != StreamError::Protocol
}

/// Decides what a stream error does: a fatal one ends the connection, the
/// others are skipped.
pub fn msg_err_handler(e: StreamError) -> (r: Result<(), StreamError>)
    ensures
        is_fatal(e) ==> r == Err::<(), StreamError>(e),
        !is_fatal(e) ==> r == Ok::<(), StreamError>(()),
{
    match e {
        StreamError::Protocol => Ok(()),
        _ => Err(e),
    }
}

/// Seconds to wait before connecting again.
pub const RECONNECT_WAIT_SECS: u64 = 5;

/// Consecutive lost connections after which the process gives up.
pub const MAX_RECONNECTS: u32 = 3;

/// What to do after the change feed was lost.
#[derive(Debug, PartialEq, Eq, Clone, Copy, Structural)]
pub enum Reconnect {
    /// Wait, then connect again; `failures` connections have been lost so far.
    Retry { wait_secs: u64, failures: u32 },
    /// Too many lost connections: stop the process.
    GiveUp,
}

pub open spec fn reconnect_after(failures: u32) -> Reconnect {
    if failures as int + 1 >= MAX_RECONNECTS as int {
        Reconnect::GiveUp
    } else {
        Reconnect::Retry { wait_secs: RECONNECT_WAIT_SECS, failures: (failures + 1) as u32 }
    }
}

/// The decision after losing the change feed, `failures` connections having
/// been lost before.
pub fn after_disconnect(failures: u32) -> (r: Reconnect)
    ensures
        r == reconnect_after(failures),
{
    if failures >= MAX_RECONNECTS - 1 {
        Reconnect::GiveUp
    } else {
        Reconnect::Retry { wait_secs: RECONNECT_WAIT_SECS, failures: failures + 1 }
    }
}

/// The feed is retried twice, five seconds apart, and the third lost
/// connection in a row ends the process.
pub proof fn gives_up_on_third_loss()
    ensures
        reconnect_after(0) == (Reconnect::Retry { wait_secs: 5, failures: 1 }),
        reconnect_after(1) == (Reconnect::Retry { wait_secs: 5, failures: 2 }),
        reconnect_after(2) == Reconnect::GiveUp,
{
}

/// Idle connections the pool keeps: ten percent of its size, rounded down.
pub fn pool_min_idle(max_size: u32) -> (r: u32)
    ensures
        r as int == (10 * max_size as int) / 100,
{
    let r = max_size / 10;
    assert((10 * max_size as int) / 100 == max_size as int / 10) by (nonlinear_arith);
    r
}

} // verus!
