//! Heartbeat monitor: the session pings the client on a fixed period and
//! terminates when no liveness signal arrived within the timeout.

use vstd::prelude::*;

verus! {

/// Time-units between heartbeat ticks.
pub const HEARTBEAT_INTERVAL: u64 = 5;

/// Time-units without a liveness signal after which the session is dead:
/// twice the tick period.
pub const CLIENT_TIMEOUT: u64 = 10;

/// Whether the client has been silent past the timeout at a tick: strictly
/// more than [`CLIENT_TIMEOUT`] time-units since the last liveness signal.
pub open spec fn timed_out(hb: nat, now: nat) -> bool {
    now - hb > CLIENT_TIMEOUT
}

/// Payload of the heartbeat ping, the two bytes of `hi`.
pub open spec fn ping_payload() -> Seq<u8> {
    seq![104u8, 105u8]
}

/// Builds the heartbeat ping payload.
pub fn make_ping_payload() -> (p: Vec<u8>)
    ensures
        p@ == ping_payload(),
{
    let mut p: Vec<u8> = Vec::new();
    p.push(104);
    p.push(105);
    proof {
        assert(p@ =~= ping_payload());
    }
    p
}

} // verus!
