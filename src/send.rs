//! The decisions of the message sender. A send first probes the destination;
//! only when the probe reports it reachable is one frame written to a new
//! connection. The probe, the connection and the write are the caller's.

use vstd::prelude::*;

use crate::codec::{encode, frame_of};

verus! {

/// What to do about one message once the destination has been probed.
pub enum SendPlan {
    /// The probe found nobody listening: report the recipient offline and
    /// open no connection.
    Offline,
    /// Connect to `address` and write `frame` whole, then close.
    Transmit { address: String, frame: String },
}

/// Decides how `body` from `username` goes to `destination`, given whether the
/// probe of `destination` found it accepting connections.
pub fn send_message(username: &str, destination: &str, body: &str, reachable: bool) -> (r:
    SendPlan)
    ensures
        !reachable <==> r is Offline,
        r matches SendPlan::Transmit { address, frame } ==> address@ == destination@ && frame@
            == frame_of(username@, body@),
{
    if !reachable {
        return SendPlan::Offline;
    }
    let frame = encode(username, body);
    SendPlan::Transmit { address: destination.to_string(), frame }
}

} // verus!
