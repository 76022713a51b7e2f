//! The sending side's endpoint.
use vstd::prelude::*;

verus! {

/// How many entries may wait between the scanner and the transmitter; the
/// scanner is held back while that many are queued.
pub const QUEUE_CAPACITY: usize = 100;

/// The sending endpoint: the path of an existing socket to connect to.
pub struct SocketTx {
    pub socket: String,
}

impl SocketTx {
    /// An endpoint for the socket at `socket_path`.
    pub fn new(socket_path: &str) -> (r: SocketTx)
        ensures
            r.socket@ == socket_path@,
    {
        SocketTx { socket: socket_path.to_owned() }
    }
}

} // verus!
