//! Values exchanged with the embedded file server.
use vstd::prelude::*;

verus! {

/// The query of a file request: the path of the file to serve.
pub struct FileHandleParams {
    pub path: Option<String>,
}

/// The first port of the range the server tries.
pub const FIRST_PORT: u16 = 8000;

/// The port just past the range the server tries.
pub const PORT_LIMIT: u16 = 9000;

/// The lowest port in `[8000, 9000)` that `port_is_available` accepts, asking
/// in ascending order and stopping at the first one accepted.
pub fn get_available_port<F: Fn(u16) -> bool>(port_is_available: F) -> (r: Option<u16>)
    requires
        forall|p: u16| port_is_available.requires((p,)),
    ensures
        match r {
            Some(p) => FIRST_PORT <= p < PORT_LIMIT && port_is_available.ensures((p,), true) && (
            forall|q: u16| FIRST_PORT <= q < p ==> port_is_available.ensures((q,), false)),
            None => forall|q: u16|
                FIRST_PORT <= q < PORT_LIMIT ==> port_is_available.ensures((q,), false),
        },
{
    let mut port: u16 = FIRST_PORT;
    while port < PORT_LIMIT
        invariant
            FIRST_PORT <= port <= PORT_LIMIT,
            forall|p: u16| port_is_available.requires((p,)),
            forall|q: u16| FIRST_PORT <= q < port ==> port_is_available.ensures((q,), false),
        decreases PORT_LIMIT - port,
    {
        if port_is_available(port) {
            return Some(port);
        }
        port = port + 1;
    }
    None
}

} // verus!
