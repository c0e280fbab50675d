//! The choice of the debug port.

use vstd::prelude::*;
use crate::error::Error;

verus! {

/// The first port that is tried for the debug endpoint.
pub const FIRST_PORT: u16 = 8000;

/// The end of the range of ports that are tried; itself not tried.
pub const PORT_LIMIT: u16 = 9000;

/// Finds the debug port: the first port of the range, in rising order, that
/// `is_free` finds free. `is_free` is asked about a port at most once, and
/// about no port above the one chosen.
pub fn get_available_port<F: Fn(u16) -> bool>(is_free: F) -> (port: Result<u16, Error>)
    requires
        forall|p: u16| FIRST_PORT <= p < PORT_LIMIT ==> is_free.requires((p,)),
    ensures
        match port {
            Ok(p) => {
                &&& FIRST_PORT <= p < PORT_LIMIT
                &&& is_free.ensures((p,), true)
                &&& forall|q: u16| FIRST_PORT <= q < p ==> is_free.ensures((q,), false)
            },
            Err(e) => {
                &&& e == Error::PortUnavailable
                &&& forall|q: u16| FIRST_PORT <= q < PORT_LIMIT ==> is_free.ensures((q,), false)
            },
        },
{
    let mut p: u16 = FIRST_PORT;
    while p < PORT_LIMIT
        invariant
            FIRST_PORT <= p <= PORT_LIMIT,
            forall|p: u16| FIRST_PORT <= p < PORT_LIMIT ==> is_free.requires((p,)),
            forall|q: u16| FIRST_PORT <= q < p ==> is_free.ensures((q,), false),
        decreases PORT_LIMIT - p,
    {
        if is_free(p) {
            return Ok(p);
        }
        p = p + 1;
    }
    Err(Error::PortUnavailable)
}

} // verus!
