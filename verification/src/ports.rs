//! The port-binding retry algorithm both servers share: starting from a
//! base port, advance on "address in use" and give up with an error
//! naming the attempted range once the window is exhausted.

use vstd::prelude::*;

verus! {

/// First port the JSON API server tries.
pub const API_PORT_FIRST: u16 = 3000;

/// Last port the JSON API server tries.
pub const API_PORT_LAST: u16 = 3010;

/// First port the static-asset server tries.
pub const STATIC_PORT_FIRST: u16 = 1420;

/// Last port the static-asset server tries.
pub const STATIC_PORT_LAST: u16 = 1430;

/// A failure to bind anywhere in a port window; it names the full
/// attempted range.
#[derive(Clone, Copy, Debug, PartialEq, Eq, Structural)]
pub struct BindError {
    pub first_port: u16,
    pub last_port: u16,
}

/// What the bind loop does after one bind attempt failed with
/// "address in use".
#[derive(Clone, Copy, Debug, PartialEq, Eq, Structural)]
pub enum BindStep {
    /// Try this port next.
    Retry(u16),
    /// The window is exhausted; fail naming the range.
    GiveUp(BindError),
}

/// What `next_bind_step` decides, as a spec-level function.
pub open spec fn next_bind_step_spec(first_port: u16, last_port: u16, port: u16) -> BindStep {
    if port < last_port {
        BindStep::Retry((port + 1) as u16)
    } else {
        BindStep::GiveUp(BindError { first_port, last_port })
    }
}

/// The decision taken after a failed bind attempt at `port` in the window
/// `[first_port, last_port]`: retry on the next port while one is left,
/// otherwise give up naming the whole range.
pub fn next_bind_step(first_port: u16, last_port: u16, port: u16) -> (step: BindStep)
    requires
        first_port <= port <= last_port,
    ensures
        step == next_bind_step_spec(first_port, last_port, port),
        port < last_port ==> step == BindStep::Retry((port + 1) as u16),
        port == last_port ==> step == BindStep::GiveUp(BindError { first_port, last_port }),
{
    if port < last_port {
        BindStep::Retry(port + 1)
    } else {
        BindStep::GiveUp(BindError { first_port, last_port })
    }
}

/// The port the retry loop ends on, given which ports of the window are
/// occupied: the first free port of `[first_port, last_port]`, or the
/// error naming the range when every port of the window is occupied.
///
/// `occupied[i]` answers for port `first_port + i`; this keeps the binding
/// predicate injectable, so the algorithm is checked without sockets.
pub fn find_free_port(first_port: u16, last_port: u16, occupied: &Vec<bool>) -> (r: Result<
    u16,
    BindError,
>)
    requires
        first_port <= last_port,
        occupied@.len() == last_port - first_port + 1,
    ensures
        match r {
            Ok(p) => {
                &&& first_port <= p <= last_port
                &&& !occupied@[p - first_port]
                &&& forall|i: int| 0 <= i < p - first_port ==> occupied@[i]
            },
            Err(e) => {
                &&& e == (BindError { first_port, last_port })
                &&& forall|i: int| 0 <= i < occupied@.len() ==> occupied@[i]
            },
        },
{
    let n = occupied.len();
    let mut i: usize = 0;
    while i < n
        invariant
            n == occupied@.len(),
            occupied@.len() == last_port - first_port + 1,
            i <= n,
            forall|j: int| 0 <= j < i ==> occupied@[j],
        decreases n - i,
    {
        if !occupied[i] {
            return Ok(first_port + (i as u16));
        }
        i = i + 1;
    }
    Err(BindError { first_port, last_port })
}

} // verus!
