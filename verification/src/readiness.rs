//! The two descriptors of the relay and the order in which the conditions
//! of a ready descriptor are served.

use vstd::prelude::*;

verus! {

/// The size of the buffer that one read fills, and the room that each
/// transfer buffer starts with.
pub const BUF_SIZE: usize = 131072;

/// The token under which the master is registered.
pub const MASTER_TOKEN: usize = 0;

/// The token under which the terminal is registered.
pub const TERMINAL_TOKEN: usize = 1;

/// One of the relay's two descriptors.
#[derive(Clone, Copy, Debug, PartialEq, Eq, Structural)]
pub enum Endpoint {
    /// The master side of the pseudo-terminal.
    Master,
    /// The controlling terminal.
    Terminal,
}

/// A condition that the poller reports of a descriptor.
#[derive(Clone, Copy, Debug, PartialEq, Eq, Structural)]
pub enum Condition {
    Readable,
    Writable,
    ReadClosed,
}

/// The conditions that one event reports of its descriptor.
#[derive(Clone, Copy, Debug, PartialEq, Eq, Structural)]
pub struct Readiness {
    pub readable: bool,
    pub writable: bool,
    pub read_closed: bool,
}

/// `condition` alone if it is `present`, else nothing.
pub open spec fn only_if(present: bool, condition: Condition) -> Seq<Condition> {
    if present {
        seq![condition]
    } else {
        Seq::<Condition>::empty()
    }
}

/// The conditions of one event in the order in which they are served. The
/// master is read before it is written; the terminal is written before it
/// is read; the end of a stream comes last for both.
pub open spec fn served(endpoint: Endpoint, ready: Readiness) -> Seq<Condition> {
    match endpoint {
        Endpoint::Master => only_if(ready.readable, Condition::Readable) + only_if(
            ready.writable,
            Condition::Writable,
        ) + only_if(ready.read_closed, Condition::ReadClosed),
        Endpoint::Terminal => only_if(ready.writable, Condition::Writable) + only_if(
            ready.readable,
            Condition::Readable,
        ) + only_if(ready.read_closed, Condition::ReadClosed),
    }
}

/// The descriptor that an event's token stands for; an event under any
/// other token is passed over.
pub fn endpoint_of(token: usize) -> (endpoint: Option<Endpoint>)
    ensures
        endpoint == if token == MASTER_TOKEN {
            Some(Endpoint::Master)
        } else if token == TERMINAL_TOKEN {
            Some(Endpoint::Terminal)
        } else {
            None::<Endpoint>
        },
{
    if token == MASTER_TOKEN {
        Some(Endpoint::Master)
    } else if token == TERMINAL_TOKEN {
        Some(Endpoint::Terminal)
    } else {
        None
    }
}

/// The conditions to serve for one event, in order.
pub fn service_order(endpoint: Endpoint, ready: Readiness) -> (order: Vec<Condition>)
    ensures
        order@ == served(endpoint, ready),
{
    let mut order: Vec<Condition> = Vec::new();
    match endpoint {
        Endpoint::Master => {
            if ready.readable {
                order.push(Condition::Readable);
            }
            if ready.writable {
                order.push(Condition::Writable);
            }
        },
        Endpoint::Terminal => {
            if ready.writable {
                order.push(Condition::Writable);
            }
            if ready.readable {
                order.push(Condition::Readable);
            }
        },
    }
    if ready.read_closed {
        order.push(Condition::ReadClosed);
    }
    assert(order@ =~= served(endpoint, ready));
    order
}

} // verus!
