use vstd::prelude::*;

use crate::conn::fault::Fault;

verus! {

/// Describes the state a connection is in.
pub enum Status {
    HandShake,
    Closing(Option<Fault>),
    Http,
    Closed,
}

impl Status {
    /// The connection is still negotiating TLS.
    pub fn is_handshake(&self) -> (r: bool)
        ensures
            r == (self is HandShake),
    {
        match *self {
            Status::HandShake => true,
            _ => false,
        }
    }

    /// The connection is on its way down, possibly with a fault attached.
    pub fn is_closing(&self) -> (r: bool)
        ensures
            r == (self is Closing),
    {
        match *self {
            Status::Closing(_) => true,
            _ => false,
        }
    }

    /// The connection carries application data.
    pub fn is_http(&self) -> (r: bool)
        ensures
            r == (self is Http),
    {
        match *self {
            Status::Http => true,
            _ => false,
        }
    }

    /// The connection is gone.
    pub fn is_closed(&self) -> (r: bool)
        ensures
            r == (self is Closed),
    {
        match *self {
            Status::Closed => true,
            _ => false,
        }
    }
}

impl From<Fault> for Status {
    /// Any fault sends the connection towards close, carrying the fault.
    fn from(x: Fault) -> (r: Status) {
        Status::Closing(Some(x))
    }
}

impl vstd::std_specs::convert::FromSpecImpl<Fault> for Status {
    open spec fn obeys_from_spec() -> bool {
        true
    }

    open spec fn from_spec(x: Fault) -> Status {
        Status::Closing(Some(x))
    }
}

} // verus!
