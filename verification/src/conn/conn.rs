use vstd::prelude::*;

use crate::conn::fault::{Fault, IoOutcome};
use crate::conn::status::Status;
use crate::conn::stream::TcpHandle;
use crate::token::{Ready, Token};

verus! {

/// The peer's socket address, as plain bits: the IP (v4 or v6, widened)
/// and the port.
#[derive(Clone, Copy, Debug, PartialEq, Eq, Structural)]
pub struct PeerAddr {
    pub ip: u128,
    pub port: u16,
}

/// What the core reads of a server-side TLS session: whether the record
/// layer is still handshaking, and whether a close-notify has been queued.
/// The embedding refreshes the handshake flag after it lets the session
/// process new packets.
#[derive(Clone, Copy, Debug, PartialEq, Eq, Structural)]
pub struct Session {
    pub handshaking: bool,
    pub close_notify_sent: bool,
}

impl Session {
    /// Whether the record layer is still handshaking.
    pub fn is_handshaking(&self) -> (r: bool)
        ensures
            r == self.handshaking,
    {
        self.handshaking
    }

    /// Record that the session's close-notify has been queued.
    pub fn send_close_notify(&mut self)
        ensures
            final(self).close_notify_sent,
            final(self).handshaking == old(self).handshaking,
    {
        self.close_notify_sent = true;
    }

    /// Refresh the handshake flag from the real session.
    pub fn set_handshaking(&mut self, v: bool)
        ensures
            final(self).handshaking == v,
            final(self).close_notify_sent == old(self).close_notify_sent,
    {
        self.handshaking = v;
    }
}

/// The status step taken when the handshake flag is observed: a rising
/// edge sends an application-data connection back to handshaking, a
/// falling edge promotes a handshaking connection to application data.
pub open spec fn handshake_step(mode: Status, handshaking: bool) -> Status {
    if mode is HandShake && !handshaking {
        Status::Http
    } else if mode is Http && handshaking {
        Status::HandShake
    } else {
        mode
    }
}

/// Describes a server-side connection driven through a TLS session: the
/// peer, the raw stream handle, the poller token, the session state, the
/// connection status and the last readiness delivered for it.
pub struct Connection {
    pub addr: PeerAddr,
    pub stream: TcpHandle,
    pub token: Token,
    pub tls: Session,
    pub mode: Status,
    pub incoming: Option<Ready>,
}

impl Connection {
    /// Get a new connection; it starts out handshaking, with no readiness
    /// observed yet.
    pub fn new(addr: PeerAddr, stream: TcpHandle, token: Token, tls: Session) -> (r: Connection)
        ensures
            r.addr == addr,
            r.stream == stream,
            r.token == token,
            r.tls == tls,
            r.mode is HandShake,
            r.incoming is None,
    {
        Connection { addr, stream, token, tls, mode: Status::HandShake, incoming: None }
    }

    /// Detects the rising or falling edge of handshaking and moves the
    /// status accordingly.
    pub fn update_handshaking(&mut self)
        ensures
            final(self).mode == handshake_step(old(self).mode, old(self).tls.handshaking),
            final(self).addr == old(self).addr,
            final(self).stream == old(self).stream,
            final(self).token == old(self).token,
            final(self).tls == old(self).tls,
            final(self).incoming == old(self).incoming,
    {
        let st = self.mode.is_handshake();
        let tl = self.tls.is_handshaking();
        if st && !tl {
            self.mode = Status::Http;
        }
        if tl && self.mode.is_http() {
            self.mode = Status::HandShake;
        }
    }

    /// Queue the session's close-notify towards the client.
    pub fn close_client(&mut self)
        ensures
            final(self).tls.close_notify_sent,
            final(self).tls.handshaking == old(self).tls.handshaking,
            final(self).addr == old(self).addr,
            final(self).stream == old(self).stream,
            final(self).token == old(self).token,
            final(self).mode == old(self).mode,
            final(self).incoming == old(self).incoming,
    {
        self.tls.send_close_notify()
    }

    /// Whether the connection wants to close.
    pub fn closing(&self) -> (r: bool)
        ensures
            r == (self.mode is Closing),
    {
        self.mode.is_closing()
    }

    /// Apply the outcome of registering the stream with the poller. A
    /// connection whose token is the "unallocated" sentinel is never
    /// registered and stays as it is; a registration error sends the
    /// connection towards close. The one-shot flag only shapes the poll
    /// options the embedding passes.
    pub fn register(&mut self, reg: Result<(), Fault>, _oneshot: bool)
        ensures
            final(self).addr == old(self).addr,
            final(self).stream == old(self).stream,
            final(self).token == old(self).token,
            final(self).tls == old(self).tls,
            final(self).incoming == old(self).incoming,
            old(self).token.0 == 0 ==> final(self).mode == old(self).mode,
            old(self).token.0 != 0 ==> (match reg {
                Ok(_) => final(self).mode == old(self).mode,
                Err(e) => final(self).mode == Status::Closing(Some(e)),
            }),
    {
        if self.token.0 == 0 {
            return ;
        }
        match reg {
            Ok(_) => {},
            Err(e) => {
                self.mode = Status::Closing(Some(e));
            },
        };
    }

    /// Change the poller token.
    pub fn new_token(&mut self, t: Token)
        ensures
            final(self).token == t,
            final(self).addr == old(self).addr,
            final(self).stream == old(self).stream,
            final(self).tls == old(self).tls,
            final(self).mode == old(self).mode,
            final(self).incoming == old(self).incoming,
    {
        self.token = t;
    }

    /// Apply the outcome of writing buffered TLS records to the raw stream.
    /// Any error, a would-block included, sends the connection towards
    /// close with the OS fault attached.
    pub fn tls_write(&mut self, wrote: IoOutcome)
        ensures
            final(self).addr == old(self).addr,
            final(self).stream == old(self).stream,
            final(self).token == old(self).token,
            final(self).tls == old(self).tls,
            final(self).incoming == old(self).incoming,
            wrote is Done ==> final(self).mode == old(self).mode,
            wrote matches IoOutcome::Blocked(c) ==> final(self).mode == Status::Closing(
                Some(Fault::OS(c)),
            ),
            wrote matches IoOutcome::Failed(c) ==> final(self).mode == Status::Closing(
                Some(Fault::OS(c)),
            ),
    {
        match wrote {
            IoOutcome::Done(_) => {},
            IoOutcome::Blocked(c) => {
                self.mode = Status::Closing(Some(Fault::OS(c)));
            },
            IoOutcome::Failed(c) => {
                self.mode = Status::Closing(Some(Fault::OS(c)));
            },
        }
    }

    /// Apply the outcome of reading TLS records from the raw stream and,
    /// when bytes arrived, of letting the session process them. A clean
    /// zero-byte read means the peer is gone; a would-block leaves the
    /// connection as it is; any other read error carries the OS fault, and
    /// a processing error the TLS fault.
    pub fn tls_read(&mut self, got: IoOutcome, processed: Result<(), u64>)
        ensures
            final(self).addr == old(self).addr,
            final(self).stream == old(self).stream,
            final(self).token == old(self).token,
            final(self).tls == old(self).tls,
            final(self).incoming == old(self).incoming,
            got == IoOutcome::Done(0usize) ==> final(self).mode == Status::Closing(
                None::<Fault>,
            ),
            got matches IoOutcome::Blocked(_) ==> final(self).mode == old(self).mode,
            got matches IoOutcome::Failed(c) ==> final(self).mode == Status::Closing(
                Some(Fault::OS(c)),
            ),
            got matches IoOutcome::Done(n) && n != 0 ==> (match processed {
                Ok(_) => final(self).mode == old(self).mode,
                Err(c) => final(self).mode == Status::Closing(Some(Fault::TLS(c))),
            }),
    {
        match got {
            IoOutcome::Done(n) => {
                if n == 0 {
                    self.mode = Status::Closing(None);
                    return ;
                }
            },
            IoOutcome::Blocked(_) => {
                return ;
            },
            IoOutcome::Failed(c) => {
                self.mode = Status::Closing(Some(Fault::OS(c)));
                return ;
            },
        };
        match processed {
            Ok(_) => {},
            Err(c) => {
                self.mode = Status::Closing(Some(Fault::TLS(c)));
            },
        };
    }

    /// Apply the outcome of draining decrypted bytes out of the session.
    /// A would-block is expected and leaves the connection as it is; any
    /// other error sends it towards close.
    pub fn read_to_end(&mut self, got: IoOutcome)
        ensures
            final(self).addr == old(self).addr,
            final(self).stream == old(self).stream,
            final(self).token == old(self).token,
            final(self).tls == old(self).tls,
            final(self).incoming == old(self).incoming,
            got matches IoOutcome::Failed(c) ==> final(self).mode == Status::Closing(
                Some(Fault::OS(c)),
            ),
            !(got is Failed) ==> final(self).mode == old(self).mode,
    {
        match got {
            IoOutcome::Failed(c) => {
                self.mode = Status::Closing(Some(Fault::OS(c)));
            },
            _ => {},
        }
    }

    /// Apply the outcome of writing clear text into the session. Any
    /// error, a would-block included, sends the connection towards close.
    pub fn write_all(&mut self, wrote: IoOutcome)
        ensures
            final(self).addr == old(self).addr,
            final(self).stream == old(self).stream,
            final(self).token == old(self).token,
            final(self).tls == old(self).tls,
            final(self).incoming == old(self).incoming,
            wrote is Done ==> final(self).mode == old(self).mode,
            wrote matches IoOutcome::Blocked(c) ==> final(self).mode == Status::Closing(
                Some(Fault::OS(c)),
            ),
            wrote matches IoOutcome::Failed(c) ==> final(self).mode == Status::Closing(
                Some(Fault::OS(c)),
            ),
    {
        match wrote {
            IoOutcome::Done(_) => {},
            IoOutcome::Blocked(c) => {
                self.mode = Status::Closing(Some(Fault::OS(c)));
            },
            IoOutcome::Failed(c) => {
                self.mode = Status::Closing(Some(Fault::OS(c)));
            },
        }
    }
}

} // verus!
