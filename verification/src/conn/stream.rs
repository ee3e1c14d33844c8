use vstd::prelude::*;

use crate::conn::fault::{Fault, IoOutcome};

verus! {

/// A plain handle standing for a TCP stream that the embedding owns.
#[derive(Clone, Copy, Debug, PartialEq, Eq, Structural)]
pub struct TcpHandle(pub u64);

/// A plain handle standing for a local-domain (Unix) stream.
#[derive(Clone, Copy, Debug, PartialEq, Eq, Structural)]
pub struct UnixHandle(pub u64);

/// A plain handle standing for a fully negotiated TLS session.
#[derive(Clone, Copy, Debug, PartialEq, Eq, Structural)]
pub struct TlsHandle(pub u64);

/// A plain handle standing for a TLS session still mid-handshake.
#[derive(Clone, Copy, Debug, PartialEq, Eq, Structural)]
pub struct HandshakeHandle(pub u64);

/// What one attempt of the TLS acceptor came back with: a finished session,
/// a session that would block mid-handshake, or a failure with its code.
#[derive(Clone, Copy, Debug, PartialEq, Eq, Structural)]
pub enum TlsAttempt {
    Done(TlsHandle),
    Interrupted(HandshakeHandle),
    Failed(u64),
}

/// Determines the type of stream.
pub trait StreamType {
    /// The stream variant this value carries.
    spec fn stream_of(&self) -> Stream;

    fn is_uninitialized(&self) -> (r: bool)
        ensures
            r == (self.stream_of() is Uninitialized),
    ;

    fn is_handshaking(&self) -> (r: bool)
        ensures
            r == (self.stream_of() is TlsHandShake),
    ;

    fn is_tcp(&self) -> (r: bool)
        ensures
            r == (self.stream_of() is Tcp),
    ;

    fn is_tls(&self) -> (r: bool)
        ensures
            r == (self.stream_of() is Tls),
    ;

    fn is_unix(&self) -> (r: bool)
        ensures
            r == (self.stream_of() is Unix),
    ;
}

/// The stream that one attempt of the TLS acceptor leads to: a finished
/// attempt gives an established TLS stream, an interrupted one a stream
/// still mid-handshake, and a failure gives the TLS fault.
pub open spec fn accept_result(attempt: TlsAttempt) -> Result<Stream, Fault> {
    match attempt {
        TlsAttempt::Done(h) => Ok(Stream::Tls(h)),
        TlsAttempt::Interrupted(h) => Ok(Stream::TlsHandShake(h)),
        TlsAttempt::Failed(c) => Err(Fault::TLS(c)),
    }
}

/// Encapsulates every kind of endpoint a connection record can hold. The
/// tagged variant keeps every record the same fixed size; the payload is
/// the handle under which the embedding keeps the real stream.
#[derive(Clone, Copy, Debug, PartialEq, Eq, Structural)]
pub enum Stream {
    Tls(TlsHandle),
    Tcp(TcpHandle),
    Unix(UnixHandle),
    Uninitialized,
    TlsHandShake(HandshakeHandle),
}

impl Stream {
    /// Consumes self and continues a handshaking process with the attempt
    /// the acceptor reported. For all other stream variants it returns the
    /// stream as it came in; generally it is only ever meant to be
    /// called on the handshaking variant.
    pub fn handshake(self, attempt: TlsAttempt) -> (r: Result<Stream, Fault>)
        ensures
            !(self is TlsHandShake) ==> r == Ok::<Stream, Fault>(self),
            self is TlsHandShake ==> r == accept_result(attempt),
    {
        match self {
            Stream::TlsHandShake(_) => match attempt {
                TlsAttempt::Done(h) => Ok(Stream::Tls(h)),
                TlsAttempt::Interrupted(h) => Ok(Stream::TlsHandShake(h)),
                TlsAttempt::Failed(c) => Err(Fault::TLS(c)),
            },
            Stream::Uninitialized => Ok(Stream::Uninitialized),
            Stream::Tls(x) => Ok(Stream::Tls(x)),
            Stream::Tcp(x) => Ok(Stream::Tcp(x)),
            Stream::Unix(x) => Ok(Stream::Unix(x)),
        }
    }

    /// Build a new TCP stream from the handle and the outcome of registering
    /// it with the poller. On a registration error the embedding shuts the
    /// handle down both directions and the error is returned.
    pub fn create_tcp(x: TcpHandle, reg: Result<(), Fault>) -> (r: Result<Stream, Fault>)
        ensures
            reg is Ok ==> r == Ok::<Stream, Fault>(Stream::Tcp(x)),
            reg matches Err(e) ==> r == Err::<Stream, Fault>(e),
    {
        match reg {
            Ok(_) => Ok(Stream::Tcp(x)),
            Err(e) => Err(e),
        }
    }

    /// Build a new local-domain stream, as `create_tcp` does for TCP.
    pub fn create_unix(x: UnixHandle, reg: Result<(), Fault>) -> (r: Result<Stream, Fault>)
        ensures
            reg is Ok ==> r == Ok::<Stream, Fault>(Stream::Unix(x)),
            reg matches Err(e) ==> r == Err::<Stream, Fault>(e),
    {
        match reg {
            Ok(_) => Ok(Stream::Unix(x)),
            Err(e) => Err(e),
        }
    }

    /// Build a new TLS stream: the underlying TCP handle is registered with
    /// the poller, then the acceptor starts the handshake. The flow exists
    /// for the handshake to finish at once, though a would-block is the
    /// usual outcome; then the stream stays in the handshaking variant.
    pub fn create_tls(x: TcpHandle, reg: Result<(), Fault>, attempt: TlsAttempt) -> (r: Result<
        Stream,
        Fault,
    >)
        ensures
            reg matches Err(e) ==> r == Err::<Stream, Fault>(e),
            reg is Ok ==> r == accept_result(attempt),
    {
        match reg {
            Ok(_) => {},
            Err(e) => {
                return Err(e);
            },
        };
        match attempt {
            TlsAttempt::Done(h) => Ok(Stream::Tls(h)),
            TlsAttempt::Interrupted(h) => Ok(Stream::TlsHandShake(h)),
            TlsAttempt::Failed(c) => Err(Fault::TLS(c)),
        }
    }

    /// Forward a read. An uninitialized stream reports `usize::MAX` rather
    /// than 0, so no caller can mistake it for end-of-file; every other
    /// variant hands back what the underlying handle reported.
    pub fn read(&self, forwarded: IoOutcome) -> (r: IoOutcome)
        ensures
            self is Uninitialized ==> r == IoOutcome::Done(usize::MAX),
            !(self is Uninitialized) ==> r == forwarded,
    {
        match self {
            Stream::Uninitialized => IoOutcome::Done(usize::MAX),
            _ => forwarded,
        }
    }

    /// Forward a write; an uninitialized stream reports `usize::MAX`, as
    /// for `read`.
    pub fn write(&self, forwarded: IoOutcome) -> (r: IoOutcome)
        ensures
            self is Uninitialized ==> r == IoOutcome::Done(usize::MAX),
            !(self is Uninitialized) ==> r == forwarded,
    {
        match self {
            Stream::Uninitialized => IoOutcome::Done(usize::MAX),
            _ => forwarded,
        }
    }

    /// Forward a flush; an uninitialized stream has nothing to flush and
    /// succeeds.
    pub fn flush(&self, forwarded: Result<(), Fault>) -> (r: Result<(), Fault>)
        ensures
            self is Uninitialized ==> r == Ok::<(), Fault>(()),
            !(self is Uninitialized) ==> r == forwarded,
    {
        match self {
            Stream::Uninitialized => Ok(()),
            _ => forwarded,
        }
    }
}

impl StreamType for Stream {
    open spec fn stream_of(&self) -> Stream {
        *self
    }

    fn is_uninitialized(&self) -> (r: bool) {
        match self {
            Stream::Uninitialized => true,
            _ => false,
        }
    }

    fn is_handshaking(&self) -> (r: bool) {
        match self {
            Stream::TlsHandShake(_) => true,
            _ => false,
        }
    }

    fn is_tcp(&self) -> (r: bool) {
        match self {
            Stream::Tcp(_) => true,
            _ => false,
        }
    }

    fn is_tls(&self) -> (r: bool) {
        match self {
            Stream::Tls(_) => true,
            _ => false,
        }
    }

    fn is_unix(&self) -> (r: bool) {
        match self {
            Stream::Unix(_) => true,
            _ => false,
        }
    }
}

} // verus!
