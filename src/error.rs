use vstd::prelude::*;

verus! {

/// HTTP/3 error code: generic protocol violation.
pub const H3_GENERAL_PROTOCOL_ERROR: u64 = 0x101;

/// HTTP/3 error code: internal failure of this endpoint.
pub const H3_INTERNAL_ERROR: u64 = 0x102;

/// HTTP/3 error code: a stream was created that the protocol forbids.
pub const H3_STREAM_CREATION_ERROR: u64 = 0x103;

/// HTTP/3 error code: a stream required by the connection was closed.
pub const H3_CLOSED_CRITICAL_STREAM: u64 = 0x104;

/// HTTP/3 error code: a frame arrived where it is not permitted.
pub const H3_FRAME_UNEXPECTED: u64 = 0x105;

/// HTTP/3 error code: the control stream did not begin with SETTINGS.
pub const H3_MISSING_SETTINGS: u64 = 0x10a;

/// HTTP/3 error code: the request was rejected before any processing.
pub const H3_REQUEST_REJECTED: u64 = 0x10b;

/// HTTP/3 error code: the request or its response was cancelled.
pub const H3_REQUEST_CANCELLED: u64 = 0x10c;

/// Why a protocol error was raised, beyond its numeric code.
#[derive(Clone, Copy, Debug, PartialEq, Eq, Structural)]
pub enum Reason {
    Unspecified,
    MissingResponseHeaders,
    FirstFrameNotHeaders,
    ControlStreamClosed,
    UnexpectedControlFrame,
    SecondControlStream,
    ClientBidiStream,
    InvalidRequestHead,
    InvalidResponseHead,
    PseudoHeaderInTrailers,
    InvalidSetting,
}

impl Reason {
    /// Human-readable text of the reason, as sent in a connection close.
    pub fn text(&self) -> &'static str {
        match self {
            Reason::Unspecified => "",
            Reason::MissingResponseHeaders => "did not receive response headers",
            Reason::FirstFrameNotHeaders => "first response frame is not headers",
            Reason::ControlStreamClosed => "control stream closed",
            Reason::UnexpectedControlFrame => "unexpected frame on client control stream",
            Reason::SecondControlStream => "peer opened a second control stream",
            Reason::ClientBidiStream => "client received a bidirectional stream",
            Reason::InvalidRequestHead => "request does not form a valid pseudo-header set",
            Reason::InvalidResponseHead => "response does not form a valid pseudo-header set",
            Reason::PseudoHeaderInTrailers => "pseudo-header in trailers",
            Reason::InvalidSetting => "setting does not fit in the SETTINGS frame",
        }
    }
}

/// Every failure this library reports.
#[derive(Clone, Copy, Debug, PartialEq, Eq, Structural)]
pub enum Error {
    /// A failure of the QUIC layer, with the transport's own code.
    Transport { code: u64 },
    /// The peer (or this endpoint's input) violated an HTTP/3 rule.
    Protocol { code: u64, reason: Reason },
    /// A field section is larger than the limit that applies to it.
    HeaderTooBig { actual: u64, limit: u64 },
    /// An invariant of this endpoint failed.
    Internal,
}

impl Error {
    pub fn transport(code: u64) -> (r: Error)
        ensures
            r == (Error::Transport { code }),
    {
        Error::Transport { code }
    }

    pub fn protocol(code: u64, reason: Reason) -> (r: Error)
        ensures
            r == (Error::Protocol { code, reason }),
    {
        Error::Protocol { code, reason }
    }

    pub fn header_too_big(actual: u64, limit: u64) -> (r: Error)
        ensures
            r == (Error::HeaderTooBig { actual, limit }),
    {
        Error::HeaderTooBig { actual, limit }
    }

    /// The HTTP/3 code of a protocol error.
    pub fn code(&self) -> (r: Option<u64>)
        ensures
            r == (match *self {
                Error::Protocol { code, .. } => Some(code),
                _ => None,
            }),
    {
        match self {
            Error::Protocol { code, .. } => Some(*code),
            _ => None,
        }
    }
}

} // verus!
