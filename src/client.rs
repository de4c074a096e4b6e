use vstd::prelude::*;
use crate::connection::{
    announced_limit, control_frame_error, initial_shared_state, stream_kind, ConnectionInner, ConnectionState,
    SharedStateRef, StreamKind,
};
pub use crate::connection::RequestStream;
use crate::error::{Error, Reason, H3_STREAM_CREATION_ERROR};
use crate::frame::{control_prelude, Frame, SETTING_MAX_HEADER_LIST_SIZE};
use crate::headers::{fields_view, request_field_list, request_fields, request_valid, HeaderBlock, RequestHead};
use crate::varint::VARINT_MAX;

verus! {

/// Something the transport observed, handed to the driver.
#[derive(Debug)]
pub enum DriverEvent {
    /// Nothing new.
    Idle,
    /// The peer opened a unidirectional stream whose type varint is this.
    RecvStream(u64),
    /// The next item on the peer's control stream (`None`: its end).
    ControlFrame(Option<Frame>),
    /// The peer opened a bidirectional stream.
    BidiStream,
}

/// The error `poll_close` reports for `event` on a driver in a state where
/// no connection error is recorded yet; `None` when the connection goes on.
pub open spec fn driver_event_error(c: ConnectionInner, event: DriverEvent) -> Option<Error> {
    match event {
        DriverEvent::Idle => None,
        DriverEvent::RecvStream(t) => if stream_kind(t) == StreamKind::Control && c.has_control() {
            Some(Error::Protocol { code: H3_STREAM_CREATION_ERROR, reason: Reason::SecondControlStream })
        } else {
            None
        },
        DriverEvent::ControlFrame(f) => control_frame_error(c.got_settings(), f),
        DriverEvent::BidiStream => Some(
            Error::Protocol { code: H3_STREAM_CREATION_ERROR, reason: Reason::ClientBidiStream },
        ),
    }
}

/// Client side of the connection: drives the peer's control stream and
/// refuses streams a client must not accept.
#[derive(Debug)]
pub struct Connection {
    inner: ConnectionInner,
}

impl Connection {
    pub closed spec fn driver(&self) -> ConnectionInner {
        self.inner
    }

    /// The shared connection state, for the request streams' operations.
    pub fn state(&self) -> (r: &SharedStateRef)
        ensures
            r@ == self.driver().shared_view(),
    {
        self.inner.shared_state()
    }

    /// Drives the connection with one event. Returns the terminal error
    /// when the connection is (or becomes) closed, `None` while it goes on.
    pub fn poll_close(&mut self, event: DriverEvent) -> (r: Option<Error>)
        requires
            event is ControlFrame ==> old(self).driver().has_control(),
        ensures
            final(self).driver().local_max() == old(self).driver().local_max(),
            match old(self).driver().shared_view().error {
                Some(e) => r == Some(e) && *final(self) == *old(self),
                None => {
                    &&& r == driver_event_error(old(self).driver(), event)
                    &&& final(self).driver().shared_view().error == r
                    &&& r is None ==> final(self).driver().got_settings() == (old(
                        self,
                    ).driver().got_settings() || event is ControlFrame)
                    &&& match event {
                        DriverEvent::ControlFrame(Some(Frame::Settings(s))) => r is None
                            ==> final(self).driver().shared_view().peer_max_field_section_size
                            == announced_limit(s@),
                        _ => final(self).driver().shared_view().peer_max_field_section_size
                            == old(self).driver().shared_view().peer_max_field_section_size,
                    }
                },
            },
    {
        if let Some(e) = self.inner.shared_state().read().error {
            return Some(e);
        }
        match event {
            DriverEvent::Idle => None,
            DriverEvent::RecvStream(t) => match self.inner.poll_accept_recv(t) {
                Ok(_) => None,
                Err(e) => Some(e),
            },
            DriverEvent::ControlFrame(f) => match self.inner.poll_control(f) {
                Ok(_) => None,
                Err(e) => Some(e),
            },
            DriverEvent::BidiStream => Some(
                self.inner.close(H3_STREAM_CREATION_ERROR, Reason::ClientBidiStream),
            ),
        }
    }
}

/// Opens requests on the connection.
#[derive(Debug)]
pub struct SendRequest {
    max_field_section_size: u64,
}

impl SendRequest {
    /// Limit given to the request streams on inbound field sections.
    pub closed spec fn local_max(&self) -> u64 {
        self.max_field_section_size
    }

    /// Starts a request on a newly opened bidirectional stream. `size` is
    /// the QPACK size estimate of `request_fields(req)`. Returns the request
    /// stream and the HEADERS frame to write on it; a request whose field
    /// section exceeds the peer's limit fails with nothing to write.
    pub fn send_request(&mut self, shared: &SharedStateRef, req: RequestHead, size: u64) -> (r:
        Result<(RequestStream, Frame), Error>)
        ensures
            *final(self) == *old(self),
            !request_valid(req) ==> r == Err::<(RequestStream, Frame), Error>(
                Error::Protocol {
                    code: crate::error::H3_GENERAL_PROTOCOL_ERROR,
                    reason: Reason::InvalidRequestHead,
                },
            ),
            request_valid(req) && size > shared@.peer_max_field_section_size ==> r == Err::<
                (RequestStream, Frame),
                Error,
            >(Error::HeaderTooBig { actual: size, limit: shared@.peer_max_field_section_size }),
            request_valid(req) && size <= shared@.peer_max_field_section_size ==> r is Ok && {
                let (s, f) = r->Ok_0;
                &&& s.pending_trailers() is None
                &&& s.local_max() == old(self).local_max()
                &&& s.stops() == Seq::<u64>::empty()
                &&& f matches Frame::Headers(b) && b.size == size && fields_view(b.fields@)
                    == request_field_list(req)
            },
    {
        let peer_max_field_section_size = shared.read().peer_max_field_section_size;
        let fields = match request_fields(req) {
            Ok(fs) => fs,
            Err(e) => {
                return Err(e);
            },
        };
        if size > peer_max_field_section_size {
            return Err(Error::header_too_big(size, peer_max_field_section_size));
        }
        let stream = RequestStream::new(self.max_field_section_size);
        Ok((stream, Frame::Headers(HeaderBlock { fields, size })))
    }
}

/// Configuration of a client connection.
#[derive(Debug)]
pub struct Builder {
    pub max_field_section_size: u64,
}

impl Builder {
    pub fn new() -> (r: Builder)
        ensures
            r.max_field_section_size == VARINT_MAX,
    {
        Builder { max_field_section_size: VARINT_MAX }
    }

    /// Sets the largest field section this endpoint accepts.
    pub fn max_field_section_size(&mut self, value: u64) -> (r: &mut Builder)
        ensures
            *r == (Builder { max_field_section_size: value }),
            *final(self) == *final(r),
    {
        self.max_field_section_size = value;
        self
    }

    /// Builds the driver and the request opener over a fresh shared state,
    /// with the bytes to write on the outbound control stream. A limit that
    /// is no varint fails with `H3_INTERNAL_ERROR`.
    pub fn build(&mut self) -> (r: Result<(Connection, SendRequest, Vec<u8>), Error>)
        ensures
            *final(self) == *old(self),
            old(self).max_field_section_size <= VARINT_MAX ==> r is Ok && {
                let (c, s, bytes) = r->Ok_0;
                &&& bytes@ == control_prelude(
                    seq![(SETTING_MAX_HEADER_LIST_SIZE, old(self).max_field_section_size)],
                )
                &&& c.driver().shared_view() == initial_shared_state()
                &&& c.driver().local_max() == old(self).max_field_section_size
                &&& !c.driver().has_control()
                &&& !c.driver().got_settings()
                &&& s.local_max() == old(self).max_field_section_size
            },
            old(self).max_field_section_size > VARINT_MAX ==> r == Err::<
                (Connection, SendRequest, Vec<u8>),
                Error,
            >(Error::Protocol { code: crate::error::H3_INTERNAL_ERROR, reason: Reason::InvalidSetting }),
    {
        let shared = SharedStateRef::new();
        match ConnectionInner::new(self.max_field_section_size, shared) {
            Ok((inner, bytes)) => Ok((
                Connection { inner },
                SendRequest { max_field_section_size: self.max_field_section_size },
                bytes,
            )),
            Err(e) => Err(e),
        }
    }
}

/// A builder with the default limits.
pub fn builder() -> (r: Builder)
    ensures
        r.max_field_section_size == VARINT_MAX,
{
    Builder::new()
}

/// A client connection with the default limits: the driver, the request
/// opener and the bytes that open the outbound control stream.
pub fn new() -> (r: Result<(Connection, SendRequest, Vec<u8>), Error>)
    ensures
        r is Ok && {
            let (c, s, bytes) = r->Ok_0;
            &&& bytes@ == control_prelude(seq![(SETTING_MAX_HEADER_LIST_SIZE, VARINT_MAX)])
            &&& c.driver().shared_view() == initial_shared_state()
            &&& c.driver().local_max() == VARINT_MAX
            &&& s.local_max() == VARINT_MAX
        },
{
    let mut b = Builder::new();
    b.build()
}

} // verus!
