use vstd::prelude::*;
use crate::error::{
    Error, Reason, H3_CLOSED_CRITICAL_STREAM, H3_FRAME_UNEXPECTED, H3_MISSING_SETTINGS,
    H3_REQUEST_CANCELLED, H3_REQUEST_REJECTED, H3_STREAM_CREATION_ERROR,
};
use crate::frame::{
    control_prelude, encode_control_prelude, setting_value, Frame, Settings,
    SETTING_MAX_HEADER_LIST_SIZE, STREAM_TYPE_CONTROL, STREAM_TYPE_DECODER, STREAM_TYPE_ENCODER,
    STREAM_TYPE_PUSH,
};
use crate::headers::{
    all_regular, fields_view, response_of, response_parts, trailer_fields, Field, FieldView,
    HeaderBlock, ResponseHead,
};
use crate::varint::VARINT_MAX;

verus! {

/// Connection-wide state read by the driver and by every request stream.
#[derive(Clone, Copy, Debug, PartialEq, Eq, Structural)]
pub struct SharedState {
    /// Largest field section (QPACK estimate) the peer accepts from us.
    pub peer_max_field_section_size: u64,
    /// Terminal connection error; once set it is kept.
    pub error: Option<Error>,
}

impl SharedState {
    /// The error a stream operation reports for a local failure `local`:
    /// the connection error when there is one.
    pub open spec fn promote(self, local: Error) -> Error {
        match self.error {
            Some(e) => e,
            None => local,
        }
    }
}

/// The state of a fresh connection: no limit learned yet, no error.
pub open spec fn initial_shared_state() -> SharedState {
    SharedState { peer_max_field_section_size: VARINT_MAX, error: None }
}

/// The connection-wide state. The driver owns it; the request streams'
/// operations borrow it to read the peer's limit and the terminal error.
#[derive(Debug)]
pub struct SharedStateRef {
    state: SharedState,
}

impl View for SharedStateRef {
    type V = SharedState;

    closed spec fn view(&self) -> SharedState {
        self.state
    }
}

impl SharedStateRef {
    pub fn new() -> (r: SharedStateRef)
        ensures
            r@ == initial_shared_state(),
    {
        SharedStateRef { state: SharedState { peer_max_field_section_size: VARINT_MAX, error: None } }
    }

    /// Read access to the state.
    pub fn read(&self) -> (r: &SharedState)
        ensures
            *r == self@,
    {
        &self.state
    }

    /// Write access to the state.
    pub fn write(&mut self) -> (r: &mut SharedState)
        ensures
            *r == old(self)@,
            final(self)@ == *final(r),
    {
        &mut self.state
    }

    /// Records `e` as the connection error unless one is already recorded;
    /// returns the recorded error.
    pub fn set_error(&mut self, e: Error) -> (r: Error)
        ensures
            r == old(self)@.promote(e),
            final(self)@ == (SharedState { error: Some(r), ..old(self)@ }),
    {
        match self.state.error {
            Some(prev) => prev,
            None => {
                self.state.error = Some(e);
                e
            },
        }
    }
}

impl Default for SharedStateRef {
    fn default() -> (r: SharedStateRef)
        ensures
            r@ == initial_shared_state(),
    {
        SharedStateRef::new()
    }
}

/// Access to the shared state of the connection an object belongs to.
pub trait ConnectionState {
    spec fn shared_view(&self) -> SharedState;

    fn shared_state(&self) -> (r: &SharedStateRef)
        ensures
            r@ == self.shared_view(),
    ;

    /// The connection error if there is one, else `err`.
    fn maybe_conn_err(&self, err: Error) -> (r: Error)
        ensures
            r == self.shared_view().promote(err),
    {
        match self.shared_state().read().error {
            Some(e) => e,
            None => err,
        }
    }
}

impl ConnectionState for SharedStateRef {
    open spec fn shared_view(&self) -> SharedState {
        self@
    }

    fn shared_state(&self) -> (r: &SharedStateRef) {
        self
    }
}

/// What an inbound unidirectional stream turned out to be.
#[derive(Clone, Copy, Debug, PartialEq, Eq, Structural)]
pub enum StreamKind {
    Control,
    Push,
    Encoder,
    Decoder,
    Unknown(u64),
}

/// The kind of a stream whose type varint is `t`.
pub open spec fn stream_kind(t: u64) -> StreamKind {
    if t == STREAM_TYPE_CONTROL {
        StreamKind::Control
    } else if t == STREAM_TYPE_PUSH {
        StreamKind::Push
    } else if t == STREAM_TYPE_ENCODER {
        StreamKind::Encoder
    } else if t == STREAM_TYPE_DECODER {
        StreamKind::Decoder
    } else {
        StreamKind::Unknown(t)
    }
}

/// The error a frame read on the control stream causes, given whether the
/// peer's SETTINGS were already received; `None` when it is accepted.
pub open spec fn control_frame_error(got_settings: bool, f: Option<Frame>) -> Option<Error> {
    match f {
        None => Some(Error::Protocol { code: H3_CLOSED_CRITICAL_STREAM, reason: Reason::ControlStreamClosed }),
        Some(frame) => if !got_settings {
            match frame {
                Frame::Settings(_) => None,
                _ => Some(Error::Protocol { code: H3_MISSING_SETTINGS, reason: Reason::Unspecified }),
            }
        } else {
            match frame {
                Frame::Goaway(_) => None,
                _ => Some(
                    Error::Protocol { code: H3_FRAME_UNEXPECTED, reason: Reason::UnexpectedControlFrame },
                ),
            }
        },
    }
}

/// The peer limit a SETTINGS frame announces: its MAX_HEADER_LIST_SIZE, or
/// the varint maximum when absent.
pub open spec fn announced_limit(s: Seq<(u64, u64)>) -> u64 {
    match setting_value(s, SETTING_MAX_HEADER_LIST_SIZE) {
        Some(v) => v,
        None => VARINT_MAX,
    }
}

/// Connection driver: tracks the peer's control stream and its frames.
#[derive(Debug)]
pub struct ConnectionInner {
    shared: SharedStateRef,
    max_field_section_size: u64,
    has_control_recv: bool,
    got_peer_settings: bool,
}

impl ConnectionState for ConnectionInner {
    closed spec fn shared_view(&self) -> SharedState {
        self.shared@
    }

    fn shared_state(&self) -> (r: &SharedStateRef) {
        &self.shared
    }
}

impl ConnectionInner {
    /// The limit this endpoint advertised and enforces on inbound headers.
    pub closed spec fn local_max(&self) -> u64 {
        self.max_field_section_size
    }

    /// The peer's control stream has been identified.
    pub closed spec fn has_control(&self) -> bool {
        self.has_control_recv
    }

    /// The peer's SETTINGS have been received.
    pub closed spec fn got_settings(&self) -> bool {
        self.got_peer_settings
    }

    /// Starts a connection: returns the driver and the bytes to write on the
    /// newly opened outbound control stream (stream type, then SETTINGS with
    /// MAX_HEADER_LIST_SIZE). A limit that is no varint fails with
    /// `H3_INTERNAL_ERROR`.
    pub fn new(max_field_section_size: u64, shared: SharedStateRef) -> (r: Result<
        (ConnectionInner, Vec<u8>),
        Error,
    >)
        ensures
            max_field_section_size <= VARINT_MAX ==> r is Ok && {
                let (c, bytes) = r->Ok_0;
                &&& bytes@ == control_prelude(seq![(SETTING_MAX_HEADER_LIST_SIZE, max_field_section_size)])
                &&& c.shared_view() == shared@
                &&& c.local_max() == max_field_section_size
                &&& !c.has_control()
                &&& !c.got_settings()
            },
            max_field_section_size > VARINT_MAX ==> r == Err::<(ConnectionInner, Vec<u8>), Error>(
                Error::Protocol { code: crate::error::H3_INTERNAL_ERROR, reason: Reason::InvalidSetting },
            ),
    {
        let mut settings = Settings::new();
        match settings.insert(SETTING_MAX_HEADER_LIST_SIZE, max_field_section_size) {
            Err(e) => {
                return Err(e);
            },
            Ok(()) => {},
        }
        let bytes = encode_control_prelude(&settings);
        assert(settings@ =~= seq![(SETTING_MAX_HEADER_LIST_SIZE, max_field_section_size)]);
        Ok((
            ConnectionInner {
                shared,
                max_field_section_size,
                has_control_recv: false,
                got_peer_settings: false,
            },
            bytes,
        ))
    }

    /// Records a terminal error with `code` and `reason` (unless one is
    /// already recorded) and returns the recorded error; the transport
    /// connection is then to be closed with its code and reason.
    pub fn close(&mut self, code: u64, reason: Reason) -> (r: Error)
        ensures
            r == old(self).shared_view().promote(Error::Protocol { code, reason }),
            final(self).shared_view() == (SharedState { error: Some(r), ..old(self).shared_view() }),
            final(self).local_max() == old(self).local_max(),
            final(self).has_control() == old(self).has_control(),
            final(self).got_settings() == old(self).got_settings(),
    {
        self.shared.set_error(Error::protocol(code, reason))
    }

    /// Classifies an inbound unidirectional stream by its type varint. A
    /// second control stream closes the connection with
    /// `H3_STREAM_CREATION_ERROR`.
    pub fn poll_accept_recv(&mut self, stream_type: u64) -> (r: Result<StreamKind, Error>)
        ensures
            final(self).local_max() == old(self).local_max(),
            final(self).got_settings() == old(self).got_settings(),
            match old(self).shared_view().error {
                Some(e) => r == Err::<StreamKind, Error>(e) && *final(self) == *old(self),
                None => if stream_kind(stream_type) == StreamKind::Control && old(self).has_control() {
                    let e = Error::Protocol { code: H3_STREAM_CREATION_ERROR, reason: Reason::SecondControlStream };
                    &&& r == Err::<StreamKind, Error>(e)
                    &&& final(self).shared_view() == (SharedState { error: Some(e), ..old(self).shared_view() })
                    &&& final(self).has_control()
                } else {
                    &&& r == Ok::<StreamKind, Error>(stream_kind(stream_type))
                    &&& final(self).shared_view() == old(self).shared_view()
                    &&& final(self).has_control() == (old(self).has_control()
                        || stream_kind(stream_type) == StreamKind::Control)
                },
            },
    {
        if let Some(e) = self.shared.read().error {
            return Err(e);
        }
        if stream_type == STREAM_TYPE_CONTROL {
            if self.has_control_recv {
                return Err(self.close(H3_STREAM_CREATION_ERROR, Reason::SecondControlStream));
            }
            self.has_control_recv = true;
            Ok(StreamKind::Control)
        } else if stream_type == STREAM_TYPE_PUSH {
            Ok(StreamKind::Push)
        } else if stream_type == STREAM_TYPE_ENCODER {
            Ok(StreamKind::Encoder)
        } else if stream_type == STREAM_TYPE_DECODER {
            Ok(StreamKind::Decoder)
        } else {
            Ok(StreamKind::Unknown(stream_type))
        }
    }

    /// Processes the next item read from the peer's control stream (`None`
    /// is its end). SETTINGS must come first and only once; GOAWAY is
    /// accepted afterwards; anything else closes the connection. Once the
    /// connection has an error, no frame is looked at.
    pub fn poll_control(&mut self, recvd: Option<Frame>) -> (r: Result<Frame, Error>)
        requires
            old(self).has_control(),
        ensures
            final(self).local_max() == old(self).local_max(),
            final(self).has_control() == old(self).has_control(),
            match old(self).shared_view().error {
                Some(e) => r == Err::<Frame, Error>(e) && *final(self) == *old(self),
                None => match control_frame_error(old(self).got_settings(), recvd) {
                    Some(e) => {
                        &&& r == Err::<Frame, Error>(e)
                        &&& final(self).shared_view() == (SharedState { error: Some(e), ..old(self).shared_view() })
                        &&& final(self).got_settings() == old(self).got_settings()
                    },
                    None => {
                        &&& r == Ok::<Frame, Error>(recvd->Some_0)
                        &&& final(self).got_settings()
                        &&& final(self).shared_view().error is None
                        &&& match recvd->Some_0 {
                            Frame::Settings(s) => final(self).shared_view().peer_max_field_section_size
                                == announced_limit(s@),
                            _ => final(self).shared_view() == old(self).shared_view(),
                        }
                    },
                },
            },
    {
        if let Some(e) = self.shared.read().error {
            return Err(e);
        }
        match recvd {
            None => Err(self.close(H3_CLOSED_CRITICAL_STREAM, Reason::ControlStreamClosed)),
            Some(frame) => {
                if !self.got_peer_settings {
                    match frame {
                        Frame::Settings(settings) => {
                            self.got_peer_settings = true;
                            let limit = match settings.get(SETTING_MAX_HEADER_LIST_SIZE) {
                                Some(v) => v,
                                None => VARINT_MAX,
                            };
                            self.shared.write().peer_max_field_section_size = limit;
                            Ok(Frame::Settings(settings))
                        },
                        _ => Err(self.close(H3_MISSING_SETTINGS, Reason::Unspecified)),
                    }
                } else {
                    match frame {
                        Frame::Goaway(id) => Ok(Frame::Goaway(id)),
                        _ => Err(self.close(H3_FRAME_UNEXPECTED, Reason::UnexpectedControlFrame)),
                    }
                }
            },
        }
    }
}

/// Abstract value of a buffered field section: its fields and size estimate.
pub open spec fn block_view(b: HeaderBlock) -> (Seq<FieldView>, u64) {
    (fields_view(b.fields@), b.size)
}

/// One request/response exchange on a bidirectional stream.
#[derive(Debug)]
pub struct RequestStream {
    trailers: Option<HeaderBlock>,
    max_field_section_size: u64,
    stop_codes: Vec<u64>,
}

impl RequestStream {
    /// Trailers met by `recv_data` and not yet handed out.
    pub closed spec fn pending_trailers(&self) -> Option<(Seq<FieldView>, u64)> {
        match self.trailers {
            Some(b) => Some(block_view(b)),
            None => None,
        }
    }

    /// Limit on the size of field sections received on this stream.
    pub closed spec fn local_max(&self) -> u64 {
        self.max_field_section_size
    }

    /// Codes of the stop-sending signals issued on this stream, oldest first.
    pub closed spec fn stops(&self) -> Seq<u64> {
        self.stop_codes@
    }

    pub fn new(max_field_section_size: u64) -> (r: RequestStream)
        ensures
            r.pending_trailers() is None,
            r.local_max() == max_field_section_size,
            r.stops() == Seq::<u64>::empty(),
    {
        RequestStream { trailers: None, max_field_section_size, stop_codes: Vec::new() }
    }

    /// The stop-sending codes issued so far, for the transport to deliver.
    pub fn stop_sending_codes(&self) -> (r: &Vec<u64>)
        ensures
            r@ == self.stops(),
    {
        &self.stop_codes
    }

    /// Whether trailers are buffered, so that `recv_trailers` will not
    /// look at the stream.
    pub fn has_pending_trailers(&self) -> (r: bool)
        ensures
            r == self.pending_trailers() is Some,
    {
        self.trailers.is_some()
    }

    /// Asks the peer to stop sending on this stream, with `code`.
    pub fn stop_sending(&mut self, code: u64)
        ensures
            final(self).stops() == old(self).stops().push(code),
            final(self).pending_trailers() == old(self).pending_trailers(),
            final(self).local_max() == old(self).local_max(),
    {
        self.stop_codes.push(code);
    }

    /// Reads the response head from the first frame of the stream (`None`:
    /// the stream ended). It must be HEADERS within the local size limit;
    /// an oversize one makes the stream ask the peer to stop sending with
    /// `H3_REQUEST_REJECTED`.
    pub fn recv_response(&mut self, shared: &SharedStateRef, frame: Option<Frame>) -> (r: Result<
        ResponseHead,
        Error,
    >)
        ensures
            final(self).pending_trailers() == old(self).pending_trailers(),
            final(self).local_max() == old(self).local_max(),
            match shared@.error {
                Some(e) => r == Err::<ResponseHead, Error>(e) && final(self).stops() == old(self).stops(),
                None => match frame {
                    Some(Frame::Headers(b)) => if b.size > old(self).local_max() {
                        &&& r == Err::<ResponseHead, Error>(
                            Error::HeaderTooBig { actual: b.size, limit: old(self).local_max() },
                        )
                        &&& final(self).stops() == old(self).stops().push(H3_REQUEST_REJECTED)
                    } else {
                        &&& final(self).stops() == old(self).stops()
                        &&& match response_of(fields_view(b.fields@)) {
                            Some((status, hs)) => r.is_ok() && r->Ok_0.status == status
                                && fields_view(r->Ok_0.headers@) == hs,
                            None => r == Err::<ResponseHead, Error>(
                                Error::Protocol {
                                    code: crate::error::H3_GENERAL_PROTOCOL_ERROR,
                                    reason: Reason::InvalidResponseHead,
                                },
                            ),
                        }
                    },
                    None => r == Err::<ResponseHead, Error>(
                        Error::Protocol {
                            code: crate::error::H3_GENERAL_PROTOCOL_ERROR,
                            reason: Reason::MissingResponseHeaders,
                        },
                    ) && final(self).stops() == old(self).stops(),
                    Some(_) => r == Err::<ResponseHead, Error>(
                        Error::Protocol { code: H3_FRAME_UNEXPECTED, reason: Reason::FirstFrameNotHeaders },
                    ) && final(self).stops() == old(self).stops(),
                },
            },
    {
        if let Some(e) = shared.read().error {
            return Err(e);
        }
        match frame {
            None => Err(
                Error::protocol(crate::error::H3_GENERAL_PROTOCOL_ERROR, Reason::MissingResponseHeaders),
            ),
            Some(Frame::Headers(block)) => {
                if block.size > self.max_field_section_size {
                    self.stop_sending(H3_REQUEST_REJECTED);
                    return Err(Error::header_too_big(block.size, self.max_field_section_size));
                }
                response_parts(&block.fields)
            },
            Some(_) => Err(Error::protocol(H3_FRAME_UNEXPECTED, Reason::FirstFrameNotHeaders)),
        }
    }

    /// Returns the next body chunk from the next frame of the stream. A
    /// HEADERS frame holds the trailers: it is buffered and the body ends;
    /// so does the end of the stream.
    pub fn recv_data(&mut self, shared: &SharedStateRef, frame: Option<Frame>) -> (r: Result<
        Option<Vec<u8>>,
        Error,
    >)
        ensures
            final(self).local_max() == old(self).local_max(),
            final(self).stops() == old(self).stops(),
            match shared@.error {
                Some(e) => r == Err::<Option<Vec<u8>>, Error>(e) && final(self).pending_trailers()
                    == old(self).pending_trailers(),
                None => match frame {
                    Some(Frame::Data(bytes)) => r.is_ok() && r->Ok_0.is_some() && r->Ok_0->Some_0@
                        == bytes@ && final(self).pending_trailers() == old(self).pending_trailers(),
                    Some(Frame::Headers(b)) => r == Ok::<Option<Vec<u8>>, Error>(None)
                        && final(self).pending_trailers() == Some(block_view(b)),
                    None => r == Ok::<Option<Vec<u8>>, Error>(None) && final(self).pending_trailers()
                        == old(self).pending_trailers(),
                    Some(_) => r == Err::<Option<Vec<u8>>, Error>(
                        Error::Protocol { code: H3_FRAME_UNEXPECTED, reason: Reason::Unspecified },
                    ) && final(self).pending_trailers() == old(self).pending_trailers(),
                },
            },
    {
        if let Some(e) = shared.read().error {
            return Err(e);
        }
        match frame {
            Some(Frame::Data(bytes)) => Ok(Some(bytes)),
            Some(Frame::Headers(block)) => {
                self.trailers = Some(block);
                Ok(None)
            },
            None => Ok(None),
            Some(_) => Err(Error::protocol(H3_FRAME_UNEXPECTED, Reason::Unspecified)),
        }
    }

    /// Returns the trailers: the buffered ones if `recv_data` met them,
    /// else those in the next frame of the stream (`frame`), which must be
    /// HEADERS or the stream's end. Oversize trailers make the stream ask the
    /// peer to stop sending with `H3_REQUEST_CANCELLED`.
    pub fn recv_trailers(&mut self, shared: &SharedStateRef, frame: Option<Frame>) -> (r: Result<
        Option<Vec<Field>>,
        Error,
    >)
        ensures
            final(self).local_max() == old(self).local_max(),
            match shared@.error {
                Some(e) => r == Err::<Option<Vec<Field>>, Error>(e) && final(self).pending_trailers()
                    == old(self).pending_trailers() && final(self).stops() == old(self).stops(),
                None => {
                    &&& final(self).pending_trailers() is None
                    &&& match trailer_source(old(self).pending_trailers(), frame) {
                        TrailerSource::Block(fs, size) => if size > old(self).local_max() {
                            &&& r == Err::<Option<Vec<Field>>, Error>(
                                Error::HeaderTooBig { actual: size, limit: old(self).local_max() },
                            )
                            &&& final(self).stops() == old(self).stops().push(H3_REQUEST_CANCELLED)
                        } else {
                            &&& final(self).stops() == old(self).stops()
                            &&& if all_regular(fs) {
                                r.is_ok() && r->Ok_0.is_some() && fields_view(r->Ok_0->Some_0@) == fs
                            } else {
                                r == Err::<Option<Vec<Field>>, Error>(
                                    Error::Protocol {
                                        code: crate::error::H3_GENERAL_PROTOCOL_ERROR,
                                        reason: Reason::PseudoHeaderInTrailers,
                                    },
                                )
                            }
                        },
                        TrailerSource::End => r == Ok::<Option<Vec<Field>>, Error>(None)
                            && final(self).stops() == old(self).stops(),
                        TrailerSource::Unexpected => r == Err::<Option<Vec<Field>>, Error>(
                            Error::Protocol { code: H3_FRAME_UNEXPECTED, reason: Reason::Unspecified },
                        ) && final(self).stops() == old(self).stops(),
                    }
                },
            },
    {
        if let Some(e) = shared.read().error {
            return Err(e);
        }
        let block = match self.trailers.take() {
            Some(b) => b,
            None => match frame {
                Some(Frame::Headers(b)) => b,
                None => {
                    return Ok(None);
                },
                Some(_) => {
                    return Err(Error::protocol(H3_FRAME_UNEXPECTED, Reason::Unspecified));
                },
            },
        };
        if block.size > self.max_field_section_size {
            self.stop_sending(H3_REQUEST_CANCELLED);
            return Err(Error::header_too_big(block.size, self.max_field_section_size));
        }
        match trailer_fields(block.fields) {
            Ok(fs) => Ok(Some(fs)),
            Err(e) => Err(e),
        }
    }

    /// The DATA frame that carries `buf` on this stream.
    pub fn send_data(&mut self, shared: &SharedStateRef, buf: Vec<u8>) -> (r: Result<Frame, Error>)
        ensures
            *final(self) == *old(self),
            match shared@.error {
                Some(e) => r == Err::<Frame, Error>(e),
                None => r == Ok::<Frame, Error>(Frame::Data(buf)),
            },
    {
        if let Some(e) = shared.read().error {
            return Err(e);
        }
        Ok(Frame::Data(buf))
    }

    /// The HEADERS frame that carries the trailers `fields`, whose encoded
    /// size estimate is `size`; it must be within the peer's limit.
    pub fn send_trailers(&mut self, shared: &SharedStateRef, fields: Vec<Field>, size: u64) -> (r:
        Result<Frame, Error>)
        ensures
            *final(self) == *old(self),
            match shared@.error {
                Some(e) => r == Err::<Frame, Error>(e),
                None => if size > shared@.peer_max_field_section_size {
                    r == Err::<Frame, Error>(
                        Error::HeaderTooBig { actual: size, limit: shared@.peer_max_field_section_size },
                    )
                } else {
                    r == Ok::<Frame, Error>(Frame::Headers(HeaderBlock { fields, size }))
                },
            },
    {
        let state = shared.read();
        if let Some(e) = state.error {
            return Err(e);
        }
        if size > state.peer_max_field_section_size {
            return Err(Error::header_too_big(size, state.peer_max_field_section_size));
        }
        Ok(Frame::Headers(HeaderBlock { fields, size }))
    }

    /// Ends the sending half of the stream.
    pub fn finish(&mut self, shared: &SharedStateRef) -> (r: Result<(), Error>)
        ensures
            *final(self) == *old(self),
            match shared@.error {
                Some(e) => r == Err::<(), Error>(e),
                None => r == Ok::<(), Error>(()),
            },
    {
        match shared.read().error {
            Some(e) => Err(e),
            None => Ok(()),
        }
    }
}

/// Where `recv_trailers` takes its field section from.
pub enum TrailerSource {
    Block(Seq<FieldView>, u64),
    End,
    Unexpected,
}

pub open spec fn trailer_source(pending: Option<(Seq<FieldView>, u64)>, frame: Option<Frame>) -> TrailerSource {
    match pending {
        Some((fs, size)) => TrailerSource::Block(fs, size),
        None => match frame {
            Some(Frame::Headers(b)) => TrailerSource::Block(fields_view(b.fields@), b.size),
            None => TrailerSource::End,
            Some(_) => TrailerSource::Unexpected,
        },
    }
}

/// Once the shared state holds a connection error, every local failure is
/// reported as that error.
pub proof fn lemma_connection_error_wins(s: SharedState, local: Error)
    requires
        s.error is Some,
    ensures
        s.promote(local) == s.error->Some_0,
{
}

/// While the peer's SETTINGS have not arrived, every frame on the control
/// stream other than SETTINGS is answered with `H3_MISSING_SETTINGS`.
pub proof fn lemma_first_frame_must_be_settings(f: Frame)
    requires
        !(f is Settings),
    ensures
        control_frame_error(false, Some(f)) == Some(
            Error::Protocol { code: H3_MISSING_SETTINGS, reason: Reason::Unspecified },
        ),
{
}

/// A SETTINGS frame after the first is answered with `H3_FRAME_UNEXPECTED`.
pub proof fn lemma_second_settings_unexpected(f: Frame)
    requires
        f is Settings,
    ensures
        control_frame_error(true, Some(f)) == Some(
            Error::Protocol { code: H3_FRAME_UNEXPECTED, reason: Reason::UnexpectedControlFrame },
        ),
{
}

} // verus!
