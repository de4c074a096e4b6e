use h3::client::{self, DriverEvent};
use h3::connection::{ConnectionState, RequestStream, SharedStateRef};
use h3::error::{
    Error, Reason, H3_CLOSED_CRITICAL_STREAM, H3_FRAME_UNEXPECTED, H3_GENERAL_PROTOCOL_ERROR,
    H3_INTERNAL_ERROR, H3_MISSING_SETTINGS, H3_REQUEST_CANCELLED, H3_REQUEST_REJECTED,
    H3_STREAM_CREATION_ERROR,
};
use h3::frame::{Frame, Settings, SETTING_MAX_HEADER_LIST_SIZE};
use h3::headers::{request_fields, Field, HeaderBlock, RequestHead};

fn field(name: &str, value: &str) -> Field {
    Field { name: name.as_bytes().to_vec(), value: value.as_bytes().to_vec() }
}

fn block(fields: Vec<Field>, size: u64) -> Frame {
    Frame::Headers(HeaderBlock { fields, size })
}

fn settings(max: u64) -> Frame {
    let mut s = Settings::new();
    s.insert(SETTING_MAX_HEADER_LIST_SIZE, max).unwrap();
    Frame::Settings(s)
}

fn get_request() -> RequestHead {
    RequestHead {
        method: b"GET".to_vec(),
        scheme: b"https".to_vec(),
        authority: b"example.test".to_vec(),
        path: b"/".to_vec(),
        headers: vec![],
    }
}

fn connected(local_max: u64, peer_max: u64) -> (client::Connection, client::SendRequest) {
    let mut b = client::builder();
    b.max_field_section_size(local_max);
    let (mut conn, send, _) = b.build().unwrap();
    assert_eq!(conn.poll_close(DriverEvent::RecvStream(0x00)), None);
    assert_eq!(conn.poll_close(DriverEvent::ControlFrame(Some(settings(peer_max)))), None);
    (conn, send)
}

fn protocol(code: u64, reason: Reason) -> Error {
    Error::Protocol { code, reason }
}

#[test]
fn happy_path_get() {
    let mut b = client::builder();
    b.max_field_section_size(16384);
    let (mut conn, mut send, prelude) = b.build().unwrap();
    assert_eq!(prelude, vec![0x00, 0x04, 0x05, 0x06, 0x80, 0x00, 0x40, 0x00]);

    assert_eq!(conn.poll_close(DriverEvent::RecvStream(0x00)), None);
    assert_eq!(conn.poll_close(DriverEvent::ControlFrame(Some(settings(65536)))), None);
    assert_eq!(conn.state().read().peer_max_field_section_size, 65536);

    let (mut stream, frame) = send.send_request(conn.state(), get_request(), 40).unwrap();
    let expected = vec![
        field(":method", "GET"),
        field(":scheme", "https"),
        field(":authority", "example.test"),
        field(":path", "/"),
    ];
    assert_eq!(frame, block(expected, 40));

    let resp = stream.recv_response(conn.state(), Some(block(vec![field(":status", "200")], 41)));
    let resp = resp.unwrap();
    assert_eq!(resp.status, 200);
    assert!(resp.headers.is_empty());
    assert_eq!(stream.recv_data(conn.state(), None), Ok(None));
    assert_eq!(stream.recv_trailers(conn.state(), None), Ok(None));
    assert!(stream.stop_sending_codes().is_empty());
}

#[test]
fn missing_peer_settings() {
    let (mut conn, _, _) = client::new().unwrap();
    assert_eq!(conn.poll_close(DriverEvent::RecvStream(0x00)), None);
    let err = conn.poll_close(DriverEvent::ControlFrame(Some(Frame::Goaway(0))));
    assert_eq!(err, Some(protocol(H3_MISSING_SETTINGS, Reason::Unspecified)));
    // terminal: later frames are not looked at
    let again = conn.poll_close(DriverEvent::ControlFrame(Some(settings(10))));
    assert_eq!(again, Some(protocol(H3_MISSING_SETTINGS, Reason::Unspecified)));
    assert_eq!(conn.state().read().peer_max_field_section_size, h3::varint::VARINT_MAX);
}

#[test]
fn data_before_settings_is_missing_settings() {
    let (mut conn, _, _) = client::new().unwrap();
    conn.poll_close(DriverEvent::RecvStream(0x00));
    let err = conn.poll_close(DriverEvent::ControlFrame(Some(Frame::Data(vec![1]))));
    assert_eq!(err, Some(protocol(H3_MISSING_SETTINGS, Reason::Unspecified)));
}

#[test]
fn oversize_outbound_headers() {
    let (conn, mut send) = connected(16384, 64);
    let r = send.send_request(conn.state(), get_request(), 4096);
    assert_eq!(r.err(), Some(Error::HeaderTooBig { actual: 4096, limit: 64 }));
}

#[test]
fn outbound_headers_at_limit_pass() {
    let (conn, mut send) = connected(16384, 64);
    assert!(send.send_request(conn.state(), get_request(), 64).is_ok());
}

#[test]
fn oversize_inbound_headers() {
    let (conn, mut send) = connected(64, 65536);
    let (mut stream, _) = send.send_request(conn.state(), get_request(), 40).unwrap();
    let r = stream.recv_response(conn.state(), Some(block(vec![field(":status", "200")], 4096)));
    assert_eq!(r.err(), Some(Error::HeaderTooBig { actual: 4096, limit: 64 }));
    assert_eq!(stream.stop_sending_codes(), &vec![H3_REQUEST_REJECTED]);
}

#[test]
fn body_then_trailers_interleave() {
    let (conn, mut send) = connected(16384, 65536);
    let (mut stream, _) = send.send_request(conn.state(), get_request(), 40).unwrap();
    let resp = stream.recv_response(conn.state(), Some(block(vec![field(":status", "200")], 41)));
    assert_eq!(resp.unwrap().status, 200);
    let d = stream.recv_data(conn.state(), Some(Frame::Data(b"abc".to_vec())));
    assert_eq!(d, Ok(Some(b"abc".to_vec())));
    let d = stream.recv_data(conn.state(), Some(block(vec![field("x-trace", "7")], 45)));
    assert_eq!(d, Ok(None));
    assert!(stream.has_pending_trailers());
    let t = stream.recv_trailers(conn.state(), None);
    assert_eq!(t, Ok(Some(vec![field("x-trace", "7")])));
    assert!(!stream.has_pending_trailers());
}

#[test]
fn client_rejects_inbound_bidi_stream() {
    let (mut conn, _) = connected(16384, 65536);
    let err = conn.poll_close(DriverEvent::BidiStream);
    let expected = protocol(H3_STREAM_CREATION_ERROR, Reason::ClientBidiStream);
    assert_eq!(err, Some(expected));
    assert_eq!(conn.state().read().error, Some(expected));
    assert_eq!(Reason::ClientBidiStream.text(), "client received a bidirectional stream");
}

#[test]
fn connection_error_overrides_stream_results() {
    let (mut conn, mut send) = connected(16384, 65536);
    let (mut stream, _) = send.send_request(conn.state(), get_request(), 40).unwrap();
    let err = conn.poll_close(DriverEvent::BidiStream).unwrap();
    let s = conn.state();
    assert_eq!(stream.recv_response(s, Some(block(vec![field(":status", "200")], 1))).err(), Some(err));
    assert_eq!(stream.recv_data(s, Some(Frame::Data(vec![1]))), Err(err));
    assert_eq!(stream.recv_trailers(s, None), Err(err));
    assert_eq!(stream.send_data(s, vec![1, 2]), Err(err));
    assert_eq!(stream.send_trailers(s, vec![field("a", "b")], 3), Err(err));
    assert_eq!(stream.finish(s), Err(err));
    assert_eq!(s.maybe_conn_err(Error::transport(9)), err);
    // the first recorded error stays
    assert_eq!(conn.poll_close(DriverEvent::Idle), Some(err));
}

#[test]
fn maybe_conn_err_without_error_keeps_local() {
    let s = SharedStateRef::default();
    assert_eq!(s.maybe_conn_err(Error::transport(9)), Error::Transport { code: 9 });
}

#[test]
fn second_settings_unexpected() {
    let (mut conn, _) = connected(16384, 65536);
    let err = conn.poll_close(DriverEvent::ControlFrame(Some(settings(5))));
    assert_eq!(err, Some(protocol(H3_FRAME_UNEXPECTED, Reason::UnexpectedControlFrame)));
    assert_eq!(conn.state().read().peer_max_field_section_size, 65536);
}

#[test]
fn goaway_after_settings_accepted() {
    let (mut conn, _) = connected(16384, 65536);
    assert_eq!(conn.poll_close(DriverEvent::ControlFrame(Some(Frame::Goaway(4)))), None);
    let err = conn.poll_close(DriverEvent::ControlFrame(Some(Frame::Headers(HeaderBlock {
        fields: vec![],
        size: 0,
    }))));
    assert_eq!(err, Some(protocol(H3_FRAME_UNEXPECTED, Reason::UnexpectedControlFrame)));
}

#[test]
fn control_stream_end_is_critical() {
    let (mut conn, _) = connected(16384, 65536);
    let err = conn.poll_close(DriverEvent::ControlFrame(None));
    assert_eq!(err, Some(protocol(H3_CLOSED_CRITICAL_STREAM, Reason::ControlStreamClosed)));
}

#[test]
fn second_control_stream_rejected() {
    let (mut conn, _) = connected(16384, 65536);
    assert_eq!(conn.poll_close(DriverEvent::RecvStream(0x02)), None);
    assert_eq!(conn.poll_close(DriverEvent::RecvStream(0x21)), None);
    let err = conn.poll_close(DriverEvent::RecvStream(0x00));
    assert_eq!(err, Some(protocol(H3_STREAM_CREATION_ERROR, Reason::SecondControlStream)));
}

#[test]
fn settings_without_limit_keep_varint_max() {
    let (mut conn, _, _) = client::new().unwrap();
    conn.poll_close(DriverEvent::RecvStream(0x00));
    assert_eq!(conn.poll_close(DriverEvent::ControlFrame(Some(Frame::Settings(Settings::new())))), None);
    assert_eq!(conn.state().read().peer_max_field_section_size, h3::varint::VARINT_MAX);
}

#[test]
fn builder_rejects_limit_beyond_varint() {
    let mut b = client::builder();
    b.max_field_section_size(1u64 << 62);
    let r = b.build();
    assert_eq!(r.err(), Some(protocol(H3_INTERNAL_ERROR, Reason::InvalidSetting)));
}

#[test]
fn default_prelude_uses_varint_max() {
    let (_, _, prelude) = client::new().unwrap();
    assert_eq!(
        prelude,
        vec![0x00, 0x04, 0x09, 0x06, 0xff, 0xff, 0xff, 0xff, 0xff, 0xff, 0xff, 0xff]
    );
}

#[test]
fn invalid_request_head() {
    let (conn, mut send) = connected(16384, 65536);
    let mut req = get_request();
    req.authority = vec![];
    let r = send.send_request(conn.state(), req, 1);
    assert_eq!(r.err(), Some(protocol(H3_GENERAL_PROTOCOL_ERROR, Reason::InvalidRequestHead)));
    let mut req = get_request();
    req.headers.push(field(":path", "/x"));
    assert_eq!(request_fields(req).err(), Some(protocol(H3_GENERAL_PROTOCOL_ERROR, Reason::InvalidRequestHead)));
}

#[test]
fn request_fields_keep_header_order() {
    let mut req = get_request();
    req.headers.push(field("b", "1"));
    req.headers.push(field("a", "2"));
    let fs = request_fields(req).unwrap();
    assert_eq!(fs.len(), 6);
    assert_eq!(fs[4], field("b", "1"));
    assert_eq!(fs[5], field("a", "2"));
}

fn fresh_stream(local_max: u64) -> (client::Connection, RequestStream) {
    let (conn, mut send) = connected(local_max, 65536);
    let (stream, _) = send.send_request(conn.state(), get_request(), 40).unwrap();
    (conn, stream)
}

#[test]
fn response_status_and_headers() {
    let (conn, mut stream) = fresh_stream(16384);
    let fs = vec![field("server", "t"), field(":status", "404"), field("x", "y")];
    let resp = stream.recv_response(conn.state(), Some(block(fs, 10))).unwrap();
    assert_eq!(resp.status, 404);
    assert_eq!(resp.headers, vec![field("server", "t"), field("x", "y")]);
}

#[test]
fn invalid_response_heads() {
    let bad = vec![
        vec![field(":status", "abc")],
        vec![field(":status", "099")],
        vec![field(":status", "2000")],
        vec![field("server", "t")],
        vec![field(":status", "200"), field(":status", "200")],
        vec![field(":status", "200"), field(":path", "/")],
    ];
    for fs in bad {
        let (conn, mut stream) = fresh_stream(16384);
        let r = stream.recv_response(conn.state(), Some(block(fs, 10)));
        assert_eq!(r.err(), Some(protocol(H3_GENERAL_PROTOCOL_ERROR, Reason::InvalidResponseHead)));
    }
}

#[test]
fn response_stream_errors() {
    let (conn, mut stream) = fresh_stream(16384);
    let r = stream.recv_response(conn.state(), None);
    assert_eq!(r.err(), Some(protocol(H3_GENERAL_PROTOCOL_ERROR, Reason::MissingResponseHeaders)));
    let r = stream.recv_response(conn.state(), Some(Frame::Data(vec![1])));
    assert_eq!(r.err(), Some(protocol(H3_FRAME_UNEXPECTED, Reason::FirstFrameNotHeaders)));
}

#[test]
fn recv_data_rejects_other_frames() {
    let (conn, mut stream) = fresh_stream(16384);
    let r = stream.recv_data(conn.state(), Some(Frame::Goaway(1)));
    assert_eq!(r, Err(protocol(H3_FRAME_UNEXPECTED, Reason::Unspecified)));
    let r = stream.recv_trailers(conn.state(), Some(Frame::Data(vec![1])));
    assert_eq!(r, Err(protocol(H3_FRAME_UNEXPECTED, Reason::Unspecified)));
}

#[test]
fn oversize_trailers_cancel() {
    let (conn, mut stream) = fresh_stream(64);
    let r = stream.recv_trailers(conn.state(), Some(block(vec![field("x", "1")], 65)));
    assert_eq!(r, Err(Error::HeaderTooBig { actual: 65, limit: 64 }));
    assert_eq!(stream.stop_sending_codes(), &vec![H3_REQUEST_CANCELLED]);
}

#[test]
fn pseudo_header_in_trailers() {
    let (conn, mut stream) = fresh_stream(64);
    let r = stream.recv_trailers(conn.state(), Some(block(vec![field(":status", "200")], 5)));
    assert_eq!(r, Err(protocol(H3_GENERAL_PROTOCOL_ERROR, Reason::PseudoHeaderInTrailers)));
}

#[test]
fn send_side_frames() {
    let (conn, mut stream) = fresh_stream(64);
    assert_eq!(stream.send_data(conn.state(), b"xy".to_vec()), Ok(Frame::Data(b"xy".to_vec())));
    let t = stream.send_trailers(conn.state(), vec![field("a", "b")], 70000);
    assert_eq!(t, Err(Error::HeaderTooBig { actual: 70000, limit: 65536 }));
    let t = stream.send_trailers(conn.state(), vec![field("a", "b")], 7);
    assert_eq!(t, Ok(block(vec![field("a", "b")], 7)));
    assert_eq!(stream.finish(conn.state()), Ok(()));
    stream.stop_sending(0x10c);
    assert_eq!(stream.stop_sending_codes(), &vec![0x10c]);
}

#[test]
fn varint_encodings() {
    let cases: Vec<(u64, Vec<u8>)> = vec![
        (0, vec![0x00]),
        (63, vec![0x3f]),
        (64, vec![0x40, 0x40]),
        (15293, vec![0x7b, 0xbd]),
        (16384, vec![0x80, 0x00, 0x40, 0x00]),
        (494878333, vec![0x9d, 0x7f, 0x3e, 0x7d]),
        (151288809941952652, vec![0xc2, 0x19, 0x7c, 0x5e, 0xff, 0x14, 0xe8, 0x8c]),
    ];
    for (v, bytes) in cases {
        let mut out = vec![0xaa];
        h3::varint::encode_varint(v, &mut out);
        let mut expected = vec![0xaa];
        expected.extend_from_slice(&bytes);
        assert_eq!(out, expected);
    }
}

#[test]
fn settings_capacity_and_lookup() {
    let mut s = Settings::new();
    for i in 0..8u64 {
        assert_eq!(s.insert(0x20 + i, i), Ok(()));
    }
    assert_eq!(s.insert(0x30, 1), Err(protocol(H3_INTERNAL_ERROR, Reason::InvalidSetting)));
    assert_eq!(s.get(0x23), Some(3));
    assert_eq!(s.get(0x06), None);
    let mut t = Settings::new();
    t.insert(6, 1).unwrap();
    t.insert(6, 2).unwrap();
    assert_eq!(t.get(6), Some(1));
    assert_eq!(t.insert(1, 1u64 << 62), Err(protocol(H3_INTERNAL_ERROR, Reason::InvalidSetting)));
}

#[test]
fn error_codes() {
    assert_eq!(protocol(H3_REQUEST_REJECTED, Reason::Unspecified).code(), Some(0x10b));
    assert_eq!(Error::header_too_big(1, 0).code(), None);
    assert_eq!(Error::Internal.code(), None);
}
