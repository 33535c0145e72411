use http2_core::codec::FrameHeader;
use http2_core::codec::Http2Frame;
use http2_core::conn::Connection;
use http2_core::conn::Event;
use http2_core::conn::GoawayData;
use http2_core::conn::State;

fn frame(length: u32, type_: u8, flags: u8, stream_id: u32, payload: Vec<u8>) -> Http2Frame {
    Http2Frame { header: FrameHeader { length, type_, flags, stream_id }, payload }
}

fn preface() -> Vec<u8> {
    b"PRI * HTTP/2.0\r\n\r\nSM\r\n\r\n".to_vec()
}

/// Drives a fresh connection through the whole handshake with the given
/// client SETTINGS payload and returns it in `Established`.
fn established(settings_payload: Vec<u8>) -> Connection {
    let mut conn = Connection::new();
    let out = conn.step(Event::PrefaceBytes(preface()));
    assert_eq!(out, vec![0x00, 0x00, 0x00, 0x04, 0x00, 0x00, 0x00, 0x00, 0x00]);
    assert_eq!(conn.state, State::AwaitingServerSettingsSent);
    let out = conn.step(Event::SettingsSent);
    assert!(out.is_empty());
    assert_eq!(conn.state, State::AwaitingClientSettings);
    let len = settings_payload.len() as u32;
    let out = conn.step(Event::Frame(frame(len, 0x04, 0x00, 0, settings_payload)));
    assert_eq!(out, vec![0x00, 0x00, 0x00, 0x04, 0x01, 0x00, 0x00, 0x00, 0x00]);
    assert_eq!(conn.state, State::Established);
    conn
}

#[test]
fn invalid_preface_closes() {
    let mut conn = Connection::new();
    let mut bad = preface();
    bad[0] = b'X';
    let out = conn.step(Event::PrefaceBytes(bad));
    assert!(out.is_empty());
    assert_eq!(conn.state, State::Closed);
}

#[test]
fn handshake_applies_window_size_and_acks() {
    // preface, then SETTINGS with INITIAL_WINDOW_SIZE = 16384: the store
    // updates and an ACK SETTINGS frame (flags=0x01, length=0) is written
    let conn = established(vec![0x00, 0x04, 0x00, 0x00, 0x40, 0x00]);
    assert_eq!(conn.settings.initial_window_size, 16384);
}

#[test]
fn data_frame_instead_of_client_settings_closes() {
    let mut conn = Connection::new();
    conn.step(Event::PrefaceBytes(preface()));
    conn.step(Event::SettingsSent);
    let out = conn.step(Event::Frame(frame(3, 0x00, 0x00, 1, vec![1, 2, 3])));
    assert!(out.is_empty());
    assert_eq!(conn.state, State::Closed);
}

#[test]
fn headers_frame_triggers_response_on_its_stream() {
    let mut conn = established(Vec::new());
    let out = conn.step(Event::Frame(frame(1, 0x01, 0x04, 1, vec![0x82])));
    assert_eq!(conn.state, State::Established);

    // first a HEADERS frame with END_HEADERS on stream 1
    let h1 = FrameHeader {
        length: out[0] as u32 * 0x10000 + out[1] as u32 * 0x100 + out[2] as u32,
        type_: out[3],
        flags: out[4],
        stream_id: u32::from_be_bytes([out[5], out[6], out[7], out[8]]),
    };
    assert_eq!(h1.type_, 0x01);
    assert_eq!(h1.flags & 0x04, 0x04);
    assert_eq!(h1.stream_id, 1);
    let block = &out[9..9 + h1.length as usize];
    let block_text = String::from_utf8(block.to_vec()).unwrap();
    assert!(block_text.contains(":status 200"));
    assert!(block_text.contains("content-length 12"));

    // then a DATA frame with END_STREAM on stream 1 carrying the body
    let rest = &out[9 + h1.length as usize..];
    let h2 = FrameHeader {
        length: rest[0] as u32 * 0x10000 + rest[1] as u32 * 0x100 + rest[2] as u32,
        type_: rest[3],
        flags: rest[4],
        stream_id: u32::from_be_bytes([rest[5], rest[6], rest[7], rest[8]]),
    };
    assert_eq!(h2.type_, 0x00);
    assert_eq!(h2.flags & 0x01, 0x01);
    assert_eq!(h2.stream_id, 1);
    let body = &rest[9..];
    assert_eq!(body.len(), h2.length as usize);
    assert_eq!(body, b"Hello, world!");
}

#[test]
fn malformed_headers_payload_closes() {
    let mut conn = established(Vec::new());
    let out = conn.step(Event::Frame(frame(1, 0x01, 0x04, 1, vec![0x80])));
    assert!(out.is_empty());
    assert_eq!(conn.state, State::Closed);
}

#[test]
fn goaway_closes_immediately() {
    let mut conn = established(Vec::new());
    let payload = vec![0x00, 0x00, 0x00, 0x03, 0x00, 0x00, 0x00, 0x09];
    let out = conn.step(Event::Frame(frame(8, 0x07, 0x00, 0, payload)));
    assert!(out.is_empty());
    assert_eq!(conn.state, State::Closed);
    assert_eq!(conn.last_goaway, Some(GoawayData { last_stream_id: 3, error_code: 9 }));
}

#[test]
fn goaway_with_debug_data_closes() {
    let mut conn = established(Vec::new());
    let payload = vec![0x00, 0x00, 0x00, 0x01, 0x00, 0x00, 0x00, 0x02, b'b', b'y', b'e'];
    let out = conn.step(Event::Frame(frame(11, 0x07, 0x00, 0, payload)));
    assert!(out.is_empty());
    assert_eq!(conn.state, State::Closed);
    assert_eq!(conn.last_goaway, Some(GoawayData { last_stream_id: 1, error_code: 2 }));
}

#[test]
fn unrecognized_frame_type_closes_without_writing() {
    let mut conn = established(Vec::new());
    let out = conn.step(Event::Frame(frame(2, 0x99, 0x00, 1, vec![0xAA, 0xBB])));
    assert!(out.is_empty());
    assert_eq!(conn.state, State::Closed);
}

#[test]
fn window_update_is_recorded_and_connection_stays_open() {
    let mut conn = established(Vec::new());
    let out = conn.step(Event::Frame(frame(4, 0x08, 0x00, 0, vec![0x80, 0x00, 0x01, 0x00])));
    assert!(out.is_empty());
    assert_eq!(conn.state, State::Established);
    // the reserved top bit of the increment is masked off
    assert_eq!(conn.last_window_increment, Some(256));
}

#[test]
fn settings_ack_in_established_is_a_no_op() {
    let mut conn = established(Vec::new());
    let before = conn.settings;
    let out = conn.step(Event::Frame(frame(0, 0x04, 0x01, 0, Vec::new())));
    assert!(out.is_empty());
    assert_eq!(conn.state, State::Established);
    assert_eq!(conn.settings, before);
}

#[test]
fn additional_settings_in_established_apply_and_ack() {
    let mut conn = established(Vec::new());
    let payload = vec![0x00, 0x03, 0x00, 0x00, 0x00, 0x07];
    let out = conn.step(Event::Frame(frame(6, 0x04, 0x00, 0, payload)));
    assert_eq!(out, vec![0x00, 0x00, 0x00, 0x04, 0x01, 0x00, 0x00, 0x00, 0x00]);
    assert_eq!(conn.state, State::Established);
    assert_eq!(conn.settings.max_concurrent_streams, 7);
}

#[test]
fn settings_payload_with_bad_length_closes() {
    let mut conn = established(Vec::new());
    let out = conn.step(Event::Frame(frame(5, 0x04, 0x00, 0, vec![0, 4, 0, 0, 64])));
    assert!(out.is_empty());
    assert_eq!(conn.state, State::Closed);
}

#[test]
fn payload_shorter_than_header_length_closes() {
    let mut conn = established(Vec::new());
    let out = conn.step(Event::Frame(frame(6, 0x04, 0x00, 0, vec![0, 4])));
    assert!(out.is_empty());
    assert_eq!(conn.state, State::Closed);
}

#[test]
fn transport_failure_closes() {
    let mut conn = Connection::new();
    let out = conn.step(Event::Transport);
    assert!(out.is_empty());
    assert_eq!(conn.state, State::Closed);
}

#[test]
fn closed_is_terminal() {
    let mut conn = Connection::new();
    conn.step(Event::Transport);
    let out = conn.step(Event::Frame(frame(0, 0x04, 0x00, 0, Vec::new())));
    assert!(out.is_empty());
    assert_eq!(conn.state, State::Closed);
}

#[test]
fn headers_with_truncated_size_update_closes_without_panic() {
    let mut conn = established(Vec::new());
    let out = conn.step(Event::Frame(frame(1, 0x01, 0x04, 1, vec![0x3F])));
    assert!(out.is_empty());
    assert_eq!(conn.state, State::Closed);
}

#[test]
fn headers_with_overlong_size_update_closes_without_panic() {
    let mut conn = established(Vec::new());
    let payload = vec![0x3F, 0x80, 0x80, 0x80, 0x80];
    let out = conn.step(Event::Frame(frame(5, 0x01, 0x04, 1, payload)));
    assert!(out.is_empty());
    assert_eq!(conn.state, State::Closed);
}
