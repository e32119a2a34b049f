use mastertech::tcp_frames::{
    check_handshake, encode_frame, identity_refusal, publish_backoff_secs, read_frame, route_inbound,
    FrameError, HandshakeError, HandshakeOutcome, InboundFrame, OutboundFrame, SessionRoute,
    FRAME_TAG_BINARY, FRAME_TAG_TEXT,
};

const PING: u8 = 0x7E;

fn handshake(version: u8, id: &str) -> Vec<u8> {
    let mut v = b"MTRX".to_vec();
    v.push(version);
    v.extend_from_slice(&(id.len() as u32).to_le_bytes());
    v.extend_from_slice(id.as_bytes());
    v
}

#[test]
fn a_matching_handshake_authenticates() {
    let mut s = handshake(2, "abc-123");
    s.extend_from_slice(&[9, 9, 9]);
    assert_eq!(check_handshake(&s, "abc-123", 1, 3), Ok((HandshakeOutcome::Authenticated, 16)));
}

#[test]
fn handshake_refusals() {
    assert_eq!(check_handshake(&handshake(2, "other"), "abc", 1, 3), Err(HandshakeError::IdMismatch));
    assert_eq!(check_handshake(&handshake(9, "abc"), "abc", 1, 3), Err(HandshakeError::UnsupportedVersion(9)));
    assert_eq!(check_handshake(b"HTTP/1.1", "abc", 1, 3), Err(HandshakeError::BadMagic));
    assert_eq!(check_handshake(b"MTRX", "abc", 1, 3), Err(HandshakeError::MissingVersion));
    assert_eq!(check_handshake(b"MTRX\x02\x01", "abc", 1, 3), Err(HandshakeError::MissingIdLength));
    let mut long = b"MTRX\x02".to_vec();
    long.extend_from_slice(&5000u32.to_le_bytes());
    assert_eq!(check_handshake(&long, "abc", 1, 3), Err(HandshakeError::IdTooLong(5000)));
    let mut short = handshake(2, "abc");
    short.pop();
    assert_eq!(check_handshake(&short, "abc", 1, 3), Err(HandshakeError::ShortId));
    let mut bad = b"MTRX\x02".to_vec();
    bad.extend_from_slice(&2u32.to_le_bytes());
    bad.extend_from_slice(&[0xFF, 0xFE]);
    assert_eq!(check_handshake(&bad, "abc", 1, 3), Err(HandshakeError::IdNotUtf8));
}

#[test]
fn a_peer_that_closes_at_once_is_a_probe() {
    assert_eq!(check_handshake(&[], "abc", 1, 3), Ok((HandshakeOutcome::Probe, 0)));
}

#[test]
fn written_frames_are_read_back() {
    let bin = encode_frame(&OutboundFrame::Binary(vec![1, 2, 3]), PING).unwrap();
    assert_eq!(bin, vec![4, 0, 0, 0, FRAME_TAG_BINARY, 1, 2, 3]);
    match read_frame(&bin, PING) {
        Ok((InboundFrame::Binary(b), n)) => {
            assert_eq!(b, vec![1, 2, 3]);
            assert_eq!(n, 8);
        }
        _ => panic!("expected a binary frame"),
    }
    let text = encode_frame(&OutboundFrame::Text("hé".to_string()), PING).unwrap();
    assert_eq!(text[4], FRAME_TAG_TEXT);
    match read_frame(&text, PING) {
        Ok((InboundFrame::Text(t), n)) => {
            assert_eq!(t, "hé");
            assert_eq!(n, text.len());
        }
        _ => panic!("expected a text frame"),
    }
    let pong = encode_frame(&OutboundFrame::Pong(vec![5]), PING).unwrap();
    assert_eq!(pong, vec![2, 0, 0, 0, PING, 5]);
}

#[test]
fn unknown_frames_are_skipped() {
    let mut s = vec![2, 0, 0, 0, 0x55, 0xAA];
    s.extend_from_slice(&[3, 0, 0, 0, PING, 7, 8]);
    match read_frame(&s, PING) {
        Ok((InboundFrame::Ping(p), n)) => {
            assert_eq!(p, vec![7, 8]);
            assert_eq!(n, 13);
        }
        _ => panic!("expected the ping after the unknown frame"),
    }
}

#[test]
fn frame_errors() {
    assert!(matches!(read_frame(&[], PING), Ok((InboundFrame::Eof, 0))));
    assert_eq!(read_frame(&[0, 0, 0, 0], PING).err(), Some(FrameError::ZeroLength));
    assert_eq!(read_frame(&[1, 0, 0, 5], PING).err(), Some(FrameError::TooLarge(0x0500_0001)));
    assert_eq!(read_frame(&[3, 0, 0, 0], PING).err(), Some(FrameError::MissingTag));
    assert_eq!(read_frame(&[3, 0, 0, 0, 1, 9], PING).err(), Some(FrameError::ShortPayload));
    assert_eq!(read_frame(&[2, 0, 0, 0, FRAME_TAG_TEXT, 0xFF], PING).err(), Some(FrameError::TextNotUtf8));
}

#[test]
fn inbound_frames_are_routed() {
    assert_eq!(route_inbound(&InboundFrame::Binary(vec![0xA1, 0]), 0xA1, 0xA2), SessionRoute::WindowInput);
    assert_eq!(route_inbound(&InboundFrame::Binary(vec![0xA2]), 0xA1, 0xA2), SessionRoute::DesktopInput);
    assert_eq!(route_inbound(&InboundFrame::Binary(vec![]), 0xA1, 0xA2), SessionRoute::Command);
    assert_eq!(route_inbound(&InboundFrame::Text("dir".to_string()), 0xA1, 0xA2), SessionRoute::ShellText);
    assert_eq!(route_inbound(&InboundFrame::Ping(vec![1]), 0xA1, 0xA2), SessionRoute::Pong);
    assert_eq!(route_inbound(&InboundFrame::Eof, 0xA1, 0xA2), SessionRoute::End);
}

#[test]
fn publish_backoff_doubles() {
    assert_eq!(publish_backoff_secs(0), 1);
    assert_eq!(publish_backoff_secs(1), 2);
    assert_eq!(publish_backoff_secs(4), 16);
    assert_eq!(publish_backoff_secs(63), 1u64 << 63);
}

#[test]
fn identity_is_written_only_with_hash_and_computer() {
    assert_eq!(
        identity_refusal("", true),
        Some("upsert_self_identity -> refusing to write connected_client without client_hash")
    );
    assert_eq!(
        identity_refusal("h", false),
        Some("upsert_self_identity -> refusing to write connected_client without computer")
    );
    assert_eq!(identity_refusal("h", true), None);
}
