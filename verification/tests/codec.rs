use mewture::codec::{decode, encode, Command, Frame, FrameKind, MAX_PAYLOAD_LEN, MIN_FRAME_LEN};

fn frame(kind: FrameKind, command: Command, variable: u8, payload: Vec<u8>) -> Frame {
    Frame { kind, command, variable, payload }
}

fn assert_same_frame(a: &Frame, b: &Frame) {
    assert_eq!(a.kind, b.kind);
    assert_eq!(a.command, b.command);
    assert_eq!(a.variable, b.variable);
    assert_eq!(a.payload, b.payload);
}

#[test]
fn round_trip_all_kinds_and_commands() {
    let kinds = [FrameKind::Request, FrameKind::ResponseSuccess, FrameKind::ResponseError];
    let commands = [Command::Ping, Command::Read, Command::Write];
    let payloads: [&[u8]; 4] = [&[0x00], &[0x01, 0x02], &[0xFF; 32], &[0xAB, 0x00, 0xCD]];
    for kind in kinds {
        for command in commands {
            for variable in [0x00u8, 0x01, 0x7F, 0xFF] {
                for payload in payloads {
                    let f = frame(kind, command, variable, payload.to_vec());
                    let bytes = encode(&f);
                    assert_eq!(bytes.len(), 7 + payload.len());
                    let back = decode(&bytes).expect("a well-formed frame must decode");
                    assert_same_frame(&back, &f);
                }
            }
        }
    }
}

#[test]
fn encode_exact_bytes_ping() {
    let f = frame(FrameKind::Request, Command::Ping, 0x03, vec![0xAB]);
    assert_eq!(encode(&f), vec![0x07, 0x01, 0x07, 0x03, 0x01, 0xAB, 0x17, 0x04]);
}

#[test]
fn encode_exact_bytes_error_reply() {
    let f = frame(FrameKind::ResponseError, Command::Write, 0x00, vec![0x05]);
    assert_eq!(encode(&f), vec![0x15, 0x01, 0x1A, 0x00, 0x01, 0x05, 0x17, 0x04]);
}

fn wire_kind(k: FrameKind) -> ddaa_protocol::MessageType {
    match k {
        FrameKind::Request => ddaa_protocol::MessageType::Request,
        FrameKind::ResponseSuccess => ddaa_protocol::MessageType::ResponseSuccess,
        FrameKind::ResponseError => ddaa_protocol::MessageType::ResponseError,
    }
}

fn wire_command(c: Command) -> ddaa_protocol::Command {
    match c {
        Command::Ping => ddaa_protocol::Command::Ping,
        Command::Read => ddaa_protocol::Command::Read,
        Command::Write => ddaa_protocol::Command::Write,
    }
}

#[test]
fn encode_matches_wire_library() {
    // The encoding agrees byte for byte with the protocol crate the
    // device firmware speaks.
    let kinds = [FrameKind::Request, FrameKind::ResponseSuccess, FrameKind::ResponseError];
    let commands = [Command::Ping, Command::Read, Command::Write];
    for kind in kinds {
        for command in commands {
            let payload = vec![0x00u8, 0x01, 0x02];
            let f = frame(kind, command, 0x02, payload.clone());
            let expected = ddaa_protocol::create_protocol_buffer(
                wire_kind(kind),
                wire_command(command),
                0x02,
                &payload,
            );
            assert_eq!(encode(&f), expected);
        }
    }
}

#[test]
fn decode_accepts_wire_library_request() {
    // A request built by the protocol crate decodes to the same fields.
    let mut buffer = ddaa_protocol::create_protocol_buffer(
        ddaa_protocol::MessageType::Request,
        ddaa_protocol::Command::Write,
        0x00,
        &[0x01],
    );
    buffer.resize(64, 0);
    let f = decode(&buffer).expect("the wire library's frame must decode");
    assert_eq!(f.kind, FrameKind::Request);
    assert_eq!(f.command, Command::Write);
    assert_eq!(f.variable, 0x00);
    assert_eq!(f.payload, vec![0x01]);
}

#[test]
fn short_buffers_are_ignored() {
    // Any buffer of at most MIN_FRAME_LEN bytes yields nothing, even one
    // that starts like a real frame.
    assert_eq!(MIN_FRAME_LEN, 7);
    let full = [0x07u8, 0x01, 0x07, 0x00, 0x01, 0xAB, 0x17, 0x04];
    for n in 0..=7usize {
        assert!(decode(&full[..n]).is_none());
    }
    assert!(decode(&full).is_some());
}

#[test]
fn decode_rejects_unknown_kind_tag() {
    let buf = [0x08u8, 0x01, 0x07, 0x00, 0x01, 0xAB, 0x17, 0x04];
    assert!(decode(&buf).is_none());
}

#[test]
fn decode_rejects_bad_marker() {
    let buf = [0x07u8, 0x02, 0x07, 0x00, 0x01, 0xAB, 0x17, 0x04];
    assert!(decode(&buf).is_none());
}

#[test]
fn decode_rejects_unknown_command_tag() {
    let buf = [0x07u8, 0x01, 0x09, 0x00, 0x01, 0xAB, 0x17, 0x04];
    assert!(decode(&buf).is_none());
}

#[test]
fn decode_rejects_zero_length() {
    let buf = [0x07u8, 0x01, 0x07, 0x00, 0x00, 0x17, 0x04, 0x00];
    assert!(decode(&buf).is_none());
}

#[test]
fn decode_rejects_overlong_length() {
    let mut buf = vec![0x07u8, 0x01, 0x07, 0x00, 33];
    buf.extend(std::iter::repeat(0u8).take(33));
    buf.push(0x17);
    buf.push(0x04);
    assert!(decode(&buf).is_none());
}

#[test]
fn decode_rejects_truncated_payload() {
    // The length byte promises more payload than the buffer holds.
    let buf = [0x07u8, 0x01, 0x07, 0x00, 0x04, 0xAB, 0x17, 0x04];
    assert!(decode(&buf).is_none());
}

#[test]
fn decode_rejects_bad_trailer() {
    let buf = [0x07u8, 0x01, 0x07, 0x00, 0x01, 0xAB, 0x18, 0x04];
    assert!(decode(&buf).is_none());
    let buf = [0x07u8, 0x01, 0x07, 0x00, 0x01, 0xAB, 0x17, 0x05];
    assert!(decode(&buf).is_none());
}

#[test]
fn decode_ignores_bytes_after_the_frame() {
    // A 64-byte poll buffer holding one 8-byte frame at the front.
    let mut buf = vec![0x06u8, 0x01, 0x05, 0x00, 0x01, 0x01, 0x17, 0x04];
    buf.resize(64, 0);
    let f = decode(&buf).expect("a frame at the front of a longer buffer must decode");
    assert_eq!(f.kind, FrameKind::ResponseSuccess);
    assert_eq!(f.command, Command::Read);
    assert_eq!(f.payload, vec![0x01]);
}

#[test]
fn largest_payload_fits_one_poll_buffer() {
    assert_eq!(MAX_PAYLOAD_LEN, 32);
    let f = frame(FrameKind::Request, Command::Write, 0x01, vec![0x55; 32]);
    let bytes = encode(&f);
    assert_eq!(bytes.len(), 39);
    assert!(bytes.len() <= 64);
    let back = decode(&bytes).expect("the largest frame must decode");
    assert_same_frame(&back, &f);
}
