use vstd::prelude::*;

verus! {

/// Which side of the exchange a frame belongs to.
#[derive(Clone, Copy, Debug, PartialEq, Eq, Structural)]
pub enum FrameKind {
    Request,
    ResponseSuccess,
    ResponseError,
}

/// What a frame asks for (or answers about).
#[derive(Clone, Copy, Debug, PartialEq, Eq, Structural)]
pub enum Command {
    Ping,
    Read,
    Write,
}

/// One decoded protocol unit: kind, command, a one-byte variable selector
/// (`0x00` selects the mute flag) and a payload of one to
/// `MAX_PAYLOAD_LEN` bytes.
#[derive(Debug)]
pub struct Frame {
    pub kind: FrameKind,
    pub command: Command,
    pub variable: u8,
    pub payload: Vec<u8>,
}

/// The mathematical image of a `Frame`: the payload as a byte sequence.
#[verifier::ext_equal]
pub struct FrameModel {
    pub kind: FrameKind,
    pub command: Command,
    pub variable: u8,
    pub payload: Seq<u8>,
}

impl View for Frame {
    type V = FrameModel;

    open spec fn view(&self) -> FrameModel {
        FrameModel {
            kind: self.kind,
            command: self.command,
            variable: self.variable,
            payload: self.payload@,
        }
    }
}

/// The longest payload a frame may carry. Together with the five header
/// bytes and the two trailer bytes this keeps every frame within one
/// 64-byte transport read.
pub const MAX_PAYLOAD_LEN: usize = 32;

/// Frames shorter than this many raw bytes are never complete; a buffer
/// that does not exceed it is ignored rather than decoded.
pub const MIN_FRAME_LEN: usize = 7;

/// A frame the device or host may legally carry: a non-empty payload no
/// longer than `MAX_PAYLOAD_LEN`.
pub open spec fn wf_frame(f: FrameModel) -> bool {
    1 <= f.payload.len() <= MAX_PAYLOAD_LEN
}

/// Wire tag of a frame kind.
pub open spec fn kind_tag(k: FrameKind) -> u8 {
    match k {
        FrameKind::Request => 0x07,
        FrameKind::ResponseSuccess => 0x06,
        FrameKind::ResponseError => 0x15,
    }
}

/// Wire tag of a command.
pub open spec fn command_tag(c: Command) -> u8 {
    match c {
        Command::Ping => 0x07,
        Command::Read => 0x05,
        Command::Write => 0x1A,
    }
}

/// Frame kind recognised under a wire tag, if any.
pub open spec fn kind_of_tag(t: u8) -> Option<FrameKind> {
    if t == 0x07 {
        Some(FrameKind::Request)
    } else if t == 0x06 {
        Some(FrameKind::ResponseSuccess)
    } else if t == 0x15 {
        Some(FrameKind::ResponseError)
    } else {
        None
    }
}

/// Command recognised under a wire tag, if any.
pub open spec fn command_of_tag(t: u8) -> Option<Command> {
    if t == 0x07 {
        Some(Command::Ping)
    } else if t == 0x05 {
        Some(Command::Read)
    } else if t == 0x1A {
        Some(Command::Write)
    } else {
        None
    }
}

/// The encoding of a frame: kind tag, the fixed marker `0x01`, command
/// tag, variable, payload length, the payload itself, then the two
/// trailer bytes `0x17 0x04`.
pub open spec fn frame_bytes(f: FrameModel) -> Seq<u8> {
    seq![kind_tag(f.kind), 0x01u8, command_tag(f.command), f.variable, f.payload.len() as u8]
        + f.payload + seq![0x17u8, 0x04u8]
}

/// The frame a raw buffer holds, if it holds one: the buffer must begin
/// with a complete well-formed frame; bytes after the trailer are
/// ignored. Anything else - a buffer of at most `MIN_FRAME_LEN` bytes,
/// an unknown tag, a bad marker, a length out of range, a truncated
/// payload, a wrong trailer - yields nothing.
pub open spec fn frame_of_bytes(b: Seq<u8>) -> Option<FrameModel> {
    if b.len() <= MIN_FRAME_LEN {
        None
    } else {
        match (kind_of_tag(b[0]), command_of_tag(b[2])) {
            (Some(kind), Some(command)) => {
                if b[1] != 0x01 {
                    None
                } else {
                    let len = b[4] as int;
                    if len < 1 || len > MAX_PAYLOAD_LEN {
                        None
                    } else if b.len() < 7 + len {
                        None
                    } else if b[5 + len] != 0x17 || b[6 + len] != 0x04 {
                        None
                    } else {
                        Some(FrameModel {
                            kind,
                            command,
                            variable: b[3],
                            payload: b.subrange(5, 5 + len),
                        })
                    }
                }
            },
            _ => None,
        }
    }
}

/// Wire tag of a frame kind.
fn kind_tag_byte(k: FrameKind) -> (t: u8)
    ensures
        t == kind_tag(k),
{
    match k {
        FrameKind::Request => 0x07,
        FrameKind::ResponseSuccess => 0x06,
        FrameKind::ResponseError => 0x15,
    }
}

/// Wire tag of a command.
fn command_tag_byte(c: Command) -> (t: u8)
    ensures
        t == command_tag(c),
{
    match c {
        Command::Ping => 0x07,
        Command::Read => 0x05,
        Command::Write => 0x1A,
    }
}

/// Frame kind recognised under a wire tag, if any.
fn kind_for_tag(t: u8) -> (r: Option<FrameKind>)
    ensures
        r == kind_of_tag(t),
{
    if t == 0x07 {
        Some(FrameKind::Request)
    } else if t == 0x06 {
        Some(FrameKind::ResponseSuccess)
    } else if t == 0x15 {
        Some(FrameKind::ResponseError)
    } else {
        None
    }
}

/// Command recognised under a wire tag, if any.
fn command_for_tag(t: u8) -> (r: Option<Command>)
    ensures
        r == command_of_tag(t),
{
    if t == 0x07 {
        Some(Command::Ping)
    } else if t == 0x05 {
        Some(Command::Read)
    } else if t == 0x1A {
        Some(Command::Write)
    } else {
        None
    }
}

/// Encodes a frame into its self-delimited wire form.
pub fn encode(frame: &Frame) -> (out: Vec<u8>)
    requires
        wf_frame(frame@),
    ensures
        out@ == frame_bytes(frame@),
{
    let mut out: Vec<u8> = Vec::new();
    out.push(kind_tag_byte(frame.kind));
    out.push(0x01);
    out.push(command_tag_byte(frame.command));
    out.push(frame.variable);
    out.push(frame.payload.len() as u8);
    let ghost header = out@;
    let mut i: usize = 0;
    while i < frame.payload.len()
        invariant
            i <= frame.payload@.len(),
            out@ == header + frame.payload@.take(i as int),
        decreases frame.payload@.len() - i,
    {
        out.push(frame.payload[i]);
        i += 1;
    }
    out.push(0x17);
    out.push(0x04);
    proof {
        assert(frame.payload@.take(frame.payload@.len() as int) =~= frame.payload@);
        assert(out@ =~= frame_bytes(frame@));
    }
    out
}

/// Decodes the frame a raw buffer begins with, or nothing if the buffer
/// is too short to hold a complete frame or fails structural validation.
pub fn decode(buf: &[u8]) -> (r: Option<Frame>)
    ensures
        (r is Some) == (frame_of_bytes(buf@) is Some),
        r matches Some(f) ==> frame_of_bytes(buf@) == Some(f@) && wf_frame(f@),
{
    if buf.len() <= MIN_FRAME_LEN {
        return None;
    }
    let kind = match kind_for_tag(buf[0]) {
        Some(k) => k,
        None => {
            return None;
        },
    };
    let command = match command_for_tag(buf[2]) {
        Some(c) => c,
        None => {
            return None;
        },
    };
    if buf[1] != 0x01 {
        return None;
    }
    let len = buf[4] as usize;
    if len < 1 || len > MAX_PAYLOAD_LEN {
        return None;
    }
    if buf.len() < 7 + len {
        return None;
    }
    if buf[5 + len] != 0x17 || buf[6 + len] != 0x04 {
        return None;
    }
    let mut payload: Vec<u8> = Vec::new();
    let mut i: usize = 0;
    while i < len
        invariant
            i <= len,
            1 <= len <= MAX_PAYLOAD_LEN,
            buf@.len() >= 7 + len,
            payload@ == buf@.subrange(5, 5 + len as int).take(i as int),
        decreases len - i,
    {
        payload.push(buf[5 + i]);
        proof {
            assert(payload@ =~= buf@.subrange(5, 5 + len as int).take(i + 1));
        }
        i += 1;
    }
    let frame = Frame { kind, command, variable: buf[3], payload };
    proof {
        assert(frame.payload@ =~= buf@.subrange(5, 5 + len as int));
        assert(frame_of_bytes(buf@) == Some(frame@));
    }
    Some(frame)
}

/// Decoding the encoding of any well-formed frame gives back exactly
/// that frame: `encode` is the inverse of `decode` on every frame the
/// protocol supports.
pub proof fn lemma_codec_round_trip(f: FrameModel)
    requires
        wf_frame(f),
    ensures
        frame_of_bytes(frame_bytes(f)) == Some(f),
{
    let b = frame_bytes(f);
    assert(b.len() == 7 + f.payload.len());
    assert(kind_of_tag(b[0]) == Some(f.kind));
    assert(command_of_tag(b[2]) == Some(f.command));
    assert(b[4] == f.payload.len() as u8);
    let len = b[4] as int;
    assert(len == f.payload.len());
    assert(b[5 + len] == 0x17 && b[6 + len] == 0x04);
    assert(b.subrange(5, 5 + len) =~= f.payload);
    assert(frame_of_bytes(b) == Some(FrameModel { kind: f.kind, command: f.command, variable: f.variable, payload: f.payload }));
    assert(FrameModel { kind: f.kind, command: f.command, variable: f.variable, payload: f.payload } =~= f);
}

/// A buffer of at most `MIN_FRAME_LEN` bytes never decodes to a frame:
/// partial reads on a polled transport are ignored, never an error.
pub proof fn lemma_short_input_ignored(b: Seq<u8>)
    requires
        b.len() <= MIN_FRAME_LEN,
    ensures
        frame_of_bytes(b) is None,
{
}

} // verus!
