use vstd::prelude::*;

use crate::codec::{Command, Frame, FrameKind, FrameModel, wf_frame};

verus! {

/// The variable selector that addresses the mute flag.
pub const MUTE_VARIABLE: u8 = 0x00;

/// Mute-write payload byte: set the source unmuted.
pub const MUTE_CLEAR: u8 = 0x00;

/// Mute-write payload byte: set the source muted.
pub const MUTE_SET: u8 = 0x01;

/// Mute-write payload byte: flip the source relative to the cached state.
pub const MUTE_INVERT: u8 = 0x02;

/// The single payload byte that carries a mute state on the wire.
pub open spec fn mute_byte(m: bool) -> u8 {
    if m {
        1
    } else {
        0
    }
}

/// The single payload byte that carries a mute state on the wire.
pub fn mute_state_byte(m: bool) -> (b: u8)
    ensures
        b == mute_byte(m),
{
    if m {
        1
    } else {
        0
    }
}

/// What dispatching one inbound frame asks of the caller: a mute value to
/// apply to the audio endpoint (if any), a reply frame for the device (if
/// any), and the cached mute state after the step.
pub struct Reaction {
    pub set_mute: Option<bool>,
    pub reply: Option<Frame>,
    pub cached_mute: bool,
}

/// The mathematical image of a `Reaction`.
#[verifier::ext_equal]
pub struct ReactionModel {
    pub set_mute: Option<bool>,
    pub reply: Option<FrameModel>,
    pub cached_mute: bool,
}

impl View for Reaction {
    type V = ReactionModel;

    open spec fn view(&self) -> ReactionModel {
        ReactionModel {
            set_mute: self.set_mute,
            reply: match self.reply {
                Some(f) => Some(f@),
                None => None,
            },
            cached_mute: self.cached_mute,
        }
    }
}

/// A frame that is dropped silently: nothing to apply, nothing to send,
/// cache untouched.
pub open spec fn ignore_reaction(cached: bool) -> ReactionModel {
    ReactionModel { set_mute: None, reply: None, cached_mute: cached }
}

/// A reply of the given kind echoing the request's command, variable and
/// payload.
pub open spec fn echo_reply(kind: FrameKind, f: FrameModel) -> FrameModel {
    FrameModel { kind, command: f.command, variable: f.variable, payload: f.payload }
}

/// The success reply to a mute read: one payload byte holding the cached
/// state.
pub open spec fn read_reply(variable: u8, cached: bool) -> FrameModel {
    FrameModel {
        kind: FrameKind::ResponseSuccess,
        command: Command::Read,
        variable,
        payload: seq![mute_byte(cached)],
    }
}

/// A mute write that takes effect: the endpoint is commanded to `target`,
/// the cache follows it at once, and the request is echoed with success.
pub open spec fn mutate_reaction(target: bool, f: FrameModel) -> ReactionModel {
    ReactionModel {
        set_mute: Some(target),
        reply: Some(echo_reply(FrameKind::ResponseSuccess, f)),
        cached_mute: target,
    }
}

/// The dispatch table: a pure function of the cached mute state and one
/// inbound frame. Only requests are acted on; a ping is echoed, a mute
/// read is answered from the cache, a mute write commands the endpoint
/// and moves the cache with it, an unknown mute-write payload is refused
/// with an error echo, and every other frame is dropped silently.
pub open spec fn spec_dispatch(cached: bool, f: FrameModel) -> ReactionModel {
    if !(f.kind is Request) {
        ignore_reaction(cached)
    } else {
        match f.command {
            Command::Ping => ReactionModel {
                set_mute: None,
                reply: Some(echo_reply(FrameKind::ResponseSuccess, f)),
                cached_mute: cached,
            },
            Command::Read => {
                if f.variable == MUTE_VARIABLE {
                    ReactionModel {
                        set_mute: None,
                        reply: Some(read_reply(f.variable, cached)),
                        cached_mute: cached,
                    }
                } else {
                    ignore_reaction(cached)
                }
            },
            Command::Write => {
                if f.variable == MUTE_VARIABLE {
                    let v = f.payload[0];
                    if v == MUTE_CLEAR {
                        mutate_reaction(false, f)
                    } else if v == MUTE_SET {
                        mutate_reaction(true, f)
                    } else if v == MUTE_INVERT {
                        mutate_reaction(!cached, f)
                    } else {
                        ReactionModel {
                            set_mute: None,
                            reply: Some(echo_reply(FrameKind::ResponseError, f)),
                            cached_mute: cached,
                        }
                    }
                } else {
                    ignore_reaction(cached)
                }
            },
        }
    }
}

/// Byte-for-byte copy of a payload.
fn copy_bytes(src: &Vec<u8>) -> (out: Vec<u8>)
    ensures
        out@ == src@,
{
    let mut out: Vec<u8> = Vec::new();
    let mut i: usize = 0;
    while i < src.len()
        invariant
            i <= src@.len(),
            out@ == src@.take(i as int),
        decreases src@.len() - i,
    {
        out.push(src[i]);
        proof {
            assert(out@ =~= src@.take(i + 1));
        }
        i += 1;
    }
    proof {
        assert(src@.take(src@.len() as int) =~= src@);
    }
    out
}

/// An echo of the request under the given reply kind.
fn echo_frame(kind: FrameKind, frame: &Frame) -> (r: Frame)
    ensures
        r@ == echo_reply(kind, frame@),
{
    Frame {
        kind,
        command: frame.command,
        variable: frame.variable,
        payload: copy_bytes(&frame.payload),
    }
}

/// Dispatches one inbound frame against the cached mute state.
pub fn dispatch(cached: bool, frame: &Frame) -> (r: Reaction)
    requires
        wf_frame(frame@),
    ensures
        r@ == spec_dispatch(cached, frame@),
        r.reply matches Some(g) ==> wf_frame(g@),
{
    if frame.kind != FrameKind::Request {
        return Reaction { set_mute: None, reply: None, cached_mute: cached };
    }
    match frame.command {
        Command::Ping => Reaction {
            set_mute: None,
            reply: Some(echo_frame(FrameKind::ResponseSuccess, frame)),
            cached_mute: cached,
        },
        Command::Read => {
            if frame.variable == MUTE_VARIABLE {
                let mut payload: Vec<u8> = Vec::new();
                payload.push(mute_state_byte(cached));
                proof {
                    assert(payload@ =~= seq![mute_byte(cached)]);
                }
                Reaction {
                    set_mute: None,
                    reply: Some(
                        Frame {
                            kind: FrameKind::ResponseSuccess,
                            command: Command::Read,
                            variable: frame.variable,
                            payload,
                        },
                    ),
                    cached_mute: cached,
                }
            } else {
                Reaction { set_mute: None, reply: None, cached_mute: cached }
            }
        },
        Command::Write => {
            if frame.variable == MUTE_VARIABLE {
                let v = frame.payload[0];
                if v == MUTE_CLEAR {
                    Reaction {
                        set_mute: Some(false),
                        reply: Some(echo_frame(FrameKind::ResponseSuccess, frame)),
                        cached_mute: false,
                    }
                } else if v == MUTE_SET {
                    Reaction {
                        set_mute: Some(true),
                        reply: Some(echo_frame(FrameKind::ResponseSuccess, frame)),
                        cached_mute: true,
                    }
                } else if v == MUTE_INVERT {
                    Reaction {
                        set_mute: Some(!cached),
                        reply: Some(echo_frame(FrameKind::ResponseSuccess, frame)),
                        cached_mute: !cached,
                    }
                } else {
                    Reaction {
                        set_mute: None,
                        reply: Some(echo_frame(FrameKind::ResponseError, frame)),
                        cached_mute: cached,
                    }
                }
            } else {
                Reaction { set_mute: None, reply: None, cached_mute: cached }
            }
        },
    }
}

/// Dispatching the mute-invert write twice in succession, with no other
/// mute change in between, commands the endpoint back to the original
/// state and returns the cache to where it began.
pub proof fn lemma_invert_twice_restores(cached: bool, f: FrameModel)
    requires
        wf_frame(f),
        f.kind is Request,
        f.command is Write,
        f.variable == MUTE_VARIABLE,
        f.payload[0] == MUTE_INVERT,
    ensures
        spec_dispatch(cached, f).set_mute == Some(!cached),
        spec_dispatch(spec_dispatch(cached, f).cached_mute, f).set_mute == Some(cached),
        spec_dispatch(spec_dispatch(cached, f).cached_mute, f).cached_mute == cached,
{
}

/// A mute write whose payload byte names no defined operation commands
/// no endpoint change, leaves the cache where it was, and is answered by
/// exactly one error reply echoing the request's variable and payload.
pub proof fn lemma_invalid_write_rejected(cached: bool, f: FrameModel)
    requires
        wf_frame(f),
        f.kind is Request,
        f.command is Write,
        f.variable == MUTE_VARIABLE,
        f.payload[0] != MUTE_CLEAR,
        f.payload[0] != MUTE_SET,
        f.payload[0] != MUTE_INVERT,
    ensures
        spec_dispatch(cached, f).set_mute is None,
        spec_dispatch(cached, f).cached_mute == cached,
        spec_dispatch(cached, f).reply == Some(echo_reply(FrameKind::ResponseError, f)),
{
}

/// A ping request is answered by exactly one success reply carrying the
/// same variable and payload; no endpoint command is issued and the
/// cache does not move.
pub proof fn lemma_ping_echoed(cached: bool, f: FrameModel)
    requires
        wf_frame(f),
        f.kind is Request,
        f.command is Ping,
    ensures
        spec_dispatch(cached, f).reply == Some(echo_reply(FrameKind::ResponseSuccess, f)),
        spec_dispatch(cached, f).set_mute is None,
        spec_dispatch(cached, f).cached_mute == cached,
{
}

} // verus!
