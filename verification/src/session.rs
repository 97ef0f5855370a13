use vstd::prelude::*;
use vstd::slice::slice_subrange;

use crate::codec::{decode, encode, frame_bytes, frame_of_bytes, Command, Frame, FrameKind,
    FrameModel, MIN_FRAME_LEN};
use crate::dispatch::{dispatch, ignore_reaction, mute_byte, mute_state_byte, spec_dispatch,
    ReactionModel, MUTE_VARIABLE};

verus! {

/// Seconds waited between two attempts to open the transport or to reach
/// the audio subsystem; attempts are repeated indefinitely.
pub const RETRY_BACKOFF_SECS: u64 = 10;

/// Bytes read from the transport per poll.
pub const READ_BUFFER_LEN: usize = 64;

/// How a transport operation failed. A timeout is the expected steady
/// state of a polled link; only a disconnect takes the link down.
#[derive(Clone, Copy, Debug, PartialEq, Eq, Structural)]
pub enum TransportError {
    Timeout,
    Disconnected,
    Other,
}

/// What the supervisor asks of its caller after one attempt to open the
/// transport. There is no giving-up variant: the session outlives any
/// number of failed attempts.
#[derive(Clone, Copy, Debug, PartialEq, Eq, Structural)]
pub enum ConnectStep {
    Proceed,
    RetryAfterBackoff,
}

/// The supervisor's state for one bridge session: whether the transport
/// is up, the last mute state this process observed, and the configured
/// transport path, fixed for the session's lifetime.
pub struct Session {
    pub connected: bool,
    pub cached_mute: bool,
    pub serial_port: String,
}

/// The outputs of handling one transport poll: a mute value to apply to
/// the audio endpoint and an encoded reply frame for the device.
pub struct ReadStep {
    pub set_mute: Option<bool>,
    pub reply: Option<Vec<u8>>,
}

/// The session after an attempt to open the transport.
pub open spec fn spec_on_open(s: Session, opened: bool) -> Session {
    Session { connected: opened, cached_mute: s.cached_mute, serial_port: s.serial_port }
}

/// The session after a failed transport read or write: only a disconnect
/// takes the link down, and the cache never moves on a failure.
pub open spec fn spec_on_transport_error(s: Session, err: TransportError) -> Session {
    Session {
        connected: s.connected && !(err is Disconnected),
        cached_mute: s.cached_mute,
        serial_port: s.serial_port,
    }
}

/// The dispatcher's reaction to the bytes one poll delivered: a buffer
/// holding no complete well-formed frame is dropped, and so is any frame
/// that is not a request.
pub open spec fn spec_inbound(cached: bool, bytes: Seq<u8>) -> ReactionModel {
    match frame_of_bytes(bytes) {
        Some(f) => {
            if f.kind is Request {
                spec_dispatch(cached, f)
            } else {
                ignore_reaction(cached)
            }
        },
        None => ignore_reaction(cached),
    }
}

/// The outbound write frame that carries a mute state to the device.
pub open spec fn sync_frame_model(live: bool) -> FrameModel {
    FrameModel {
        kind: FrameKind::Request,
        command: Command::Write,
        variable: MUTE_VARIABLE,
        payload: seq![mute_byte(live)],
    }
}

/// The divergence check: a frame is due exactly when the live endpoint
/// state differs from the cache.
pub open spec fn spec_sync(cached: bool, live: bool) -> Option<FrameModel> {
    if live != cached {
        Some(sync_frame_model(live))
    } else {
        None
    }
}

/// The session after the divergence check's outcome is committed: only a
/// successful transport write moves the cache to the live state (a failed
/// write leaves the device uninformed, so the cache must not pretend
/// otherwise); a disconnect failure additionally takes the link down.
pub open spec fn spec_on_sync_write(s: Session, live: bool, err: Option<TransportError>) -> Session {
    match err {
        None => Session { connected: s.connected, cached_mute: live, serial_port: s.serial_port },
        Some(e) => spec_on_transport_error(s, e),
    }
}

impl Session {
    /// A fresh session: transport not yet opened, cache primed with the
    /// mute state first observed at startup.
    pub fn new(initial_mute: bool, serial_port: String) -> (s: Session)
        ensures
            !s.connected,
            s.cached_mute == initial_mute,
            s.serial_port == serial_port,
    {
        Session { connected: false, cached_mute: initial_mute, serial_port }
    }

    /// One attempt to open the transport. On success the session is
    /// connected and the loop proceeds; on failure it stays down and the
    /// caller must wait `RETRY_BACKOFF_SECS` seconds and try again -
    /// there is no giving up.
    pub fn on_open_result(&mut self, opened: bool) -> (r: ConnectStep)
        requires
            !old(self).connected,
        ensures
            *final(self) == spec_on_open(*old(self), opened),
            r == (if opened {
                ConnectStep::Proceed
            } else {
                ConnectStep::RetryAfterBackoff
            }),
    {
        self.connected = opened;
        if opened {
            ConnectStep::Proceed
        } else {
            ConnectStep::RetryAfterBackoff
        }
    }

    /// A failed transport read or write: a timeout or any other passing
    /// fault leaves the session as it is; a disconnect takes the link
    /// down so the supervisor re-enters the reconnect loop.
    pub fn on_transport_error(&mut self, err: TransportError)
        ensures
            *final(self) == spec_on_transport_error(*old(self), err),
    {
        if err == TransportError::Disconnected {
            self.connected = false;
        }
    }

    /// Handles the `n` bytes one transport poll left at the front of
    /// `buf`: decodes at most one frame, runs the dispatch table, moves
    /// the cache as the table says, and hands back the endpoint command
    /// and the encoded reply, if the table produced them.
    pub fn on_data(&mut self, buf: &[u8], n: usize) -> (r: ReadStep)
        requires
            old(self).connected,
            n <= buf@.len(),
        ensures
            final(self).connected == old(self).connected,
            final(self).serial_port == old(self).serial_port,
            final(self).cached_mute == spec_inbound(old(self).cached_mute, buf@.take(n as int)).cached_mute,
            r.set_mute == spec_inbound(old(self).cached_mute, buf@.take(n as int)).set_mute,
            (r.reply is Some) == (spec_inbound(old(self).cached_mute, buf@.take(n as int)).reply is Some),
            r.reply matches Some(b) ==> spec_inbound(old(self).cached_mute, buf@.take(n as int)).reply
                matches Some(g) && b@ == frame_bytes(g),
    {
        if n <= MIN_FRAME_LEN {
            return ReadStep { set_mute: None, reply: None };
        }
        let window = slice_subrange(buf, 0, n);
        proof {
            assert(window@ =~= buf@.take(n as int));
        }
        let frame = match decode(window) {
            Some(f) => f,
            None => {
                return ReadStep { set_mute: None, reply: None };
            },
        };
        if frame.kind != FrameKind::Request {
            return ReadStep { set_mute: None, reply: None };
        }
        let reaction = dispatch(self.cached_mute, &frame);
        self.cached_mute = reaction.cached_mute;
        let set_mute = reaction.set_mute;
        let reply = match reaction.reply {
            Some(reply_frame) => Some(encode(&reply_frame)),
            None => None,
        };
        ReadStep { set_mute, reply }
    }

    /// The divergence check: compares the live endpoint state against the
    /// cache and, when they differ, yields the encoded write frame that
    /// carries the new state to the device.
    pub fn sync_frame(&self, live: bool) -> (r: Option<Vec<u8>>)
        ensures
            (r is Some) == (spec_sync(self.cached_mute, live) is Some),
            r matches Some(b) ==> b@ == frame_bytes(sync_frame_model(live)),
    {
        if live != self.cached_mute {
            let mut payload: Vec<u8> = Vec::new();
            payload.push(mute_state_byte(live));
            let frame = Frame {
                kind: FrameKind::Request,
                command: Command::Write,
                variable: MUTE_VARIABLE,
                payload,
            };
            proof {
                assert(frame@ =~= sync_frame_model(live));
            }
            Some(encode(&frame))
        } else {
            None
        }
    }

    /// Commits the outcome of writing the divergence frame.
    pub fn on_sync_write_result(&mut self, live: bool, err: Option<TransportError>)
        ensures
            *final(self) == spec_on_sync_write(*old(self), live, err),
    {
        match err {
            None => {
                self.cached_mute = live;
            },
            Some(e) => {
                if e == TransportError::Disconnected {
                    self.connected = false;
                }
            },
        }
    }
}

/// The cache after a run of divergence checks, one per loop iteration,
/// `lives` holding the endpoint state each iteration observed, every
/// emitted frame assumed written successfully.
pub open spec fn run_cached(c0: bool, lives: Seq<bool>) -> bool
    decreases lives.len(),
{
    if lives.len() == 0 {
        c0
    } else {
        let prev = run_cached(c0, lives.drop_last());
        if spec_sync(prev, lives.last()) is Some {
            lives.last()
        } else {
            prev
        }
    }
}

/// How many write frames such a run emits.
pub open spec fn run_emitted(c0: bool, lives: Seq<bool>) -> nat
    decreases lives.len(),
{
    if lives.len() == 0 {
        0
    } else {
        run_emitted(c0, lives.drop_last()) + (if spec_sync(
            run_cached(c0, lives.drop_last()),
            lives.last(),
        ) is Some {
            1nat
        } else {
            0nat
        })
    }
}

/// How many times the observed endpoint state actually changed from one
/// iteration to the next, the first observation compared against the
/// initial cache.
pub open spec fn change_count(c0: bool, lives: Seq<bool>) -> nat
    decreases lives.len(),
{
    if lives.len() == 0 {
        0
    } else {
        let prev = if lives.len() == 1 {
            c0
        } else {
            lives[lives.len() - 2]
        };
        change_count(c0, lives.drop_last()) + (if lives.last() != prev {
            1nat
        } else {
            0nat
        })
    }
}

/// Across any sequence of external mute changes interleaved with loop
/// iterations - each iteration observing the live endpoint state and
/// committing a successful write - the cache ends every iteration equal
/// to the state that iteration observed, and exactly one outbound write
/// frame is emitted per actual state change, none when nothing changed.
pub proof fn lemma_divergence_convergence(c0: bool, lives: Seq<bool>)
    ensures
        forall|i: int| 0 < i <= lives.len() ==> run_cached(c0, #[trigger] lives.take(i)) == lives[i - 1],
        run_emitted(c0, lives) == change_count(c0, lives),
    decreases lives.len(),
{
    if lives.len() > 0 {
        lemma_divergence_convergence(c0, lives.drop_last());
        assert forall|i: int| 0 < i <= lives.len() implies run_cached(c0, #[trigger] lives.take(i))
            == lives[i - 1] by {
            if i < lives.len() {
                assert(lives.take(i) =~= lives.drop_last().take(i));
            } else {
                assert(lives.take(i) =~= lives);
                if lives.len() > 1 {
                    assert(run_cached(c0, lives.drop_last()) == lives[lives.len() - 2]) by {
                        assert(lives.drop_last().take(lives.len() - 1) =~= lives.drop_last());
                    }
                }
            }
        }
        if lives.len() > 1 {
            assert(run_cached(c0, lives.drop_last()) == lives[lives.len() - 2]) by {
                assert(lives.take(lives.len() - 1) =~= lives.drop_last());
            }
        }
    }
}

/// The session after a run of attempts to open the transport.
pub open spec fn reconnect_run(s: Session, attempts: Seq<bool>) -> Session
    decreases attempts.len(),
{
    if attempts.len() == 0 {
        s
    } else {
        spec_on_open(reconnect_run(s, attempts.drop_last()), attempts.last())
    }
}

proof fn lemma_reconnect_run_fields(s: Session, attempts: Seq<bool>)
    ensures
        reconnect_run(s, attempts).serial_port == s.serial_port,
        reconnect_run(s, attempts).cached_mute == s.cached_mute,
        reconnect_run(s, attempts).connected == (if attempts.len() == 0 {
            s.connected
        } else {
            attempts.last()
        }),
    decreases attempts.len(),
{
    if attempts.len() > 0 {
        lemma_reconnect_run_fields(s, attempts.drop_last());
    }
}

/// However many attempts to reopen the transport fail before one
/// succeeds, the session is never abandoned - every failed attempt
/// leaves it merely waiting for the fixed-backoff retry - the configured
/// path and the cached mute state stay untouched, and the first
/// successful attempt leaves the supervisor connected again, ready to
/// dispatch exactly as before the disconnect.
pub proof fn lemma_reconnect_resumes(s: Session, attempts: Seq<bool>)
    requires
        !s.connected,
        attempts.len() > 0,
        forall|i: int| 0 <= i < attempts.len() - 1 ==> !attempts[i],
        attempts.last(),
    ensures
        reconnect_run(s, attempts).connected,
        reconnect_run(s, attempts).serial_port == s.serial_port,
        reconnect_run(s, attempts).cached_mute == s.cached_mute,
        forall|i: int| 0 < i < attempts.len() ==> !reconnect_run(s, #[trigger] attempts.take(i)).connected,
{
    lemma_reconnect_run_fields(s, attempts);
    assert forall|i: int| 0 < i < attempts.len() implies !reconnect_run(
        s,
        #[trigger] attempts.take(i),
    ).connected by {
        lemma_reconnect_run_fields(s, attempts.take(i));
        assert(attempts.take(i).last() == attempts[i - 1]);
    }
}

} // verus!
