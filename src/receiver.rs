//! The receiving side: a per-connection state machine that reads a header
//! (with any descriptor attached to it), then the payload it announces, then
//! hands the message over for dispatch.
//!
//! The caller performs each read and reports it as an event; the machine
//! answers with the next state and the action to take.
use vstd::prelude::*;
use crate::frame::{
    check_payload, decode_header, frame_header, header_bytes, parse_header, payload_len, FrameError,
    Header, HEADER_LEN, MAX_SEGMENT_LEN, MSG_TYPE_ENTRY,
};

verus! {

/// The receiving endpoint: the path at which its socket is created.
pub struct SocketRx {
    pub socket_path: String,
}

impl SocketRx {
    /// An endpoint for a socket at `socket_path`.
    pub fn new(socket_path: &str) -> (r: SocketRx)
        ensures
            r.socket_path@ == socket_path@,
    {
        SocketRx { socket_path: socket_path.to_owned() }
    }
}

/// Where a connection stands.
#[derive(Clone, Copy, Debug, PartialEq, Eq, Structural)]
pub enum RxState {
    /// Waiting for the header read (the one that carries descriptors).
    AwaitHeader,
    /// A header has been read; waiting for its payload. `fd` is the
    /// descriptor that came with the header, now owned by the connection.
    AwaitPayload { header: Header, fd: Option<i32> },
    /// The connection is over, normally or not.
    Closed,
}

/// The outcome of a read on the connection.
#[derive(Clone, Copy, Debug)]
pub enum RxEvent {
    /// A header read returned `n` bytes into `buf`, with `fd` the descriptor
    /// taken from its ancillary data (see `take_descriptor`).
    HeaderRead { buf: [u8; 6], n: usize, fd: Option<i32> },
    /// A payload read returned `n` bytes.
    PayloadRead { n: usize },
}

/// What the caller does next.
#[derive(Clone, Copy, Debug, PartialEq, Eq, Structural)]
pub enum RxAction {
    /// Read the payload into two buffers of exactly these lengths.
    ReadPayload { len_primary: u16, len_secondary: u16 },
    /// The message is complete: decode the primary segment, and consume and
    /// close `fd` if there is one. Then read the next header.
    Dispatch { fd: Option<i32> },
    /// The peer closed the connection: stop reading, with no error.
    Finish,
    /// A protocol error: close `release` if there is one and drop the
    /// connection. A descriptor carried by the refused event itself, if any,
    /// stays with the caller.
    Abort { error: FrameError, release: Option<i32> },
}

/// The step of the machine from state `s` on event `e`.
pub open spec fn next(s: RxState, e: RxEvent) -> (RxState, RxAction) {
    match s {
        RxState::AwaitHeader => match e {
            RxEvent::HeaderRead { buf, n, fd } => {
                if n == 0 {
                    (RxState::Closed, RxAction::Finish)
                } else if n < HEADER_LEN {
                    (RxState::Closed, RxAction::Abort { error: FrameError::ShortHeader, release: fd })
                } else if parse_header(buf@).msg_type != MSG_TYPE_ENTRY {
                    (RxState::Closed, RxAction::Abort { error: FrameError::UnknownType, release: fd })
                } else {
                    let h = parse_header(buf@);
                    (
                        RxState::AwaitPayload { header: h, fd },
                        RxAction::ReadPayload {
                            len_primary: h.len_primary,
                            len_secondary: h.len_secondary,
                        },
                    )
                }
            },
            RxEvent::PayloadRead { .. } => (
                RxState::Closed,
                RxAction::Abort { error: FrameError::OutOfOrder, release: None },
            ),
        },
        RxState::AwaitPayload { header, fd } => match e {
            RxEvent::PayloadRead { n } => {
                if n < payload_len(header) {
                    (RxState::Closed, RxAction::Abort { error: FrameError::Truncated, release: fd })
                } else {
                    (RxState::AwaitHeader, RxAction::Dispatch { fd })
                }
            },
            RxEvent::HeaderRead { .. } => (
                RxState::Closed,
                RxAction::Abort { error: FrameError::OutOfOrder, release: fd },
            ),
        },
        RxState::Closed => (
            RxState::Closed,
            RxAction::Abort { error: FrameError::OutOfOrder, release: None },
        ),
    }
}

/// The final state and the actions of the machine run from `s` over `events`.
pub open spec fn run(s: RxState, events: Seq<RxEvent>) -> (RxState, Seq<RxAction>)
    decreases events.len(),
{
    if events.len() == 0 {
        (s, Seq::empty())
    } else {
        let (s1, a) = next(s, events[0]);
        let (s2, rest) = run(s1, events.drop_first());
        (s2, seq![a] + rest)
    }
}

impl RxState {
    /// The state of a fresh connection.
    pub fn start() -> (r: RxState)
        ensures
            r == RxState::AwaitHeader,
    {
        RxState::AwaitHeader
    }

    /// Advances the machine on one event.
    pub fn step(self, e: RxEvent) -> (r: (RxState, RxAction))
        ensures
            r == next(self, e),
    {
        match self {
            RxState::AwaitHeader => match e {
                RxEvent::HeaderRead { buf, n, fd } => match decode_header(&buf, n) {
                    Ok(None) => (RxState::Closed, RxAction::Finish),
                    Ok(Some(h)) => (
                        RxState::AwaitPayload { header: h, fd },
                        RxAction::ReadPayload {
                            len_primary: h.len_primary,
                            len_secondary: h.len_secondary,
                        },
                    ),
                    Err(error) => (RxState::Closed, RxAction::Abort { error, release: fd }),
                },
                RxEvent::PayloadRead { .. } => (
                    RxState::Closed,
                    RxAction::Abort { error: FrameError::OutOfOrder, release: None },
                ),
            },
            RxState::AwaitPayload { header, fd } => match e {
                RxEvent::PayloadRead { n } => match check_payload(&header, n) {
                    Ok(()) => (RxState::AwaitHeader, RxAction::Dispatch { fd }),
                    Err(error) => (RxState::Closed, RxAction::Abort { error, release: fd }),
                },
                RxEvent::HeaderRead { .. } => (
                    RxState::Closed,
                    RxAction::Abort { error: FrameError::OutOfOrder, release: fd },
                ),
            },
            RxState::Closed => (
                RxState::Closed,
                RxAction::Abort { error: FrameError::OutOfOrder, release: None },
            ),
        }
    }

    /// Whether the connection is over.
    pub fn is_closed(&self) -> (r: bool)
        ensures
            r == (*self == RxState::Closed),
    {
        match self {
            RxState::Closed => true,
            _ => false,
        }
    }
}

/// Splits the descriptors received with a header: the first becomes the
/// message's descriptor, and the others, unexpected, are to be closed.
pub fn take_descriptor(fds: Vec<i32>) -> (r: (Option<i32>, Vec<i32>))
    ensures
        fds@.len() == 0 ==> r.0 == None::<i32> && r.1@.len() == 0,
        fds@.len() > 0 ==> r.0 == Some(fds@[0]) && r.1@ == fds@.drop_first(),
{
    let mut fds = fds;
    if fds.len() == 0 {
        (None, fds)
    } else {
        let first = fds.remove(0);
        (Some(first), fds)
    }
}

/// Whether two events are the header read and payload read that deliver a
/// message with header `h` and descriptor `fd`, each read complete.
pub open spec fn delivers(p: (RxEvent, RxEvent), h: Header, fd: Option<i32>) -> bool {
    match p.0 {
        RxEvent::HeaderRead { buf, n, fd: f } => match p.1 {
            RxEvent::PayloadRead { n: m } => buf@ == header_bytes(h) && n == HEADER_LEN && f == fd
                && m == payload_len(h),
            _ => false,
        },
        _ => false,
    }
}

/// The events of a sequence of read pairs, in order.
pub open spec fn flatten(pairs: Seq<(RxEvent, RxEvent)>) -> Seq<RxEvent>
    decreases pairs.len(),
{
    if pairs.len() == 0 {
        Seq::empty()
    } else {
        seq![pairs[0].0, pairs[0].1] + flatten(pairs.drop_first())
    }
}

/// The actions owed for a sequence of messages: for each, in order, the read
/// of its payload and then its dispatch with its own descriptor.
pub open spec fn owed(msgs: Seq<(Header, Option<i32>)>) -> Seq<RxAction>
    decreases msgs.len(),
{
    if msgs.len() == 0 {
        Seq::empty()
    } else {
        seq![
            RxAction::ReadPayload {
                len_primary: msgs[0].0.len_primary,
                len_secondary: msgs[0].0.len_secondary,
            },
            RxAction::Dispatch { fd: msgs[0].1 },
        ] + owed(msgs.drop_first())
    }
}

/// Framing is exact: messages sent back to back on one connection are read as
/// exactly as many payload reads and dispatches, in the order sent, each with
/// the lengths its header announced and the descriptor sent with it, and the
/// connection is then ready for the next header.
pub proof fn lemma_framing_exact(
    msgs: Seq<(Header, Option<i32>)>,
    pairs: Seq<(RxEvent, RxEvent)>,
)
    requires
        pairs.len() == msgs.len(),
        forall|i: int| 0 <= i < msgs.len() ==> (#[trigger] msgs[i]).0.msg_type == MSG_TYPE_ENTRY,
        forall|i: int| 0 <= i < msgs.len() ==> delivers(#[trigger] pairs[i], msgs[i].0, msgs[i].1),
    ensures
        run(RxState::AwaitHeader, flatten(pairs)) == (RxState::AwaitHeader, owed(msgs)),
    decreases msgs.len(),
{
    if msgs.len() > 0 {
        let rest_m = msgs.drop_first();
        let rest_p = pairs.drop_first();
        assert forall|i: int| 0 <= i < rest_m.len() implies (#[trigger] rest_m[i]).0.msg_type
            == MSG_TYPE_ENTRY by {
            assert(rest_m[i] == msgs[i + 1]);
        }
        assert forall|i: int| 0 <= i < rest_m.len() implies delivers(
            #[trigger] rest_p[i],
            rest_m[i].0,
            rest_m[i].1,
        ) by {
            assert(rest_p[i] == pairs[i + 1]);
            assert(rest_m[i] == msgs[i + 1]);
        }
        lemma_framing_exact(rest_m, rest_p);
        assert(delivers(pairs[0], msgs[0].0, msgs[0].1));
        let h = msgs[0].0;
        crate::frame::lemma_header_round_trip(h);
        let ev = flatten(pairs);
        assert(ev[0] == pairs[0].0);
        assert(ev.drop_first()[0] == pairs[0].1);
        let ev1 = ev.drop_first();
        assert(ev1.drop_first() =~= flatten(rest_p));
        let s1 = RxState::AwaitPayload { header: h, fd: msgs[0].1 };
        let a1 = RxAction::ReadPayload { len_primary: h.len_primary, len_secondary: h.len_secondary };
        let a2 = RxAction::Dispatch { fd: msgs[0].1 };
        assert(next(RxState::AwaitHeader, ev[0]) == (s1, a1));
        assert(next(s1, ev1[0]) == (RxState::AwaitHeader, a2));
        assert(run(s1, ev1).1 =~= seq![a2] + owed(rest_m));
        assert(run(RxState::AwaitHeader, ev).1 =~= owed(msgs));
    }
}

/// What the sender frames, the receiver reads: the header of a frame built
/// from two segments asks for a payload read of exactly their lengths, and a
/// complete payload read then dispatches the message with its descriptor.
pub proof fn lemma_sent_frame_read(
    primary: Seq<u8>,
    secondary: Seq<u8>,
    buf: [u8; 6],
    fd: Option<i32>,
)
    requires
        primary.len() <= MAX_SEGMENT_LEN,
        secondary.len() <= MAX_SEGMENT_LEN,
        buf@ == header_bytes(frame_header(primary, secondary)),
    ensures
        ({
            let (s1, a1) = next(RxState::AwaitHeader, RxEvent::HeaderRead { buf, n: HEADER_LEN, fd });
            &&& a1 == RxAction::ReadPayload {
                len_primary: primary.len() as u16,
                len_secondary: secondary.len() as u16,
            }
            &&& next(s1, RxEvent::PayloadRead { n: (primary.len() + secondary.len()) as usize })
                == (RxState::AwaitHeader, RxAction::Dispatch { fd })
        }),
{
    crate::frame::lemma_header_round_trip(frame_header(primary, secondary));
}

/// A connection whose peer has closed ends cleanly: an empty header read
/// closes it with no error.
pub proof fn lemma_empty_header_finishes(buf: [u8; 6], fd: Option<i32>)
    ensures
        next(RxState::AwaitHeader, RxEvent::HeaderRead { buf, n: 0, fd })
            == (RxState::Closed, RxAction::Finish),
{
}

/// A payload read that returns less than the header announced aborts the
/// connection as truncated, and releases the descriptor the message carried;
/// it never reads as a complete message.
pub proof fn lemma_short_payload_aborts(h: Header, fd: Option<i32>, n: usize)
    requires
        n < payload_len(h),
    ensures
        next(RxState::AwaitPayload { header: h, fd }, RxEvent::PayloadRead { n })
            == (RxState::Closed, RxAction::Abort { error: FrameError::Truncated, release: fd }),
{
}

/// A message without a descriptor is dispatched without one.
pub proof fn lemma_no_descriptor_dispatch(h: Header, n: usize)
    requires
        n >= payload_len(h),
    ensures
        next(RxState::AwaitPayload { header: h, fd: None }, RxEvent::PayloadRead { n })
            == (RxState::AwaitHeader, RxAction::Dispatch { fd: None }),
{
}

} // verus!
