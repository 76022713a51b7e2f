use uds_fd::frame::{FrameError, Header};
use uds_fd::receiver::{take_descriptor, RxAction, RxEvent, RxState, SocketRx};

fn header_event(len_primary: u16, len_secondary: u16, fd: Option<i32>) -> RxEvent {
    RxEvent::HeaderRead { buf: Header::entry(len_primary, len_secondary).encode(), n: 6, fd }
}

/// Runs the machine over one message's two reads, returning its actions.
fn deliver(state: RxState, h: (u16, u16), fd: Option<i32>, got: usize) -> (RxState, Vec<RxAction>) {
    let (s, a1) = state.step(header_event(h.0, h.1, fd));
    let (s, a2) = s.step(RxEvent::PayloadRead { n: got });
    (s, vec![a1, a2])
}

#[test]
fn messages_are_read_in_order() {
    let msgs = [(40u16, 23u16, Some(7)), (12, 23, None), (0, 0, Some(9))];
    let mut state = RxState::start();
    let mut dispatched = Vec::new();
    for (l1, l2, fd) in msgs {
        let (s, actions) = deliver(state, (l1, l2), fd, (l1 + l2) as usize);
        assert_eq!(actions[0], RxAction::ReadPayload { len_primary: l1, len_secondary: l2 });
        if let RxAction::Dispatch { fd } = actions[1] {
            dispatched.push((l1, fd));
        } else {
            panic!("not dispatched");
        }
        state = s;
    }
    assert_eq!(state, RxState::AwaitHeader);
    assert_eq!(dispatched, vec![(40, Some(7)), (12, None), (0, Some(9))]);
}

#[test]
fn short_payload_aborts_connection() {
    let (state, actions) = deliver(RxState::start(), (40, 23), Some(5), 50);
    assert_eq!(state, RxState::Closed);
    assert_eq!(
        actions[1],
        RxAction::Abort { error: FrameError::Truncated, release: Some(5) }
    );
}

#[test]
fn closed_peer_finishes_cleanly() {
    let (state, action) =
        RxState::start().step(RxEvent::HeaderRead { buf: [0; 6], n: 0, fd: None });
    assert_eq!(state, RxState::Closed);
    assert_eq!(action, RxAction::Finish);
    assert!(state.is_closed());
}

#[test]
fn message_without_descriptor_dispatches() {
    let (state, actions) = deliver(RxState::start(), (10, 23), None, 33);
    assert_eq!(state, RxState::AwaitHeader);
    assert_eq!(actions[1], RxAction::Dispatch { fd: None });
}

#[test]
fn descriptor_follows_its_message() {
    let (_, actions) = deliver(RxState::start(), (10, 23), Some(11), 33);
    assert_eq!(actions[1], RxAction::Dispatch { fd: Some(11) });
}

#[test]
fn short_header_aborts() {
    let (state, action) = RxState::start().step(RxEvent::HeaderRead {
        buf: [0, 1, 0, 0, 0, 0],
        n: 4,
        fd: Some(3),
    });
    assert_eq!(state, RxState::Closed);
    assert_eq!(action, RxAction::Abort { error: FrameError::ShortHeader, release: Some(3) });
}

#[test]
fn unknown_type_aborts() {
    let (state, action) = RxState::start().step(RxEvent::HeaderRead {
        buf: [0, 7, 0, 1, 0, 1],
        n: 6,
        fd: None,
    });
    assert_eq!(state, RxState::Closed);
    assert_eq!(action, RxAction::Abort { error: FrameError::UnknownType, release: None });
}

#[test]
fn payload_before_header_is_out_of_order() {
    let (state, action) = RxState::start().step(RxEvent::PayloadRead { n: 4 });
    assert_eq!(state, RxState::Closed);
    assert_eq!(action, RxAction::Abort { error: FrameError::OutOfOrder, release: None });
}

#[test]
fn header_while_awaiting_payload_releases_held_descriptor() {
    let (s, _) = RxState::start().step(header_event(1, 1, Some(4)));
    let (state, action) = s.step(header_event(1, 1, None));
    assert_eq!(state, RxState::Closed);
    assert_eq!(action, RxAction::Abort { error: FrameError::OutOfOrder, release: Some(4) });
}

#[test]
fn closed_connection_refuses_events() {
    let (state, action) = RxState::Closed.step(RxEvent::PayloadRead { n: 0 });
    assert_eq!(state, RxState::Closed);
    assert_eq!(action, RxAction::Abort { error: FrameError::OutOfOrder, release: None });
}

#[test]
fn first_descriptor_is_taken() {
    assert_eq!(take_descriptor(vec![5, 6, 7]), (Some(5), vec![6, 7]));
    assert_eq!(take_descriptor(vec![5]), (Some(5), vec![]));
    assert_eq!(take_descriptor(vec![]), (None, vec![]));
}

#[test]
fn receiver_keeps_its_path() {
    assert_eq!(SocketRx::new("/tmp/rx.sock").socket_path, "/tmp/rx.sock");
}
