use rtc_socket::address::Address;
use rtc_socket::message::Message;
use rtc_socket::message::MessageKind;
use rtc_socket::relay::Notification;
use rtc_socket::relay::RelayAction;
use rtc_socket::relay::RelayEvent;
use rtc_socket::socket::Pull;
use rtc_socket::socket::Socket;

fn bound(notify: bool) -> Socket<u8> {
    match Socket::new(Some(7u8), notify) {
        Ok(socket) => socket,
        Err(code) => panic!("bind failed with {}", code),
    }
}

fn peer(port: u16) -> Address {
    Address::new("127.0.0.1", port)
}

fn outbound(port: u16, payload: Vec<u8>, kind: Option<MessageKind>) -> Message {
    Message::new(peer(port), payload, kind)
}

#[test]
fn new_binds_an_active_session_with_binary_default() {
    let socket = bound(true);
    assert_eq!(socket.state(), Some(true));
    assert_eq!(socket.message_type(), Some(MessageKind::Binary));
    assert_eq!(socket.server(), Some(&7u8));
    assert!(socket.is_active());
    assert!(socket.reports());
}

#[test]
fn new_without_transport_fails_with_code_1() {
    let made: Result<Socket<u8>, u32> = Socket::new(None, true);
    assert_eq!(made.err(), Some(1));
}

#[test]
fn empty_session_is_a_placeholder() {
    let socket: Socket<u8> = Socket::empty();
    assert_eq!(socket.state(), None);
    assert_eq!(socket.message_type(), None);
    assert_eq!(socket.server(), None);
    assert!(!socket.is_active());
    assert!(!socket.reports());
}

#[test]
fn relay_waits_on_an_active_session_and_stops_on_others() {
    let mut socket = bound(true);
    assert_eq!(socket.receive(RelayEvent::Resumed), RelayAction::Wait);
    let mut placeholder: Socket<u8> = Socket::empty();
    assert_eq!(placeholder.receive(RelayEvent::Resumed), RelayAction::Stop);
    assert_eq!(placeholder.receive(RelayEvent::OutboundReady), RelayAction::Stop);
}

#[test]
fn outbound_messages_are_sent_in_enqueue_order() {
    let mut socket = bound(true);
    for i in 0..5u8 {
        assert!(socket.enqueue_outbound(outbound(5000, vec![i, i + 1], Some(MessageKind::Text))));
    }
    for i in 0..5u8 {
        assert_eq!(
            socket.receive(RelayEvent::OutboundReady),
            RelayAction::Transmit {
                payload: vec![i, i + 1],
                kind: MessageKind::Text,
                address: peer(5000),
            }
        );
        assert_eq!(socket.receive(RelayEvent::Sent), RelayAction::Wait);
    }
    assert_eq!(socket.receive(RelayEvent::OutboundReady), RelayAction::Wait);
}

#[test]
fn inbound_messages_are_pulled_in_arrival_order() {
    let mut socket = bound(true);
    for i in 0..4u8 {
        let event = RelayEvent::Inbound {
            address: peer(6000 + i as u16),
            payload: vec![i],
            kind: MessageKind::Binary,
        };
        assert_eq!(socket.receive(event), RelayAction::Wait);
    }
    for i in 0..4u8 {
        assert_eq!(
            socket.dequeue_inbound(),
            Pull::Message(Message::new(peer(6000 + i as u16), vec![i], Some(MessageKind::Binary)))
        );
    }
    assert_eq!(socket.dequeue_inbound(), Pull::Empty);
}

#[test]
fn inbound_and_outbound_do_not_mix() {
    let mut socket = bound(true);
    assert!(socket.enqueue_outbound(outbound(1, vec![1], None)));
    let event = RelayEvent::Inbound { address: peer(2), payload: vec![2], kind: MessageKind::Text };
    assert_eq!(socket.receive(event), RelayAction::Wait);
    assert_eq!(
        socket.receive(RelayEvent::OutboundReady),
        RelayAction::Transmit { payload: vec![1], kind: MessageKind::Binary, address: peer(1) }
    );
    assert_eq!(
        socket.dequeue_inbound(),
        Pull::Message(Message::new(peer(2), vec![2], Some(MessageKind::Text)))
    );
}

#[test]
fn receive_failure_is_dropped_silently() {
    let mut socket = bound(true);
    assert_eq!(socket.receive(RelayEvent::InboundFailed), RelayAction::Wait);
    assert_eq!(socket.dequeue_inbound(), Pull::Empty);
}

#[test]
fn explicit_kind_wins_over_the_default() {
    let mut socket = bound(true);
    socket.set_message_type(MessageKind::Binary);
    assert!(socket.enqueue_outbound(outbound(5000, vec![9], Some(MessageKind::Text))));
    assert_eq!(
        socket.receive(RelayEvent::OutboundReady),
        RelayAction::Transmit { payload: vec![9], kind: MessageKind::Text, address: peer(5000) }
    );
}

#[test]
fn omitted_kind_uses_the_default_at_send_time() {
    let mut socket = bound(true);
    assert!(socket.enqueue_outbound(outbound(5000, vec![9], None)));
    socket.set_message_type(MessageKind::Text);
    assert_eq!(
        socket.receive(RelayEvent::OutboundReady),
        RelayAction::Transmit { payload: vec![9], kind: MessageKind::Text, address: peer(5000) }
    );
}

#[test]
fn failed_send_is_reported_once_and_not_retried() {
    let mut socket = bound(true);
    assert!(socket.enqueue_outbound(outbound(5000, vec![1, 2, 3], Some(MessageKind::Binary))));
    assert_eq!(
        socket.receive(RelayEvent::OutboundReady),
        RelayAction::Transmit {
            payload: vec![1, 2, 3],
            kind: MessageKind::Binary,
            address: peer(5000),
        }
    );
    assert_eq!(
        socket.receive(RelayEvent::SendFailed),
        RelayAction::Report(Notification {
            code: 400,
            message: "127.0.0.1:5000".to_string(),
            event: "socket_send_error".to_string(),
        })
    );
    assert_eq!(socket.receive(RelayEvent::Resumed), RelayAction::Wait);
    assert_eq!(socket.receive(RelayEvent::SendFailed), RelayAction::Wait);
    assert_eq!(socket.receive(RelayEvent::OutboundReady), RelayAction::Wait);
}

#[test]
fn failed_send_without_callback_is_not_reported() {
    let mut socket = bound(false);
    assert!(socket.enqueue_outbound(outbound(5000, vec![1], None)));
    assert!(matches!(socket.receive(RelayEvent::OutboundReady), RelayAction::Transmit { .. }));
    assert_eq!(socket.receive(RelayEvent::SendFailed), RelayAction::Wait);
}

#[test]
fn no_second_send_while_one_awaits_its_outcome() {
    let mut socket = bound(true);
    assert!(socket.enqueue_outbound(outbound(1, vec![1], None)));
    assert!(socket.enqueue_outbound(outbound(2, vec![2], None)));
    assert!(matches!(socket.receive(RelayEvent::OutboundReady), RelayAction::Transmit { .. }));
    assert_eq!(socket.receive(RelayEvent::OutboundReady), RelayAction::Wait);
    assert_eq!(socket.receive(RelayEvent::Sent), RelayAction::Wait);
    assert_eq!(
        socket.receive(RelayEvent::OutboundReady),
        RelayAction::Transmit { payload: vec![2], kind: MessageKind::Binary, address: peer(2) }
    );
}

#[test]
fn close_makes_pulls_inactive_and_stops_the_relay() {
    let mut socket = bound(true);
    assert!(socket.enqueue_outbound(outbound(5000, vec![1], None)));
    let event = RelayEvent::Inbound { address: peer(2), payload: vec![2], kind: MessageKind::Text };
    assert_eq!(socket.receive(event), RelayAction::Wait);
    assert!(socket.rtc_close());
    assert_eq!(socket.state(), Some(false));
    assert_eq!(socket.server(), None);
    assert!(!socket.reports());
    assert_eq!(socket.dequeue_inbound(), Pull::Inactive);
    assert_eq!(socket.dequeue_inbound(), Pull::Inactive);
    assert_eq!(socket.receive(RelayEvent::Resumed), RelayAction::Stop);
    assert_eq!(socket.receive(RelayEvent::OutboundReady), RelayAction::Stop);
    assert!(!socket.enqueue_outbound(outbound(5000, vec![1], None)));
}

#[test]
fn close_twice_does_not_fault() {
    let mut socket = bound(true);
    assert!(socket.rtc_close());
    assert!(socket.rtc_close());
    assert_eq!(socket.state(), Some(false));
    let mut placeholder: Socket<u8> = Socket::empty();
    assert!(placeholder.rtc_close());
    assert!(placeholder.rtc_close());
    assert_eq!(placeholder.state(), Some(false));
}

#[test]
fn close_keeps_the_default_kind() {
    let mut socket = bound(true);
    socket.set_message_type(MessageKind::Text);
    socket.rtc_close();
    assert_eq!(socket.message_type(), Some(MessageKind::Text));
}

#[test]
fn session_answers_through_a_bound_transport() {
    let socket = bound(true);
    assert_eq!(socket.rtc_session(Some("answer".to_string())), Ok("answer".to_string()));
    assert_eq!(socket.rtc_session(None), Err(12));
    let placeholder: Socket<u8> = Socket::empty();
    assert_eq!(placeholder.rtc_session(Some("answer".to_string())), Err(2));
}

#[test]
fn disconnect_reports_transport_failure_as_5() {
    let mut socket = bound(true);
    assert_eq!(socket.rtc_disconnect(true, true), Ok(true));
    assert_eq!(socket.rtc_disconnect(true, false), Err(5));
    assert_eq!(socket.rtc_disconnect(false, true), Err(5));
    assert_eq!(socket.rtc_disconnect(false, false), Err(5));
    assert_eq!(socket.state(), Some(true));
    let mut placeholder: Socket<u8> = Socket::empty();
    assert_eq!(placeholder.rtc_disconnect(true, true), Err(2));
}

#[test]
fn active_clients_is_zero_without_transport() {
    let socket = bound(true);
    assert_eq!(socket.rtc_active_clients(3), 3);
    assert_eq!(socket.rtc_active_clients(0), 0);
    assert_eq!(socket.rtc_active_clients(u32::MAX as usize), u32::MAX);
    assert_eq!(socket.rtc_active_clients((1usize << 32) + 5), 5);
    let placeholder: Socket<u8> = Socket::empty();
    assert_eq!(placeholder.rtc_active_clients(3), 0);
}

#[test]
fn connected_clients_are_joined_with_commas() {
    let mut socket = bound(true);
    assert_eq!(socket.rtc_connected_clients(&vec![]), Ok(String::new()));
    assert_eq!(socket.rtc_connected_clients(&vec![peer(1)]), Ok("127.0.0.1:1".to_string()));
    assert_eq!(
        socket.rtc_connected_clients(&vec![peer(1), Address::new("10.0.0.2", 65535), peer(30)]),
        Ok("127.0.0.1:1,10.0.0.2:65535,127.0.0.1:30".to_string())
    );
    let mut placeholder: Socket<u8> = Socket::empty();
    assert_eq!(placeholder.rtc_connected_clients(&vec![peer(1)]), Err(2));
}

#[test]
fn is_connected_passes_the_transport_answer_on() {
    let socket = bound(true);
    assert_eq!(socket.rtc_is_connected(true), Ok(true));
    assert_eq!(socket.rtc_is_connected(false), Ok(false));
    let placeholder: Socket<u8> = Socket::empty();
    assert_eq!(placeholder.rtc_is_connected(true), Err(2));
}

#[test]
fn is_listening_tells_that_no_transport_is_held() {
    let socket = bound(true);
    assert!(!socket.rtc_is_listening());
    let placeholder: Socket<u8> = Socket::empty();
    assert!(placeholder.rtc_is_listening());
}

#[test]
fn state_converts_the_counters() {
    let mut socket = bound(true);
    assert_eq!(socket.rtc_state(Some((1, 2, 3))), Ok((1, 2, 3)));
    assert_eq!(socket.rtc_state(Some((u64::MAX, 0, 1 << 63))), Ok((-1, 0, i64::MIN)));
    assert_eq!(socket.rtc_state(None), Err(2));
    let mut placeholder: Socket<u8> = Socket::empty();
    assert_eq!(placeholder.rtc_state(Some((1, 2, 3))), Err(2));
}

#[test]
fn set_message_type_changes_only_the_default() {
    let mut socket = bound(true);
    socket.set_message_type(MessageKind::Text);
    assert_eq!(socket.message_type(), Some(MessageKind::Text));
    assert_eq!(socket.state(), Some(true));
    assert!(socket.is_active());
}
