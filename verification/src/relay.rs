//! The relay loop as a state machine: what the session does with each event
//! of its transport and of its caller, and what it asks for next.
//!
//! The loop itself runs outside this crate. It waits, hands each event to
//! [`Socket::receive`](crate::socket::Socket::receive), and performs the action
//! that comes back.

use vstd::prelude::*;
use vstd::string::StringExecFns;
use crate::address::Address;
use crate::address::AddressView;
use crate::message::MessageKind;
use crate::message::MessageView;
use crate::socket::SocketView;

verus! {

/// Code of the report of a send that the transport refused.
pub const SOCKET_SEND_ERROR_CODE: i32 = 400;

/// A structured error for the caller's callback.
#[derive(Debug, PartialEq, Eq)]
pub struct Notification {
    pub code: i32,
    pub message: String,
    pub event: String,
}

/// What a [`Notification`] stands for in contracts.
pub struct NotificationView {
    pub code: i32,
    pub message: Seq<char>,
    pub event: Seq<char>,
}

impl View for Notification {
    type V = NotificationView;

    open spec fn view(&self) -> NotificationView {
        NotificationView { code: self.code, message: self.message@, event: self.event@ }
    }
}

/// The report of a send to `address` that the transport refused.
pub open spec fn send_failure(address: AddressView) -> NotificationView {
    NotificationView {
        code: SOCKET_SEND_ERROR_CODE,
        message: address.host_port(),
        event: "socket_send_error"@,
    }
}

/// Builds the report of a send to `address` that the transport refused.
pub fn send_failure_report(address: &Address) -> (r: Notification)
    ensures
        r@ == send_failure(address@),
{
    Notification {
        code: SOCKET_SEND_ERROR_CODE,
        message: address.host_port(),
        event: String::from_str("socket_send_error"),
    }
}

/// What the loop tells the session.
#[derive(Debug, PartialEq, Eq)]
pub enum RelayEvent {
    /// The loop is at its top: the previous event is fully processed.
    Resumed,
    /// The transport delivered a message of a peer.
    Inbound { address: Address, payload: Vec<u8>, kind: MessageKind },
    /// The transport failed while it was receiving.
    InboundFailed,
    /// The caller has queued an outbound message.
    OutboundReady,
    /// The transport accepted the message it was last asked to send.
    Sent,
    /// The transport refused the message it was last asked to send.
    SendFailed,
}

/// What a [`RelayEvent`] stands for in contracts.
pub enum RelayEventView {
    Resumed,
    Inbound { address: AddressView, payload: Seq<u8>, kind: MessageKind },
    InboundFailed,
    OutboundReady,
    Sent,
    SendFailed,
}

impl View for RelayEvent {
    type V = RelayEventView;

    open spec fn view(&self) -> RelayEventView {
        match *self {
            RelayEvent::Resumed => RelayEventView::Resumed,
            RelayEvent::Inbound { address, payload, kind } => RelayEventView::Inbound {
                address: address@,
                payload: payload@,
                kind,
            },
            RelayEvent::InboundFailed => RelayEventView::InboundFailed,
            RelayEvent::OutboundReady => RelayEventView::OutboundReady,
            RelayEvent::Sent => RelayEventView::Sent,
            RelayEvent::SendFailed => RelayEventView::SendFailed,
        }
    }
}

/// What the session asks of the loop.
#[derive(Debug, PartialEq, Eq)]
pub enum RelayAction {
    /// Leave the loop. The transport must not be touched again.
    Stop,
    /// Wait for the next event, from whichever source has one first.
    Wait,
    /// Hand this message to the transport, then report `Sent` or `SendFailed`.
    Transmit { payload: Vec<u8>, kind: MessageKind, address: Address },
    /// Pass this report to the caller's callback, then report `Resumed`.
    Report(Notification),
}

/// What a [`RelayAction`] stands for in contracts.
pub enum RelayActionView {
    Stop,
    Wait,
    Transmit { payload: Seq<u8>, kind: MessageKind, address: AddressView },
    Report(NotificationView),
}

impl View for RelayAction {
    type V = RelayActionView;

    open spec fn view(&self) -> RelayActionView {
        match *self {
            RelayAction::Stop => RelayActionView::Stop,
            RelayAction::Wait => RelayActionView::Wait,
            RelayAction::Transmit { payload, kind, address } => RelayActionView::Transmit {
                payload: payload@,
                kind,
                address: address@,
            },
            RelayAction::Report(n) => RelayActionView::Report(n@),
        }
    }
}

/// The kind a message is sent with: its own if it names one, else the
/// session's default.
pub open spec fn resolve_kind(
    explicit: Option<MessageKind>,
    default_kind: Option<MessageKind>,
) -> MessageKind {
    match explicit {
        Some(kind) => kind,
        None => match default_kind {
            Some(kind) => kind,
            None => MessageKind::Binary,
        },
    }
}

/// What the transport is asked to send for the queued message `m`.
pub open spec fn transmission(m: MessageView, default_kind: Option<MessageKind>) -> RelayActionView {
    RelayActionView::Transmit {
        payload: m.payload,
        kind: resolve_kind(m.kind, default_kind),
        address: m.address,
    }
}

/// One step of the relay: the session after `event`, and what it asks for.
///
/// A session that is not active stops the loop and changes nothing, whatever
/// the event. The lifecycle flag is looked at in every step rather than only
/// before a wait, because a close releases the transport and both queues at
/// once: an event that arrives after the close has no queue to go to, and the
/// transport must not be touched again. Whatever was still queued at the
/// close is dropped, not drained. An active session
/// - queues every delivered message for the caller, tagged with its kind;
/// - drops a receive failure silently;
/// - takes the oldest outbound message, if one waits and no send is awaiting
///   its outcome, and asks for it to be sent;
/// - forgets the pending send when its outcome arrives, and asks for one
///   report if the send failed and reports are wanted.
pub open spec fn relay_step<T>(s: SocketView<T>, event: RelayEventView) -> (
    SocketView<T>,
    RelayActionView,
) {
    if !s.active() {
        (s, RelayActionView::Stop)
    } else {
        match event {
            RelayEventView::Resumed => (s, RelayActionView::Wait),
            RelayEventView::Inbound { address, payload, kind } => (
                SocketView {
                    inbound: Some(
                        s.inbound->0.push(MessageView { address, payload, kind: Some(kind) }),
                    ),
                    ..s
                },
                RelayActionView::Wait,
            ),
            RelayEventView::InboundFailed => (s, RelayActionView::Wait),
            RelayEventView::OutboundReady => if s.in_flight is Some || s.outbound->0.len() == 0 {
                (s, RelayActionView::Wait)
            } else {
                (
                    SocketView {
                        outbound: Some(s.outbound->0.drop_first()),
                        in_flight: Some(s.outbound->0[0].address),
                        ..s
                    },
                    transmission(s.outbound->0[0], s.message_type),
                )
            },
            RelayEventView::Sent => (SocketView { in_flight: None, ..s }, RelayActionView::Wait),
            RelayEventView::SendFailed => (
                SocketView { in_flight: None, ..s },
                if s.in_flight is Some && s.notify {
                    RelayActionView::Report(send_failure(s.in_flight->0))
                } else {
                    RelayActionView::Wait
                },
            ),
        }
    }
}

} // verus!
