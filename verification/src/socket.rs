//! The session: one bound transport, the two queues between the caller and the
//! relay, and the lifecycle flag.

use vstd::prelude::*;
use crate::address::address_list;
use crate::address::join_addresses;
use crate::address::Address;
use crate::address::AddressView;
use crate::message::Message;
use crate::message::MessageKind;
use crate::message::MessageView;
use crate::queue::MessageQueue;
use crate::relay::relay_step;
use crate::relay::send_failure_report;
use crate::relay::RelayAction;
use crate::relay::RelayEvent;

verus! {

/// Code of an operation on a session that holds no transport.
pub const NOT_BOUND: u32 = 2;

/// Code of a bind that the transport refused.
pub const BIND_FAILED: u32 = 1;

/// Code of a disconnect that the transport could not carry out.
pub const DISCONNECT_FAILED: u32 = 5;

/// Code of an offer that the transport could not answer.
pub const NEGOTIATION_FAILED: u32 = 12;

/// What the caller gets when it pulls the next inbound message.
#[derive(Debug, PartialEq, Eq)]
pub enum Pull {
    /// The session is not active: there is nothing to wait for.
    Inactive,
    /// The session is active and no message waits.
    Empty,
    /// The oldest message that waited.
    Message(Message),
}

/// What a [`Pull`] stands for in contracts.
pub enum PullView {
    Inactive,
    Empty,
    Message(MessageView),
}

impl View for Pull {
    type V = PullView;

    open spec fn view(&self) -> PullView {
        match *self {
            Pull::Inactive => PullView::Inactive,
            Pull::Empty => PullView::Empty,
            Pull::Message(m) => PullView::Message(m@),
        }
    }
}

/// A session. `T` is the handle of the transport; the session owns it from
/// the bind until the close and never looks inside.
///
/// The transport handle and the two queues are all present or all absent, and
/// they are present exactly while the session is active.
pub struct Socket<T> {
    server: Option<T>,
    message_type: Option<MessageKind>,
    to_client: Option<MessageQueue>,
    from_client: Option<MessageQueue>,
    state: Option<bool>,
    notify: bool,
    in_flight: Option<Address>,
}

/// What a [`Socket`] stands for in contracts.
pub struct SocketView<T> {
    /// The transport handle, present while the session is bound.
    pub server: Option<T>,
    /// The kind given to an outbound message that names none.
    pub message_type: Option<MessageKind>,
    /// Messages of the caller that the relay has not yet taken, oldest first.
    pub outbound: Option<Seq<MessageView>>,
    /// Messages of peers that the caller has not yet pulled, oldest first.
    pub inbound: Option<Seq<MessageView>>,
    /// `Some(true)` while active, `Some(false)` once closed, `None` for a
    /// session that never was bound.
    pub state: Option<bool>,
    /// Whether failed sends are reported.
    pub notify: bool,
    /// The target of the send that the transport has not yet answered.
    pub in_flight: Option<AddressView>,
}

impl<T> SocketView<T> {
    /// The session holds its transport and its queues and has not been closed.
    pub open spec fn active(self) -> bool {
        self.state == Some(true)
    }

    /// Transport and queues are all present or all absent, present exactly
    /// while active; an active session has a default kind, and only an active
    /// session awaits the outcome of a send.
    pub open spec fn wf(self) -> bool {
        &&& self.server is Some <==> self.active()
        &&& self.outbound is Some <==> self.active()
        &&& self.inbound is Some <==> self.active()
        &&& self.active() ==> self.message_type is Some
        &&& self.in_flight is Some ==> self.active()
    }

    /// The placeholder for a session that could not be bound.
    pub open spec fn empty() -> SocketView<T> {
        SocketView {
            server: None,
            message_type: None,
            outbound: None,
            inbound: None,
            state: None,
            notify: false,
            in_flight: None,
        }
    }

    /// A session right after its transport `server` was bound.
    pub open spec fn bound(server: T, notify: bool) -> SocketView<T> {
        SocketView {
            server: Some(server),
            message_type: Some(MessageKind::Binary),
            outbound: Some(Seq::empty()),
            inbound: Some(Seq::empty()),
            state: Some(true),
            notify,
            in_flight: None,
        }
    }

    /// A placeholder that still knows whether failures are to be reported.
    pub open spec fn unbound(notify: bool) -> SocketView<T> {
        SocketView { notify, ..Self::empty() }
    }

    /// The session after the caller queued `message`: an active session holds
    /// it behind the outbound messages that already wait, any other session
    /// is unchanged.
    pub open spec fn enqueued(self, message: MessageView) -> SocketView<T> {
        if self.active() {
            SocketView { outbound: Some(self.outbound->0.push(message)), ..self }
        } else {
            self
        }
    }

    /// What a pull returns, and the session after it: the oldest inbound
    /// message leaves an active session, if one waits.
    pub open spec fn pulled(self) -> (SocketView<T>, PullView) {
        if !self.active() {
            (self, PullView::Inactive)
        } else if self.inbound->0.len() == 0 {
            (self, PullView::Empty)
        } else {
            (
                SocketView { inbound: Some(self.inbound->0.drop_first()), ..self },
                PullView::Message(self.inbound->0[0]),
            )
        }
    }

    /// The session after a close: transport and queues released, no more
    /// reports, whatever was queued is gone.
    pub open spec fn closed(self) -> SocketView<T> {
        SocketView {
            server: None,
            message_type: self.message_type,
            outbound: None,
            inbound: None,
            state: Some(false),
            notify: false,
            in_flight: None,
        }
    }
}

impl<T> View for Socket<T> {
    type V = SocketView<T>;

    closed spec fn view(&self) -> SocketView<T> {
        SocketView {
            server: self.server,
            message_type: self.message_type,
            outbound: slot_view(self.to_client),
            inbound: slot_view(self.from_client),
            state: self.state,
            notify: self.notify,
            in_flight: match self.in_flight {
                Some(a) => Some(a@),
                None => None,
            },
        }
    }
}

/// What a queue slot stands for in contracts.
pub open spec fn slot_view(slot: Option<MessageQueue>) -> Option<Seq<MessageView>> {
    match slot {
        Some(queue) => Some(queue@),
        None => None,
    }
}

/// Appends `message` to the queue in `slot`; an absent queue takes nothing.
fn push_if_present(slot: &mut Option<MessageQueue>, message: Message) -> (pushed: bool)
    ensures
        pushed == (*old(slot) is Some),
        slot_view(*final(slot)) == match slot_view(*old(slot)) {
            Some(waiting) => Some(waiting.push(message@)),
            None => None,
        },
{
    match slot {
        Some(queue) => {
            queue.push(message);
            true
        },
        None => false,
    }
}

/// Takes the oldest message of the queue in `slot`, if there is one.
fn pop_if_present(slot: &mut Option<MessageQueue>) -> (r: Option<Message>)
    ensures
        match slot_view(*old(slot)) {
            Some(waiting) => if waiting.len() == 0 {
                r is None && slot_view(*final(slot)) == slot_view(*old(slot))
            } else {
                r is Some && r->0@ == waiting[0] && slot_view(*final(slot)) == Some(
                    waiting.drop_first(),
                )
            },
            None => r is None && slot_view(*final(slot)) == slot_view(*old(slot)),
        },
{
    match slot {
        Some(queue) => queue.pop(),
        None => None,
    }
}

impl<T> Socket<T> {
    /// What holds of every session at every moment.
    #[verifier::type_invariant]
    pub open spec fn inv(self) -> bool {
        self@.wf()
    }

    /// Makes the session around a transport that was just bound, or reports
    /// that the bind failed. `notify` says whether failed sends are to be
    /// reported.
    pub fn new(server: Option<T>, notify: bool) -> (r: Result<Socket<T>, u32>)
        ensures
            match server {
                Some(handle) => r is Ok && r->Ok_0@ == SocketView::bound(handle, notify),
                None => r == Err::<Socket<T>, u32>(BIND_FAILED),
            },
    {
        match server {
            Some(handle) => {
                let to_client = MessageQueue::new();
                let from_client = MessageQueue::new();
                Ok(
                    Socket {
                        server: Some(handle),
                        message_type: Some(MessageKind::Binary),
                        to_client: Some(to_client),
                        from_client: Some(from_client),
                        state: Some(true),
                        notify,
                        in_flight: None,
                    },
                )
            },
            None => Err(BIND_FAILED),
        }
    }

    /// The placeholder that stands for a session that could not be made.
    pub fn empty() -> (r: Socket<T>)
        ensures
            r@ == SocketView::<T>::empty(),
    {
        Socket {
            server: None,
            message_type: None,
            to_client: None,
            from_client: None,
            state: None,
            notify: false,
            in_flight: None,
        }
    }

    /// A placeholder for a session that could not be made, which remembers
    /// whether failures are to be reported.
    pub fn unbound(notify: bool) -> (r: Socket<T>)
        ensures
            r@ == SocketView::<T>::unbound(notify),
    {
        Socket {
            server: None,
            message_type: None,
            to_client: None,
            from_client: None,
            state: None,
            notify,
            in_flight: None,
        }
    }

    /// Sets the kind given to outbound messages that name none.
    pub fn set_message_type(&mut self, message_type: MessageKind)
        ensures
            final(self)@ == (SocketView { message_type: Some(message_type), ..old(self)@ }),
    {
        proof {
            use_type_invariant(&*self);
        }
        self.message_type = Some(message_type);
    }

    /// Moves the session out and leaves the placeholder behind.
    fn take(&mut self) -> (r: Socket<T>)
        ensures
            r@ == old(self)@,
            final(self)@ == SocketView::<T>::empty(),
    {
        let mut out = Socket::empty();
        core::mem::swap(self, &mut out);
        out
    }

    /// One step of the relay loop: takes in `event`, and says what the loop
    /// is to do next.
    pub fn receive(&mut self, event: RelayEvent) -> (action: RelayAction)
        ensures
            (final(self)@, action@) == relay_step(old(self)@, event@),
    {
        proof {
            use_type_invariant(&*self);
        }
        if !self.is_active() {
            return RelayAction::Stop;
        }
        match event {
            RelayEvent::Resumed => RelayAction::Wait,
            RelayEvent::Inbound { address, payload, kind } => {
                let message = Message { address, payload, kind: Some(kind) };
                let Socket { server, message_type, to_client, from_client, state, notify, in_flight } =
                    self.take();
                let mut from_client = from_client;
                push_if_present(&mut from_client, message);
                *self = Socket {
                    server,
                    message_type,
                    to_client,
                    from_client,
                    state,
                    notify,
                    in_flight,
                };
                RelayAction::Wait
            },
            RelayEvent::InboundFailed => RelayAction::Wait,
            RelayEvent::OutboundReady => {
                if self.in_flight.is_some() {
                    return RelayAction::Wait;
                }
                let Socket { server, message_type, to_client, from_client, state, notify, in_flight } =
                    self.take();
                let mut to_client = to_client;
                let next = pop_if_present(&mut to_client);
                match next {
                    Some(message) => {
                        let kind = match message.kind {
                            Some(kind) => kind,
                            None => match message_type {
                                Some(kind) => kind,
                                None => MessageKind::Binary,
                            },
                        };
                        *self = Socket {
                            server,
                            message_type,
                            to_client,
                            from_client,
                            state,
                            notify,
                            in_flight: Some(message.address.clone()),
                        };
                        RelayAction::Transmit {
                            payload: message.payload,
                            kind,
                            address: message.address,
                        }
                    },
                    None => {
                        *self = Socket {
                            server,
                            message_type,
                            to_client,
                            from_client,
                            state,
                            notify,
                            in_flight,
                        };
                        RelayAction::Wait
                    },
                }
            },
            RelayEvent::Sent => {
                self.in_flight = None;
                RelayAction::Wait
            },
            RelayEvent::SendFailed => {
                let Socket { server, message_type, to_client, from_client, state, notify, in_flight } =
                    self.take();
                *self = Socket {
                    server,
                    message_type,
                    to_client,
                    from_client,
                    state,
                    notify,
                    in_flight: None,
                };
                match in_flight {
                    Some(address) => {
                        if notify {
                            RelayAction::Report(send_failure_report(&address))
                        } else {
                            RelayAction::Wait
                        }
                    },
                    None => RelayAction::Wait,
                }
            },
        }
    }

    /// Queues `message` for the relay to send. Never blocks. Returns whether
    /// the message was taken: a session that is not active takes none.
    pub fn enqueue_outbound(&mut self, message: Message) -> (taken: bool)
        ensures
            taken == old(self)@.active(),
            final(self)@ == old(self)@.enqueued(message@),
    {
        proof {
            use_type_invariant(&*self);
        }
        if !self.is_active() {
            return false;
        }
        let Socket { server, message_type, to_client, from_client, state, notify, in_flight } =
            self.take();
        let mut to_client = to_client;
        let taken = push_if_present(&mut to_client, message);
        *self = Socket { server, message_type, to_client, from_client, state, notify, in_flight };
        taken
    }

    /// Pulls the oldest inbound message. Never blocks: a caller that wants to
    /// wait pulls again after `Empty`.
    pub fn dequeue_inbound(&mut self) -> (r: Pull)
        ensures
            (final(self)@, r@) == old(self)@.pulled(),
    {
        proof {
            use_type_invariant(&*self);
        }
        if !self.is_active() {
            return Pull::Inactive;
        }
        let Socket { server, message_type, to_client, from_client, state, notify, in_flight } =
            self.take();
        let mut from_client = from_client;
        let next = pop_if_present(&mut from_client);
        *self = Socket { server, message_type, to_client, from_client, state, notify, in_flight };
        match next {
            Some(message) => Pull::Message(message),
            None => Pull::Empty,
        }
    }

    /// The answer to a session offer. `answer` is what the transport replied
    /// to the offer, `None` if it could not answer.
    pub fn rtc_session(&self, answer: Option<String>) -> (r: Result<String, u32>)
        ensures
            r == if self@.server is None {
                Err::<String, u32>(NOT_BOUND)
            } else {
                match answer {
                    Some(text) => Ok::<String, u32>(text),
                    None => Err::<String, u32>(NEGOTIATION_FAILED),
                }
            },
    {
        if self.server.is_none() {
            Err(NOT_BOUND)
        } else {
            match answer {
                Some(text) => Ok(text),
                None => Err(NEGOTIATION_FAILED),
            }
        }
    }

    /// The outcome of disconnecting a peer. `seen` is whether the transport
    /// knows the peer at all, `disconnected` whether it carried the
    /// disconnect out. Disconnecting a peer that the transport has never seen
    /// is an error, not a success.
    pub fn rtc_disconnect(&mut self, seen: bool, disconnected: bool) -> (r: Result<bool, u32>)
        ensures
            final(self)@ == old(self)@,
            r == if old(self)@.server is None {
                Err::<bool, u32>(NOT_BOUND)
            } else if seen && disconnected {
                Ok::<bool, u32>(true)
            } else {
                Err::<bool, u32>(DISCONNECT_FAILED)
            },
    {
        if self.server.is_none() {
            Err(NOT_BOUND)
        } else if seen && disconnected {
            Ok(true)
        } else {
            Err(DISCONNECT_FAILED)
        }
    }

    /// The number of peers in any active state. `count` is what the transport
    /// counted; a session without a transport has none.
    pub fn rtc_active_clients(&self, count: usize) -> (r: u32)
        ensures
            r == if self@.server is None {
                0u32
            } else {
                count as u32
            },
    {
        if self.server.is_none() {
            0
        } else {
            #[verifier::truncate]
            (count as u32)
        }
    }

    /// The peers with an established connection as one comma-separated text of
    /// `ip:port` items, in the order of `clients`, which is the transport's
    /// list of them.
    pub fn rtc_connected_clients(&mut self, clients: &Vec<Address>) -> (r: Result<String, u32>)
        ensures
            final(self)@ == old(self)@,
            match r {
                Ok(text) => old(self)@.server is Some && text@ == address_list(
                    clients@.map_values(|a: Address| a@),
                ),
                Err(code) => old(self)@.server is None && code == NOT_BOUND,
            },
    {
        if self.server.is_none() {
            Err(NOT_BOUND)
        } else {
            Ok(join_addresses(clients))
        }
    }

    /// Whether a peer has an established connection. `connected` is what the
    /// transport says of the peer.
    pub fn rtc_is_connected(&self, connected: bool) -> (r: Result<bool, u32>)
        ensures
            r == if self@.server is None {
                Err::<bool, u32>(NOT_BOUND)
            } else {
                Ok::<bool, u32>(connected)
            },
    {
        if self.server.is_none() {
            Err(NOT_BOUND)
        } else {
            Ok(connected)
        }
    }

    /// True exactly when the session holds no transport.
    pub fn rtc_is_listening(&self) -> (r: bool)
        ensures
            r == self@.server is None,
    {
        self.server.is_none()
    }

    /// Closes the session: the lifecycle flag goes to closed, the transport
    /// and both queues are released together with whatever they still hold,
    /// and failures are no longer reported. Closing a closed or never bound
    /// session is allowed and leaves it closed.
    pub fn rtc_close(&mut self) -> (r: bool)
        ensures
            r,
            final(self)@ == old(self)@.closed(),
    {
        let Socket { server: _, message_type, to_client: _, from_client: _, state: _, notify: _, in_flight: _ } =
            self.take();
        *self = Socket {
            server: None,
            message_type,
            to_client: None,
            from_client: None,
            state: Some(false),
            notify: false,
            in_flight: None,
        };
        true
    }

    /// The activity counters of a peer. `activity` is what the transport
    /// knows of the peer, `None` if it does not know the peer.
    pub fn rtc_state(&mut self, activity: Option<(u64, u64, u64)>) -> (r: Result<
        (i64, i64, i64),
        u32,
    >)
        ensures
            final(self)@ == old(self)@,
            r == if old(self)@.server is None {
                Err::<(i64, i64, i64), u32>(NOT_BOUND)
            } else {
                match activity {
                    Some(counters) => Ok::<(i64, i64, i64), u32>(
                        (counters.0 as i64, counters.1 as i64, counters.2 as i64),
                    ),
                    None => Err::<(i64, i64, i64), u32>(NOT_BOUND),
                }
            },
    {
        if self.server.is_none() {
            Err(NOT_BOUND)
        } else {
            match activity {
                Some(counters) => Ok(
                    (
                        #[verifier::truncate]
                        (counters.0 as i64),
                        #[verifier::truncate]
                        (counters.1 as i64),
                        #[verifier::truncate]
                        (counters.2 as i64),
                    ),
                ),
                None => Err(NOT_BOUND),
            }
        }
    }

    /// Whether failed sends are reported.
    pub fn reports(&self) -> (r: bool)
        ensures
            r == self@.notify,
    {
        self.notify
    }

    /// Whether the session holds its transport and has not been closed.
    pub fn is_active(&self) -> (r: bool)
        ensures
            r == self@.active(),
    {
        match self.state {
            Some(flag) => flag,
            None => false,
        }
    }

    /// The transport handle, while the session is bound.
    pub fn server(&self) -> (r: Option<&T>)
        ensures
            match r {
                Some(handle) => self@.server == Some(*handle),
                None => self@.server is None,
            },
    {
        self.server.as_ref()
    }

    /// The lifecycle flag.
    pub fn state(&self) -> (r: Option<bool>)
        ensures
            r == self@.state,
    {
        self.state
    }

    /// The kind given to outbound messages that name none.
    pub fn message_type(&self) -> (r: Option<MessageKind>)
        ensures
            r == self@.message_type,
    {
        self.message_type
    }
}

} // verus!
