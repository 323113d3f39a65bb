//! The operations of the call surface, on plain values: what each returns
//! and which status it reports.
//!
//! The code that moves bytes across the process boundary, and that talks to
//! the transport, lives outside this crate. It hands in what it decoded and
//! what the transport answered.

use vstd::prelude::*;
use vstd::string::StringExecFns;
use crate::address::address_list;
use crate::address::Address;
use crate::message::Message;
use crate::message::MessageKind;
use crate::message::MessageView;
use crate::relay::Notification;
use crate::relay::NotificationView;
use crate::socket::Pull;
use crate::socket::PullView;
use crate::socket::Socket;
use crate::socket::SocketView;
use crate::urls::ServerAddrs;

verus! {

/// Status of an operation that went through.
pub const OK: u32 = 0;

/// Status of a start without a callback.
pub const MISSING_CALLBACK: u32 = 1;

/// Status of an operation on a session that is not bound or not active, and
/// of a start whose bind failed.
pub const INACTIVE: u32 = 2;

/// Status of a start whose listen address is no address.
pub const INVALID_ADDRESS: u32 = 3;

/// Status of a start whose configuration cannot be read.
pub const INVALID_CONFIG: u32 = 4;

/// Status of a send that could not be queued.
pub const SEND_FAILED: u32 = 13;

/// Status of a query for the activity of a peer that gave nothing.
pub const STATE_FAILED: u32 = 17;

/// Code of the report of a send that could not be queued.
pub const MESSAGE_SEND_ERROR_CODE: i32 = -1;

/// The configuration a session is started with: the address to listen on and
/// the public endpoint, both as text.
#[derive(Debug, PartialEq, Eq)]
pub struct SocketEndpoint {
    rtc_addr: String,
    rtc_endpoint: String,
}

impl SocketEndpoint {
    /// The text of the listen address.
    pub closed spec fn spec_rtc_addr(&self) -> Seq<char> {
        self.rtc_addr@
    }

    /// The text of the public endpoint.
    pub closed spec fn spec_rtc_endpoint(&self) -> Seq<char> {
        self.rtc_endpoint@
    }

    /// A configuration of these two texts.
    pub fn new(rtc_addr: &str, rtc_endpoint: &str) -> (r: SocketEndpoint)
        ensures
            r.spec_rtc_addr() == rtc_addr@,
            r.spec_rtc_endpoint() == rtc_endpoint@,
    {
        SocketEndpoint {
            rtc_addr: String::from_str(rtc_addr),
            rtc_endpoint: String::from_str(rtc_endpoint),
        }
    }

    /// The text of the listen address.
    pub fn rtc_addr(&self) -> (r: &str)
        ensures
            r@ == self.spec_rtc_addr(),
    {
        self.rtc_addr.as_str()
    }

    /// The text of the public endpoint.
    pub fn rtc_endpoint(&self) -> (r: &str)
        ensures
            r@ == self.spec_rtc_endpoint(),
    {
        self.rtc_endpoint.as_str()
    }
}

/// The status of a start, from what is known of its inputs: whether a
/// callback was given, whether the configuration could be read, whether its
/// listen address is an address, and whether the transport was bound. The
/// first thing that is missing decides.
pub open spec fn start_status(
    has_callback: bool,
    has_config: bool,
    has_listen: bool,
    bound: bool,
) -> u32 {
    if !has_callback {
        MISSING_CALLBACK
    } else if !has_config {
        INVALID_CONFIG
    } else if !has_listen {
        INVALID_ADDRESS
    } else if !bound {
        INACTIVE
    } else {
        OK
    }
}

/// The checks of a start that come before the bind. `config` is the decoded
/// configuration, `None` if it could not be decoded; `listen` is its listen
/// address, `None` if that text is no address. Returns the addresses to bind
/// with, or the status that ends the start.
pub fn start_addrs(
    has_callback: bool,
    config: Option<SocketEndpoint>,
    listen: Option<Address>,
) -> (r: Result<ServerAddrs, u32>)
    ensures
        match r {
            Ok(addrs) => has_callback && config is Some && listen is Some
                && addrs.webrtc_listen_addr == listen->0 && addrs.public_webrtc_url@
                == config->0.spec_rtc_endpoint(),
            Err(status) => status != OK && status != INACTIVE && status == start_status(
                has_callback,
                config is Some,
                listen is Some,
                true,
            ),
        },
{
    if !has_callback {
        return Err(MISSING_CALLBACK);
    }
    match config {
        Some(endpoint) => match listen {
            Some(address) => Ok(ServerAddrs::new(address, endpoint.rtc_endpoint())),
            None => Err(INVALID_ADDRESS),
        },
        None => Err(INVALID_CONFIG),
    }
}

/// What a start returns.
pub struct Started<T> {
    pub status: u32,
    pub socket: Socket<T>,
}

/// Starts a session. `server` is the transport bound with the addresses that
/// [`start_addrs`] gave, `None` if the bind failed or was not tried. Whenever
/// the status is not 0 the session is a placeholder, and a transport that was
/// handed in all the same is released.
pub fn start<T>(
    has_callback: bool,
    config: Option<SocketEndpoint>,
    listen: Option<Address>,
    server: Option<T>,
) -> (r: Started<T>)
    ensures
        r.status == start_status(has_callback, config is Some, listen is Some, server is Some),
        r.socket@ == if r.status == OK {
            SocketView::bound(server->0, true)
        } else {
            SocketView::<T>::unbound(has_callback)
        },
{
    match start_addrs(has_callback, config, listen) {
        Ok(_) => match Socket::new(server, true) {
            Ok(socket) => Started { status: OK, socket },
            Err(_) => Started { status: INACTIVE, socket: Socket::unbound(has_callback) },
        },
        Err(status) => Started { status, socket: Socket::unbound(has_callback) },
    }
}

/// What a pull across the boundary returns. `status` is 2 for a session that
/// is not active, else the length of the payload.
#[derive(Debug, PartialEq, Eq)]
pub struct Received {
    pub status: u32,
    pub payload: Vec<u8>,
    pub address: String,
}

/// What crosses the boundary for a pull that returned `pull`.
pub open spec fn received_view(pull: PullView) -> (u32, Seq<u8>, Seq<char>) {
    match pull {
        PullView::Inactive => (INACTIVE, Seq::empty(), Seq::empty()),
        PullView::Empty => (0u32, Seq::empty(), Seq::empty()),
        PullView::Message(m) => (m.payload.len() as u32, m.payload, m.address.socket_text()),
    }
}

/// Lays out what a pull returned: status 2 and nothing else for `Inactive`,
/// length 0 and nothing else for `Empty`, and for a message its length, its
/// payload and the text of its sender.
pub fn received(pull: Pull) -> (r: Received)
    ensures
        (r.status, r.payload@, r.address@) == received_view(pull@),
{
    match pull {
        Pull::Inactive => Received { status: INACTIVE, payload: Vec::new(), address: String::new() },
        Pull::Empty => Received { status: 0, payload: Vec::new(), address: String::new() },
        Pull::Message(message) => {
            let address = message.address.socket_text();
            let status =
                #[verifier::truncate]
                (message.payload.len() as u32);
            Received { status, payload: message.payload, address }
        },
    }
}

/// Pulls the next inbound message without waiting, and lays it out as
/// [`received`] does.
pub fn recv<T>(socket: &mut Socket<T>) -> (r: Received)
    ensures
        final(socket)@ == old(socket)@.pulled().0,
        (r.status, r.payload@, r.address@) == received_view(old(socket)@.pulled().1),
{
    received(socket.dequeue_inbound())
}

/// The kind that a number at the boundary asks for: 0 is text, 1 is binary,
/// any other number leaves the choice to the session's default.
pub open spec fn requested_kind(message_type: u32) -> Option<MessageKind> {
    if message_type == 0 {
        Some(MessageKind::Text)
    } else if message_type == 1 {
        Some(MessageKind::Binary)
    } else {
        None
    }
}

/// The report of a send that could not be queued.
pub open spec fn enqueue_failure() -> NotificationView {
    NotificationView {
        code: MESSAGE_SEND_ERROR_CODE,
        message: "sending on a closed channel"@,
        event: "message_send_error"@,
    }
}

/// What a send across the boundary returns: the status, and the report for the
/// callback if there is one to make.
#[derive(Debug, PartialEq, Eq)]
pub struct SendOutcome {
    pub status: u32,
    pub report: Option<Notification>,
}

/// Queues `payload` for `address`. An active session takes it and the status
/// is 0. Any other session takes nothing and the status is 13; the failure is
/// reported if the session reports failures.
pub fn send<T>(socket: &mut Socket<T>, payload: Vec<u8>, address: Address, message_type: u32) -> (r:
    SendOutcome)
    ensures
        final(socket)@ == old(socket)@.enqueued(
            MessageView { address: address@, payload: payload@, kind: requested_kind(message_type) },
        ),
        r.status == if old(socket)@.active() {
            OK
        } else {
            SEND_FAILED
        },
        match r.report {
            Some(report) => !old(socket)@.active() && old(socket)@.notify && report@
                == enqueue_failure(),
            None => old(socket)@.active() || !old(socket)@.notify,
        },
{
    let kind = if message_type == 0 {
        Some(MessageKind::Text)
    } else if message_type == 1 {
        Some(MessageKind::Binary)
    } else {
        None
    };
    let reports = socket.reports();
    if socket.enqueue_outbound(Message::new(address, payload, kind)) {
        SendOutcome { status: OK, report: None }
    } else if reports {
        SendOutcome {
            status: SEND_FAILED,
            report: Some(
                Notification {
                    code: MESSAGE_SEND_ERROR_CODE,
                    message: String::from_str("sending on a closed channel"),
                    event: String::from_str("message_send_error"),
                },
            ),
        }
    } else {
        SendOutcome { status: SEND_FAILED, report: None }
    }
}

/// What a session offer returns: the status, and the answer, which is empty
/// unless the status is 0.
#[derive(Debug, PartialEq, Eq)]
pub struct SessionOutcome {
    pub status: u32,
    pub answer: String,
}

/// Answers a session offer. `answer` is what the transport replied, `None`
/// if it could not answer. Status 2 on a session without a transport, 12 when
/// the transport could not answer.
pub fn session<T>(socket: &Socket<T>, answer: Option<String>) -> (r: SessionOutcome)
    ensures
        r.status == if socket@.server is None {
            INACTIVE
        } else if answer is None {
            crate::socket::NEGOTIATION_FAILED
        } else {
            OK
        },
        r.answer@ == if r.status == OK {
            answer->0@
        } else {
            Seq::<char>::empty()
        },
{
    match socket.rtc_session(answer) {
        Ok(text) => SessionOutcome { status: OK, answer: text },
        Err(code) => SessionOutcome { status: code, answer: String::new() },
    }
}

/// The activity counters of a peer, and status 0; or status 17 when the
/// session has no transport or the transport does not know the peer.
pub fn state<T>(socket: &mut Socket<T>, activity: Option<(u64, u64, u64)>) -> (r: (
    u32,
    Option<(i64, i64, i64)>,
))
    ensures
        final(socket)@ == old(socket)@,
        r == match activity {
            Some((since_send, since_receive, age)) if old(socket)@.server is Some => (
                OK,
                Some((since_send as i64, since_receive as i64, age as i64)),
            ),
            _ => (STATE_FAILED, None::<(i64, i64, i64)>),
        },
{
    match socket.rtc_state(activity) {
        Ok(counters) => (OK, Some(counters)),
        Err(_) => (STATE_FAILED, None),
    }
}

/// Whether a peer is connected, and the status: on a session without a
/// transport the answer is no and the status 2.
pub fn is_connected<T>(socket: &Socket<T>, connected: bool) -> (r: (bool, u32))
    ensures
        r == if socket@.server is None {
            (false, INACTIVE)
        } else {
            (connected, OK)
        },
{
    match socket.rtc_is_connected(connected) {
        Ok(answer) => (answer, OK),
        Err(code) => (false, code),
    }
}

/// The number of peers with an established connection: the length of the
/// transport's list, and 0 for a session without a transport.
pub fn clients_count<T>(socket: &Socket<T>, clients: &Vec<Address>) -> (r: u32)
    ensures
        r == if socket@.server is None {
            0u32
        } else {
            clients@.len() as u32
        },
{
    if socket.server().is_none() {
        0
    } else {
        #[verifier::truncate]
        (clients.len() as u32)
    }
}

/// The peers with an established connection, as one comma-separated text, and
/// status 0. A session without a transport gives the empty text.
pub fn clients<T>(socket: &mut Socket<T>, list: &Vec<Address>) -> (r: (u32, String))
    ensures
        final(socket)@ == old(socket)@,
        r.0 == OK,
        r.1@ == if old(socket)@.server is None {
            Seq::<char>::empty()
        } else {
            address_list(list@.map_values(|a: Address| a@))
        },
{
    match socket.rtc_connected_clients(list) {
        Ok(text) => (OK, text),
        Err(_) => (OK, String::new()),
    }
}

/// Closes the session. May be called any number of times.
pub fn rtc_close<T>(socket: &mut Socket<T>)
    ensures
        final(socket)@ == old(socket)@.closed(),
{
    socket.rtc_close();
}

} // verus!
