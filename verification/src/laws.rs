//! What holds of a session over whole runs: of its relay, and of its caller
//! and its relay taking turns in any order.

use vstd::prelude::*;
use crate::address::AddressView;
use crate::message::MessageKind;
use crate::message::MessageView;
use crate::relay::relay_step;
use crate::relay::send_failure;
use crate::relay::transmission;
use crate::relay::RelayActionView;
use crate::relay::RelayEventView;
use crate::socket::PullView;
use crate::socket::SocketView;

verus! {

/// One thing that happens to a session: the caller queues a message, the
/// relay takes an event in, the caller pulls, sets the default kind, or
/// closes.
pub enum SessionOp {
    Enqueue(MessageView),
    Relay(RelayEventView),
    Pull,
    SetKind(MessageKind),
    Close,
}

/// What comes back from one [`SessionOp`].
pub enum SessionOutput {
    /// Whether the queued message was taken.
    Taken(bool),
    /// What the relay asks for.
    Action(RelayActionView),
    /// What the pull returned.
    Pulled(PullView),
    /// Nothing: the default kind was set, or the session was closed.
    Done,
}

/// The session after `op`, and what came back.
pub open spec fn session_step<T>(s: SocketView<T>, op: SessionOp) -> (SocketView<T>, SessionOutput) {
    match op {
        SessionOp::Enqueue(message) => (s.enqueued(message), SessionOutput::Taken(s.active())),
        SessionOp::Relay(event) => (
            relay_step(s, event).0,
            SessionOutput::Action(relay_step(s, event).1),
        ),
        SessionOp::Pull => (s.pulled().0, SessionOutput::Pulled(s.pulled().1)),
        SessionOp::SetKind(kind) => (
            SocketView { message_type: Some(kind), ..s },
            SessionOutput::Done,
        ),
        SessionOp::Close => (s.closed(), SessionOutput::Done),
    }
}

/// The session after `ops`, one after the other, and what came back from
/// each.
pub open spec fn session_run<T>(s: SocketView<T>, ops: Seq<SessionOp>) -> (
    SocketView<T>,
    Seq<SessionOutput>,
)
    decreases ops.len(),
{
    if ops.len() == 0 {
        (s, Seq::empty())
    } else {
        let first = session_step(s, ops[0]);
        let rest = session_run(first.0, ops.drop_first());
        (rest.0, seq![first.1] + rest.1)
    }
}

/// The target and payload of each message of `queue`.
pub open spec fn targets(queue: Seq<MessageView>) -> Seq<(AddressView, Seq<u8>)> {
    queue.map_values(|m: MessageView| (m.address, m.payload))
}

/// The target and payload of each send that the relay asked for in
/// `outputs`, in order.
pub open spec fn sent_in(outputs: Seq<SessionOutput>) -> Seq<(AddressView, Seq<u8>)>
    decreases outputs.len(),
{
    if outputs.len() == 0 {
        Seq::empty()
    } else {
        match outputs[0] {
            SessionOutput::Action(RelayActionView::Transmit { payload, kind, address }) => seq![
                (address, payload),
            ] + sent_in(outputs.drop_first()),
            _ => sent_in(outputs.drop_first()),
        }
    }
}

/// The reports that the relay asked for in `outputs`, in order.
pub open spec fn reported_in(outputs: Seq<SessionOutput>) -> Seq<SessionOutput>
    decreases outputs.len(),
{
    if outputs.len() == 0 {
        Seq::empty()
    } else {
        match outputs[0] {
            SessionOutput::Action(RelayActionView::Report(_)) => seq![outputs[0]] + reported_in(
                outputs.drop_first(),
            ),
            _ => reported_in(outputs.drop_first()),
        }
    }
}

/// The messages that the pulls of `outputs` returned, in order.
pub open spec fn pulled_in(outputs: Seq<SessionOutput>) -> Seq<MessageView>
    decreases outputs.len(),
{
    if outputs.len() == 0 {
        Seq::empty()
    } else {
        match outputs[0] {
            SessionOutput::Pulled(PullView::Message(message)) => seq![message] + pulled_in(
                outputs.drop_first(),
            ),
            _ => pulled_in(outputs.drop_first()),
        }
    }
}

/// The messages that the caller queues in `ops`, in order.
pub open spec fn enqueued_in(ops: Seq<SessionOp>) -> Seq<MessageView>
    decreases ops.len(),
{
    if ops.len() == 0 {
        Seq::empty()
    } else {
        match ops[0] {
            SessionOp::Enqueue(message) => seq![message] + enqueued_in(ops.drop_first()),
            _ => enqueued_in(ops.drop_first()),
        }
    }
}

/// The messages that the transport delivers in `ops`, in order, as they are
/// queued for the caller.
pub open spec fn delivered_in(ops: Seq<SessionOp>) -> Seq<MessageView>
    decreases ops.len(),
{
    if ops.len() == 0 {
        Seq::empty()
    } else {
        match ops[0] {
            SessionOp::Relay(RelayEventView::Inbound { address, payload, kind }) => seq![
                MessageView { address, payload, kind: Some(kind) },
            ] + delivered_in(ops.drop_first()),
            _ => delivered_in(ops.drop_first()),
        }
    }
}

/// The outbound messages that wait in `s`; none in a session without queues.
pub open spec fn waiting_outbound<T>(s: SocketView<T>) -> Seq<MessageView> {
    match s.outbound {
        Some(waiting) => waiting,
        None => Seq::empty(),
    }
}

/// The inbound messages that wait in `s`; none in a session without queues.
pub open spec fn waiting_inbound<T>(s: SocketView<T>) -> Seq<MessageView> {
    match s.inbound {
        Some(waiting) => waiting,
        None => Seq::empty(),
    }
}

/// 1 if the session awaits the outcome of a send, else 0.
pub open spec fn pending_sends<T>(s: SocketView<T>) -> int {
    if s.in_flight is Some {
        1
    } else {
        0
    }
}

/// Whatever happens to a session, it stays well formed; and once it is not
/// active it never is again.
pub proof fn law_step_keeps_session<T>(s: SocketView<T>, op: SessionOp)
    requires
        s.wf(),
    ensures
        session_step(s, op).0.wf(),
        session_step(s, op).0.active() ==> s.active(),
{
}

/// A session that is not active sends nothing, reports nothing and hands
/// out no message, whatever happens to it.
pub proof fn law_inactive_is_silent<T>(s: SocketView<T>, ops: Seq<SessionOp>)
    requires
        s.wf(),
        !s.active(),
    ensures
        !session_run(s, ops).0.active(),
        sent_in(session_run(s, ops).1).len() == 0,
        reported_in(session_run(s, ops).1).len() == 0,
        pulled_in(session_run(s, ops).1).len() == 0,
    decreases ops.len(),
{
    if ops.len() > 0 {
        let first = session_step(s, ops[0]);
        let rest = session_run(first.0, ops.drop_first());
        law_step_keeps_session(s, ops[0]);
        law_inactive_is_silent(first.0, ops.drop_first());
        assert((seq![first.1] + rest.1).drop_first() =~= rest.1);
    }
}

/// Order preservation, caller to transport. However queuing, relaying,
/// pulling, setting the kind and closing take turns, the sends that the relay
/// asks for are the messages that waited at the start followed by those that
/// the caller queued, from the oldest on, each once and in that order. As long
/// as the session stays active none is lost: what was not yet sent still
/// waits, in order.
pub proof fn law_sends_in_order<T>(s: SocketView<T>, ops: Seq<SessionOp>)
    requires
        s.wf(),
    ensures
        sent_in(session_run(s, ops).1).is_prefix_of(
            targets(waiting_outbound(s) + enqueued_in(ops)),
        ),
        session_run(s, ops).0.active() ==> sent_in(session_run(s, ops).1) + targets(
            waiting_outbound(session_run(s, ops).0),
        ) == targets(waiting_outbound(s) + enqueued_in(ops)),
    decreases ops.len(),
{
    let all = targets(waiting_outbound(s) + enqueued_in(ops));
    if ops.len() == 0 {
        assert(waiting_outbound(s) + enqueued_in(ops) =~= waiting_outbound(s));
        assert(sent_in(session_run(s, ops).1) + targets(waiting_outbound(s)) =~= all);
    } else if !s.active() {
        law_inactive_is_silent(s, ops);
    } else {
        let first = session_step(s, ops[0]);
        let rest = session_run(first.0, ops.drop_first());
        let outputs = seq![first.1] + rest.1;
        law_step_keeps_session(s, ops[0]);
        law_sends_in_order(first.0, ops.drop_first());
        assert(outputs.drop_first() =~= rest.1);
        let later = targets(waiting_outbound(first.0) + enqueued_in(ops.drop_first()));
        let sent_later = sent_in(rest.1);
        assert(sent_later =~= later.subrange(0, sent_later.len() as int));
        if !first.0.active() {
            law_inactive_is_silent(first.0, ops.drop_first());
        } else {
            match first.1 {
                SessionOutput::Action(RelayActionView::Transmit { payload, kind, address }) => {
                    assert(waiting_outbound(first.0) =~= waiting_outbound(s).drop_first());
                    assert(enqueued_in(ops) == enqueued_in(ops.drop_first()));
                    assert(all =~= seq![(address, payload)] + later);
                    assert(sent_in(outputs) =~= all.subrange(0, sent_later.len() as int + 1));
                    if rest.0.active() {
                        assert(sent_in(outputs) + targets(waiting_outbound(rest.0)) =~= seq![
                            (address, payload),
                        ] + (sent_later + targets(waiting_outbound(rest.0))));
                    }
                },
                _ => {
                    assert(waiting_outbound(first.0) + enqueued_in(ops.drop_first())
                        =~= waiting_outbound(s) + enqueued_in(ops));
                },
            }
        }
    }
}

/// Order preservation, transport to caller. However queuing, relaying,
/// pulling, setting the kind and closing take turns, the messages that the
/// caller pulls are those that waited at the start followed by those that the
/// transport delivered, from the oldest on, each once and in that order. As
/// long as the session stays active none is lost: what was not yet pulled
/// still waits, in order.
pub proof fn law_pulls_in_order<T>(s: SocketView<T>, ops: Seq<SessionOp>)
    requires
        s.wf(),
    ensures
        pulled_in(session_run(s, ops).1).is_prefix_of(waiting_inbound(s) + delivered_in(ops)),
        session_run(s, ops).0.active() ==> pulled_in(session_run(s, ops).1) + waiting_inbound(
            session_run(s, ops).0,
        ) == waiting_inbound(s) + delivered_in(ops),
    decreases ops.len(),
{
    let all = waiting_inbound(s) + delivered_in(ops);
    if ops.len() == 0 {
        assert(pulled_in(session_run(s, ops).1) + waiting_inbound(s) =~= all);
    } else if !s.active() {
        law_inactive_is_silent(s, ops);
    } else {
        let first = session_step(s, ops[0]);
        let rest = session_run(first.0, ops.drop_first());
        let outputs = seq![first.1] + rest.1;
        law_step_keeps_session(s, ops[0]);
        law_pulls_in_order(first.0, ops.drop_first());
        assert(outputs.drop_first() =~= rest.1);
        let later = waiting_inbound(first.0) + delivered_in(ops.drop_first());
        let pulled_later = pulled_in(rest.1);
        assert(pulled_later =~= later.subrange(0, pulled_later.len() as int));
        if !first.0.active() {
            law_inactive_is_silent(first.0, ops.drop_first());
        } else {
            match first.1 {
                SessionOutput::Pulled(PullView::Message(message)) => {
                    assert(waiting_inbound(first.0) =~= waiting_inbound(s).drop_first());
                    assert(all =~= seq![message] + later);
                    assert(pulled_in(outputs) =~= all.subrange(0, pulled_later.len() as int + 1));
                    if rest.0.active() {
                        assert(pulled_in(outputs) + waiting_inbound(rest.0) =~= seq![message] + (
                        pulled_later + waiting_inbound(rest.0)));
                    }
                },
                _ => {
                    assert(later =~= all);
                },
            }
        }
    }
}

/// Kind resolution: a message that names a kind is sent with that kind,
/// whatever the session's default.
pub proof fn law_explicit_kind<T>(s: SocketView<T>, kind: MessageKind)
    requires
        s.wf(),
        s.active(),
        s.in_flight is None,
        s.outbound->0.len() > 0,
        s.outbound->0[0].kind == Some(kind),
    ensures
        relay_step(s, RelayEventView::OutboundReady).1 == (RelayActionView::Transmit {
            payload: s.outbound->0[0].payload,
            kind,
            address: s.outbound->0[0].address,
        }),
{
}

/// Kind resolution: a message that names no kind is sent with the default
/// that the session has when the relay takes the message, not the one it had
/// when the message was queued.
pub proof fn law_default_kind_at_send_time<T>(
    s: SocketView<T>,
    message: MessageView,
    later_default: MessageKind,
)
    requires
        s.wf(),
        s.active(),
        s.in_flight is None,
        s.outbound->0.len() == 0,
        message.kind is None,
    ensures
        session_run(
            s,
            seq![
                SessionOp::Enqueue(message),
                SessionOp::SetKind(later_default),
                SessionOp::Relay(RelayEventView::OutboundReady),
            ],
        ).1.last() == SessionOutput::Action(
            RelayActionView::Transmit {
                payload: message.payload,
                kind: later_default,
                address: message.address,
            },
        ),
{
    let ops = seq![
        SessionOp::Enqueue(message),
        SessionOp::SetKind(later_default),
        SessionOp::Relay(RelayEventView::OutboundReady),
    ];
    let s1 = session_step(s, ops[0]).0;
    let s2 = session_step(s1, ops[1]).0;
    let ops1 = ops.drop_first();
    let ops2 = ops1.drop_first();
    assert(ops2.drop_first().len() == 0);
    assert(session_run(s2, ops2).1 =~= seq![session_step(s2, ops[2]).1]) by {
        reveal_with_fuel(session_run, 2);
    }
    assert(session_run(s1, ops1).1 =~= seq![session_step(s1, ops[1]).1] + session_run(s2, ops2).1);
    assert(session_run(s, ops).1 =~= seq![session_step(s, ops[0]).1] + session_run(s1, ops1).1);
}

/// Close semantics: a closed session is well formed, a pull on it returns
/// `Inactive` at once and changes nothing, it takes no message, the relay
/// stops on every event, and a second close changes nothing.
pub proof fn law_close<T>(s: SocketView<T>, event: RelayEventView, message: MessageView)
    ensures
        s.closed().wf(),
        s.closed().pulled() == (s.closed(), PullView::Inactive),
        s.closed().enqueued(message) == s.closed(),
        relay_step(s.closed(), event) == (s.closed(), RelayActionView::Stop),
        s.closed().closed() == s.closed(),
{
}

/// Send failure: when the transport refuses the oldest outbound message of a
/// session that reports failures, the relay asks for exactly one report, which
/// names the target's address; the message is gone from the queue, and
/// another failure without another send brings no second report.
pub proof fn law_send_failure_reported_once<T>(s: SocketView<T>)
    requires
        s.wf(),
        s.active(),
        s.notify,
        s.in_flight is None,
        s.outbound->0.len() > 0,
    ensures
        ({
            let taken = relay_step(s, RelayEventView::OutboundReady);
            let failed = relay_step(taken.0, RelayEventView::SendFailed);
            let again = relay_step(failed.0, RelayEventView::SendFailed);
            &&& taken.1 == transmission(s.outbound->0[0], s.message_type)
            &&& failed.1 == RelayActionView::Report(send_failure(s.outbound->0[0].address))
            &&& failed.0 == (SocketView { outbound: Some(s.outbound->0.drop_first()), ..s })
            &&& again.1 == RelayActionView::Wait
        }),
{
}

/// Every report answers a send of its own: however the caller and the relay
/// take turns, the reports asked for, plus the send still awaiting its
/// outcome at the end, are no more than the sends asked for, plus the send
/// that was awaiting its outcome at the start.
pub proof fn law_reports_bounded_by_sends<T>(s: SocketView<T>, ops: Seq<SessionOp>)
    requires
        s.wf(),
    ensures
        reported_in(session_run(s, ops).1).len() + pending_sends(session_run(s, ops).0) <= sent_in(
            session_run(s, ops).1,
        ).len() + pending_sends(s),
    decreases ops.len(),
{
    if ops.len() > 0 {
        let first = session_step(s, ops[0]);
        let rest = session_run(first.0, ops.drop_first());
        law_step_keeps_session(s, ops[0]);
        law_reports_bounded_by_sends(first.0, ops.drop_first());
        assert((seq![first.1] + rest.1).drop_first() =~= rest.1);
    }
}

} // verus!
