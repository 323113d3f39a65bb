//! The unit that travels through a session's queues.

use vstd::prelude::*;
use crate::address::Address;
use crate::address::AddressView;

verus! {

/// The tag that every payload carries.
#[derive(Clone, Copy, Debug, PartialEq, Eq, Hash, Structural)]
pub enum MessageKind {
    Text,
    Binary,
}

/// A payload together with the peer it comes from or goes to. An outbound
/// message without a kind is sent with the session's default kind.
#[derive(Debug, PartialEq, Eq)]
pub struct Message {
    pub address: Address,
    pub payload: Vec<u8>,
    pub kind: Option<MessageKind>,
}

/// What a [`Message`] stands for in contracts.
pub struct MessageView {
    pub address: AddressView,
    pub payload: Seq<u8>,
    pub kind: Option<MessageKind>,
}

impl View for Message {
    type V = MessageView;

    open spec fn view(&self) -> MessageView {
        MessageView { address: self.address@, payload: self.payload@, kind: self.kind }
    }
}

impl Message {
    /// A message for or from `address`.
    pub fn new(address: Address, payload: Vec<u8>, kind: Option<MessageKind>) -> (r: Message)
        ensures
            r@ == (MessageView { address: address@, payload: payload@, kind }),
    {
        Message { address, payload, kind }
    }
}

} // verus!
