//! A relay between an external caller and the peers of an unreliable,
//! message-typed datagram transport.
//!
//! A [`Socket`] owns two message queues and the handle of one bound transport.
//! Its relay step decides, for every event of the transport and of the caller,
//! what happens next; the code that performs the network calls lives outside
//! this crate and feeds the outcomes back in.

pub mod address;
pub mod boundary;
pub mod executor;
pub mod laws;
pub mod message;
pub mod queue;
pub mod relay;
pub mod socket;
pub mod text;
pub mod urls;
pub mod util;
