//! The core of a gossip node for one protocol fork: which topics it joins,
//! how it names a message, and what it does with each event of a session.
//!
//! The network itself (transports, discovery, the event stream) is driven by
//! the program around this library. The library decides, and makes the plain
//! calls into the pubsub router that those decisions ask for.

pub mod error;
pub mod fork;
pub mod message;
pub mod router;
pub mod session;
pub mod text;
pub mod topic;
