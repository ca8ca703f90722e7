//! A broadcast hub for a chat server: every published message goes to every
//! subscriber that is connected at the time, in one global order, out of a
//! bounded buffer.
//!
//! * [`message`]: the message and the length rule on its short fields.
//! * [`hub`]: the hub, which retains the most recent messages under rising
//!   sequence numbers, and the cursors that read them. A subscriber that
//!   falls too far behind loses messages and nothing else; a publisher never
//!   waits and never fails.
//! * [`stream`]: what one subscriber's event stream does next.
//! * [`server`]: the state a server starts with and its publish endpoint.
//! * [`delivery`]: what holds of every run of publishes and reads.
//!
//! The hub is a plain value. Sharing it between tasks, waiting for the next
//! message and talking to clients are left to the program around it.

pub mod delivery;
pub mod hub;
pub mod message;
pub mod server;
pub mod stream;
