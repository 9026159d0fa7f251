//! Bridges named facial-animation weights to an OSC consumer over UDP.
//!
//! The library holds the decisions and the wire format: the single-slot
//! connection cache keyed by destination port, the OSC framing of one
//! float-carrying message per channel, the plan of datagrams for one batch,
//! and the step of the inbound listener. Sockets and tasks live with the
//! caller, which performs what the library decides.
pub mod connection;
pub mod forward;
pub mod listener;
pub mod osc;

pub use connection::{Connection, ConnectionManager};
pub use forward::{BlendshapeData, Channel, Datagram, Endpoint, ForwardError, channel_address, loopback, plan_batch, send_error};
pub use listener::{ListenerAction, ListenerEvent, listener_step};
pub use osc::encode_float_message;
