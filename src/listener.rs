//! The decision of the inbound listener for each thing that happens to it.
//!
//! The caller owns the socket and the loop: it hands each outcome of a
//! receive, or a request to stop, to `listener_step` and performs the action
//! that comes back. A datagram that is not UTF-8 text and a failed receive
//! are both skipped, so that one bad datagram never ends the loop.
use vstd::prelude::*;
use vstd::utf8::{decode_utf8, valid_utf8};

verus! {

/// What happened to the listener.
pub enum ListenerEvent {
    /// A datagram arrived with these bytes.
    Received(Vec<u8>),
    /// The receive call failed.
    ReceiveFailed,
    /// The hosting task asked the loop to stop.
    Cancelled,
}

/// What the listener does next.
pub enum ListenerAction {
    /// Publish this text to the application, then receive again.
    Publish(String),
    /// Receive again without publishing anything.
    Skip,
    /// Leave the loop.
    Stop,
}

/// Relies on `String::from_utf8`: it succeeds exactly on valid UTF-8, and
/// the string then holds the characters that the bytes encode.
#[verifier::external_body]
fn text_of(bytes: Vec<u8>) -> (r: Option<String>)
    ensures
        r is Some <==> valid_utf8(bytes@),
        r matches Some(s) ==> s@ == decode_utf8(bytes@),
{
    String::from_utf8(bytes).ok()
}

/// The listener's action on `event`: publish the text of a datagram that is
/// valid UTF-8, skip any other datagram and any failed receive, and stop
/// only when asked to.
pub fn listener_step(event: ListenerEvent) -> (r: ListenerAction)
    ensures
        match event {
            ListenerEvent::Received(bytes) => if valid_utf8(bytes@) {
                r matches ListenerAction::Publish(s) && s@ == decode_utf8(bytes@)
            } else {
                r is Skip
            },
            ListenerEvent::ReceiveFailed => r is Skip,
            ListenerEvent::Cancelled => r is Stop,
        },
{
    match event {
        ListenerEvent::Received(bytes) => match text_of(bytes) {
            Some(s) => ListenerAction::Publish(s),
            None => ListenerAction::Skip,
        },
        ListenerEvent::ReceiveFailed => ListenerAction::Skip,
        ListenerEvent::Cancelled => ListenerAction::Stop,
    }
}

} // verus!
