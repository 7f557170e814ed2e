//! The lossy fan-out channels that carry console lines, usage snapshots and
//! operator commands, and the subscriber read-loop decision.

use vstd::prelude::*;

verus! {

#[verifier::external_type_specification]
#[verifier::external_body]
#[verifier::reject_recursive_types(T)]
pub struct ExSender<T>(tokio::sync::broadcast::Sender<T>);

/// Relies on tokio's `broadcast::Sender::send`: the value is written to the
/// channel's ring buffer when at least one receiver is subscribed, and handed
/// back otherwise; the call never blocks or panics. Returns whether a
/// receiver was subscribed at the time of the send — a send with no
/// subscribers is an expected steady state, not a fault.
#[verifier::external_body]
pub(crate) fn send_text(tx: &tokio::sync::broadcast::Sender<String>, line: String) -> (r: bool) {
    tx.send(line).is_ok()
}

/// One outcome of reading a broadcast subscription.
pub enum RecvEvent {
    /// A line arrived.
    Message(String),
    /// The subscriber fell behind and this many messages were dropped for it.
    Lagged(u64),
    /// The producer side is gone; nothing more will arrive.
    Closed,
}

/// What a subscriber's read loop does next.
#[derive(Debug, PartialEq, Eq)]
pub enum SubscriberAction {
    /// Hand this line on to the client.
    Forward(String),
    /// Read again at once.
    KeepGoing,
    /// End the read loop.
    Stop,
}

/// The subscriber read-loop decision: a received line is forwarded, a lag
/// notice only resumes the loop — falling behind never ends a subscription —
/// and only a closed channel ends it.
pub fn subscriber_step(ev: RecvEvent) -> (r: SubscriberAction)
    ensures
        ev matches RecvEvent::Message(line) ==> r == SubscriberAction::Forward(line),
        ev is Lagged ==> r == SubscriberAction::KeepGoing,
        ev is Closed ==> r == SubscriberAction::Stop,
{
    match ev {
        RecvEvent::Message(line) => SubscriberAction::Forward(line),
        RecvEvent::Lagged(_) => SubscriberAction::KeepGoing,
        RecvEvent::Closed => SubscriberAction::Stop,
    }
}

} // verus!
